//! The computed-style adapter: converts the selector-matching
//! collaborator's raw per-property hints into the typed value
//! representation, one conversion per property family. A hint outside the
//! CSS 2.1 subset covered here is a coverage gap of the engine and is ruled
//! out by precondition rather than mapped to a guessed value.

use vstd::prelude::*;
use crate::color::Color;
use crate::fixed::{Fixed, round_div};
use crate::hint::{
    CssBorderStyleValue, CssBorderWidthValue, CssClearValue, CssColor, CssColorValue,
    CssComputedStyle, CssDisplayValue, CssFloatValue, CssFontFamilyValue, CssFontSizeValue,
    CssFontStyleValue, CssFontWeightValue, CssHeightValue, CssLineHeightValue, CssMarginValue,
    CssPaddingValue, CssPositionValue, CssTextAlignValue, CssTextDecorationValue, CssUnit,
    CssVerticalAlignValue, CssWidthValue, FontFamilyHint, border_width_supported, copy_font_family,
    display_supported, text_align_supported,
};
use crate::units::{AbsoluteSize, GenericFontFamily, Length, RelativeSize};
use crate::values::{
    CSSBorderStyle, CSSBorderWidth, CSSClear, CSSDisplay, CSSFloat, CSSFontFamily, CSSFontSize,
    CSSFontStyle, CSSFontWeight, CSSHeight, CSSLineHeight, CSSMargin, CSSPadding, CSSPosition,
    CSSTextAlign, CSSTextDecoration, CSSValue, CSSVerticalAlign, CSSWidth,
};

verus! {

/// What a native dimension converts to: pixel, em and point units become
/// lengths; a percentage stays a bare scalar in percent terms.
#[derive(Clone, Copy, PartialEq, Eq, Structural, Debug)]
pub enum LengthOrPercent {
    Len(Length),
    Percent(Fixed),
}

/// The conversion of a native dimension.
pub open spec fn spec_unit_value(u: CssUnit) -> LengthOrPercent {
    match u {
        CssUnit::CssUnitPx(x) => LengthOrPercent::Len(Length::Px(x)),
        CssUnit::CssUnitEm(x) => LengthOrPercent::Len(Length::Em(x)),
        CssUnit::CssUnitPt(x) => LengthOrPercent::Len(Length::Pt(x)),
        CssUnit::CssUnitPct(p) => LengthOrPercent::Percent(p),
    }
}

/// Converts a native dimension to a length or a percentage.
pub fn convert_net_unit_to_length_or_percent(u: CssUnit) -> (r: LengthOrPercent)
    ensures
        r == spec_unit_value(u),
{
    match u {
        CssUnit::CssUnitPx(x) => LengthOrPercent::Len(Length::Px(x)),
        CssUnit::CssUnitEm(x) => LengthOrPercent::Len(Length::Em(x)),
        CssUnit::CssUnitPt(x) => LengthOrPercent::Len(Length::Pt(x)),
        CssUnit::CssUnitPct(p) => LengthOrPercent::Percent(p),
    }
}

/// Converts a native dimension that must be a length. Asking a length of a
/// percentage dimension is a programming error, ruled out by precondition.
pub fn convert_net_unit_to_length(u: CssUnit) -> (r: Length)
    requires
        !(u is CssUnitPct),
    ensures
        spec_unit_value(u) == LengthOrPercent::Len(r),
{
    match u {
        CssUnit::CssUnitPx(x) => Length::Px(x),
        CssUnit::CssUnitEm(x) => Length::Em(x),
        CssUnit::CssUnitPt(x) => Length::Pt(x),
        // ruled out by the precondition
        CssUnit::CssUnitPct(p) => Length::Px(p),
    }
}

/// The conversion of a native color: the alpha byte becomes a scalar in
/// `[0, 1]`, rounded to the nearest micro unit.
pub open spec fn spec_convert_color(c: CssColor) -> Color {
    Color {
        red: c.r,
        green: c.g,
        blue: c.b,
        alpha: Fixed { micro: round_div(c.a * 1_000_000, 255) as i64 },
    }
}

/// Converts a native color.
pub fn convert_net_color(c: CssColor) -> (r: Color)
    ensures
        r == spec_convert_color(c),
{
    let am: u32 = ((c.a as u32) * 1_000_000 + 127) / 255;
    crate::color::rgba(c.r, c.g, c.b, Fixed::of_micro(am as i64))
}

/// The conversion of a color hint.
pub open spec fn spec_convert_color_value(v: CssColorValue) -> CSSValue<Color> {
    match v {
        CssColorValue::CssColorInherit => CSSValue::Inherit,
        CssColorValue::CssColorColor(c) => CSSValue::Specified(spec_convert_color(c)),
    }
}

/// Converts a color hint.
pub fn convert_net_color_value(v: CssColorValue) -> (r: CSSValue<Color>)
    ensures
        r == spec_convert_color_value(v),
{
    match v {
        CssColorValue::CssColorInherit => CSSValue::Inherit,
        CssColorValue::CssColorColor(c) => CSSValue::Specified(convert_net_color(c)),
    }
}

/// The conversion of a margin hint.
pub open spec fn spec_convert_margin(v: CssMarginValue) -> CSSValue<CSSMargin> {
    match v {
        CssMarginValue::CssMarginInherit => CSSValue::Inherit,
        CssMarginValue::CssMarginSet(u) => CSSValue::Specified(
            match spec_unit_value(u) {
                LengthOrPercent::Len(l) => CSSMargin::CSSMarginLength(l),
                LengthOrPercent::Percent(p) => CSSMargin::CSSMarginPercentage(p),
            },
        ),
        CssMarginValue::CssMarginAuto => CSSValue::Specified(CSSMargin::CSSMarginAuto),
    }
}

/// Converts a margin hint.
pub fn convert_net_margin(v: CssMarginValue) -> (r: CSSValue<CSSMargin>)
    ensures
        r == spec_convert_margin(v),
{
    match v {
        CssMarginValue::CssMarginInherit => CSSValue::Inherit,
        CssMarginValue::CssMarginSet(u) => CSSValue::Specified(
            match convert_net_unit_to_length_or_percent(u) {
                LengthOrPercent::Len(l) => CSSMargin::CSSMarginLength(l),
                LengthOrPercent::Percent(p) => CSSMargin::CSSMarginPercentage(p),
            },
        ),
        CssMarginValue::CssMarginAuto => CSSValue::Specified(CSSMargin::CSSMarginAuto),
    }
}

/// The conversion of a padding hint.
pub open spec fn spec_convert_padding(v: CssPaddingValue) -> CSSValue<CSSPadding> {
    match v {
        CssPaddingValue::CssPaddingInherit => CSSValue::Inherit,
        CssPaddingValue::CssPaddingSet(u) => CSSValue::Specified(
            match spec_unit_value(u) {
                LengthOrPercent::Len(l) => CSSPadding::CSSPaddingLength(l),
                LengthOrPercent::Percent(p) => CSSPadding::CSSPaddingPercentage(p),
            },
        ),
    }
}

/// Converts a padding hint.
pub fn convert_net_padding(v: CssPaddingValue) -> (r: CSSValue<CSSPadding>)
    ensures
        r == spec_convert_padding(v),
{
    match v {
        CssPaddingValue::CssPaddingInherit => CSSValue::Inherit,
        CssPaddingValue::CssPaddingSet(u) => CSSValue::Specified(
            match convert_net_unit_to_length_or_percent(u) {
                LengthOrPercent::Len(l) => CSSPadding::CSSPaddingLength(l),
                LengthOrPercent::Percent(p) => CSSPadding::CSSPaddingPercentage(p),
            },
        ),
    }
}

/// The conversion of a border-width hint. An explicit width is a length;
/// the percentage arm is unreachable under `border_width_supported`.
pub open spec fn spec_convert_border_width(v: CssBorderWidthValue) -> CSSValue<CSSBorderWidth> {
    match v {
        CssBorderWidthValue::CssBorderWidthInherit => CSSValue::Inherit,
        CssBorderWidthValue::CssBorderWidthThin => CSSValue::Specified(
            CSSBorderWidth::CSSBorderWidthThin,
        ),
        CssBorderWidthValue::CssBorderWidthMedium => CSSValue::Specified(
            CSSBorderWidth::CSSBorderWidthMedium,
        ),
        CssBorderWidthValue::CssBorderWidthThick => CSSValue::Specified(
            CSSBorderWidth::CSSBorderWidthThick,
        ),
        CssBorderWidthValue::CssBorderWidthWidth(u) => CSSValue::Specified(
            match spec_unit_value(u) {
                LengthOrPercent::Len(l) => CSSBorderWidth::CSSBorderWidthLength(l),
                LengthOrPercent::Percent(_) => CSSBorderWidth::CSSBorderWidthMedium,
            },
        ),
    }
}

/// Converts a border-width hint.
pub fn convert_net_border_width(v: CssBorderWidthValue) -> (r: CSSValue<CSSBorderWidth>)
    requires
        border_width_supported(v),
    ensures
        r == spec_convert_border_width(v),
{
    match v {
        CssBorderWidthValue::CssBorderWidthInherit => CSSValue::Inherit,
        CssBorderWidthValue::CssBorderWidthThin => CSSValue::Specified(
            CSSBorderWidth::CSSBorderWidthThin,
        ),
        CssBorderWidthValue::CssBorderWidthMedium => CSSValue::Specified(
            CSSBorderWidth::CSSBorderWidthMedium,
        ),
        CssBorderWidthValue::CssBorderWidthThick => CSSValue::Specified(
            CSSBorderWidth::CSSBorderWidthThick,
        ),
        CssBorderWidthValue::CssBorderWidthWidth(u) => CSSValue::Specified(
            CSSBorderWidth::CSSBorderWidthLength(convert_net_unit_to_length(u)),
        ),
    }
}

/// The conversion of a border-style hint.
pub open spec fn spec_convert_border_style(v: CssBorderStyleValue) -> CSSValue<CSSBorderStyle> {
    match v {
        CssBorderStyleValue::CssBorderStyleInherit => CSSValue::Inherit,
        CssBorderStyleValue::CssBorderStyleNone => CSSValue::Specified(
            CSSBorderStyle::CSSBorderStyleNone,
        ),
        CssBorderStyleValue::CssBorderStyleHidden => CSSValue::Specified(
            CSSBorderStyle::CSSBorderStyleHidden,
        ),
        CssBorderStyleValue::CssBorderStyleDotted => CSSValue::Specified(
            CSSBorderStyle::CSSBorderStyleDotted,
        ),
        CssBorderStyleValue::CssBorderStyleDashed => CSSValue::Specified(
            CSSBorderStyle::CSSBorderStyleDashed,
        ),
        CssBorderStyleValue::CssBorderStyleSolid => CSSValue::Specified(
            CSSBorderStyle::CSSBorderStyleSolid,
        ),
        CssBorderStyleValue::CssBorderStyleDouble => CSSValue::Specified(
            CSSBorderStyle::CSSBorderStyleDouble,
        ),
        CssBorderStyleValue::CssBorderStyleGroove => CSSValue::Specified(
            CSSBorderStyle::CSSBorderStyleGroove,
        ),
        CssBorderStyleValue::CssBorderStyleRidge => CSSValue::Specified(
            CSSBorderStyle::CSSBorderStyleRidge,
        ),
        CssBorderStyleValue::CssBorderStyleInset => CSSValue::Specified(
            CSSBorderStyle::CSSBorderStyleInset,
        ),
        CssBorderStyleValue::CssBorderStyleOutset => CSSValue::Specified(
            CSSBorderStyle::CSSBorderStyleOutset,
        ),
    }
}

/// Converts a border-style hint.
pub fn convert_net_border_style(v: CssBorderStyleValue) -> (r: CSSValue<CSSBorderStyle>)
    ensures
        r == spec_convert_border_style(v),
{
    match v {
        CssBorderStyleValue::CssBorderStyleInherit => CSSValue::Inherit,
        CssBorderStyleValue::CssBorderStyleNone => CSSValue::Specified(
            CSSBorderStyle::CSSBorderStyleNone,
        ),
        CssBorderStyleValue::CssBorderStyleHidden => CSSValue::Specified(
            CSSBorderStyle::CSSBorderStyleHidden,
        ),
        CssBorderStyleValue::CssBorderStyleDotted => CSSValue::Specified(
            CSSBorderStyle::CSSBorderStyleDotted,
        ),
        CssBorderStyleValue::CssBorderStyleDashed => CSSValue::Specified(
            CSSBorderStyle::CSSBorderStyleDashed,
        ),
        CssBorderStyleValue::CssBorderStyleSolid => CSSValue::Specified(
            CSSBorderStyle::CSSBorderStyleSolid,
        ),
        CssBorderStyleValue::CssBorderStyleDouble => CSSValue::Specified(
            CSSBorderStyle::CSSBorderStyleDouble,
        ),
        CssBorderStyleValue::CssBorderStyleGroove => CSSValue::Specified(
            CSSBorderStyle::CSSBorderStyleGroove,
        ),
        CssBorderStyleValue::CssBorderStyleRidge => CSSValue::Specified(
            CSSBorderStyle::CSSBorderStyleRidge,
        ),
        CssBorderStyleValue::CssBorderStyleInset => CSSValue::Specified(
            CSSBorderStyle::CSSBorderStyleInset,
        ),
        CssBorderStyleValue::CssBorderStyleOutset => CSSValue::Specified(
            CSSBorderStyle::CSSBorderStyleOutset,
        ),
    }
}

/// The conversion of a display hint. `run-in` has no CSS 2.1 equivalent; it is ruled out by
/// precondition, and the spec's arm for it is never reached.
pub open spec fn spec_convert_display(v: CssDisplayValue) -> CSSValue<CSSDisplay> {
    match v {
        CssDisplayValue::CssDisplayInherit => CSSValue::Inherit,
        CssDisplayValue::CssDisplayInline => CSSValue::Specified(CSSDisplay::CSSDisplayInline),
        CssDisplayValue::CssDisplayBlock => CSSValue::Specified(CSSDisplay::CSSDisplayBlock),
        CssDisplayValue::CssDisplayListItem => CSSValue::Specified(CSSDisplay::CSSDisplayListItem),
        CssDisplayValue::CssDisplayRunIn => CSSValue::Inherit,
        CssDisplayValue::CssDisplayInlineBlock => CSSValue::Specified(CSSDisplay::CSSDisplayInlineBlock),
        CssDisplayValue::CssDisplayTable => CSSValue::Specified(CSSDisplay::CSSDisplayTable),
        CssDisplayValue::CssDisplayInlineTable => CSSValue::Specified(CSSDisplay::CSSDisplayInlineTable),
        CssDisplayValue::CssDisplayTableRowGroup => CSSValue::Specified(CSSDisplay::CSSDisplayTableRowGroup),
        CssDisplayValue::CssDisplayTableHeaderGroup => CSSValue::Specified(CSSDisplay::CSSDisplayTableHeaderGroup),
        CssDisplayValue::CssDisplayTableFooterGroup => CSSValue::Specified(CSSDisplay::CSSDisplayTableFooterGroup),
        CssDisplayValue::CssDisplayTableRow => CSSValue::Specified(CSSDisplay::CSSDisplayTableRow),
        CssDisplayValue::CssDisplayTableColumnGroup => CSSValue::Specified(CSSDisplay::CSSDisplayTableColumnGroup),
        CssDisplayValue::CssDisplayTableColumn => CSSValue::Specified(CSSDisplay::CSSDisplayTableColumn),
        CssDisplayValue::CssDisplayTableCell => CSSValue::Specified(CSSDisplay::CSSDisplayTableCell),
        CssDisplayValue::CssDisplayTableCaption => CSSValue::Specified(CSSDisplay::CSSDisplayTableCaption),
        CssDisplayValue::CssDisplayNone => CSSValue::Specified(CSSDisplay::CSSDisplayNone),
    }
}

/// Converts a display hint.
pub fn convert_net_display_value(v: CssDisplayValue) -> (r: CSSValue<CSSDisplay>)
    requires
        display_supported(v),
    ensures
        r == spec_convert_display(v),
{
    match v {
        CssDisplayValue::CssDisplayInherit => CSSValue::Inherit,
        CssDisplayValue::CssDisplayInline => CSSValue::Specified(CSSDisplay::CSSDisplayInline),
        CssDisplayValue::CssDisplayBlock => CSSValue::Specified(CSSDisplay::CSSDisplayBlock),
        CssDisplayValue::CssDisplayListItem => CSSValue::Specified(CSSDisplay::CSSDisplayListItem),
        CssDisplayValue::CssDisplayRunIn => CSSValue::Inherit,
        CssDisplayValue::CssDisplayInlineBlock => CSSValue::Specified(CSSDisplay::CSSDisplayInlineBlock),
        CssDisplayValue::CssDisplayTable => CSSValue::Specified(CSSDisplay::CSSDisplayTable),
        CssDisplayValue::CssDisplayInlineTable => CSSValue::Specified(CSSDisplay::CSSDisplayInlineTable),
        CssDisplayValue::CssDisplayTableRowGroup => CSSValue::Specified(CSSDisplay::CSSDisplayTableRowGroup),
        CssDisplayValue::CssDisplayTableHeaderGroup => CSSValue::Specified(CSSDisplay::CSSDisplayTableHeaderGroup),
        CssDisplayValue::CssDisplayTableFooterGroup => CSSValue::Specified(CSSDisplay::CSSDisplayTableFooterGroup),
        CssDisplayValue::CssDisplayTableRow => CSSValue::Specified(CSSDisplay::CSSDisplayTableRow),
        CssDisplayValue::CssDisplayTableColumnGroup => CSSValue::Specified(CSSDisplay::CSSDisplayTableColumnGroup),
        CssDisplayValue::CssDisplayTableColumn => CSSValue::Specified(CSSDisplay::CSSDisplayTableColumn),
        CssDisplayValue::CssDisplayTableCell => CSSValue::Specified(CSSDisplay::CSSDisplayTableCell),
        CssDisplayValue::CssDisplayTableCaption => CSSValue::Specified(CSSDisplay::CSSDisplayTableCaption),
        CssDisplayValue::CssDisplayNone => CSSValue::Specified(CSSDisplay::CSSDisplayNone),
    }
}

/// The conversion of a float hint.
pub open spec fn spec_convert_float(v: CssFloatValue) -> CSSValue<CSSFloat> {
    match v {
        CssFloatValue::CssFloatInherit => CSSValue::Inherit,
        CssFloatValue::CssFloatLeft => CSSValue::Specified(CSSFloat::CSSFloatLeft),
        CssFloatValue::CssFloatRight => CSSValue::Specified(CSSFloat::CSSFloatRight),
        CssFloatValue::CssFloatNone => CSSValue::Specified(CSSFloat::CSSFloatNone),
    }
}

/// Converts a float hint.
pub fn convert_net_float_value(v: CssFloatValue) -> (r: CSSValue<CSSFloat>)
    ensures
        r == spec_convert_float(v),
{
    match v {
        CssFloatValue::CssFloatInherit => CSSValue::Inherit,
        CssFloatValue::CssFloatLeft => CSSValue::Specified(CSSFloat::CSSFloatLeft),
        CssFloatValue::CssFloatRight => CSSValue::Specified(CSSFloat::CSSFloatRight),
        CssFloatValue::CssFloatNone => CSSValue::Specified(CSSFloat::CSSFloatNone),
    }
}

/// The conversion of a clear hint.
pub open spec fn spec_convert_clear(v: CssClearValue) -> CSSValue<CSSClear> {
    match v {
        CssClearValue::CssClearInherit => CSSValue::Inherit,
        CssClearValue::CssClearNone => CSSValue::Specified(CSSClear::CSSClearNone),
        CssClearValue::CssClearLeft => CSSValue::Specified(CSSClear::CSSClearLeft),
        CssClearValue::CssClearRight => CSSValue::Specified(CSSClear::CSSClearRight),
        CssClearValue::CssClearBoth => CSSValue::Specified(CSSClear::CSSClearBoth),
    }
}

/// Converts a clear hint.
pub fn convert_net_clear_value(v: CssClearValue) -> (r: CSSValue<CSSClear>)
    ensures
        r == spec_convert_clear(v),
{
    match v {
        CssClearValue::CssClearInherit => CSSValue::Inherit,
        CssClearValue::CssClearNone => CSSValue::Specified(CSSClear::CSSClearNone),
        CssClearValue::CssClearLeft => CSSValue::Specified(CSSClear::CSSClearLeft),
        CssClearValue::CssClearRight => CSSValue::Specified(CSSClear::CSSClearRight),
        CssClearValue::CssClearBoth => CSSValue::Specified(CSSClear::CSSClearBoth),
    }
}

/// The conversion of a position hint.
pub open spec fn spec_convert_position(v: CssPositionValue) -> CSSValue<CSSPosition> {
    match v {
        CssPositionValue::CssPositionInherit => CSSValue::Inherit,
        CssPositionValue::CssPositionStatic => CSSValue::Specified(CSSPosition::CSSPositionStatic),
        CssPositionValue::CssPositionRelative => CSSValue::Specified(CSSPosition::CSSPositionRelative),
        CssPositionValue::CssPositionAbsolute => CSSValue::Specified(CSSPosition::CSSPositionAbsolute),
        CssPositionValue::CssPositionFixed => CSSValue::Specified(CSSPosition::CSSPositionFixed),
    }
}

/// Converts a position hint.
pub fn convert_net_position_value(v: CssPositionValue) -> (r: CSSValue<CSSPosition>)
    ensures
        r == spec_convert_position(v),
{
    match v {
        CssPositionValue::CssPositionInherit => CSSValue::Inherit,
        CssPositionValue::CssPositionStatic => CSSValue::Specified(CSSPosition::CSSPositionStatic),
        CssPositionValue::CssPositionRelative => CSSValue::Specified(CSSPosition::CSSPositionRelative),
        CssPositionValue::CssPositionAbsolute => CSSValue::Specified(CSSPosition::CSSPositionAbsolute),
        CssPositionValue::CssPositionFixed => CSSValue::Specified(CSSPosition::CSSPositionFixed),
    }
}

/// The conversion of a font_style hint.
pub open spec fn spec_convert_font_style(v: CssFontStyleValue) -> CSSValue<CSSFontStyle> {
    match v {
        CssFontStyleValue::CssFontStyleInherit => CSSValue::Inherit,
        CssFontStyleValue::CssFontStyleNormal => CSSValue::Specified(CSSFontStyle::CSSFontStyleNormal),
        CssFontStyleValue::CssFontStyleItalic => CSSValue::Specified(CSSFontStyle::CSSFontStyleItalic),
        CssFontStyleValue::CssFontStyleOblique => CSSValue::Specified(CSSFontStyle::CSSFontStyleOblique),
    }
}

/// Converts a font_style hint.
pub fn convert_net_font_style_value(v: CssFontStyleValue) -> (r: CSSValue<CSSFontStyle>)
    ensures
        r == spec_convert_font_style(v),
{
    match v {
        CssFontStyleValue::CssFontStyleInherit => CSSValue::Inherit,
        CssFontStyleValue::CssFontStyleNormal => CSSValue::Specified(CSSFontStyle::CSSFontStyleNormal),
        CssFontStyleValue::CssFontStyleItalic => CSSValue::Specified(CSSFontStyle::CSSFontStyleItalic),
        CssFontStyleValue::CssFontStyleOblique => CSSValue::Specified(CSSFontStyle::CSSFontStyleOblique),
    }
}

/// The conversion of a font_weight hint.
pub open spec fn spec_convert_font_weight(v: CssFontWeightValue) -> CSSValue<CSSFontWeight> {
    match v {
        CssFontWeightValue::CssFontWeightInherit => CSSValue::Inherit,
        CssFontWeightValue::CssFontWeightNormal => CSSValue::Specified(CSSFontWeight::CSSFontWeightNormal),
        CssFontWeightValue::CssFontWeightBold => CSSValue::Specified(CSSFontWeight::CSSFontWeightBold),
        CssFontWeightValue::CssFontWeightBolder => CSSValue::Specified(CSSFontWeight::CSSFontWeightBolder),
        CssFontWeightValue::CssFontWeightLighter => CSSValue::Specified(CSSFontWeight::CSSFontWeightLighter),
        CssFontWeightValue::CssFontWeight100 => CSSValue::Specified(CSSFontWeight::CSSFontWeight100),
        CssFontWeightValue::CssFontWeight200 => CSSValue::Specified(CSSFontWeight::CSSFontWeight200),
        CssFontWeightValue::CssFontWeight300 => CSSValue::Specified(CSSFontWeight::CSSFontWeight300),
        CssFontWeightValue::CssFontWeight400 => CSSValue::Specified(CSSFontWeight::CSSFontWeight400),
        CssFontWeightValue::CssFontWeight500 => CSSValue::Specified(CSSFontWeight::CSSFontWeight500),
        CssFontWeightValue::CssFontWeight600 => CSSValue::Specified(CSSFontWeight::CSSFontWeight600),
        CssFontWeightValue::CssFontWeight700 => CSSValue::Specified(CSSFontWeight::CSSFontWeight700),
        CssFontWeightValue::CssFontWeight800 => CSSValue::Specified(CSSFontWeight::CSSFontWeight800),
        CssFontWeightValue::CssFontWeight900 => CSSValue::Specified(CSSFontWeight::CSSFontWeight900),
    }
}

/// Converts a font_weight hint.
pub fn convert_net_font_weight_value(v: CssFontWeightValue) -> (r: CSSValue<CSSFontWeight>)
    ensures
        r == spec_convert_font_weight(v),
{
    match v {
        CssFontWeightValue::CssFontWeightInherit => CSSValue::Inherit,
        CssFontWeightValue::CssFontWeightNormal => CSSValue::Specified(CSSFontWeight::CSSFontWeightNormal),
        CssFontWeightValue::CssFontWeightBold => CSSValue::Specified(CSSFontWeight::CSSFontWeightBold),
        CssFontWeightValue::CssFontWeightBolder => CSSValue::Specified(CSSFontWeight::CSSFontWeightBolder),
        CssFontWeightValue::CssFontWeightLighter => CSSValue::Specified(CSSFontWeight::CSSFontWeightLighter),
        CssFontWeightValue::CssFontWeight100 => CSSValue::Specified(CSSFontWeight::CSSFontWeight100),
        CssFontWeightValue::CssFontWeight200 => CSSValue::Specified(CSSFontWeight::CSSFontWeight200),
        CssFontWeightValue::CssFontWeight300 => CSSValue::Specified(CSSFontWeight::CSSFontWeight300),
        CssFontWeightValue::CssFontWeight400 => CSSValue::Specified(CSSFontWeight::CSSFontWeight400),
        CssFontWeightValue::CssFontWeight500 => CSSValue::Specified(CSSFontWeight::CSSFontWeight500),
        CssFontWeightValue::CssFontWeight600 => CSSValue::Specified(CSSFontWeight::CSSFontWeight600),
        CssFontWeightValue::CssFontWeight700 => CSSValue::Specified(CSSFontWeight::CSSFontWeight700),
        CssFontWeightValue::CssFontWeight800 => CSSValue::Specified(CSSFontWeight::CSSFontWeight800),
        CssFontWeightValue::CssFontWeight900 => CSSValue::Specified(CSSFontWeight::CSSFontWeight900),
    }
}

/// The conversion of a text_align hint. The engine-internal magic variants have no CSS 2.1
/// equivalent and are ruled out by precondition; the written default maps
/// to left.
pub open spec fn spec_convert_text_align(v: CssTextAlignValue) -> CSSValue<CSSTextAlign> {
    match v {
        CssTextAlignValue::CssTextAlignInherit => CSSValue::Inherit,
        CssTextAlignValue::CssTextAlignInheritIfNonMagic => CSSValue::Inherit,
        CssTextAlignValue::CssTextAlignLeft => CSSValue::Specified(CSSTextAlign::CSSTextAlignLeft),
        CssTextAlignValue::CssTextAlignRight => CSSValue::Specified(CSSTextAlign::CSSTextAlignRight),
        CssTextAlignValue::CssTextAlignCenter => CSSValue::Specified(CSSTextAlign::CSSTextAlignCenter),
        CssTextAlignValue::CssTextAlignJustify => CSSValue::Specified(CSSTextAlign::CSSTextAlignJustify),
        CssTextAlignValue::CssTextAlignDefault => CSSValue::Specified(CSSTextAlign::CSSTextAlignLeft),
        CssTextAlignValue::CssTextAlignLibcssLeft => CSSValue::Inherit,
        CssTextAlignValue::CssTextAlignLibcssCenter => CSSValue::Inherit,
        CssTextAlignValue::CssTextAlignLibcssRight => CSSValue::Inherit,
    }
}

/// Converts a text_align hint.
pub fn convert_net_text_align_value(v: CssTextAlignValue) -> (r: CSSValue<CSSTextAlign>)
    requires
        text_align_supported(v),
    ensures
        r == spec_convert_text_align(v),
{
    match v {
        CssTextAlignValue::CssTextAlignInherit => CSSValue::Inherit,
        CssTextAlignValue::CssTextAlignInheritIfNonMagic => CSSValue::Inherit,
        CssTextAlignValue::CssTextAlignLeft => CSSValue::Specified(CSSTextAlign::CSSTextAlignLeft),
        CssTextAlignValue::CssTextAlignRight => CSSValue::Specified(CSSTextAlign::CSSTextAlignRight),
        CssTextAlignValue::CssTextAlignCenter => CSSValue::Specified(CSSTextAlign::CSSTextAlignCenter),
        CssTextAlignValue::CssTextAlignJustify => CSSValue::Specified(CSSTextAlign::CSSTextAlignJustify),
        CssTextAlignValue::CssTextAlignDefault => CSSValue::Specified(CSSTextAlign::CSSTextAlignLeft),
        CssTextAlignValue::CssTextAlignLibcssLeft => CSSValue::Inherit,
        CssTextAlignValue::CssTextAlignLibcssCenter => CSSValue::Inherit,
        CssTextAlignValue::CssTextAlignLibcssRight => CSSValue::Inherit,
    }
}

/// The conversion of a text_decoration hint.
pub open spec fn spec_convert_text_decoration(v: CssTextDecorationValue) -> CSSValue<CSSTextDecoration> {
    match v {
        CssTextDecorationValue::CssTextDecorationInherit => CSSValue::Inherit,
        CssTextDecorationValue::CssTextDecorationNone => CSSValue::Specified(CSSTextDecoration::CSSTextDecorationNone),
        CssTextDecorationValue::CssTextDecorationBlink => CSSValue::Specified(CSSTextDecoration::CSSTextDecorationBlink),
        CssTextDecorationValue::CssTextDecorationLineThrough => CSSValue::Specified(CSSTextDecoration::CSSTextDecorationLineThrough),
        CssTextDecorationValue::CssTextDecorationOverline => CSSValue::Specified(CSSTextDecoration::CSSTextDecorationOverline),
        CssTextDecorationValue::CssTextDecorationUnderline => CSSValue::Specified(CSSTextDecoration::CSSTextDecorationUnderline),
    }
}

/// Converts a text_decoration hint.
pub fn convert_net_text_decoration_value(v: CssTextDecorationValue) -> (r: CSSValue<CSSTextDecoration>)
    ensures
        r == spec_convert_text_decoration(v),
{
    match v {
        CssTextDecorationValue::CssTextDecorationInherit => CSSValue::Inherit,
        CssTextDecorationValue::CssTextDecorationNone => CSSValue::Specified(CSSTextDecoration::CSSTextDecorationNone),
        CssTextDecorationValue::CssTextDecorationBlink => CSSValue::Specified(CSSTextDecoration::CSSTextDecorationBlink),
        CssTextDecorationValue::CssTextDecorationLineThrough => CSSValue::Specified(CSSTextDecoration::CSSTextDecorationLineThrough),
        CssTextDecorationValue::CssTextDecorationOverline => CSSValue::Specified(CSSTextDecoration::CSSTextDecorationOverline),
        CssTextDecorationValue::CssTextDecorationUnderline => CSSValue::Specified(CSSTextDecoration::CSSTextDecorationUnderline),
    }
}

/// The conversion of a width hint.
pub open spec fn spec_convert_width(v: CssWidthValue) -> CSSValue<CSSWidth> {
    match v {
        CssWidthValue::CssWidthInherit => CSSValue::Inherit,
        CssWidthValue::CssWidthSet(u) => CSSValue::Specified(
            match spec_unit_value(u) {
                LengthOrPercent::Len(l) => CSSWidth::CSSWidthLength(l),
                LengthOrPercent::Percent(p) => CSSWidth::CSSWidthPercentage(p),
            },
        ),
        CssWidthValue::CssWidthAuto => CSSValue::Specified(CSSWidth::CSSWidthAuto),
    }
}

/// Converts a width hint.
pub fn convert_net_width_value(v: CssWidthValue) -> (r: CSSValue<CSSWidth>)
    ensures
        r == spec_convert_width(v),
{
    match v {
        CssWidthValue::CssWidthInherit => CSSValue::Inherit,
        CssWidthValue::CssWidthSet(u) => CSSValue::Specified(
            match convert_net_unit_to_length_or_percent(u) {
                LengthOrPercent::Len(l) => CSSWidth::CSSWidthLength(l),
                LengthOrPercent::Percent(p) => CSSWidth::CSSWidthPercentage(p),
            },
        ),
        CssWidthValue::CssWidthAuto => CSSValue::Specified(CSSWidth::CSSWidthAuto),
    }
}

/// The conversion of a height hint.
pub open spec fn spec_convert_height(v: CssHeightValue) -> CSSValue<CSSHeight> {
    match v {
        CssHeightValue::CssHeightInherit => CSSValue::Inherit,
        CssHeightValue::CssHeightSet(u) => CSSValue::Specified(
            match spec_unit_value(u) {
                LengthOrPercent::Len(l) => CSSHeight::CSSHeightLength(l),
                LengthOrPercent::Percent(p) => CSSHeight::CSSHeightPercentage(p),
            },
        ),
        CssHeightValue::CssHeightAuto => CSSValue::Specified(CSSHeight::CSSHeightAuto),
    }
}

/// Converts a height hint.
pub fn convert_net_height_value(v: CssHeightValue) -> (r: CSSValue<CSSHeight>)
    ensures
        r == spec_convert_height(v),
{
    match v {
        CssHeightValue::CssHeightInherit => CSSValue::Inherit,
        CssHeightValue::CssHeightSet(u) => CSSValue::Specified(
            match convert_net_unit_to_length_or_percent(u) {
                LengthOrPercent::Len(l) => CSSHeight::CSSHeightLength(l),
                LengthOrPercent::Percent(p) => CSSHeight::CSSHeightPercentage(p),
            },
        ),
        CssHeightValue::CssHeightAuto => CSSValue::Specified(CSSHeight::CSSHeightAuto),
    }
}

/// The conversion of a line-height hint.
pub open spec fn spec_convert_line_height(v: CssLineHeightValue) -> CSSValue<CSSLineHeight> {
    match v {
        CssLineHeightValue::CssLineHeightInherit => CSSValue::Inherit,
        CssLineHeightValue::CssLineHeightNumber(x) => CSSValue::Specified(
            CSSLineHeight::CSSLineHeightNumber(x),
        ),
        CssLineHeightValue::CssLineHeightDimension(u) => CSSValue::Specified(
            match spec_unit_value(u) {
                LengthOrPercent::Len(l) => CSSLineHeight::CSSLineHeightLength(l),
                LengthOrPercent::Percent(p) => CSSLineHeight::CSSLineHeightPercentage(p),
            },
        ),
        CssLineHeightValue::CssLineHeightNormal => CSSValue::Specified(
            CSSLineHeight::CSSLineHeightNormal,
        ),
    }
}

/// Converts a line-height hint.
pub fn convert_net_line_height_value(v: CssLineHeightValue) -> (r: CSSValue<CSSLineHeight>)
    ensures
        r == spec_convert_line_height(v),
{
    match v {
        CssLineHeightValue::CssLineHeightInherit => CSSValue::Inherit,
        CssLineHeightValue::CssLineHeightNumber(x) => CSSValue::Specified(
            CSSLineHeight::CSSLineHeightNumber(x),
        ),
        CssLineHeightValue::CssLineHeightDimension(u) => CSSValue::Specified(
            match convert_net_unit_to_length_or_percent(u) {
                LengthOrPercent::Len(l) => CSSLineHeight::CSSLineHeightLength(l),
                LengthOrPercent::Percent(p) => CSSLineHeight::CSSLineHeightPercentage(p),
            },
        ),
        CssLineHeightValue::CssLineHeightNormal => CSSValue::Specified(
            CSSLineHeight::CSSLineHeightNormal,
        ),
    }
}

/// The conversion of a vertical-align hint.
pub open spec fn spec_convert_vertical_align(v: CssVerticalAlignValue) -> CSSValue<
    CSSVerticalAlign,
> {
    match v {
        CssVerticalAlignValue::CssVerticalAlignInherit => CSSValue::Inherit,
        CssVerticalAlignValue::CssVerticalAlignBaseline => CSSValue::Specified(
            CSSVerticalAlign::CSSVerticalAlignBaseline,
        ),
        CssVerticalAlignValue::CssVerticalAlignSub => CSSValue::Specified(
            CSSVerticalAlign::CSSVerticalAlignSub,
        ),
        CssVerticalAlignValue::CssVerticalAlignSuper => CSSValue::Specified(
            CSSVerticalAlign::CSSVerticalAlignSuper,
        ),
        CssVerticalAlignValue::CssVerticalAlignTop => CSSValue::Specified(
            CSSVerticalAlign::CSSVerticalAlignTop,
        ),
        CssVerticalAlignValue::CssVerticalAlignTextTop => CSSValue::Specified(
            CSSVerticalAlign::CSSVerticalAlignTextTop,
        ),
        CssVerticalAlignValue::CssVerticalAlignMiddle => CSSValue::Specified(
            CSSVerticalAlign::CSSVerticalAlignMiddle,
        ),
        CssVerticalAlignValue::CssVerticalAlignBottom => CSSValue::Specified(
            CSSVerticalAlign::CSSVerticalAlignBottom,
        ),
        CssVerticalAlignValue::CssVerticalAlignTextBottom => CSSValue::Specified(
            CSSVerticalAlign::CSSVerticalAlignTextBottom,
        ),
        CssVerticalAlignValue::CssVerticalAlignDimension(u) => CSSValue::Specified(
            match spec_unit_value(u) {
                LengthOrPercent::Len(l) => CSSVerticalAlign::CSSVerticalAlignLength(l),
                LengthOrPercent::Percent(p) => CSSVerticalAlign::CSSVerticalAlignPercentage(p),
            },
        ),
    }
}

/// Converts a vertical-align hint.
pub fn convert_net_vertical_align_value(v: CssVerticalAlignValue) -> (r: CSSValue<
    CSSVerticalAlign,
>)
    ensures
        r == spec_convert_vertical_align(v),
{
    match v {
        CssVerticalAlignValue::CssVerticalAlignInherit => CSSValue::Inherit,
        CssVerticalAlignValue::CssVerticalAlignBaseline => CSSValue::Specified(
            CSSVerticalAlign::CSSVerticalAlignBaseline,
        ),
        CssVerticalAlignValue::CssVerticalAlignSub => CSSValue::Specified(
            CSSVerticalAlign::CSSVerticalAlignSub,
        ),
        CssVerticalAlignValue::CssVerticalAlignSuper => CSSValue::Specified(
            CSSVerticalAlign::CSSVerticalAlignSuper,
        ),
        CssVerticalAlignValue::CssVerticalAlignTop => CSSValue::Specified(
            CSSVerticalAlign::CSSVerticalAlignTop,
        ),
        CssVerticalAlignValue::CssVerticalAlignTextTop => CSSValue::Specified(
            CSSVerticalAlign::CSSVerticalAlignTextTop,
        ),
        CssVerticalAlignValue::CssVerticalAlignMiddle => CSSValue::Specified(
            CSSVerticalAlign::CSSVerticalAlignMiddle,
        ),
        CssVerticalAlignValue::CssVerticalAlignBottom => CSSValue::Specified(
            CSSVerticalAlign::CSSVerticalAlignBottom,
        ),
        CssVerticalAlignValue::CssVerticalAlignTextBottom => CSSValue::Specified(
            CSSVerticalAlign::CSSVerticalAlignTextBottom,
        ),
        CssVerticalAlignValue::CssVerticalAlignDimension(u) => CSSValue::Specified(
            match convert_net_unit_to_length_or_percent(u) {
                LengthOrPercent::Len(l) => CSSVerticalAlign::CSSVerticalAlignLength(l),
                LengthOrPercent::Percent(p) => CSSVerticalAlign::CSSVerticalAlignPercentage(p),
            },
        ),
    }
}

/// The conversion of a font-size hint.
pub open spec fn spec_convert_font_size(v: CssFontSizeValue) -> CSSValue<CSSFontSize> {
    match v {
        CssFontSizeValue::CssFontSizeInherit => CSSValue::Inherit,
        CssFontSizeValue::CssFontSizeXXSmall => CSSValue::Specified(
            CSSFontSize::CSSFontSizeAbsoluteSize(AbsoluteSize::XXSmall),
        ),
        CssFontSizeValue::CssFontSizeXSmall => CSSValue::Specified(
            CSSFontSize::CSSFontSizeAbsoluteSize(AbsoluteSize::XSmall),
        ),
        CssFontSizeValue::CssFontSizeSmall => CSSValue::Specified(
            CSSFontSize::CSSFontSizeAbsoluteSize(AbsoluteSize::Small),
        ),
        CssFontSizeValue::CssFontSizeMedium => CSSValue::Specified(
            CSSFontSize::CSSFontSizeAbsoluteSize(AbsoluteSize::Medium),
        ),
        CssFontSizeValue::CssFontSizeLarge => CSSValue::Specified(
            CSSFontSize::CSSFontSizeAbsoluteSize(AbsoluteSize::Large),
        ),
        CssFontSizeValue::CssFontSizeXLarge => CSSValue::Specified(
            CSSFontSize::CSSFontSizeAbsoluteSize(AbsoluteSize::XLarge),
        ),
        CssFontSizeValue::CssFontSizeXXLarge => CSSValue::Specified(
            CSSFontSize::CSSFontSizeAbsoluteSize(AbsoluteSize::XXLarge),
        ),
        CssFontSizeValue::CssFontSizeLarger => CSSValue::Specified(
            CSSFontSize::CSSFontSizeRelativeSize(RelativeSize::Larger),
        ),
        CssFontSizeValue::CssFontSizeSmaller => CSSValue::Specified(
            CSSFontSize::CSSFontSizeRelativeSize(RelativeSize::Smaller),
        ),
        CssFontSizeValue::CssFontSizeDimension(u) => CSSValue::Specified(
            match spec_unit_value(u) {
                LengthOrPercent::Len(l) => CSSFontSize::CSSFontSizeLength(l),
                LengthOrPercent::Percent(p) => CSSFontSize::CSSFontSizePercentage(p),
            },
        ),
    }
}

/// Converts a font-size hint.
pub fn convert_net_font_size_value(v: CssFontSizeValue) -> (r: CSSValue<CSSFontSize>)
    ensures
        r == spec_convert_font_size(v),
{
    match v {
        CssFontSizeValue::CssFontSizeInherit => CSSValue::Inherit,
        CssFontSizeValue::CssFontSizeXXSmall => CSSValue::Specified(
            CSSFontSize::CSSFontSizeAbsoluteSize(AbsoluteSize::XXSmall),
        ),
        CssFontSizeValue::CssFontSizeXSmall => CSSValue::Specified(
            CSSFontSize::CSSFontSizeAbsoluteSize(AbsoluteSize::XSmall),
        ),
        CssFontSizeValue::CssFontSizeSmall => CSSValue::Specified(
            CSSFontSize::CSSFontSizeAbsoluteSize(AbsoluteSize::Small),
        ),
        CssFontSizeValue::CssFontSizeMedium => CSSValue::Specified(
            CSSFontSize::CSSFontSizeAbsoluteSize(AbsoluteSize::Medium),
        ),
        CssFontSizeValue::CssFontSizeLarge => CSSValue::Specified(
            CSSFontSize::CSSFontSizeAbsoluteSize(AbsoluteSize::Large),
        ),
        CssFontSizeValue::CssFontSizeXLarge => CSSValue::Specified(
            CSSFontSize::CSSFontSizeAbsoluteSize(AbsoluteSize::XLarge),
        ),
        CssFontSizeValue::CssFontSizeXXLarge => CSSValue::Specified(
            CSSFontSize::CSSFontSizeAbsoluteSize(AbsoluteSize::XXLarge),
        ),
        CssFontSizeValue::CssFontSizeLarger => CSSValue::Specified(
            CSSFontSize::CSSFontSizeRelativeSize(RelativeSize::Larger),
        ),
        CssFontSizeValue::CssFontSizeSmaller => CSSValue::Specified(
            CSSFontSize::CSSFontSizeRelativeSize(RelativeSize::Smaller),
        ),
        CssFontSizeValue::CssFontSizeDimension(u) => CSSValue::Specified(
            match convert_net_unit_to_length_or_percent(u) {
                LengthOrPercent::Len(l) => CSSFontSize::CSSFontSizeLength(l),
                LengthOrPercent::Percent(p) => CSSFontSize::CSSFontSizePercentage(p),
            },
        ),
    }
}

/// The abstract content of a converted font-family list: written names as
/// character sequences beside generic families.
pub enum FontFamilyItem {
    Name(Seq<char>),
    Generic(GenericFontFamily),
}

/// The abstract content of one font-family entry.
pub open spec fn ff_item_view(f: CSSFontFamily) -> FontFamilyItem {
    match f {
        CSSFontFamily::CSSFontFamilyFamilyName(n) => FontFamilyItem::Name(n@),
        CSSFontFamily::CSSFontFamilyGenericFamily(g) => FontFamilyItem::Generic(g),
    }
}

/// The abstract content of a font-family list.
pub open spec fn ff_list_view(v: Seq<CSSFontFamily>) -> Seq<FontFamilyItem> {
    Seq::new(v.len(), |i: int| ff_item_view(v[i]))
}

/// The abstract content of a converted font-family value.
pub open spec fn ff_value_view(v: CSSValue<Vec<CSSFontFamily>>) -> CSSValue<Seq<FontFamilyItem>> {
    match v {
        CSSValue::Inherit => CSSValue::Inherit,
        CSSValue::Specified(l) => CSSValue::Specified(ff_list_view(l@)),
    }
}

/// The conversion of a font-family hint, over abstract contents: a generic
/// family keyword becomes a one-entry list; a written list keeps its names
/// in source order.
pub open spec fn spec_convert_font_family(h: FontFamilyHint) -> CSSValue<Seq<FontFamilyItem>> {
    match h {
        FontFamilyHint::Inherit => CSSValue::Inherit,
        FontFamilyHint::Serif => CSSValue::Specified(
            seq![FontFamilyItem::Generic(GenericFontFamily::Serif)],
        ),
        FontFamilyHint::SansSerif => CSSValue::Specified(
            seq![FontFamilyItem::Generic(GenericFontFamily::SansSerif)],
        ),
        FontFamilyHint::Cursive => CSSValue::Specified(
            seq![FontFamilyItem::Generic(GenericFontFamily::Cursive)],
        ),
        FontFamilyHint::Fantasy => CSSValue::Specified(
            seq![FontFamilyItem::Generic(GenericFontFamily::Fantasy)],
        ),
        FontFamilyHint::Monospace => CSSValue::Specified(
            seq![FontFamilyItem::Generic(GenericFontFamily::Monospace)],
        ),
        FontFamilyHint::Names(names) => CSSValue::Specified(
            Seq::new(names.len(), |i: int| FontFamilyItem::Name(names[i])),
        ),
    }
}

/// Converts a font-family hint, taking ownership of the written names.
pub fn convert_net_font_family_value(v: CssFontFamilyValue) -> (r: CSSValue<Vec<CSSFontFamily>>)
    ensures
        ff_value_view(r) == spec_convert_font_family(v.view_hint()),
{
    match v {
        CssFontFamilyValue::CssFontFamilyInherit => CSSValue::Inherit,
        CssFontFamilyValue::CssFontFamilySerif => specified_generic(GenericFontFamily::Serif),
        CssFontFamilyValue::CssFontFamilySansSerif => specified_generic(
            GenericFontFamily::SansSerif,
        ),
        CssFontFamilyValue::CssFontFamilyCursive => specified_generic(GenericFontFamily::Cursive),
        CssFontFamilyValue::CssFontFamilyFantasy => specified_generic(GenericFontFamily::Fantasy),
        CssFontFamilyValue::CssFontFamilyMonospace => specified_generic(
            GenericFontFamily::Monospace,
        ),
        CssFontFamilyValue::CssFontFamilyValue(names) => {
            let ghost names_view = names.deep_view();
            let mut out: Vec<CSSFontFamily> = Vec::new();
            let mut i: usize = 0;
            let n: usize = names.len();
            let mut rest = names;
            proof {
                assert(rest.deep_view() =~~= names_view);
            }
            let mut taken: usize = 0;
            while taken < n
                invariant
                    0 <= taken <= n == names_view.len(),
                    rest@.len() == n - taken,
                    forall|k: int| 0 <= k < rest@.len() ==> #[trigger] rest@[k]@ == names_view[
                        taken + k
                    ],
                    out@.len() == taken,
                    forall|k: int| 0 <= k < taken ==> ff_item_view(#[trigger] out@[k])
                        == FontFamilyItem::Name(names_view[k]),
                decreases n - taken,
            {
                let name = rest.remove(0);
                out.push(CSSFontFamily::CSSFontFamilyFamilyName(name));
                taken = taken + 1;
            }
            proof {
                assert(ff_list_view(out@) =~~= Seq::new(
                    names_view.len(),
                    |i: int| FontFamilyItem::Name(names_view[i]),
                ));
            }
            CSSValue::Specified(out)
        },
    }
}

/// A one-entry font-family list holding a generic family.
fn specified_generic(g: GenericFontFamily) -> (r: CSSValue<Vec<CSSFontFamily>>)
    ensures
        ff_value_view(r) == CSSValue::<Seq<FontFamilyItem>>::Specified(
            seq![FontFamilyItem::Generic(g)],
        ),
{
    let mut out: Vec<CSSFontFamily> = Vec::new();
    out.push(CSSFontFamily::CSSFontFamilyGenericFamily(g));
    proof {
        assert(ff_list_view(out@) =~~= seq![FontFamilyItem::Generic(g)]);
    }
    CSSValue::Specified(out)
}

/// The root fixup of CSS 2.1 section 9.7 as the display getter applies it:
/// on the root element, inline-level and internal-table displays compute to
/// `block`, an inline table to `table`; everything else is unchanged.
pub open spec fn spec_root_display(d: CssDisplayValue) -> CssDisplayValue {
    match d {
        CssDisplayValue::CssDisplayInline => CssDisplayValue::CssDisplayBlock,
        CssDisplayValue::CssDisplayInlineBlock => CssDisplayValue::CssDisplayBlock,
        CssDisplayValue::CssDisplayInlineTable => CssDisplayValue::CssDisplayTable,
        CssDisplayValue::CssDisplayTableRowGroup => CssDisplayValue::CssDisplayBlock,
        CssDisplayValue::CssDisplayTableHeaderGroup => CssDisplayValue::CssDisplayBlock,
        CssDisplayValue::CssDisplayTableFooterGroup => CssDisplayValue::CssDisplayBlock,
        CssDisplayValue::CssDisplayTableRow => CssDisplayValue::CssDisplayBlock,
        CssDisplayValue::CssDisplayTableColumnGroup => CssDisplayValue::CssDisplayBlock,
        CssDisplayValue::CssDisplayTableColumn => CssDisplayValue::CssDisplayBlock,
        CssDisplayValue::CssDisplayTableCell => CssDisplayValue::CssDisplayBlock,
        CssDisplayValue::CssDisplayTableCaption => CssDisplayValue::CssDisplayBlock,
        _ => d,
    }
}

/// Applies the root fixup.
pub fn root_display(d: CssDisplayValue) -> (r: CssDisplayValue)
    ensures
        r == spec_root_display(d),
{
    match d {
        CssDisplayValue::CssDisplayInline => CssDisplayValue::CssDisplayBlock,
        CssDisplayValue::CssDisplayInlineBlock => CssDisplayValue::CssDisplayBlock,
        CssDisplayValue::CssDisplayInlineTable => CssDisplayValue::CssDisplayTable,
        CssDisplayValue::CssDisplayTableRowGroup => CssDisplayValue::CssDisplayBlock,
        CssDisplayValue::CssDisplayTableHeaderGroup => CssDisplayValue::CssDisplayBlock,
        CssDisplayValue::CssDisplayTableFooterGroup => CssDisplayValue::CssDisplayBlock,
        CssDisplayValue::CssDisplayTableRow => CssDisplayValue::CssDisplayBlock,
        CssDisplayValue::CssDisplayTableColumnGroup => CssDisplayValue::CssDisplayBlock,
        CssDisplayValue::CssDisplayTableColumn => CssDisplayValue::CssDisplayBlock,
        CssDisplayValue::CssDisplayTableCell => CssDisplayValue::CssDisplayBlock,
        CssDisplayValue::CssDisplayTableCaption => CssDisplayValue::CssDisplayBlock,
        _ => d,
    }
}

/// One node's style as selector matching computed it, read through the
/// typed adapter: each getter converts the node's raw hint for one
/// property.
pub struct ComputedStyle<'a> {
    pub inner: &'a CssComputedStyle,
}

impl<'a> ComputedStyle<'a> {
    // CSS 2.1, Section 8 - Box model

    pub fn margin_top(&self) -> (r: CSSValue<CSSMargin>)
        ensures
            r == spec_convert_margin(self.inner.margin_top),
    {
        convert_net_margin(self.inner.margin_top)
    }

    pub fn margin_right(&self) -> (r: CSSValue<CSSMargin>)
        ensures
            r == spec_convert_margin(self.inner.margin_right),
    {
        convert_net_margin(self.inner.margin_right)
    }

    pub fn margin_bottom(&self) -> (r: CSSValue<CSSMargin>)
        ensures
            r == spec_convert_margin(self.inner.margin_bottom),
    {
        convert_net_margin(self.inner.margin_bottom)
    }

    pub fn margin_left(&self) -> (r: CSSValue<CSSMargin>)
        ensures
            r == spec_convert_margin(self.inner.margin_left),
    {
        convert_net_margin(self.inner.margin_left)
    }

    pub fn padding_top(&self) -> (r: CSSValue<CSSPadding>)
        ensures
            r == spec_convert_padding(self.inner.padding_top),
    {
        convert_net_padding(self.inner.padding_top)
    }

    pub fn padding_right(&self) -> (r: CSSValue<CSSPadding>)
        ensures
            r == spec_convert_padding(self.inner.padding_right),
    {
        convert_net_padding(self.inner.padding_right)
    }

    pub fn padding_bottom(&self) -> (r: CSSValue<CSSPadding>)
        ensures
            r == spec_convert_padding(self.inner.padding_bottom),
    {
        convert_net_padding(self.inner.padding_bottom)
    }

    pub fn padding_left(&self) -> (r: CSSValue<CSSPadding>)
        ensures
            r == spec_convert_padding(self.inner.padding_left),
    {
        convert_net_padding(self.inner.padding_left)
    }

    pub fn border_top_style(&self) -> (r: CSSValue<CSSBorderStyle>)
        ensures
            r == spec_convert_border_style(self.inner.border_top_style),
    {
        convert_net_border_style(self.inner.border_top_style)
    }

    pub fn border_right_style(&self) -> (r: CSSValue<CSSBorderStyle>)
        ensures
            r == spec_convert_border_style(self.inner.border_right_style),
    {
        convert_net_border_style(self.inner.border_right_style)
    }

    pub fn border_bottom_style(&self) -> (r: CSSValue<CSSBorderStyle>)
        ensures
            r == spec_convert_border_style(self.inner.border_bottom_style),
    {
        convert_net_border_style(self.inner.border_bottom_style)
    }

    pub fn border_left_style(&self) -> (r: CSSValue<CSSBorderStyle>)
        ensures
            r == spec_convert_border_style(self.inner.border_left_style),
    {
        convert_net_border_style(self.inner.border_left_style)
    }

    pub fn border_top_width(&self) -> (r: CSSValue<CSSBorderWidth>)
        requires
            border_width_supported(self.inner.border_top_width),
        ensures
            r == spec_convert_border_width(self.inner.border_top_width),
    {
        convert_net_border_width(self.inner.border_top_width)
    }

    pub fn border_right_width(&self) -> (r: CSSValue<CSSBorderWidth>)
        requires
            border_width_supported(self.inner.border_right_width),
        ensures
            r == spec_convert_border_width(self.inner.border_right_width),
    {
        convert_net_border_width(self.inner.border_right_width)
    }

    pub fn border_bottom_width(&self) -> (r: CSSValue<CSSBorderWidth>)
        requires
            border_width_supported(self.inner.border_bottom_width),
        ensures
            r == spec_convert_border_width(self.inner.border_bottom_width),
    {
        convert_net_border_width(self.inner.border_bottom_width)
    }

    pub fn border_left_width(&self) -> (r: CSSValue<CSSBorderWidth>)
        requires
            border_width_supported(self.inner.border_left_width),
        ensures
            r == spec_convert_border_width(self.inner.border_left_width),
    {
        convert_net_border_width(self.inner.border_left_width)
    }

    pub fn border_top_color(&self) -> (r: CSSValue<Color>)
        ensures
            r == spec_convert_color_value(self.inner.border_top_color),
    {
        convert_net_color_value(self.inner.border_top_color)
    }

    pub fn border_right_color(&self) -> (r: CSSValue<Color>)
        ensures
            r == spec_convert_color_value(self.inner.border_right_color),
    {
        convert_net_color_value(self.inner.border_right_color)
    }

    pub fn border_bottom_color(&self) -> (r: CSSValue<Color>)
        ensures
            r == spec_convert_color_value(self.inner.border_bottom_color),
    {
        convert_net_color_value(self.inner.border_bottom_color)
    }

    pub fn border_left_color(&self) -> (r: CSSValue<Color>)
        ensures
            r == spec_convert_color_value(self.inner.border_left_color),
    {
        convert_net_color_value(self.inner.border_left_color)
    }

    // CSS 2.1, Section 9 - Visual formatting model

    /// The display of the node; on the root element the fixup of CSS 2.1
    /// section 9.7 applies first.
    pub fn display(&self, root: bool) -> (r: CSSValue<CSSDisplay>)
        requires
            display_supported(self.inner.display),
        ensures
            r == spec_convert_display(
                if root {
                    spec_root_display(self.inner.display)
                } else {
                    self.inner.display
                },
            ),
    {
        if root {
            convert_net_display_value(root_display(self.inner.display))
        } else {
            convert_net_display_value(self.inner.display)
        }
    }

    pub fn position(&self) -> (r: CSSValue<CSSPosition>)
        ensures
            r == spec_convert_position(self.inner.position),
    {
        convert_net_position_value(self.inner.position)
    }

    pub fn float(&self) -> (r: CSSValue<CSSFloat>)
        ensures
            r == spec_convert_float(self.inner.float),
    {
        convert_net_float_value(self.inner.float)
    }

    pub fn clear(&self) -> (r: CSSValue<CSSClear>)
        ensures
            r == spec_convert_clear(self.inner.clear),
    {
        convert_net_clear_value(self.inner.clear)
    }

    // CSS 2.1, Section 10 - Visual formatting model details

    pub fn width(&self) -> (r: CSSValue<CSSWidth>)
        ensures
            r == spec_convert_width(self.inner.width),
    {
        convert_net_width_value(self.inner.width)
    }

    pub fn height(&self) -> (r: CSSValue<CSSHeight>)
        ensures
            r == spec_convert_height(self.inner.height),
    {
        convert_net_height_value(self.inner.height)
    }

    pub fn line_height(&self) -> (r: CSSValue<CSSLineHeight>)
        ensures
            r == spec_convert_line_height(self.inner.line_height),
    {
        convert_net_line_height_value(self.inner.line_height)
    }

    pub fn vertical_align(&self) -> (r: CSSValue<CSSVerticalAlign>)
        ensures
            r == spec_convert_vertical_align(self.inner.vertical_align),
    {
        convert_net_vertical_align_value(self.inner.vertical_align)
    }

    // CSS 2.1, Section 14 - Colors and Backgrounds

    pub fn background_color(&self) -> (r: CSSValue<Color>)
        ensures
            r == spec_convert_color_value(self.inner.background_color),
    {
        convert_net_color_value(self.inner.background_color)
    }

    pub fn color(&self) -> (r: CSSValue<Color>)
        ensures
            r == spec_convert_color_value(self.inner.color),
    {
        convert_net_color_value(self.inner.color)
    }

    // CSS 2.1, Section 15 - Fonts

    pub fn font_family(&self) -> (r: CSSValue<Vec<CSSFontFamily>>)
        ensures
            ff_value_view(r) == spec_convert_font_family(self.inner.font_family.view_hint()),
    {
        convert_net_font_family_value(copy_font_family(&self.inner.font_family))
    }

    pub fn font_style(&self) -> (r: CSSValue<CSSFontStyle>)
        ensures
            r == spec_convert_font_style(self.inner.font_style),
    {
        convert_net_font_style_value(self.inner.font_style)
    }

    pub fn font_weight(&self) -> (r: CSSValue<CSSFontWeight>)
        ensures
            r == spec_convert_font_weight(self.inner.font_weight),
    {
        convert_net_font_weight_value(self.inner.font_weight)
    }

    pub fn font_size(&self) -> (r: CSSValue<CSSFontSize>)
        ensures
            r == spec_convert_font_size(self.inner.font_size),
    {
        convert_net_font_size_value(self.inner.font_size)
    }

    // CSS 2.1, Section 16 - Text

    pub fn text_align(&self) -> (r: CSSValue<CSSTextAlign>)
        requires
            text_align_supported(self.inner.text_align),
        ensures
            r == spec_convert_text_align(self.inner.text_align),
    {
        convert_net_text_align_value(self.inner.text_align)
    }

    pub fn text_decoration(&self) -> (r: CSSValue<CSSTextDecoration>)
        ensures
            r == spec_convert_text_decoration(self.inner.text_decoration),
    {
        convert_net_text_decoration_value(self.inner.text_decoration)
    }

}

} // verus!
