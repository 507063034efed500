//! The raw per-property style hints the selector-matching collaborator
//! hands over, one enumeration per property family, and the bundle of them
//! that makes up a node's computed style before typing and inheritance
//! resolution. Each enumeration carries an inherit sentinel beside its
//! property-specific native values; colors come as four 8-bit components
//! and lengths tagged by unit.

use vstd::prelude::*;
use crate::fixed::{Fixed, fixed_in_range};

verus! {

/// A native color: four 8-bit components, alpha first.
#[derive(Clone, Copy, PartialEq, Eq, Structural, Debug)]
pub struct CssColor {
    pub a: u8,
    pub r: u8,
    pub g: u8,
    pub b: u8,
}

/// A native dimension tagged by its unit.
#[derive(Clone, Copy, PartialEq, Eq, Structural, Debug)]
pub enum CssUnit {
    CssUnitPx(Fixed),
    CssUnitEm(Fixed),
    CssUnitPt(Fixed),
    CssUnitPct(Fixed),
}

impl CssUnit {
    /// The magnitude of the dimension, whatever its unit.
    pub open spec fn spec_to_fixed(self) -> Fixed {
        match self {
            CssUnit::CssUnitPx(x) => x,
            CssUnit::CssUnitEm(x) => x,
            CssUnit::CssUnitPt(x) => x,
            CssUnit::CssUnitPct(x) => x,
        }
    }

    /// The magnitude of the dimension, whatever its unit.
    pub fn to_fixed(self) -> (r: Fixed)
        ensures
            r == self.spec_to_fixed(),
    {
        match self {
            CssUnit::CssUnitPx(x) => x,
            CssUnit::CssUnitEm(x) => x,
            CssUnit::CssUnitPt(x) => x,
            CssUnit::CssUnitPct(x) => x,
        }
    }

    /// The same unit carrying the magnitude `x` instead.
    pub open spec fn spec_modify(self, x: Fixed) -> CssUnit {
        match self {
            CssUnit::CssUnitPx(_) => CssUnit::CssUnitPx(x),
            CssUnit::CssUnitEm(_) => CssUnit::CssUnitEm(x),
            CssUnit::CssUnitPt(_) => CssUnit::CssUnitPt(x),
            CssUnit::CssUnitPct(_) => CssUnit::CssUnitPct(x),
        }
    }

    /// The same unit carrying the magnitude `x` instead.
    pub fn modify(self, x: Fixed) -> (r: CssUnit)
        ensures
            r == self.spec_modify(x),
    {
        match self {
            CssUnit::CssUnitPx(_) => CssUnit::CssUnitPx(x),
            CssUnit::CssUnitEm(_) => CssUnit::CssUnitEm(x),
            CssUnit::CssUnitPt(_) => CssUnit::CssUnitPt(x),
            CssUnit::CssUnitPct(_) => CssUnit::CssUnitPct(x),
        }
    }

    /// Whether the magnitude lies within the value system's bound.
    pub open spec fn in_range(self) -> bool {
        fixed_in_range(self.spec_to_fixed().micro as int)
    }
}

#[derive(Clone, Copy, PartialEq, Eq, Structural, Debug)]
pub enum CssColorValue {
    CssColorInherit,
    CssColorColor(CssColor),
}

#[derive(Clone, Copy, PartialEq, Eq, Structural, Debug)]
pub enum CssMarginValue {
    CssMarginInherit,
    CssMarginSet(CssUnit),
    CssMarginAuto,
}

#[derive(Clone, Copy, PartialEq, Eq, Structural, Debug)]
pub enum CssPaddingValue {
    CssPaddingInherit,
    CssPaddingSet(CssUnit),
}

#[derive(Clone, Copy, PartialEq, Eq, Structural, Debug)]
pub enum CssBorderStyleValue {
    CssBorderStyleInherit,
    CssBorderStyleNone,
    CssBorderStyleHidden,
    CssBorderStyleDotted,
    CssBorderStyleDashed,
    CssBorderStyleSolid,
    CssBorderStyleDouble,
    CssBorderStyleGroove,
    CssBorderStyleRidge,
    CssBorderStyleInset,
    CssBorderStyleOutset,
}

#[derive(Clone, Copy, PartialEq, Eq, Structural, Debug)]
pub enum CssBorderWidthValue {
    CssBorderWidthInherit,
    CssBorderWidthThin,
    CssBorderWidthMedium,
    CssBorderWidthThick,
    CssBorderWidthWidth(CssUnit),
}

#[derive(Clone, Copy, PartialEq, Eq, Structural, Debug)]
pub enum CssDisplayValue {
    CssDisplayInherit,
    CssDisplayInline,
    CssDisplayBlock,
    CssDisplayListItem,
    CssDisplayRunIn,
    CssDisplayInlineBlock,
    CssDisplayTable,
    CssDisplayInlineTable,
    CssDisplayTableRowGroup,
    CssDisplayTableHeaderGroup,
    CssDisplayTableFooterGroup,
    CssDisplayTableRow,
    CssDisplayTableColumnGroup,
    CssDisplayTableColumn,
    CssDisplayTableCell,
    CssDisplayTableCaption,
    CssDisplayNone,
}

#[derive(Clone, Copy, PartialEq, Eq, Structural, Debug)]
pub enum CssPositionValue {
    CssPositionInherit,
    CssPositionStatic,
    CssPositionRelative,
    CssPositionAbsolute,
    CssPositionFixed,
}

#[derive(Clone, Copy, PartialEq, Eq, Structural, Debug)]
pub enum CssFloatValue {
    CssFloatInherit,
    CssFloatLeft,
    CssFloatRight,
    CssFloatNone,
}

#[derive(Clone, Copy, PartialEq, Eq, Structural, Debug)]
pub enum CssClearValue {
    CssClearInherit,
    CssClearNone,
    CssClearLeft,
    CssClearRight,
    CssClearBoth,
}

#[derive(Clone, Copy, PartialEq, Eq, Structural, Debug)]
pub enum CssWidthValue {
    CssWidthInherit,
    CssWidthSet(CssUnit),
    CssWidthAuto,
}

#[derive(Clone, Copy, PartialEq, Eq, Structural, Debug)]
pub enum CssHeightValue {
    CssHeightInherit,
    CssHeightSet(CssUnit),
    CssHeightAuto,
}

#[derive(Clone, Copy, PartialEq, Eq, Structural, Debug)]
pub enum CssLineHeightValue {
    CssLineHeightInherit,
    CssLineHeightNumber(Fixed),
    CssLineHeightDimension(CssUnit),
    CssLineHeightNormal,
}

#[derive(Clone, Copy, PartialEq, Eq, Structural, Debug)]
pub enum CssVerticalAlignValue {
    CssVerticalAlignInherit,
    CssVerticalAlignBaseline,
    CssVerticalAlignSub,
    CssVerticalAlignSuper,
    CssVerticalAlignTop,
    CssVerticalAlignTextTop,
    CssVerticalAlignMiddle,
    CssVerticalAlignBottom,
    CssVerticalAlignTextBottom,
    CssVerticalAlignDimension(CssUnit),
}

/// A font-family hint: the inherit sentinel, a generic family, or a written
/// list of family names.
#[derive(Clone, PartialEq, Eq, Debug)]
pub enum CssFontFamilyValue {
    CssFontFamilyInherit,
    CssFontFamilySerif,
    CssFontFamilySansSerif,
    CssFontFamilyCursive,
    CssFontFamilyFantasy,
    CssFontFamilyMonospace,
    CssFontFamilyValue(Vec<String>),
}

/// The abstract content of a font-family hint: written names as character
/// sequences.
pub enum FontFamilyHint {
    Inherit,
    Serif,
    SansSerif,
    Cursive,
    Fantasy,
    Monospace,
    Names(Seq<Seq<char>>),
}

impl CssFontFamilyValue {
    /// The abstract content of the hint.
    pub open spec fn view_hint(&self) -> FontFamilyHint {
        match self {
            CssFontFamilyValue::CssFontFamilyInherit => FontFamilyHint::Inherit,
            CssFontFamilyValue::CssFontFamilySerif => FontFamilyHint::Serif,
            CssFontFamilyValue::CssFontFamilySansSerif => FontFamilyHint::SansSerif,
            CssFontFamilyValue::CssFontFamilyCursive => FontFamilyHint::Cursive,
            CssFontFamilyValue::CssFontFamilyFantasy => FontFamilyHint::Fantasy,
            CssFontFamilyValue::CssFontFamilyMonospace => FontFamilyHint::Monospace,
            CssFontFamilyValue::CssFontFamilyValue(names) => FontFamilyHint::Names(
                names.deep_view(),
            ),
        }
    }
}

#[derive(Clone, Copy, PartialEq, Eq, Structural, Debug)]
pub enum CssFontSizeValue {
    CssFontSizeInherit,
    CssFontSizeXXSmall,
    CssFontSizeXSmall,
    CssFontSizeSmall,
    CssFontSizeMedium,
    CssFontSizeLarge,
    CssFontSizeXLarge,
    CssFontSizeXXLarge,
    CssFontSizeLarger,
    CssFontSizeSmaller,
    CssFontSizeDimension(CssUnit),
}

#[derive(Clone, Copy, PartialEq, Eq, Structural, Debug)]
pub enum CssFontStyleValue {
    CssFontStyleInherit,
    CssFontStyleNormal,
    CssFontStyleItalic,
    CssFontStyleOblique,
}

#[derive(Clone, Copy, PartialEq, Eq, Structural, Debug)]
pub enum CssFontWeightValue {
    CssFontWeightInherit,
    CssFontWeightNormal,
    CssFontWeightBold,
    CssFontWeightBolder,
    CssFontWeightLighter,
    CssFontWeight100,
    CssFontWeight200,
    CssFontWeight300,
    CssFontWeight400,
    CssFontWeight500,
    CssFontWeight600,
    CssFontWeight700,
    CssFontWeight800,
    CssFontWeight900,
}

#[derive(Clone, Copy, PartialEq, Eq, Structural, Debug)]
pub enum CssTextAlignValue {
    CssTextAlignInherit,
    CssTextAlignInheritIfNonMagic,
    CssTextAlignLeft,
    CssTextAlignRight,
    CssTextAlignCenter,
    CssTextAlignJustify,
    CssTextAlignDefault,
    CssTextAlignLibcssLeft,
    CssTextAlignLibcssCenter,
    CssTextAlignLibcssRight,
}

#[derive(Clone, Copy, PartialEq, Eq, Structural, Debug)]
pub enum CssTextDecorationValue {
    CssTextDecorationInherit,
    CssTextDecorationNone,
    CssTextDecorationBlink,
    CssTextDecorationLineThrough,
    CssTextDecorationOverline,
    CssTextDecorationUnderline,
}

/// The bundle of per-property hints that makes up one node's computed
/// style, produced by selector matching, before typing and inheritance
/// resolution.
#[derive(Clone, PartialEq, Eq, Debug)]
pub struct CssComputedStyle {
    pub margin_top: CssMarginValue,
    pub margin_right: CssMarginValue,
    pub margin_bottom: CssMarginValue,
    pub margin_left: CssMarginValue,
    pub padding_top: CssPaddingValue,
    pub padding_right: CssPaddingValue,
    pub padding_bottom: CssPaddingValue,
    pub padding_left: CssPaddingValue,
    pub border_top_style: CssBorderStyleValue,
    pub border_right_style: CssBorderStyleValue,
    pub border_bottom_style: CssBorderStyleValue,
    pub border_left_style: CssBorderStyleValue,
    pub border_top_width: CssBorderWidthValue,
    pub border_right_width: CssBorderWidthValue,
    pub border_bottom_width: CssBorderWidthValue,
    pub border_left_width: CssBorderWidthValue,
    pub border_top_color: CssColorValue,
    pub border_right_color: CssColorValue,
    pub border_bottom_color: CssColorValue,
    pub border_left_color: CssColorValue,
    pub display: CssDisplayValue,
    pub position: CssPositionValue,
    pub float: CssFloatValue,
    pub clear: CssClearValue,
    pub width: CssWidthValue,
    pub height: CssHeightValue,
    pub line_height: CssLineHeightValue,
    pub vertical_align: CssVerticalAlignValue,
    pub background_color: CssColorValue,
    pub color: CssColorValue,
    pub font_family: CssFontFamilyValue,
    pub font_style: CssFontStyleValue,
    pub font_weight: CssFontWeightValue,
    pub font_size: CssFontSizeValue,
    pub text_align: CssTextAlignValue,
    pub text_decoration: CssTextDecorationValue,
}

/// Whether a margin hint is within the adapter's coverage.
pub open spec fn margin_supported(v: CssMarginValue) -> bool {
    match v {
        CssMarginValue::CssMarginSet(u) => u.in_range(),
        _ => true,
    }
}

/// Whether a padding hint is within the adapter's coverage.
pub open spec fn padding_supported(v: CssPaddingValue) -> bool {
    match v {
        CssPaddingValue::CssPaddingSet(u) => u.in_range(),
        _ => true,
    }
}

/// Whether a border-width hint is within the adapter's coverage: an
/// explicit width is a length, never a percentage.
pub open spec fn border_width_supported(v: CssBorderWidthValue) -> bool {
    match v {
        CssBorderWidthValue::CssBorderWidthWidth(u) => !(u is CssUnitPct) && u.in_range(),
        _ => true,
    }
}

/// Whether a display hint is within the CSS 2.1 subset the adapter covers.
pub open spec fn display_supported(v: CssDisplayValue) -> bool {
    !(v is CssDisplayRunIn)
}

/// Whether a width hint is within the adapter's coverage.
pub open spec fn width_supported(v: CssWidthValue) -> bool {
    match v {
        CssWidthValue::CssWidthSet(u) => u.in_range(),
        _ => true,
    }
}

/// Whether a height hint is within the adapter's coverage.
pub open spec fn height_supported(v: CssHeightValue) -> bool {
    match v {
        CssHeightValue::CssHeightSet(u) => u.in_range(),
        _ => true,
    }
}

/// Whether a line-height hint is within the adapter's coverage.
pub open spec fn line_height_supported(v: CssLineHeightValue) -> bool {
    match v {
        CssLineHeightValue::CssLineHeightNumber(x) => fixed_in_range(x.micro as int),
        CssLineHeightValue::CssLineHeightDimension(u) => u.in_range(),
        _ => true,
    }
}

/// Whether a vertical-align hint is within the adapter's coverage.
pub open spec fn vertical_align_supported(v: CssVerticalAlignValue) -> bool {
    match v {
        CssVerticalAlignValue::CssVerticalAlignDimension(u) => u.in_range(),
        _ => true,
    }
}

/// Whether a font-size hint is within the adapter's coverage.
pub open spec fn font_size_supported(v: CssFontSizeValue) -> bool {
    match v {
        CssFontSizeValue::CssFontSizeDimension(u) => u.in_range(),
        _ => true,
    }
}

/// Whether a text-align hint is within the CSS 2.1 subset the adapter
/// covers.
pub open spec fn text_align_supported(v: CssTextAlignValue) -> bool {
    match v {
        CssTextAlignValue::CssTextAlignInheritIfNonMagic => false,
        CssTextAlignValue::CssTextAlignLibcssLeft => false,
        CssTextAlignValue::CssTextAlignLibcssCenter => false,
        CssTextAlignValue::CssTextAlignLibcssRight => false,
        _ => true,
    }
}

impl CssComputedStyle {
    /// Every hint of the bundle lies within the adapter's coverage. A hint
    /// outside it is a coverage gap of the engine, not a run-time
    /// condition, and is kept out by precondition throughout.
    pub open spec fn supported(&self) -> bool {
        &&& margin_supported(self.margin_top)
        &&& margin_supported(self.margin_right)
        &&& margin_supported(self.margin_bottom)
        &&& margin_supported(self.margin_left)
        &&& padding_supported(self.padding_top)
        &&& padding_supported(self.padding_right)
        &&& padding_supported(self.padding_bottom)
        &&& padding_supported(self.padding_left)
        &&& border_width_supported(self.border_top_width)
        &&& border_width_supported(self.border_right_width)
        &&& border_width_supported(self.border_bottom_width)
        &&& border_width_supported(self.border_left_width)
        &&& display_supported(self.display)
        &&& width_supported(self.width)
        &&& height_supported(self.height)
        &&& line_height_supported(self.line_height)
        &&& vertical_align_supported(self.vertical_align)
        &&& font_size_supported(self.font_size)
        &&& text_align_supported(self.text_align)
    }

    /// No hint of the bundle is an inherit sentinel: the style is fully
    /// resolved.
    pub open spec fn complete(&self) -> bool {
        &&& !(self.margin_top is CssMarginInherit)
        &&& !(self.margin_right is CssMarginInherit)
        &&& !(self.margin_bottom is CssMarginInherit)
        &&& !(self.margin_left is CssMarginInherit)
        &&& !(self.padding_top is CssPaddingInherit)
        &&& !(self.padding_right is CssPaddingInherit)
        &&& !(self.padding_bottom is CssPaddingInherit)
        &&& !(self.padding_left is CssPaddingInherit)
        &&& !(self.border_top_style is CssBorderStyleInherit)
        &&& !(self.border_right_style is CssBorderStyleInherit)
        &&& !(self.border_bottom_style is CssBorderStyleInherit)
        &&& !(self.border_left_style is CssBorderStyleInherit)
        &&& !(self.border_top_width is CssBorderWidthInherit)
        &&& !(self.border_right_width is CssBorderWidthInherit)
        &&& !(self.border_bottom_width is CssBorderWidthInherit)
        &&& !(self.border_left_width is CssBorderWidthInherit)
        &&& !(self.border_top_color is CssColorInherit)
        &&& !(self.border_right_color is CssColorInherit)
        &&& !(self.border_bottom_color is CssColorInherit)
        &&& !(self.border_left_color is CssColorInherit)
        &&& !(self.display is CssDisplayInherit)
        &&& !(self.position is CssPositionInherit)
        &&& !(self.float is CssFloatInherit)
        &&& !(self.clear is CssClearInherit)
        &&& !(self.width is CssWidthInherit)
        &&& !(self.height is CssHeightInherit)
        &&& !(self.line_height is CssLineHeightInherit)
        &&& !(self.vertical_align is CssVerticalAlignInherit)
        &&& !(self.background_color is CssColorInherit)
        &&& !(self.color is CssColorInherit)
        &&& !(self.font_family is CssFontFamilyInherit)
        &&& !(self.font_style is CssFontStyleInherit)
        &&& !(self.font_weight is CssFontWeightInherit)
        &&& !(self.font_size is CssFontSizeInherit)
        &&& !(self.text_align is CssTextAlignInherit)
        &&& !(self.text_decoration is CssTextDecorationInherit)
    }
}

/// Copies a font-family hint; the written names come out letter for
/// letter.
pub fn copy_font_family(v: &CssFontFamilyValue) -> (r: CssFontFamilyValue)
    ensures
        r.view_hint() == v.view_hint(),
{
    match v {
        CssFontFamilyValue::CssFontFamilyInherit => CssFontFamilyValue::CssFontFamilyInherit,
        CssFontFamilyValue::CssFontFamilySerif => CssFontFamilyValue::CssFontFamilySerif,
        CssFontFamilyValue::CssFontFamilySansSerif => CssFontFamilyValue::CssFontFamilySansSerif,
        CssFontFamilyValue::CssFontFamilyCursive => CssFontFamilyValue::CssFontFamilyCursive,
        CssFontFamilyValue::CssFontFamilyFantasy => CssFontFamilyValue::CssFontFamilyFantasy,
        CssFontFamilyValue::CssFontFamilyMonospace => CssFontFamilyValue::CssFontFamilyMonospace,
        CssFontFamilyValue::CssFontFamilyValue(names) => {
            let mut out: Vec<String> = Vec::new();
            let mut i: usize = 0;
            let n: usize = names.len();
            while i < n
                invariant
                    0 <= i <= n == names@.len(),
                    out@.len() == i,
                    forall|k: int| 0 <= k < i ==> out@[k]@ == names@[k]@,
                decreases n - i,
            {
                out.push(names[i].clone());
                i = i + 1;
            }
            proof {
                assert(out.deep_view() =~~= names.deep_view());
            }
            CssFontFamilyValue::CssFontFamilyValue(out)
        },
    }
}

} // verus!
