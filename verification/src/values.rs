//! The representation of CSS property values.
//!
//! Enums are named after the property. Variants bear the property's name
//! plus the name of the value in the CSS 2.1 specification: the property
//! `background-color` with the value `<color>` gives the variant
//! `CSSBackgroundColorColor`. Verbose, but consistent.

use vstd::prelude::*;
use crate::color::Color;
use crate::fixed::Fixed;
use crate::units::{AbsoluteSize, GenericFontFamily, Length, RelativeSize};

verus! {

/// A partial CSS value, before inheritance has been resolved: either a
/// marker to adopt the ancestor's resolved value, or a concrete value
/// present at this node.
#[derive(Clone, Copy, PartialEq, Eq, Debug)]
pub enum CSSValue<T> {
    Inherit,
    Specified(T),
}

// CSS 2.1, Section 8 - Box model

#[derive(Clone, Copy, PartialEq, Eq, Structural, Debug)]
pub enum CSSMargin {
    CSSMarginLength(Length),
    CSSMarginPercentage(Fixed),
    CSSMarginAuto,
}

#[derive(Clone, Copy, PartialEq, Eq, Structural, Debug)]
pub enum CSSPadding {
    CSSPaddingLength(Length),
    CSSPaddingPercentage(Fixed),
}

#[derive(Clone, Copy, PartialEq, Eq, Structural, Debug)]
pub enum CSSBorderWidth {
    CSSBorderWidthThin,
    CSSBorderWidthMedium,
    CSSBorderWidthThick,
    CSSBorderWidthLength(Length),
}

#[derive(Clone, Copy, PartialEq, Eq, Structural, Debug)]
pub enum CSSBorderColor {
    CSSBorderColorColor(Color),
    CSSBorderColorTransparent,
}

#[derive(Clone, Copy, PartialEq, Eq, Structural, Debug)]
pub enum CSSBorderStyle {
    CSSBorderStyleNone,
    CSSBorderStyleHidden,
    CSSBorderStyleDotted,
    CSSBorderStyleDashed,
    CSSBorderStyleSolid,
    CSSBorderStyleDouble,
    CSSBorderStyleGroove,
    CSSBorderStyleRidge,
    CSSBorderStyleInset,
    CSSBorderStyleOutset,
}

// CSS 2.1, Section 9 - Visual formatting model

#[derive(Clone, Copy, PartialEq, Eq, Structural, Debug)]
pub enum CSSDisplay {
    CSSDisplayInline,
    CSSDisplayBlock,
    CSSDisplayListItem,
    CSSDisplayInlineBlock,
    CSSDisplayTable,
    CSSDisplayInlineTable,
    CSSDisplayTableRowGroup,
    CSSDisplayTableHeaderGroup,
    CSSDisplayTableFooterGroup,
    CSSDisplayTableRow,
    CSSDisplayTableColumnGroup,
    CSSDisplayTableColumn,
    CSSDisplayTableCell,
    CSSDisplayTableCaption,
    CSSDisplayNone,
}

#[derive(Clone, Copy, PartialEq, Eq, Structural, Debug)]
pub enum CSSPosition {
    CSSPositionStatic,
    CSSPositionRelative,
    CSSPositionAbsolute,
    CSSPositionFixed,
}

#[derive(Clone, Copy, PartialEq, Eq, Structural, Debug)]
pub enum CSSTop {
    CSSTopLength(Length),
    CSSTopPercentage(Fixed),
    CSSTopAuto,
}

#[derive(Clone, Copy, PartialEq, Eq, Structural, Debug)]
pub enum CSSRight {
    CSSRightLength(Length),
    CSSRightPercentage(Fixed),
    CSSRightAuto,
}

#[derive(Clone, Copy, PartialEq, Eq, Structural, Debug)]
pub enum CSSBottom {
    CSSBottomLength(Length),
    CSSBottomPercentage(Fixed),
    CSSBottomAuto,
}

#[derive(Clone, Copy, PartialEq, Eq, Structural, Debug)]
pub enum CSSLeft {
    CSSLeftLength(Length),
    CSSLeftPercentage(Fixed),
    CSSLeftAuto,
}

#[derive(Clone, Copy, PartialEq, Eq, Structural, Debug)]
pub enum CSSFloat {
    CSSFloatLeft,
    CSSFloatRight,
    CSSFloatNone,
}

#[derive(Clone, Copy, PartialEq, Eq, Structural, Debug)]
pub enum CSSClear {
    CSSClearLeft,
    CSSClearRight,
    CSSClearBoth,
    CSSClearNone,
}

#[derive(Clone, Copy, PartialEq, Eq, Structural, Debug)]
pub enum CSSDirection {
    CSSDirectionLtr,
    CSSDirectionRtl,
}

// CSS 2.1, Section 10 - Visual formatting model details

#[derive(Clone, Copy, PartialEq, Eq, Structural, Debug)]
pub enum CSSWidth {
    CSSWidthLength(Length),
    CSSWidthPercentage(Fixed),
    CSSWidthAuto,
}

#[derive(Clone, Copy, PartialEq, Eq, Structural, Debug)]
pub enum CSSHeight {
    CSSHeightLength(Length),
    CSSHeightPercentage(Fixed),
    CSSHeightAuto,
}

#[derive(Clone, Copy, PartialEq, Eq, Structural, Debug)]
pub enum CSSLineHeight {
    CSSLineHeightNormal,
    CSSLineHeightNumber(Fixed),
    CSSLineHeightLength(Length),
    CSSLineHeightPercentage(Fixed),
}

#[derive(Clone, Copy, PartialEq, Eq, Structural, Debug)]
pub enum CSSVerticalAlign {
    CSSVerticalAlignBaseline,
    CSSVerticalAlignSub,
    CSSVerticalAlignSuper,
    CSSVerticalAlignTop,
    CSSVerticalAlignTextTop,
    CSSVerticalAlignMiddle,
    CSSVerticalAlignBottom,
    CSSVerticalAlignTextBottom,
    CSSVerticalAlignPercentage(Fixed),
    CSSVerticalAlignLength(Length),
}

// CSS 2.1, Section 11 - Visual effects

#[derive(Clone, Copy, PartialEq, Eq, Structural, Debug)]
pub enum CSSOverflow {
    CSSOverflowVisible,
    CSSOverflowHidden,
    CSSOverflowScroll,
    CSSOverflowAuto,
}

#[derive(Clone, Copy, PartialEq, Eq, Structural, Debug)]
pub enum CSSVisibility {
    CSSVisibilityVisible,
    CSSVisibilityHidden,
    CSSVisibilityCollapse,
}

// CSS 2.1, Section 14 - Colors and Backgrounds

#[derive(Clone, Copy, PartialEq, Eq, Structural, Debug)]
pub enum CSSColor {
    CSSColorColor(Color),
}

#[derive(Clone, Copy, PartialEq, Eq, Structural, Debug)]
pub enum CSSBackgroundColor {
    CSSBackgroundColorColor(Color),
    CSSBackgroundColorTransparent,
}

/// A background image, its location held as the written URL text.
#[derive(Clone, PartialEq, Eq, Debug)]
pub enum CSSBackgroundImage {
    CSSBackgroundUri(String),
    CSSBackgroundImageNone,
}

#[derive(Clone, Copy, PartialEq, Eq, Structural, Debug)]
pub enum CSSBackgroundRepeat {
    CSSBackgroundRepeatRepeat,
    CSSBackgroundRepeatRepeatX,
    CSSBackgroundRepeatRepeatY,
    CSSBackgroundRepeatNoRepeat,
}

#[derive(Clone, Copy, PartialEq, Eq, Structural, Debug)]
pub enum CSSBackgroundAttachment {
    CSSBackgroundAttachmentScroll,
    CSSBackgroundAttachmentFixed,
}

#[derive(Clone, Copy, PartialEq, Eq, Structural, Debug)]
pub enum CSSBackgroundPosition {
    CSSBackgroundPositionPercentage(Fixed),
    CSSBackgroundPositionLength(Length),
    CSSBackgroundPositionLeft,
    CSSBackgroundPositionCenter,
    CSSBackgroundPositionRight,
    CSSBackgroundPositionTop,
    CSSBackgroundPositionBottom,
}

// CSS 2.1, Section 15 - Fonts

/// One entry of a font-family list: a written family name, or a generic
/// family keyword.
#[derive(Clone, PartialEq, Eq, Debug)]
pub enum CSSFontFamily {
    CSSFontFamilyFamilyName(String),
    CSSFontFamilyGenericFamily(GenericFontFamily),
}

#[derive(Clone, Copy, PartialEq, Eq, Structural, Debug)]
pub enum CSSFontStyle {
    CSSFontStyleNormal,
    CSSFontStyleItalic,
    CSSFontStyleOblique,
}

#[derive(Clone, Copy, PartialEq, Eq, Structural, Debug)]
pub enum CSSFontWeight {
    CSSFontWeightNormal,
    CSSFontWeightBold,
    CSSFontWeightBolder,
    CSSFontWeightLighter,
    CSSFontWeight100,
    CSSFontWeight200,
    CSSFontWeight300,
    CSSFontWeight400,
    CSSFontWeight500,
    CSSFontWeight600,
    CSSFontWeight700,
    CSSFontWeight800,
    CSSFontWeight900,
}

#[derive(Clone, Copy, PartialEq, Eq, Structural, Debug)]
pub enum CSSFontSize {
    CSSFontSizeAbsoluteSize(AbsoluteSize),
    CSSFontSizeRelativeSize(RelativeSize),
    CSSFontSizeLength(Length),
    CSSFontSizePercentage(Fixed),
}

// CSS 2.1, Section 16 - Text

#[derive(Clone, Copy, PartialEq, Eq, Structural, Debug)]
pub enum CSSTextAlign {
    CSSTextAlignLeft,
    CSSTextAlignRight,
    CSSTextAlignCenter,
    CSSTextAlignJustify,
}

#[derive(Clone, Copy, PartialEq, Eq, Structural, Debug)]
pub enum CSSTextDecoration {
    CSSTextDecorationNone,
    CSSTextDecorationUnderline,
    CSSTextDecorationOverline,
    CSSTextDecorationLineThrough,
    CSSTextDecorationBlink,
}

#[derive(Clone, Copy, PartialEq, Eq, Structural, Debug)]
pub enum CSSTextTransform {
    CSSTextTransformCapitalize,
    CSSTextTransformUppercase,
    CSSTextTransformLowercase,
    CSSTextTransformNone,
}

} // verus!
