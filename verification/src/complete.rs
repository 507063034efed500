//! The cascade and inheritance resolver. Given a parent's fully resolved
//! style and a child's computed style, it produces the child's fully
//! resolved style: inherit sentinels adopt the parent's resolved hint,
//! a relative font size is resolved against the parent's absolute one,
//! and everything else passes through. A resolved style answers every
//! property with a concrete value; an inherit marker surviving resolution
//! is a resolver defect, ruled out here by the resolver's postconditions.

use vstd::prelude::*;
use crate::computed::{
    ComputedStyle, ff_list_view, spec_convert_border_style, spec_convert_border_width,
    spec_convert_clear, spec_convert_color_value, spec_convert_display, spec_convert_float,
    spec_convert_font_family, spec_convert_font_size, spec_convert_font_style,
    spec_convert_font_weight, spec_convert_height, spec_convert_line_height,
    spec_convert_margin, spec_convert_padding, spec_convert_position, spec_convert_text_align,
    spec_convert_text_decoration, spec_convert_vertical_align, spec_convert_width,
    spec_root_display,
};
use crate::color::Color;
use crate::fixed::{Fixed, fixed_mul_micro, fixed_pct_micro};
use crate::hint::{
    copy_font_family, CssBorderStyleValue, CssBorderWidthValue, CssClearValue, CssColorValue,
    CssComputedStyle, CssDisplayValue, CssFloatValue, CssFontFamilyValue, CssFontSizeValue,
    CssFontStyleValue, CssFontWeightValue, CssHeightValue, CssLineHeightValue, CssMarginValue,
    CssPaddingValue, CssPositionValue, CssTextAlignValue, CssTextDecorationValue, CssUnit,
    CssVerticalAlignValue, CssWidthValue, FontFamilyHint,
};
use crate::select::SelectResults;
use crate::values::{
    CSSBorderStyle, CSSBorderWidth, CSSClear, CSSDisplay, CSSFloat, CSSFontFamily, CSSFontSize,
    CSSFontStyle, CSSFontWeight, CSSHeight, CSSLineHeight, CSSMargin, CSSPadding, CSSPosition,
    CSSTextAlign, CSSTextDecoration, CSSValue, CSSVerticalAlign, CSSWidth,
};

verus! {

/// The cascade of one margin hint: an inherit sentinel adopts the
/// parent's resolved hint; anything else passes through.
pub open spec fn composed_margin(p: CssMarginValue, c: CssMarginValue) -> CssMarginValue {
    if c is CssMarginInherit {
        p
    } else {
        c
    }
}

/// The cascade of one padding hint: an inherit sentinel adopts the
/// parent's resolved hint; anything else passes through.
pub open spec fn composed_padding(p: CssPaddingValue, c: CssPaddingValue) -> CssPaddingValue {
    if c is CssPaddingInherit {
        p
    } else {
        c
    }
}

/// The cascade of one border style hint: an inherit sentinel adopts the
/// parent's resolved hint; anything else passes through.
pub open spec fn composed_border_style(
    p: CssBorderStyleValue,
    c: CssBorderStyleValue,
) -> CssBorderStyleValue {
    if c is CssBorderStyleInherit {
        p
    } else {
        c
    }
}

/// The cascade of one border width hint: an inherit sentinel adopts the
/// parent's resolved hint; anything else passes through.
pub open spec fn composed_border_width(
    p: CssBorderWidthValue,
    c: CssBorderWidthValue,
) -> CssBorderWidthValue {
    if c is CssBorderWidthInherit {
        p
    } else {
        c
    }
}

/// The cascade of one color value hint: an inherit sentinel adopts the
/// parent's resolved hint; anything else passes through.
pub open spec fn composed_color_value(p: CssColorValue, c: CssColorValue) -> CssColorValue {
    if c is CssColorInherit {
        p
    } else {
        c
    }
}

/// The cascade of one display hint: an inherit sentinel adopts the
/// parent's resolved hint; anything else passes through.
pub open spec fn composed_display(p: CssDisplayValue, c: CssDisplayValue) -> CssDisplayValue {
    if c is CssDisplayInherit {
        p
    } else {
        c
    }
}

/// The cascade of one position hint: an inherit sentinel adopts the
/// parent's resolved hint; anything else passes through.
pub open spec fn composed_position(p: CssPositionValue, c: CssPositionValue) -> CssPositionValue {
    if c is CssPositionInherit {
        p
    } else {
        c
    }
}

/// The cascade of one float hint: an inherit sentinel adopts the
/// parent's resolved hint; anything else passes through.
pub open spec fn composed_float(p: CssFloatValue, c: CssFloatValue) -> CssFloatValue {
    if c is CssFloatInherit {
        p
    } else {
        c
    }
}

/// The cascade of one clear hint: an inherit sentinel adopts the
/// parent's resolved hint; anything else passes through.
pub open spec fn composed_clear(p: CssClearValue, c: CssClearValue) -> CssClearValue {
    if c is CssClearInherit {
        p
    } else {
        c
    }
}

/// The cascade of one width hint: an inherit sentinel adopts the
/// parent's resolved hint; anything else passes through.
pub open spec fn composed_width(p: CssWidthValue, c: CssWidthValue) -> CssWidthValue {
    if c is CssWidthInherit {
        p
    } else {
        c
    }
}

/// The cascade of one height hint: an inherit sentinel adopts the
/// parent's resolved hint; anything else passes through.
pub open spec fn composed_height(p: CssHeightValue, c: CssHeightValue) -> CssHeightValue {
    if c is CssHeightInherit {
        p
    } else {
        c
    }
}

/// The cascade of one line height hint: an inherit sentinel adopts the
/// parent's resolved hint; anything else passes through.
pub open spec fn composed_line_height(
    p: CssLineHeightValue,
    c: CssLineHeightValue,
) -> CssLineHeightValue {
    if c is CssLineHeightInherit {
        p
    } else {
        c
    }
}

/// The cascade of one vertical align hint: an inherit sentinel adopts the
/// parent's resolved hint; anything else passes through.
pub open spec fn composed_vertical_align(
    p: CssVerticalAlignValue,
    c: CssVerticalAlignValue,
) -> CssVerticalAlignValue {
    if c is CssVerticalAlignInherit {
        p
    } else {
        c
    }
}

/// The cascade of one font style hint: an inherit sentinel adopts the
/// parent's resolved hint; anything else passes through.
pub open spec fn composed_font_style(
    p: CssFontStyleValue,
    c: CssFontStyleValue,
) -> CssFontStyleValue {
    if c is CssFontStyleInherit {
        p
    } else {
        c
    }
}

/// The cascade of one font weight hint: an inherit sentinel adopts the
/// parent's resolved hint; anything else passes through.
pub open spec fn composed_font_weight(
    p: CssFontWeightValue,
    c: CssFontWeightValue,
) -> CssFontWeightValue {
    if c is CssFontWeightInherit {
        p
    } else {
        c
    }
}

/// The cascade of one text align hint: an inherit sentinel adopts the
/// parent's resolved hint; anything else passes through.
pub open spec fn composed_text_align(
    p: CssTextAlignValue,
    c: CssTextAlignValue,
) -> CssTextAlignValue {
    if c is CssTextAlignInherit {
        p
    } else {
        c
    }
}

/// The cascade of one text decoration hint: an inherit sentinel adopts the
/// parent's resolved hint; anything else passes through.
pub open spec fn composed_text_decoration(
    p: CssTextDecorationValue,
    c: CssTextDecorationValue,
) -> CssTextDecorationValue {
    if c is CssTextDecorationInherit {
        p
    } else {
        c
    }
}

/// The cascade of the font-family hint, over abstract contents.
pub open spec fn composed_font_family(p: FontFamilyHint, c: FontFamilyHint) -> FontFamilyHint {
    if c is Inherit {
        p
    } else {
        c
    }
}

/// The baseline font size adopted where no parent value is available:
/// sixteen pixels.
pub open spec fn baseline_font_size() -> CssFontSizeValue {
    CssFontSizeValue::CssFontSizeDimension(CssUnit::CssUnitPx(Fixed { micro: 16_000_000 }))
}

/// The cascade of the font-size hint, the one property whose specified
/// value is resolved against the parent: an inherit sentinel adopts the
/// parent's hint; an `em` dimension multiplies the parent's resolved
/// dimension; a percentage scales it; an absolute dimension passes
/// through; anything else falls back to the baseline font size.
pub open spec fn composed_font_size(p: CssFontSizeValue, c: CssFontSizeValue) -> CssFontSizeValue {
    match c {
        CssFontSizeValue::CssFontSizeInherit => p,
        CssFontSizeValue::CssFontSizeDimension(u) => match u {
            CssUnit::CssUnitEm(m) => match p {
                CssFontSizeValue::CssFontSizeDimension(
                    pu,
                ) => CssFontSizeValue::CssFontSizeDimension(
                    pu.spec_modify(
                        Fixed {
                            micro: fixed_mul_micro(
                                pu.spec_to_fixed().micro as int,
                                m.micro as int,
                            ) as i64,
                        },
                    ),
                ),
                _ => baseline_font_size(),
            },
            CssUnit::CssUnitPct(m) => match p {
                CssFontSizeValue::CssFontSizeDimension(
                    pu,
                ) => CssFontSizeValue::CssFontSizeDimension(
                    pu.spec_modify(
                        Fixed {
                            micro: fixed_pct_micro(
                                pu.spec_to_fixed().micro as int,
                                m.micro as int,
                            ) as i64,
                        },
                    ),
                ),
                _ => baseline_font_size(),
            },
            _ => c,
        },
        _ => baseline_font_size(),
    }
}

/// Whether a font-size hint is resolved: an absolute dimension, free of
/// relative units.
pub open spec fn font_size_resolved(v: CssFontSizeValue) -> bool {
    match v {
        CssFontSizeValue::CssFontSizeDimension(u) => u is CssUnitPx || u is CssUnitPt,
        _ => false,
    }
}

/// The child's resolved style as a function of the parent's resolved style
/// and the child's computed style, one cascade per property.
pub open spec fn spec_compose(p: CssComputedStyle, c: CssComputedStyle) -> CssComputedStyle {
    CssComputedStyle {
        margin_top: composed_margin(p.margin_top, c.margin_top),
        margin_right: composed_margin(p.margin_right, c.margin_right),
        margin_bottom: composed_margin(p.margin_bottom, c.margin_bottom),
        margin_left: composed_margin(p.margin_left, c.margin_left),
        padding_top: composed_padding(p.padding_top, c.padding_top),
        padding_right: composed_padding(p.padding_right, c.padding_right),
        padding_bottom: composed_padding(p.padding_bottom, c.padding_bottom),
        padding_left: composed_padding(p.padding_left, c.padding_left),
        border_top_style: composed_border_style(p.border_top_style, c.border_top_style),
        border_right_style: composed_border_style(p.border_right_style, c.border_right_style),
        border_bottom_style: composed_border_style(p.border_bottom_style, c.border_bottom_style),
        border_left_style: composed_border_style(p.border_left_style, c.border_left_style),
        border_top_width: composed_border_width(p.border_top_width, c.border_top_width),
        border_right_width: composed_border_width(p.border_right_width, c.border_right_width),
        border_bottom_width: composed_border_width(p.border_bottom_width, c.border_bottom_width),
        border_left_width: composed_border_width(p.border_left_width, c.border_left_width),
        border_top_color: composed_color_value(p.border_top_color, c.border_top_color),
        border_right_color: composed_color_value(p.border_right_color, c.border_right_color),
        border_bottom_color: composed_color_value(p.border_bottom_color, c.border_bottom_color),
        border_left_color: composed_color_value(p.border_left_color, c.border_left_color),
        display: composed_display(p.display, c.display),
        position: composed_position(p.position, c.position),
        float: composed_float(p.float, c.float),
        clear: composed_clear(p.clear, c.clear),
        width: composed_width(p.width, c.width),
        height: composed_height(p.height, c.height),
        line_height: composed_line_height(p.line_height, c.line_height),
        vertical_align: composed_vertical_align(p.vertical_align, c.vertical_align),
        background_color: composed_color_value(p.background_color, c.background_color),
        color: composed_color_value(p.color, c.color),
        font_family: if c.font_family is CssFontFamilyInherit {
            p.font_family
        } else {
            c.font_family
        },
        font_style: composed_font_style(p.font_style, c.font_style),
        font_weight: composed_font_weight(p.font_weight, c.font_weight),
        font_size: composed_font_size(p.font_size, c.font_size),
        text_align: composed_text_align(p.text_align, c.text_align),
        text_decoration: composed_text_decoration(p.text_decoration, c.text_decoration),
    }
}

/// Whether two computed styles agree property by property; written
/// font-family names are compared letter for letter.
pub open spec fn style_eq_view(a: CssComputedStyle, b: CssComputedStyle) -> bool {
    &&& a == (CssComputedStyle { font_family: a.font_family, ..b })
    &&& a.font_family.view_hint() == b.font_family.view_hint()
}

/// Resolves the font-size cascade.
fn compose_font_size(p: CssFontSizeValue, c: CssFontSizeValue) -> (r: CssFontSizeValue)
    requires
        crate::hint::font_size_supported(p),
        crate::hint::font_size_supported(c),
    ensures
        r == composed_font_size(p, c),
{
    match c {
        CssFontSizeValue::CssFontSizeInherit => p,
        CssFontSizeValue::CssFontSizeDimension(u) => match u {
            CssUnit::CssUnitEm(m) => match p {
                CssFontSizeValue::CssFontSizeDimension(pu) => {
                    let scaled = pu.to_fixed().mul(m);
                    CssFontSizeValue::CssFontSizeDimension(pu.modify(scaled))
                },
                _ => CssFontSizeValue::CssFontSizeDimension(
                    CssUnit::CssUnitPx(Fixed::of_micro(16_000_000)),
                ),
            },
            CssUnit::CssUnitPct(m) => match p {
                CssFontSizeValue::CssFontSizeDimension(pu) => {
                    let scaled = pu.to_fixed().scale_percent(m);
                    CssFontSizeValue::CssFontSizeDimension(pu.modify(scaled))
                },
                _ => CssFontSizeValue::CssFontSizeDimension(
                    CssUnit::CssUnitPx(Fixed::of_micro(16_000_000)),
                ),
            },
            _ => c,
        },
        _ => CssFontSizeValue::CssFontSizeDimension(
            CssUnit::CssUnitPx(Fixed::of_micro(16_000_000)),
        ),
    }
}

/// Resolves a child's computed style against the parent's resolved one.
fn compose(parent: &CssComputedStyle, child: CssComputedStyle) -> (r: CssComputedStyle)
    requires
        parent.supported(),
        child.supported(),
    ensures
        style_eq_view(r, spec_compose(*parent, child)),
        r.supported(),
        parent.complete() ==> r.complete(),
        parent.complete() && font_size_resolved(parent.font_size) ==> font_size_resolved(
            r.font_size,
        ),
{
    CssComputedStyle {
        margin_top: if matches!(child.margin_top, CssMarginValue::CssMarginInherit) {
            parent.margin_top
        } else {
            child.margin_top
        },
        margin_right: if matches!(child.margin_right, CssMarginValue::CssMarginInherit) {
            parent.margin_right
        } else {
            child.margin_right
        },
        margin_bottom: if matches!(child.margin_bottom, CssMarginValue::CssMarginInherit) {
            parent.margin_bottom
        } else {
            child.margin_bottom
        },
        margin_left: if matches!(child.margin_left, CssMarginValue::CssMarginInherit) {
            parent.margin_left
        } else {
            child.margin_left
        },
        padding_top: if matches!(child.padding_top, CssPaddingValue::CssPaddingInherit) {
            parent.padding_top
        } else {
            child.padding_top
        },
        padding_right: if matches!(child.padding_right, CssPaddingValue::CssPaddingInherit) {
            parent.padding_right
        } else {
            child.padding_right
        },
        padding_bottom: if matches!(child.padding_bottom, CssPaddingValue::CssPaddingInherit) {
            parent.padding_bottom
        } else {
            child.padding_bottom
        },
        padding_left: if matches!(child.padding_left, CssPaddingValue::CssPaddingInherit) {
            parent.padding_left
        } else {
            child.padding_left
        },
        border_top_style: if matches!(child.border_top_style, CssBorderStyleValue::CssBorderStyleInherit) {
            parent.border_top_style
        } else {
            child.border_top_style
        },
        border_right_style: if matches!(child.border_right_style, CssBorderStyleValue::CssBorderStyleInherit) {
            parent.border_right_style
        } else {
            child.border_right_style
        },
        border_bottom_style: if matches!(child.border_bottom_style, CssBorderStyleValue::CssBorderStyleInherit) {
            parent.border_bottom_style
        } else {
            child.border_bottom_style
        },
        border_left_style: if matches!(child.border_left_style, CssBorderStyleValue::CssBorderStyleInherit) {
            parent.border_left_style
        } else {
            child.border_left_style
        },
        border_top_width: if matches!(child.border_top_width, CssBorderWidthValue::CssBorderWidthInherit) {
            parent.border_top_width
        } else {
            child.border_top_width
        },
        border_right_width: if matches!(child.border_right_width, CssBorderWidthValue::CssBorderWidthInherit) {
            parent.border_right_width
        } else {
            child.border_right_width
        },
        border_bottom_width: if matches!(child.border_bottom_width, CssBorderWidthValue::CssBorderWidthInherit) {
            parent.border_bottom_width
        } else {
            child.border_bottom_width
        },
        border_left_width: if matches!(child.border_left_width, CssBorderWidthValue::CssBorderWidthInherit) {
            parent.border_left_width
        } else {
            child.border_left_width
        },
        border_top_color: if matches!(child.border_top_color, CssColorValue::CssColorInherit) {
            parent.border_top_color
        } else {
            child.border_top_color
        },
        border_right_color: if matches!(child.border_right_color, CssColorValue::CssColorInherit) {
            parent.border_right_color
        } else {
            child.border_right_color
        },
        border_bottom_color: if matches!(child.border_bottom_color, CssColorValue::CssColorInherit) {
            parent.border_bottom_color
        } else {
            child.border_bottom_color
        },
        border_left_color: if matches!(child.border_left_color, CssColorValue::CssColorInherit) {
            parent.border_left_color
        } else {
            child.border_left_color
        },
        display: if matches!(child.display, CssDisplayValue::CssDisplayInherit) {
            parent.display
        } else {
            child.display
        },
        position: if matches!(child.position, CssPositionValue::CssPositionInherit) {
            parent.position
        } else {
            child.position
        },
        float: if matches!(child.float, CssFloatValue::CssFloatInherit) {
            parent.float
        } else {
            child.float
        },
        clear: if matches!(child.clear, CssClearValue::CssClearInherit) {
            parent.clear
        } else {
            child.clear
        },
        width: if matches!(child.width, CssWidthValue::CssWidthInherit) {
            parent.width
        } else {
            child.width
        },
        height: if matches!(child.height, CssHeightValue::CssHeightInherit) {
            parent.height
        } else {
            child.height
        },
        line_height: if matches!(child.line_height, CssLineHeightValue::CssLineHeightInherit) {
            parent.line_height
        } else {
            child.line_height
        },
        vertical_align: if matches!(child.vertical_align, CssVerticalAlignValue::CssVerticalAlignInherit) {
            parent.vertical_align
        } else {
            child.vertical_align
        },
        background_color: if matches!(child.background_color, CssColorValue::CssColorInherit) {
            parent.background_color
        } else {
            child.background_color
        },
        color: if matches!(child.color, CssColorValue::CssColorInherit) {
            parent.color
        } else {
            child.color
        },
        font_family: if matches!(child.font_family, CssFontFamilyValue::CssFontFamilyInherit) {
            copy_font_family(&parent.font_family)
        } else {
            child.font_family
        },
        font_style: if matches!(child.font_style, CssFontStyleValue::CssFontStyleInherit) {
            parent.font_style
        } else {
            child.font_style
        },
        font_weight: if matches!(child.font_weight, CssFontWeightValue::CssFontWeightInherit) {
            parent.font_weight
        } else {
            child.font_weight
        },
        font_size: compose_font_size(parent.font_size, child.font_size),
        text_align: if matches!(child.text_align, CssTextAlignValue::CssTextAlignInherit) {
            parent.text_align
        } else {
            child.text_align
        },
        text_decoration: if matches!(
            child.text_decoration,
            CssTextDecorationValue::CssTextDecorationInherit,
        ) {
            parent.text_decoration
        } else {
            child.text_decoration
        },
    }
}

/// The baseline resolved style that stands in for the root's parent: the
/// CSS 2.1 initial values of the covered properties, with the baseline
/// font size, a black text color and a fully transparent background.
pub open spec fn spec_baseline_style() -> CssComputedStyle {
    CssComputedStyle {
        margin_top: CssMarginValue::CssMarginSet(CssUnit::CssUnitPx(Fixed { micro: 0 })),
        margin_right: CssMarginValue::CssMarginSet(CssUnit::CssUnitPx(Fixed { micro: 0 })),
        margin_bottom: CssMarginValue::CssMarginSet(CssUnit::CssUnitPx(Fixed { micro: 0 })),
        margin_left: CssMarginValue::CssMarginSet(CssUnit::CssUnitPx(Fixed { micro: 0 })),
        padding_top: CssPaddingValue::CssPaddingSet(CssUnit::CssUnitPx(Fixed { micro: 0 })),
        padding_right: CssPaddingValue::CssPaddingSet(CssUnit::CssUnitPx(Fixed { micro: 0 })),
        padding_bottom: CssPaddingValue::CssPaddingSet(CssUnit::CssUnitPx(Fixed { micro: 0 })),
        padding_left: CssPaddingValue::CssPaddingSet(CssUnit::CssUnitPx(Fixed { micro: 0 })),
        border_top_style: CssBorderStyleValue::CssBorderStyleNone,
        border_right_style: CssBorderStyleValue::CssBorderStyleNone,
        border_bottom_style: CssBorderStyleValue::CssBorderStyleNone,
        border_left_style: CssBorderStyleValue::CssBorderStyleNone,
        border_top_width: CssBorderWidthValue::CssBorderWidthMedium,
        border_right_width: CssBorderWidthValue::CssBorderWidthMedium,
        border_bottom_width: CssBorderWidthValue::CssBorderWidthMedium,
        border_left_width: CssBorderWidthValue::CssBorderWidthMedium,
        border_top_color: CssColorValue::CssColorColor(
            crate::hint::CssColor { a: 255, r: 0, g: 0, b: 0 },
        ),
        border_right_color: CssColorValue::CssColorColor(
            crate::hint::CssColor { a: 255, r: 0, g: 0, b: 0 },
        ),
        border_bottom_color: CssColorValue::CssColorColor(
            crate::hint::CssColor { a: 255, r: 0, g: 0, b: 0 },
        ),
        border_left_color: CssColorValue::CssColorColor(
            crate::hint::CssColor { a: 255, r: 0, g: 0, b: 0 },
        ),
        display: CssDisplayValue::CssDisplayInline,
        position: CssPositionValue::CssPositionStatic,
        float: CssFloatValue::CssFloatNone,
        clear: CssClearValue::CssClearNone,
        width: CssWidthValue::CssWidthAuto,
        height: CssHeightValue::CssHeightAuto,
        line_height: CssLineHeightValue::CssLineHeightNormal,
        vertical_align: CssVerticalAlignValue::CssVerticalAlignBaseline,
        background_color: CssColorValue::CssColorColor(
            crate::hint::CssColor { a: 0, r: 0, g: 0, b: 0 },
        ),
        color: CssColorValue::CssColorColor(crate::hint::CssColor { a: 255, r: 0, g: 0, b: 0 }),
        font_family: CssFontFamilyValue::CssFontFamilySerif,
        font_style: CssFontStyleValue::CssFontStyleNormal,
        font_weight: CssFontWeightValue::CssFontWeightNormal,
        font_size: baseline_font_size(),
        text_align: CssTextAlignValue::CssTextAlignLeft,
        text_decoration: CssTextDecorationValue::CssTextDecorationNone,
    }
}

/// Builds the baseline resolved style.
pub fn baseline_style() -> (r: CssComputedStyle)
    ensures
        r == spec_baseline_style(),
        r.supported(),
        r.complete(),
        font_size_resolved(r.font_size),
{
    CssComputedStyle {
        margin_top: CssMarginValue::CssMarginSet(CssUnit::CssUnitPx(Fixed::of_micro(0))),
        margin_right: CssMarginValue::CssMarginSet(CssUnit::CssUnitPx(Fixed::of_micro(0))),
        margin_bottom: CssMarginValue::CssMarginSet(CssUnit::CssUnitPx(Fixed::of_micro(0))),
        margin_left: CssMarginValue::CssMarginSet(CssUnit::CssUnitPx(Fixed::of_micro(0))),
        padding_top: CssPaddingValue::CssPaddingSet(CssUnit::CssUnitPx(Fixed::of_micro(0))),
        padding_right: CssPaddingValue::CssPaddingSet(CssUnit::CssUnitPx(Fixed::of_micro(0))),
        padding_bottom: CssPaddingValue::CssPaddingSet(CssUnit::CssUnitPx(Fixed::of_micro(0))),
        padding_left: CssPaddingValue::CssPaddingSet(CssUnit::CssUnitPx(Fixed::of_micro(0))),
        border_top_style: CssBorderStyleValue::CssBorderStyleNone,
        border_right_style: CssBorderStyleValue::CssBorderStyleNone,
        border_bottom_style: CssBorderStyleValue::CssBorderStyleNone,
        border_left_style: CssBorderStyleValue::CssBorderStyleNone,
        border_top_width: CssBorderWidthValue::CssBorderWidthMedium,
        border_right_width: CssBorderWidthValue::CssBorderWidthMedium,
        border_bottom_width: CssBorderWidthValue::CssBorderWidthMedium,
        border_left_width: CssBorderWidthValue::CssBorderWidthMedium,
        border_top_color: CssColorValue::CssColorColor(
            crate::hint::CssColor { a: 255, r: 0, g: 0, b: 0 },
        ),
        border_right_color: CssColorValue::CssColorColor(
            crate::hint::CssColor { a: 255, r: 0, g: 0, b: 0 },
        ),
        border_bottom_color: CssColorValue::CssColorColor(
            crate::hint::CssColor { a: 255, r: 0, g: 0, b: 0 },
        ),
        border_left_color: CssColorValue::CssColorColor(
            crate::hint::CssColor { a: 255, r: 0, g: 0, b: 0 },
        ),
        display: CssDisplayValue::CssDisplayInline,
        position: CssPositionValue::CssPositionStatic,
        float: CssFloatValue::CssFloatNone,
        clear: CssClearValue::CssClearNone,
        width: CssWidthValue::CssWidthAuto,
        height: CssHeightValue::CssHeightAuto,
        line_height: CssLineHeightValue::CssLineHeightNormal,
        vertical_align: CssVerticalAlignValue::CssVerticalAlignBaseline,
        background_color: CssColorValue::CssColorColor(
            crate::hint::CssColor { a: 0, r: 0, g: 0, b: 0 },
        ),
        color: CssColorValue::CssColorColor(crate::hint::CssColor { a: 255, r: 0, g: 0, b: 0 }),
        font_family: CssFontFamilyValue::CssFontFamilySerif,
        font_style: CssFontStyleValue::CssFontStyleNormal,
        font_weight: CssFontWeightValue::CssFontWeightNormal,
        font_size: CssFontSizeValue::CssFontSizeDimension(
            CssUnit::CssUnitPx(Fixed::of_micro(16_000_000)),
        ),
        text_align: CssTextAlignValue::CssTextAlignLeft,
        text_decoration: CssTextDecorationValue::CssTextDecorationNone,
    }
}

/// A node's selection result with the cascade fully resolved: no property
/// answers `inherit` any more, and the font size is an absolute dimension.
pub struct CompleteSelectResults {
    pub inner: SelectResults,
}

impl CompleteSelectResults {
    /// The resolved style is supported, complete and carries an absolute
    /// font size; every constructor establishes this and every reader may
    /// rely on it.
    pub open spec fn wf(&self) -> bool {
        &&& self.inner.inner.supported()
        &&& self.inner.inner.complete()
        &&& font_size_resolved(self.inner.inner.font_size)
    }

    /// Resolves the root node's style: with no parent to inherit from,
    /// every inherit sentinel and relative font size resolves against the
    /// baseline initial values.
    pub fn new_root(root: SelectResults) -> (r: CompleteSelectResults)
        requires
            root.inner.supported(),
        ensures
            r.wf(),
            style_eq_view(r.inner.inner, spec_compose(spec_baseline_style(), root.inner)),
    {
        let base = baseline_style();
        CompleteSelectResults { inner: SelectResults { inner: compose(&base, root.inner) } }
    }

    /// Resolves a child's style against its parent's resolved style:
    /// inherit sentinels adopt the parent's resolved hint, a relative font
    /// size multiplies the parent's absolute one, and all other specified
    /// values pass through unchanged.
    pub fn new_from_parent(parent: &CompleteSelectResults, child: SelectResults) -> (r:
        CompleteSelectResults)
        requires
            parent.wf(),
            child.inner.supported(),
        ensures
            r.wf(),
            style_eq_view(r.inner.inner, spec_compose(parent.inner.inner, child.inner)),
    {
        CompleteSelectResults {
            inner: SelectResults { inner: compose(&parent.inner.inner, child.inner) },
        }
    }

    /// The resolved style, read through the stripping accessor surface.
    pub fn computed_style<'a>(&'a self) -> (r: CompleteStyle<'a>)
        requires
            self.wf(),
        ensures
            r.wf(),
            *r.inner.inner == self.inner.inner,
    {
        CompleteStyle { inner: self.inner.computed_style() }
    }
}

/// A resolved style's accessor surface: one getter per covered property,
/// each answering a concrete value, never the inherit wrapper.
pub struct CompleteStyle<'a> {
    pub inner: ComputedStyle<'a>,
}

/// Unwraps a value that resolution has made concrete. Meeting an inherit
/// marker here would be a resolver defect; the precondition rules it out.
fn strip<T>(value: CSSValue<T>) -> (r: T)
    requires
        value is Specified,
    ensures
        value == CSSValue::Specified(r),
{
    match value {
        CSSValue::Inherit => unreached(),
        CSSValue::Specified(v) => v,
    }
}

impl<'a> CompleteStyle<'a> {
    /// The underlying style is supported, complete, and carries an
    /// absolute font size.
    pub open spec fn wf(&self) -> bool {
        &&& (*self.inner.inner).supported()
        &&& (*self.inner.inner).complete()
        &&& font_size_resolved((*self.inner.inner).font_size)
    }

    // CSS 2.1, Section 8 - Box model

    pub fn margin_top(&self) -> (r: CSSMargin)
        requires
            self.wf(),
        ensures
            CSSValue::Specified(r) == spec_convert_margin(self.inner.inner.margin_top),
    {
        strip(self.inner.margin_top())
    }

    pub fn margin_right(&self) -> (r: CSSMargin)
        requires
            self.wf(),
        ensures
            CSSValue::Specified(r) == spec_convert_margin(self.inner.inner.margin_right),
    {
        strip(self.inner.margin_right())
    }

    pub fn margin_bottom(&self) -> (r: CSSMargin)
        requires
            self.wf(),
        ensures
            CSSValue::Specified(r) == spec_convert_margin(self.inner.inner.margin_bottom),
    {
        strip(self.inner.margin_bottom())
    }

    pub fn margin_left(&self) -> (r: CSSMargin)
        requires
            self.wf(),
        ensures
            CSSValue::Specified(r) == spec_convert_margin(self.inner.inner.margin_left),
    {
        strip(self.inner.margin_left())
    }

    pub fn padding_top(&self) -> (r: CSSPadding)
        requires
            self.wf(),
        ensures
            CSSValue::Specified(r) == spec_convert_padding(self.inner.inner.padding_top),
    {
        strip(self.inner.padding_top())
    }

    pub fn padding_right(&self) -> (r: CSSPadding)
        requires
            self.wf(),
        ensures
            CSSValue::Specified(r) == spec_convert_padding(self.inner.inner.padding_right),
    {
        strip(self.inner.padding_right())
    }

    pub fn padding_bottom(&self) -> (r: CSSPadding)
        requires
            self.wf(),
        ensures
            CSSValue::Specified(r) == spec_convert_padding(self.inner.inner.padding_bottom),
    {
        strip(self.inner.padding_bottom())
    }

    pub fn padding_left(&self) -> (r: CSSPadding)
        requires
            self.wf(),
        ensures
            CSSValue::Specified(r) == spec_convert_padding(self.inner.inner.padding_left),
    {
        strip(self.inner.padding_left())
    }

    pub fn border_top_style(&self) -> (r: CSSBorderStyle)
        requires
            self.wf(),
        ensures
            CSSValue::Specified(r) == spec_convert_border_style(self.inner.inner.border_top_style),
    {
        strip(self.inner.border_top_style())
    }

    pub fn border_right_style(&self) -> (r: CSSBorderStyle)
        requires
            self.wf(),
        ensures
            CSSValue::Specified(r) == spec_convert_border_style(self.inner.inner.border_right_style),
    {
        strip(self.inner.border_right_style())
    }

    pub fn border_bottom_style(&self) -> (r: CSSBorderStyle)
        requires
            self.wf(),
        ensures
            CSSValue::Specified(r) == spec_convert_border_style(self.inner.inner.border_bottom_style),
    {
        strip(self.inner.border_bottom_style())
    }

    pub fn border_left_style(&self) -> (r: CSSBorderStyle)
        requires
            self.wf(),
        ensures
            CSSValue::Specified(r) == spec_convert_border_style(self.inner.inner.border_left_style),
    {
        strip(self.inner.border_left_style())
    }

    pub fn border_top_width(&self) -> (r: CSSBorderWidth)
        requires
            self.wf(),
        ensures
            CSSValue::Specified(r) == spec_convert_border_width(self.inner.inner.border_top_width),
    {
        strip(self.inner.border_top_width())
    }

    pub fn border_right_width(&self) -> (r: CSSBorderWidth)
        requires
            self.wf(),
        ensures
            CSSValue::Specified(r) == spec_convert_border_width(self.inner.inner.border_right_width),
    {
        strip(self.inner.border_right_width())
    }

    pub fn border_bottom_width(&self) -> (r: CSSBorderWidth)
        requires
            self.wf(),
        ensures
            CSSValue::Specified(r) == spec_convert_border_width(self.inner.inner.border_bottom_width),
    {
        strip(self.inner.border_bottom_width())
    }

    pub fn border_left_width(&self) -> (r: CSSBorderWidth)
        requires
            self.wf(),
        ensures
            CSSValue::Specified(r) == spec_convert_border_width(self.inner.inner.border_left_width),
    {
        strip(self.inner.border_left_width())
    }

    pub fn border_top_color(&self) -> (r: Color)
        requires
            self.wf(),
        ensures
            CSSValue::Specified(r) == spec_convert_color_value(self.inner.inner.border_top_color),
    {
        strip(self.inner.border_top_color())
    }

    pub fn border_right_color(&self) -> (r: Color)
        requires
            self.wf(),
        ensures
            CSSValue::Specified(r) == spec_convert_color_value(self.inner.inner.border_right_color),
    {
        strip(self.inner.border_right_color())
    }

    pub fn border_bottom_color(&self) -> (r: Color)
        requires
            self.wf(),
        ensures
            CSSValue::Specified(r) == spec_convert_color_value(self.inner.inner.border_bottom_color),
    {
        strip(self.inner.border_bottom_color())
    }

    pub fn border_left_color(&self) -> (r: Color)
        requires
            self.wf(),
        ensures
            CSSValue::Specified(r) == spec_convert_color_value(self.inner.inner.border_left_color),
    {
        strip(self.inner.border_left_color())
    }

    // CSS 2.1, Section 9 - Visual formatting model

    /// The resolved display; on the root element the fixup of CSS 2.1
    /// section 9.7 applies first.
    pub fn display(&self, root: bool) -> (r: CSSDisplay)
        requires
            self.wf(),
        ensures
            CSSValue::Specified(r) == spec_convert_display(
                if root {
                    spec_root_display(self.inner.inner.display)
                } else {
                    self.inner.inner.display
                },
            ),
    {
        strip(self.inner.display(root))
    }

    pub fn position(&self) -> (r: CSSPosition)
        requires
            self.wf(),
        ensures
            CSSValue::Specified(r) == spec_convert_position(self.inner.inner.position),
    {
        strip(self.inner.position())
    }

    pub fn float(&self) -> (r: CSSFloat)
        requires
            self.wf(),
        ensures
            CSSValue::Specified(r) == spec_convert_float(self.inner.inner.float),
    {
        strip(self.inner.float())
    }

    pub fn clear(&self) -> (r: CSSClear)
        requires
            self.wf(),
        ensures
            CSSValue::Specified(r) == spec_convert_clear(self.inner.inner.clear),
    {
        strip(self.inner.clear())
    }

    // CSS 2.1, Section 10 - Visual formatting model details

    pub fn width(&self) -> (r: CSSWidth)
        requires
            self.wf(),
        ensures
            CSSValue::Specified(r) == spec_convert_width(self.inner.inner.width),
    {
        strip(self.inner.width())
    }

    pub fn height(&self) -> (r: CSSHeight)
        requires
            self.wf(),
        ensures
            CSSValue::Specified(r) == spec_convert_height(self.inner.inner.height),
    {
        strip(self.inner.height())
    }

    pub fn line_height(&self) -> (r: CSSLineHeight)
        requires
            self.wf(),
        ensures
            CSSValue::Specified(r) == spec_convert_line_height(self.inner.inner.line_height),
    {
        strip(self.inner.line_height())
    }

    pub fn vertical_align(&self) -> (r: CSSVerticalAlign)
        requires
            self.wf(),
        ensures
            CSSValue::Specified(r) == spec_convert_vertical_align(self.inner.inner.vertical_align),
    {
        strip(self.inner.vertical_align())
    }

    // CSS 2.1, Section 14 - Colors and Backgrounds

    pub fn background_color(&self) -> (r: Color)
        requires
            self.wf(),
        ensures
            CSSValue::Specified(r) == spec_convert_color_value(self.inner.inner.background_color),
    {
        strip(self.inner.background_color())
    }

    pub fn color(&self) -> (r: Color)
        requires
            self.wf(),
        ensures
            CSSValue::Specified(r) == spec_convert_color_value(self.inner.inner.color),
    {
        strip(self.inner.color())
    }

    // CSS 2.1, Section 15 - Fonts

    pub fn font_family(&self) -> (r: Vec<CSSFontFamily>)
        requires
            self.wf(),
        ensures
            CSSValue::<Seq<crate::computed::FontFamilyItem>>::Specified(ff_list_view(r@))
                == spec_convert_font_family(self.inner.inner.font_family.view_hint()),
    {
        strip(self.inner.font_family())
    }

    pub fn font_style(&self) -> (r: CSSFontStyle)
        requires
            self.wf(),
        ensures
            CSSValue::Specified(r) == spec_convert_font_style(self.inner.inner.font_style),
    {
        strip(self.inner.font_style())
    }

    pub fn font_weight(&self) -> (r: CSSFontWeight)
        requires
            self.wf(),
        ensures
            CSSValue::Specified(r) == spec_convert_font_weight(self.inner.inner.font_weight),
    {
        strip(self.inner.font_weight())
    }

    pub fn font_size(&self) -> (r: CSSFontSize)
        requires
            self.wf(),
        ensures
            CSSValue::Specified(r) == spec_convert_font_size(self.inner.inner.font_size),
    {
        strip(self.inner.font_size())
    }

    // CSS 2.1, Section 16 - Text

    pub fn text_decoration(&self) -> (r: CSSTextDecoration)
        requires
            self.wf(),
        ensures
            CSSValue::Specified(r) == spec_convert_text_decoration(self.inner.inner.text_decoration),
    {
        strip(self.inner.text_decoration())
    }

    pub fn text_align(&self) -> (r: CSSTextAlign)
        requires
            self.wf(),
        ensures
            CSSValue::Specified(r) == spec_convert_text_align(self.inner.inner.text_align),
    {
        strip(self.inner.text_align())
    }

}

/// Resolution is idempotent: a style that is already complete, with an
/// absolute font size, passes through the cascade unchanged, whatever the
/// parent. Since resolution is a pure function of the parent's resolved
/// style and the child's computed style, resolving the same tree twice
/// yields identical resolved styles.
pub proof fn lemma_resolution_idempotent(p: CssComputedStyle, x: CssComputedStyle)
    requires
        x.complete(),
        font_size_resolved(x.font_size),
    ensures
        spec_compose(p, x) == x,
{
}

/// Inheritance adopts the parent's value verbatim: a child whose computed
/// background color is the inherit sentinel resolves to the parent's
/// resolved background color.
pub proof fn lemma_inherited_background_color(p: CssComputedStyle, c: CssComputedStyle)
    requires
        c.background_color is CssColorInherit,
    ensures
        spec_compose(p, c).background_color == p.background_color,
{
}

/// Relative font sizes resolve against the parent's absolute font size: a
/// percentage scales it by a hundredth of its value, an `em` multiplies
/// it.
pub proof fn lemma_relative_font_size(p: CssComputedStyle, c: CssComputedStyle, a: Fixed, m: Fixed)
    requires
        p.font_size == CssFontSizeValue::CssFontSizeDimension(CssUnit::CssUnitPx(a)),
    ensures
        c.font_size == CssFontSizeValue::CssFontSizeDimension(CssUnit::CssUnitPct(m))
            ==> spec_compose(p, c).font_size == CssFontSizeValue::CssFontSizeDimension(
            CssUnit::CssUnitPx(Fixed { micro: fixed_pct_micro(a.micro as int, m.micro as int) as i64 }),
        ),
        c.font_size == CssFontSizeValue::CssFontSizeDimension(CssUnit::CssUnitEm(m))
            ==> spec_compose(p, c).font_size == CssFontSizeValue::CssFontSizeDimension(
            CssUnit::CssUnitPx(Fixed { micro: fixed_mul_micro(a.micro as int, m.micro as int) as i64 }),
        ),
{
}

} // verus!
