//! Constructs style rules from stylesheet text.
//!
//! The grammar covered is the CSS 2.1 subset of the value system: rules of
//! the form `selector { property: value; ... }`, with element, id and
//! class selectors joined by child and descendant combinators, the
//! longhand properties of the computed style, and the box shorthands.
//! Anything that does not parse is skipped, as permissive CSS error
//! recovery asks; every declaration produced lies within the adapter's
//! coverage.

use vstd::prelude::*;
use crate::color::{chars_of, parse_color};
use crate::fixed::{Fixed, round_div};
use crate::hint::{
    CssBorderStyleValue, CssBorderWidthValue, CssClearValue, CssColor, CssColorValue,
    CssDisplayValue, CssFloatValue, CssFontFamilyValue, CssFontSizeValue, CssFontStyleValue,
    CssFontWeightValue, CssHeightValue, CssLineHeightValue, CssMarginValue, CssPaddingValue,
    CssPositionValue, CssTextAlignValue, CssTextDecorationValue, CssUnit, CssVerticalAlignValue,
    CssWidthValue, FontFamilyHint, border_width_supported, display_supported, font_size_supported,
    height_supported, line_height_supported, margin_supported, padding_supported,
    text_align_supported, vertical_align_supported, width_supported,
};
use crate::stylesheet::{
    Combinator, Declaration, Rule, Selector, SimpleSelector, decl_supported, rules_supported,
};
use crate::text::{
    chars_eq_str, find_from, fixed_token, is_ws_exec, lemma_find_char_at,
    lemma_find_char_none, lower, lower_chars, parse_fixed, split_on, subrange_chars, trim,
    trim_range,
};
use vstd::string::StrSliceExecFns;

verus! {

/// Whether every declaration of a sequence is within coverage.
pub open spec fn decls_supported(ds: Seq<Declaration>) -> bool {
    forall|i: int| 0 <= i < ds.len() ==> decl_supported(&ds[i])
}

/// Compares a region of `v`, case folded, against a keyword.
fn region_eq_lower(v: &Vec<char>, from: usize, to: usize, lit: &str) -> (b: bool)
    requires
        from <= to <= v@.len(),
    ensures
        b == (lower(v@.subrange(from as int, to as int)) == lit@),
{
    let sub = subrange_chars(v, from, to);
    let low = lower_chars(&sub);
    chars_eq_str(&low, lit)
}

/// The maximal whitespace-free runs within a region, as index pairs.
fn ws_tokens(v: &Vec<char>, from: usize, to: usize) -> (r: Vec<(usize, usize)>)
    requires
        from <= to <= v@.len(),
    ensures
        forall|i: int| 0 <= i < r@.len()
            ==> from <= #[trigger] r@[i].0 < r@[i].1 <= to,
{
    let mut out: Vec<(usize, usize)> = Vec::new();
    let mut i: usize = from;
    while i < to
        invariant
            from <= i <= to <= v@.len(),
            forall|k: int| 0 <= k < out@.len()
                ==> from <= #[trigger] out@[k].0 < out@[k].1 <= to,
        decreases to - i,
    {
        if is_ws_exec(v[i]) {
            i = i + 1;
        } else {
            let start: usize = i;
            let mut j: usize = i;
            while j < to && !is_ws_exec(v[j])
                invariant
                    i <= j <= to <= v@.len(),
                decreases to - j,
            {
                j = j + 1;
            }
            out.push((start, j));
            i = j;
        }
    }
    out
}

/// Whether `c` can stand in the numeric part of a dimension.
pub open spec fn spec_is_number_char(c: char) -> bool {
    48 <= c as u32 <= 57 || c == '.'
}

/// Whether `c` can stand in the numeric part of a dimension.
fn is_number_char(c: char) -> (r: bool)
    ensures
        r == spec_is_number_char(c),
{
    let u: u32 = c as u32;
    (48 <= u && u <= 57) || c == '.'
}

/// The index right after the maximal run of numeric characters of `t`
/// starting at `i`.
pub open spec fn num_end(t: Seq<char>, i: int) -> int
    decreases t.len() - i,
{
    if 0 <= i < t.len() && spec_is_number_char(t[i]) {
        num_end(t, i + 1)
    } else {
        i
    }
}

proof fn lemma_num_end(t: Seq<char>, a: int, b: int)
    requires
        0 <= a <= b <= t.len(),
        forall|j: int| a <= j < b ==> spec_is_number_char(t[j]),
        b < t.len() ==> !spec_is_number_char(t[b]),
    ensures
        num_end(t, a) == b,
    decreases b - a,
{
    if a < b {
        lemma_num_end(t, a + 1, b);
    }
}

/// The dimension a trimmed region denotes: a decimal number, with an
/// optional leading minus, followed by `px`, `em`, `pt` or `%`; a bare
/// number reads as pixels.
pub open spec fn spec_unit(t: Seq<char>) -> Option<CssUnit> {
    if t.len() == 0 {
        None
    } else {
        let neg = t[0] == '-';
        let start: int = if neg {
            1
        } else {
            0
        };
        let e = num_end(t, start);
        match fixed_token(t.subrange(start, e)) {
            None => None,
            Some(m) => {
                let mag = Fixed {
                    micro: if neg {
                        (-m) as i64
                    } else {
                        m as i64
                    },
                };
                let suffix = lower(t.subrange(e, t.len() as int));
                if e == t.len() || suffix == "px"@ {
                    Some(CssUnit::CssUnitPx(mag))
                } else if suffix == "em"@ {
                    Some(CssUnit::CssUnitEm(mag))
                } else if suffix == "pt"@ {
                    Some(CssUnit::CssUnitPt(mag))
                } else if suffix == "%"@ {
                    Some(CssUnit::CssUnitPct(mag))
                } else {
                    None
                }
            },
        }
    }
}

/// Reads a dimension out of a trimmed region.
fn parse_unit(v: &Vec<char>, from: usize, to: usize) -> (r: Option<CssUnit>)
    requires
        from <= to <= v@.len(),
    ensures
        r == spec_unit(v@.subrange(from as int, to as int)),
        match r {
            Some(u) => u.in_range(),
            None => true,
        },
{
    let ghost t = v@.subrange(from as int, to as int);
    if from == to {
        return None;
    }
    let neg = v[from] == '-';
    let start: usize = if neg {
        from + 1
    } else {
        from
    };
    let mut e: usize = start;
    while e < to && is_number_char(v[e])
        invariant
            from <= start <= e <= to <= v@.len(),
            t == v@.subrange(from as int, to as int),
            forall|j: int| start - from <= j < e - from ==> spec_is_number_char(t[j]),
        decreases to - e,
    {
        proof {
            assert(t[e - from] == v@[e as int]);
        }
        e = e + 1;
    }
    proof {
        if e < to {
            assert(t[e - from] == v@[e as int]);
        }
        lemma_num_end(t, start - from, e - from);
        assert(t.subrange(start - from, e - from) =~= v@.subrange(start as int, e as int));
        assert(t.subrange(e - from, t.len() as int) =~= v@.subrange(e as int, to as int));
    }
    let mag = match parse_fixed(v, start, e) {
        Some(f) => f,
        None => {
            return None;
        },
    };
    let num = if neg {
        Fixed::of_micro(-mag.micro)
    } else {
        mag
    };
    if e == to {
        Some(CssUnit::CssUnitPx(num))
    } else if region_eq_lower(v, e, to, "px") {
        Some(CssUnit::CssUnitPx(num))
    } else if region_eq_lower(v, e, to, "em") {
        Some(CssUnit::CssUnitEm(num))
    } else if region_eq_lower(v, e, to, "pt") {
        Some(CssUnit::CssUnitPt(num))
    } else if region_eq_lower(v, e, to, "%") {
        Some(CssUnit::CssUnitPct(num))
    } else {
        None
    }
}

/// The value of a hexadecimal digit, upper or lower case.
pub open spec fn spec_hex_val(c: char) -> Option<u8> {
    let u = c as u32;
    if 48 <= u <= 57 {
        Some((u - 48) as u8)
    } else if 97 <= u <= 102 {
        Some((u - 87) as u8)
    } else if 65 <= u <= 70 {
        Some((u - 55) as u8)
    } else {
        None
    }
}

/// The value of a hexadecimal digit.
fn hex_val(c: char) -> (r: Option<u8>)
    ensures
        r == spec_hex_val(c),
        match r {
            Some(x) => x <= 15,
            None => true,
        },
{
    let u: u32 = c as u32;
    if 48 <= u && u <= 57 {
        Some((u - 48) as u8)
    } else if 97 <= u && u <= 102 {
        Some((u - 87) as u8)
    } else if 65 <= u && u <= 70 {
        Some((u - 55) as u8)
    } else {
        None
    }
}

/// The color a `#rgb` or `#rrggbb` literal denotes: six digits give the
/// three channels pairwise; three digits double, each worth seventeen of
/// its value.
pub open spec fn spec_hex_color(t: Seq<char>) -> Option<CssColor> {
    if t.len() == 7 {
        match (spec_hex_val(t[1]), spec_hex_val(t[2]), spec_hex_val(t[3]), spec_hex_val(t[4]),
        spec_hex_val(t[5]), spec_hex_val(t[6])) {
            (Some(a), Some(b), Some(c), Some(d), Some(e), Some(f)) => Some(
                CssColor { a: 255, r: (16 * a + b) as u8, g: (16 * c + d) as u8, b: (16 * e + f) as u8 },
            ),
            _ => None,
        }
    } else if t.len() == 4 {
        match (spec_hex_val(t[1]), spec_hex_val(t[2]), spec_hex_val(t[3])) {
            (Some(a), Some(b), Some(c)) => Some(
                CssColor { a: 255, r: (17 * a) as u8, g: (17 * b) as u8, b: (17 * c) as u8 },
            ),
            _ => None,
        }
    } else {
        None
    }
}

/// Reads a `#rgb` or `#rrggbb` hex color out of a trimmed region.
fn parse_hex_color(v: &Vec<char>, from: usize, to: usize) -> (r: Option<CssColor>)
    requires
        from < to <= v@.len(),
    ensures
        r == spec_hex_color(v@.subrange(from as int, to as int)),
{
    if to - from == 7 {
        let h0 = hex_val(v[from + 1]);
        let h1 = hex_val(v[from + 2]);
        let h2 = hex_val(v[from + 3]);
        let h3 = hex_val(v[from + 4]);
        let h4 = hex_val(v[from + 5]);
        let h5 = hex_val(v[from + 6]);
        match (h0, h1, h2, h3, h4, h5) {
            (Some(a), Some(b), Some(c), Some(d), Some(e), Some(f)) => Some(
                CssColor { a: 255, r: 16 * a + b, g: 16 * c + d, b: 16 * e + f },
            ),
            _ => None,
        }
    } else if to - from == 4 {
        let h0 = hex_val(v[from + 1]);
        let h1 = hex_val(v[from + 2]);
        let h2 = hex_val(v[from + 3]);
        match (h0, h1, h2) {
            (Some(a), Some(b), Some(c)) => Some(
                CssColor { a: 255, r: 17 * a, g: 17 * b, b: 17 * c },
            ),
            _ => None,
        }
    } else {
        None
    }
}

/// The 8-bit alpha a scalar rounds to, values outside `[0, 1]` clamped.
pub open spec fn spec_alpha_byte(micro: int) -> u8 {
    if micro >= 1_000_000 {
        255u8
    } else if micro <= 0 {
        0u8
    } else {
        round_div(255 * micro, 1_000_000) as u8
    }
}

/// The 8-bit alpha a scalar in `[0, 1]` rounds to.
fn alpha_byte(f: Fixed) -> (r: u8)
    ensures
        r == spec_alpha_byte(f.micro as int),
{
    if f.micro >= 1_000_000 {
        255
    } else if f.micro <= 0 {
        0
    } else {
        let m: u64 = f.micro as u64;
        ((m * 255 + 500_000) / 1_000_000) as u8
    }
}

/// The native color a library color narrows to: channels unchanged, the
/// alpha scalar rounded to eight bits.
pub open spec fn spec_to_css_color(c: crate::color::Color) -> CssColor {
    CssColor { a: spec_alpha_byte(c.alpha.micro as int), r: c.red, g: c.green, b: c.blue }
}

/// What a written color region denotes: a hex literal when it starts with
/// `#`, the fully transparent color for the `transparent` keyword, else
/// whatever the color literal grammar (functional notations and keywords)
/// yields, its alpha rounded to eight bits.
pub open spec fn spec_color_region(t: Seq<char>) -> Option<CssColor> {
    if t.len() == 0 {
        None
    } else if t[0] == '#' {
        spec_hex_color(t)
    } else if lower(t) == "transparent"@ {
        Some(CssColor { a: 0, r: 0, g: 0, b: 0 })
    } else {
        match crate::color::spec_parse_color(t) {
            Some(c) => Some(spec_to_css_color(c)),
            None => None,
        }
    }
}

/// Reads a color value out of a trimmed region: a hex color, the
/// `transparent` keyword, a functional notation, or a color keyword.
fn parse_color_region(s: &str, v: &Vec<char>, from: usize, to: usize) -> (r: Option<CssColor>)
    requires
        v@ == s@,
        from <= to <= v@.len(),
    ensures
        r == spec_color_region(v@.subrange(from as int, to as int)),
{
    if from == to {
        return None;
    }
    if v[from] == '#' {
        return parse_hex_color(v, from, to);
    }
    if region_eq_lower(v, from, to, "transparent") {
        return Some(CssColor { a: 0, r: 0, g: 0, b: 0 });
    }
    let text = s.substring_char(from, to);
    match parse_color(text) {
        Some(c) => Some(CssColor { a: alpha_byte(c.alpha), r: c.red, g: c.green, b: c.blue }),
        None => None,
    }
}

//// The margin value a trimmed region denotes.
pub open spec fn spec_margin_value(t: Seq<char>) -> Option<CssMarginValue> {
    if lower(t) == "inherit"@ {
        Some(CssMarginValue::CssMarginInherit)
    } else if lower(t) == "auto"@ {
        Some(CssMarginValue::CssMarginAuto)
    } else {
        match spec_unit(t) {
            Some(u) => Some(CssMarginValue::CssMarginSet(u)),
            None => None,
        }
    }
}

// Reads a margin value: `inherit`, `auto`, or a dimension.
fn parse_margin_value(v: &Vec<char>, from: usize, to: usize) -> (r: Option<CssMarginValue>)
    requires
        from <= to <= v@.len(),
    ensures
        r == spec_margin_value(v@.subrange(from as int, to as int)),
        match r {
            Some(m) => margin_supported(m),
            None => true,
        },
{
    if region_eq_lower(v, from, to, "inherit") {
        Some(CssMarginValue::CssMarginInherit)
    } else if region_eq_lower(v, from, to, "auto") {
        Some(CssMarginValue::CssMarginAuto)
    } else {
        match parse_unit(v, from, to) {
            Some(u) => Some(CssMarginValue::CssMarginSet(u)),
            None => None,
        }
    }
}

//// The padding value a trimmed region denotes.
pub open spec fn spec_padding_value(t: Seq<char>) -> Option<CssPaddingValue> {
    if lower(t) == "inherit"@ {
        Some(CssPaddingValue::CssPaddingInherit)
    } else {
        match spec_unit(t) {
            Some(u) => Some(CssPaddingValue::CssPaddingSet(u)),
            None => None,
        }
    }
}

// Reads a padding value: `inherit` or a dimension.
fn parse_padding_value(v: &Vec<char>, from: usize, to: usize) -> (r: Option<CssPaddingValue>)
    requires
        from <= to <= v@.len(),
    ensures
        r == spec_padding_value(v@.subrange(from as int, to as int)),
        match r {
            Some(m) => padding_supported(m),
            None => true,
        },
{
    if region_eq_lower(v, from, to, "inherit") {
        Some(CssPaddingValue::CssPaddingInherit)
    } else {
        match parse_unit(v, from, to) {
            Some(u) => Some(CssPaddingValue::CssPaddingSet(u)),
            None => None,
        }
    }
}

/// The border-style keyword a trimmed region denotes.
pub open spec fn spec_border_style_value(t: Seq<char>) -> Option<CssBorderStyleValue> {
    if lower(t) == "inherit"@ {
        Some(CssBorderStyleValue::CssBorderStyleInherit)
    } else if lower(t) == "none"@ {
        Some(CssBorderStyleValue::CssBorderStyleNone)
    } else if lower(t) == "hidden"@ {
        Some(CssBorderStyleValue::CssBorderStyleHidden)
    } else if lower(t) == "dotted"@ {
        Some(CssBorderStyleValue::CssBorderStyleDotted)
    } else if lower(t) == "dashed"@ {
        Some(CssBorderStyleValue::CssBorderStyleDashed)
    } else if lower(t) == "solid"@ {
        Some(CssBorderStyleValue::CssBorderStyleSolid)
    } else if lower(t) == "double"@ {
        Some(CssBorderStyleValue::CssBorderStyleDouble)
    } else if lower(t) == "groove"@ {
        Some(CssBorderStyleValue::CssBorderStyleGroove)
    } else if lower(t) == "ridge"@ {
        Some(CssBorderStyleValue::CssBorderStyleRidge)
    } else if lower(t) == "inset"@ {
        Some(CssBorderStyleValue::CssBorderStyleInset)
    } else if lower(t) == "outset"@ {
        Some(CssBorderStyleValue::CssBorderStyleOutset)
    } else {
        None
    }
}

/// Reads a border-style keyword.
fn parse_border_style_value(v: &Vec<char>, from: usize, to: usize) -> (r: Option<
    CssBorderStyleValue,
>)
    requires
        from <= to <= v@.len(),
    ensures
        r == spec_border_style_value(v@.subrange(from as int, to as int)),
{
    if region_eq_lower(v, from, to, "inherit") {
        Some(CssBorderStyleValue::CssBorderStyleInherit)
    } else if region_eq_lower(v, from, to, "none") {
        Some(CssBorderStyleValue::CssBorderStyleNone)
    } else if region_eq_lower(v, from, to, "hidden") {
        Some(CssBorderStyleValue::CssBorderStyleHidden)
    } else if region_eq_lower(v, from, to, "dotted") {
        Some(CssBorderStyleValue::CssBorderStyleDotted)
    } else if region_eq_lower(v, from, to, "dashed") {
        Some(CssBorderStyleValue::CssBorderStyleDashed)
    } else if region_eq_lower(v, from, to, "solid") {
        Some(CssBorderStyleValue::CssBorderStyleSolid)
    } else if region_eq_lower(v, from, to, "double") {
        Some(CssBorderStyleValue::CssBorderStyleDouble)
    } else if region_eq_lower(v, from, to, "groove") {
        Some(CssBorderStyleValue::CssBorderStyleGroove)
    } else if region_eq_lower(v, from, to, "ridge") {
        Some(CssBorderStyleValue::CssBorderStyleRidge)
    } else if region_eq_lower(v, from, to, "inset") {
        Some(CssBorderStyleValue::CssBorderStyleInset)
    } else if region_eq_lower(v, from, to, "outset") {
        Some(CssBorderStyleValue::CssBorderStyleOutset)
    } else {
        None
    }
}

//// The border-width value a trimmed region denotes; an explicit width is
/// a length, never a percentage.
pub open spec fn spec_border_width_value(t: Seq<char>) -> Option<CssBorderWidthValue> {
    if lower(t) == "inherit"@ {
        Some(CssBorderWidthValue::CssBorderWidthInherit)
    } else if lower(t) == "thin"@ {
        Some(CssBorderWidthValue::CssBorderWidthThin)
    } else if lower(t) == "medium"@ {
        Some(CssBorderWidthValue::CssBorderWidthMedium)
    } else if lower(t) == "thick"@ {
        Some(CssBorderWidthValue::CssBorderWidthThick)
    } else {
        match spec_unit(t) {
            Some(u) => if u is CssUnitPct {
                None
            } else {
                Some(CssBorderWidthValue::CssBorderWidthWidth(u))
            },
            None => None,
        }
    }
}

// Reads a border-width value: `inherit`, a width keyword, or a length.
fn parse_border_width_value(v: &Vec<char>, from: usize, to: usize) -> (r: Option<
    CssBorderWidthValue,
>)
    requires
        from <= to <= v@.len(),
    ensures
        r == spec_border_width_value(v@.subrange(from as int, to as int)),
        match r {
            Some(m) => border_width_supported(m),
            None => true,
        },
{
    if region_eq_lower(v, from, to, "inherit") {
        Some(CssBorderWidthValue::CssBorderWidthInherit)
    } else if region_eq_lower(v, from, to, "thin") {
        Some(CssBorderWidthValue::CssBorderWidthThin)
    } else if region_eq_lower(v, from, to, "medium") {
        Some(CssBorderWidthValue::CssBorderWidthMedium)
    } else if region_eq_lower(v, from, to, "thick") {
        Some(CssBorderWidthValue::CssBorderWidthThick)
    } else {
        match parse_unit(v, from, to) {
            Some(u) => if matches!(u, CssUnit::CssUnitPct(_)) {
                // a border width is never a percentage
                None
            } else {
                Some(CssBorderWidthValue::CssBorderWidthWidth(u))
            },
            None => None,
        }
    }
}

//// The color property value a trimmed region denotes.
pub open spec fn spec_color_value(t: Seq<char>) -> Option<CssColorValue> {
    if lower(t) == "inherit"@ {
        Some(CssColorValue::CssColorInherit)
    } else {
        match spec_color_region(t) {
            Some(c) => Some(CssColorValue::CssColorColor(c)),
            None => None,
        }
    }
}

// Reads a color property value: `inherit` or a color.
fn parse_color_value(s: &str, v: &Vec<char>, from: usize, to: usize) -> (r: Option<CssColorValue>)
    requires
        v@ == s@,
        from <= to <= v@.len(),
    ensures
        r == spec_color_value(v@.subrange(from as int, to as int)),
{
    if region_eq_lower(v, from, to, "inherit") {
        Some(CssColorValue::CssColorInherit)
    } else {
        match parse_color_region(s, v, from, to) {
            Some(c) => Some(CssColorValue::CssColorColor(c)),
            None => None,
        }
    }
}

/// The display keyword of the CSS 2.1 subset a trimmed region denotes.
pub open spec fn spec_display_value(t: Seq<char>) -> Option<CssDisplayValue> {
    if lower(t) == "inherit"@ {
        Some(CssDisplayValue::CssDisplayInherit)
    } else if lower(t) == "inline"@ {
        Some(CssDisplayValue::CssDisplayInline)
    } else if lower(t) == "block"@ {
        Some(CssDisplayValue::CssDisplayBlock)
    } else if lower(t) == "list-item"@ {
        Some(CssDisplayValue::CssDisplayListItem)
    } else if lower(t) == "inline-block"@ {
        Some(CssDisplayValue::CssDisplayInlineBlock)
    } else if lower(t) == "table"@ {
        Some(CssDisplayValue::CssDisplayTable)
    } else if lower(t) == "inline-table"@ {
        Some(CssDisplayValue::CssDisplayInlineTable)
    } else if lower(t) == "table-row-group"@ {
        Some(CssDisplayValue::CssDisplayTableRowGroup)
    } else if lower(t) == "table-header-group"@ {
        Some(CssDisplayValue::CssDisplayTableHeaderGroup)
    } else if lower(t) == "table-footer-group"@ {
        Some(CssDisplayValue::CssDisplayTableFooterGroup)
    } else if lower(t) == "table-row"@ {
        Some(CssDisplayValue::CssDisplayTableRow)
    } else if lower(t) == "table-column-group"@ {
        Some(CssDisplayValue::CssDisplayTableColumnGroup)
    } else if lower(t) == "table-column"@ {
        Some(CssDisplayValue::CssDisplayTableColumn)
    } else if lower(t) == "table-cell"@ {
        Some(CssDisplayValue::CssDisplayTableCell)
    } else if lower(t) == "table-caption"@ {
        Some(CssDisplayValue::CssDisplayTableCaption)
    } else if lower(t) == "none"@ {
        Some(CssDisplayValue::CssDisplayNone)
    } else {
        None
    }
}

/// Reads a display keyword of the CSS 2.1 subset.
fn parse_display_value(v: &Vec<char>, from: usize, to: usize) -> (r: Option<CssDisplayValue>)
    requires
        from <= to <= v@.len(),
    ensures
        r == spec_display_value(v@.subrange(from as int, to as int)),
        match r {
            Some(m) => display_supported(m),
            None => true,
        },
{
    if region_eq_lower(v, from, to, "inherit") {
        Some(CssDisplayValue::CssDisplayInherit)
    } else if region_eq_lower(v, from, to, "inline") {
        Some(CssDisplayValue::CssDisplayInline)
    } else if region_eq_lower(v, from, to, "block") {
        Some(CssDisplayValue::CssDisplayBlock)
    } else if region_eq_lower(v, from, to, "list-item") {
        Some(CssDisplayValue::CssDisplayListItem)
    } else if region_eq_lower(v, from, to, "inline-block") {
        Some(CssDisplayValue::CssDisplayInlineBlock)
    } else if region_eq_lower(v, from, to, "table") {
        Some(CssDisplayValue::CssDisplayTable)
    } else if region_eq_lower(v, from, to, "inline-table") {
        Some(CssDisplayValue::CssDisplayInlineTable)
    } else if region_eq_lower(v, from, to, "table-row-group") {
        Some(CssDisplayValue::CssDisplayTableRowGroup)
    } else if region_eq_lower(v, from, to, "table-header-group") {
        Some(CssDisplayValue::CssDisplayTableHeaderGroup)
    } else if region_eq_lower(v, from, to, "table-footer-group") {
        Some(CssDisplayValue::CssDisplayTableFooterGroup)
    } else if region_eq_lower(v, from, to, "table-row") {
        Some(CssDisplayValue::CssDisplayTableRow)
    } else if region_eq_lower(v, from, to, "table-column-group") {
        Some(CssDisplayValue::CssDisplayTableColumnGroup)
    } else if region_eq_lower(v, from, to, "table-column") {
        Some(CssDisplayValue::CssDisplayTableColumn)
    } else if region_eq_lower(v, from, to, "table-cell") {
        Some(CssDisplayValue::CssDisplayTableCell)
    } else if region_eq_lower(v, from, to, "table-caption") {
        Some(CssDisplayValue::CssDisplayTableCaption)
    } else if region_eq_lower(v, from, to, "none") {
        Some(CssDisplayValue::CssDisplayNone)
    } else {
        None
    }
}

/// The position keyword a trimmed region denotes.
pub open spec fn spec_position_value(t: Seq<char>) -> Option<CssPositionValue> {
    if lower(t) == "inherit"@ {
        Some(CssPositionValue::CssPositionInherit)
    } else if lower(t) == "static"@ {
        Some(CssPositionValue::CssPositionStatic)
    } else if lower(t) == "relative"@ {
        Some(CssPositionValue::CssPositionRelative)
    } else if lower(t) == "absolute"@ {
        Some(CssPositionValue::CssPositionAbsolute)
    } else if lower(t) == "fixed"@ {
        Some(CssPositionValue::CssPositionFixed)
    } else {
        None
    }
}

/// Reads a position keyword.
fn parse_position_value(v: &Vec<char>, from: usize, to: usize) -> (r: Option<CssPositionValue>)
    requires
        from <= to <= v@.len(),
    ensures
        r == spec_position_value(v@.subrange(from as int, to as int)),
{
    if region_eq_lower(v, from, to, "inherit") {
        Some(CssPositionValue::CssPositionInherit)
    } else if region_eq_lower(v, from, to, "static") {
        Some(CssPositionValue::CssPositionStatic)
    } else if region_eq_lower(v, from, to, "relative") {
        Some(CssPositionValue::CssPositionRelative)
    } else if region_eq_lower(v, from, to, "absolute") {
        Some(CssPositionValue::CssPositionAbsolute)
    } else if region_eq_lower(v, from, to, "fixed") {
        Some(CssPositionValue::CssPositionFixed)
    } else {
        None
    }
}

/// The float keyword a trimmed region denotes.
pub open spec fn spec_float_value(t: Seq<char>) -> Option<CssFloatValue> {
    if lower(t) == "inherit"@ {
        Some(CssFloatValue::CssFloatInherit)
    } else if lower(t) == "left"@ {
        Some(CssFloatValue::CssFloatLeft)
    } else if lower(t) == "right"@ {
        Some(CssFloatValue::CssFloatRight)
    } else if lower(t) == "none"@ {
        Some(CssFloatValue::CssFloatNone)
    } else {
        None
    }
}

/// Reads a float keyword.
fn parse_float_value(v: &Vec<char>, from: usize, to: usize) -> (r: Option<CssFloatValue>)
    requires
        from <= to <= v@.len(),
    ensures
        r == spec_float_value(v@.subrange(from as int, to as int)),
{
    if region_eq_lower(v, from, to, "inherit") {
        Some(CssFloatValue::CssFloatInherit)
    } else if region_eq_lower(v, from, to, "left") {
        Some(CssFloatValue::CssFloatLeft)
    } else if region_eq_lower(v, from, to, "right") {
        Some(CssFloatValue::CssFloatRight)
    } else if region_eq_lower(v, from, to, "none") {
        Some(CssFloatValue::CssFloatNone)
    } else {
        None
    }
}

/// The clear keyword a trimmed region denotes.
pub open spec fn spec_clear_value(t: Seq<char>) -> Option<CssClearValue> {
    if lower(t) == "inherit"@ {
        Some(CssClearValue::CssClearInherit)
    } else if lower(t) == "none"@ {
        Some(CssClearValue::CssClearNone)
    } else if lower(t) == "left"@ {
        Some(CssClearValue::CssClearLeft)
    } else if lower(t) == "right"@ {
        Some(CssClearValue::CssClearRight)
    } else if lower(t) == "both"@ {
        Some(CssClearValue::CssClearBoth)
    } else {
        None
    }
}

/// Reads a clear keyword.
fn parse_clear_value(v: &Vec<char>, from: usize, to: usize) -> (r: Option<CssClearValue>)
    requires
        from <= to <= v@.len(),
    ensures
        r == spec_clear_value(v@.subrange(from as int, to as int)),
{
    if region_eq_lower(v, from, to, "inherit") {
        Some(CssClearValue::CssClearInherit)
    } else if region_eq_lower(v, from, to, "none") {
        Some(CssClearValue::CssClearNone)
    } else if region_eq_lower(v, from, to, "left") {
        Some(CssClearValue::CssClearLeft)
    } else if region_eq_lower(v, from, to, "right") {
        Some(CssClearValue::CssClearRight)
    } else if region_eq_lower(v, from, to, "both") {
        Some(CssClearValue::CssClearBoth)
    } else {
        None
    }
}

//// The width value a trimmed region denotes.
pub open spec fn spec_width_value(t: Seq<char>) -> Option<CssWidthValue> {
    if lower(t) == "inherit"@ {
        Some(CssWidthValue::CssWidthInherit)
    } else if lower(t) == "auto"@ {
        Some(CssWidthValue::CssWidthAuto)
    } else {
        match spec_unit(t) {
            Some(u) => Some(CssWidthValue::CssWidthSet(u)),
            None => None,
        }
    }
}

// Reads a width value: `inherit`, `auto`, or a dimension.
fn parse_width_value(v: &Vec<char>, from: usize, to: usize) -> (r: Option<CssWidthValue>)
    requires
        from <= to <= v@.len(),
    ensures
        r == spec_width_value(v@.subrange(from as int, to as int)),
        match r {
            Some(m) => width_supported(m),
            None => true,
        },
{
    if region_eq_lower(v, from, to, "inherit") {
        Some(CssWidthValue::CssWidthInherit)
    } else if region_eq_lower(v, from, to, "auto") {
        Some(CssWidthValue::CssWidthAuto)
    } else {
        match parse_unit(v, from, to) {
            Some(u) => Some(CssWidthValue::CssWidthSet(u)),
            None => None,
        }
    }
}

//// The height value a trimmed region denotes.
pub open spec fn spec_height_value(t: Seq<char>) -> Option<CssHeightValue> {
    if lower(t) == "inherit"@ {
        Some(CssHeightValue::CssHeightInherit)
    } else if lower(t) == "auto"@ {
        Some(CssHeightValue::CssHeightAuto)
    } else {
        match spec_unit(t) {
            Some(u) => Some(CssHeightValue::CssHeightSet(u)),
            None => None,
        }
    }
}

// Reads a height value: `inherit`, `auto`, or a dimension.
fn parse_height_value(v: &Vec<char>, from: usize, to: usize) -> (r: Option<CssHeightValue>)
    requires
        from <= to <= v@.len(),
    ensures
        r == spec_height_value(v@.subrange(from as int, to as int)),
        match r {
            Some(m) => height_supported(m),
            None => true,
        },
{
    if region_eq_lower(v, from, to, "inherit") {
        Some(CssHeightValue::CssHeightInherit)
    } else if region_eq_lower(v, from, to, "auto") {
        Some(CssHeightValue::CssHeightAuto)
    } else {
        match parse_unit(v, from, to) {
            Some(u) => Some(CssHeightValue::CssHeightSet(u)),
            None => None,
        }
    }
}

/// The line-height value a trimmed region denotes: a bare number scales
/// the font size; a dimension is a length or percentage.
pub open spec fn spec_line_height_value(t: Seq<char>) -> Option<CssLineHeightValue> {
    if lower(t) == "inherit"@ {
        Some(CssLineHeightValue::CssLineHeightInherit)
    } else if lower(t) == "normal"@ {
        Some(CssLineHeightValue::CssLineHeightNormal)
    } else {
        match fixed_token(t) {
            Some(m) => Some(CssLineHeightValue::CssLineHeightNumber(Fixed { micro: m as i64 })),
            None => match spec_unit(t) {
                Some(u) => Some(CssLineHeightValue::CssLineHeightDimension(u)),
                None => None,
            },
        }
    }
}

/// Reads a line-height value: `inherit`, `normal`, a bare number, or a
/// dimension.
fn parse_line_height_value(v: &Vec<char>, from: usize, to: usize) -> (r: Option<
    CssLineHeightValue,
>)
    requires
        from <= to <= v@.len(),
    ensures
        r == spec_line_height_value(v@.subrange(from as int, to as int)),
        match r {
            Some(m) => line_height_supported(m),
            None => true,
        },
{
    if region_eq_lower(v, from, to, "inherit") {
        return Some(CssLineHeightValue::CssLineHeightInherit);
    }
    if region_eq_lower(v, from, to, "normal") {
        return Some(CssLineHeightValue::CssLineHeightNormal);
    }
    match parse_fixed(v, from, to) {
        Some(f) => Some(CssLineHeightValue::CssLineHeightNumber(f)),
        None => match parse_unit(v, from, to) {
            Some(u) => Some(CssLineHeightValue::CssLineHeightDimension(u)),
            None => None,
        },
    }
}

/// The vertical-align value a trimmed region denotes.
pub open spec fn spec_vertical_align_value(t: Seq<char>) -> Option<CssVerticalAlignValue> {
    if lower(t) == "inherit"@ {
        Some(CssVerticalAlignValue::CssVerticalAlignInherit)
    } else if lower(t) == "baseline"@ {
        Some(CssVerticalAlignValue::CssVerticalAlignBaseline)
    } else if lower(t) == "sub"@ {
        Some(CssVerticalAlignValue::CssVerticalAlignSub)
    } else if lower(t) == "super"@ {
        Some(CssVerticalAlignValue::CssVerticalAlignSuper)
    } else if lower(t) == "top"@ {
        Some(CssVerticalAlignValue::CssVerticalAlignTop)
    } else if lower(t) == "text-top"@ {
        Some(CssVerticalAlignValue::CssVerticalAlignTextTop)
    } else if lower(t) == "middle"@ {
        Some(CssVerticalAlignValue::CssVerticalAlignMiddle)
    } else if lower(t) == "bottom"@ {
        Some(CssVerticalAlignValue::CssVerticalAlignBottom)
    } else if lower(t) == "text-bottom"@ {
        Some(CssVerticalAlignValue::CssVerticalAlignTextBottom)
    } else {
        match spec_unit(t) {
            Some(u) => Some(CssVerticalAlignValue::CssVerticalAlignDimension(u)),
            None => None,
        }
    }
}

/// Reads a vertical-align value: `inherit`, an alignment keyword, or a
/// dimension.
fn parse_vertical_align_value(v: &Vec<char>, from: usize, to: usize) -> (r: Option<
    CssVerticalAlignValue,
>)
    requires
        from <= to <= v@.len(),
    ensures
        r == spec_vertical_align_value(v@.subrange(from as int, to as int)),
        match r {
            Some(m) => vertical_align_supported(m),
            None => true,
        },
{
    if region_eq_lower(v, from, to, "inherit") {
        Some(CssVerticalAlignValue::CssVerticalAlignInherit)
    } else if region_eq_lower(v, from, to, "baseline") {
        Some(CssVerticalAlignValue::CssVerticalAlignBaseline)
    } else if region_eq_lower(v, from, to, "sub") {
        Some(CssVerticalAlignValue::CssVerticalAlignSub)
    } else if region_eq_lower(v, from, to, "super") {
        Some(CssVerticalAlignValue::CssVerticalAlignSuper)
    } else if region_eq_lower(v, from, to, "top") {
        Some(CssVerticalAlignValue::CssVerticalAlignTop)
    } else if region_eq_lower(v, from, to, "text-top") {
        Some(CssVerticalAlignValue::CssVerticalAlignTextTop)
    } else if region_eq_lower(v, from, to, "middle") {
        Some(CssVerticalAlignValue::CssVerticalAlignMiddle)
    } else if region_eq_lower(v, from, to, "bottom") {
        Some(CssVerticalAlignValue::CssVerticalAlignBottom)
    } else if region_eq_lower(v, from, to, "text-bottom") {
        Some(CssVerticalAlignValue::CssVerticalAlignTextBottom)
    } else {
        match parse_unit(v, from, to) {
            Some(u) => Some(CssVerticalAlignValue::CssVerticalAlignDimension(u)),
            None => None,
        }
    }
}

/// The font-family value a trimmed region denotes: `inherit`, a single
/// generic family keyword, or a comma-separated list of written family
/// names, each trimmed, kept in source order; a list with an empty entry
/// is void.
pub open spec fn spec_font_family_value(t: Seq<char>) -> Option<FontFamilyHint> {
    if lower(t) == "inherit"@ {
        Some(FontFamilyHint::Inherit)
    } else if lower(t) == "serif"@ {
        Some(FontFamilyHint::Serif)
    } else if lower(t) == "sans-serif"@ {
        Some(FontFamilyHint::SansSerif)
    } else if lower(t) == "cursive"@ {
        Some(FontFamilyHint::Cursive)
    } else if lower(t) == "fantasy"@ {
        Some(FontFamilyHint::Fantasy)
    } else if lower(t) == "monospace"@ {
        Some(FontFamilyHint::Monospace)
    } else {
        let pieces = split_on(t, ',');
        if forall|i: int| 0 <= i < pieces.len() ==> trim(#[trigger] pieces[i]).len() > 0 {
            Some(FontFamilyHint::Names(Seq::new(pieces.len(), |i: int| trim(pieces[i]))))
        } else {
            None
        }
    }
}

/// Reads a font-family value out of a trimmed region.
fn parse_font_family_value(s: &str, v: &Vec<char>, from: usize, to: usize) -> (r: Option<
    CssFontFamilyValue,
>)
    requires
        v@ == s@,
        from <= to <= v@.len(),
    ensures
        ({
            let spec = spec_font_family_value(v@.subrange(from as int, to as int));
            match r {
                Some(h) => spec == Some(h.view_hint()),
                None => spec is None,
            }
        }),
{
    let ghost t = v@.subrange(from as int, to as int);
    let ghost pieces = split_on(t, ',');
    if region_eq_lower(v, from, to, "inherit") {
        return Some(CssFontFamilyValue::CssFontFamilyInherit);
    }
    if region_eq_lower(v, from, to, "serif") {
        return Some(CssFontFamilyValue::CssFontFamilySerif);
    }
    if region_eq_lower(v, from, to, "sans-serif") {
        return Some(CssFontFamilyValue::CssFontFamilySansSerif);
    }
    if region_eq_lower(v, from, to, "cursive") {
        return Some(CssFontFamilyValue::CssFontFamilyCursive);
    }
    if region_eq_lower(v, from, to, "fantasy") {
        return Some(CssFontFamilyValue::CssFontFamilyFantasy);
    }
    if region_eq_lower(v, from, to, "monospace") {
        return Some(CssFontFamilyValue::CssFontFamilyMonospace);
    }
    let mut names: Vec<String> = Vec::new();
    let mut pos: usize = from;
    proof {
        assert(t.subrange(0, t.len() as int) =~= t);
    }
    loop
        invariant
            from <= pos <= to <= v@.len(),
            v@ == s@,
            t == v@.subrange(from as int, to as int),
            pieces == split_on(t, ','),
            lower(t) != "inherit"@,
            lower(t) != "serif"@,
            lower(t) != "sans-serif"@,
            lower(t) != "cursive"@,
            lower(t) != "fantasy"@,
            lower(t) != "monospace"@,
            names@.len() <= pieces.len(),
            pieces =~~= pieces.subrange(0, names@.len() as int) + split_on(
                t.subrange(pos - from, t.len() as int),
                ',',
            ),
            forall|k: int| 0 <= k < names@.len() ==> names.deep_view()[k] == trim(
                #[trigger] pieces[k],
            ) && trim(pieces[k]).len() > 0,
        decreases to - pos,
    {
        let ghost rest = t.subrange(pos - from, t.len() as int);
        let ghost k = names@.len() as int;
        let comma = match find_from(v, ',', pos) {
            Some(i) => if i < to {
                Some(i)
            } else {
                None
            },
            None => None,
        };
        let piece_end: usize = match comma {
            Some(i) => i,
            None => to,
        };
        proof {
            match comma {
                Some(i) => {
                    assert(forall|j: int| 0 <= j < i - pos ==> rest[j] == v@[pos + j]);
                    assert(rest[i - pos] == v@[i as int]);
                    lemma_find_char_at(rest, ',', i - pos);
                    assert(rest.subrange(0, i - pos) =~= v@.subrange(pos as int, i as int));
                },
                None => {
                    assert(forall|j: int| 0 <= j < rest.len() ==> rest[j] == v@[pos + j]);
                    lemma_find_char_none(rest, ',');
                    assert(rest =~= v@.subrange(pos as int, to as int));
                },
            }
            assert(pieces[k] =~= v@.subrange(pos as int, piece_end as int));
        }
        let b = trim_range(v, pos, piece_end);
        proof {
            assert(trim(pieces[k]) == v@.subrange(b.0 as int, b.1 as int));
        }
        if b.0 == b.1 {
            // an empty entry voids the list
            proof {
                assert(trim(pieces[k]).len() == 0);
            }
            return None;
        }
        names.push(s.substring_char(b.0, b.1).to_owned());
        match comma {
            Some(i) => {
                proof {
                    assert(t.subrange(i + 1 - from, t.len() as int) =~= rest.subrange(
                        i - pos + 1,
                        rest.len() as int,
                    ));
                    assert(pieces =~~= pieces.subrange(0, k + 1) + split_on(
                        t.subrange(i + 1 - from, t.len() as int),
                        ',',
                    ));
                }
                pos = i + 1;
            },
            None => {
                proof {
                    assert(pieces.len() == k + 1);
                    assert(names.deep_view()[k] == trim(pieces[k]));
                    assert(forall|i2: int| 0 <= i2 < pieces.len() ==> trim(
                        #[trigger] pieces[i2],
                    ).len() > 0);
                    assert(FontFamilyHint::Names(names.deep_view()) == FontFamilyHint::Names(
                        Seq::new(pieces.len(), |i: int| trim(pieces[i])),
                    )) by {
                        assert(names.deep_view() =~~= Seq::new(
                            pieces.len(),
                            |i: int| trim(pieces[i]),
                        ));
                    };
                }
                return Some(CssFontFamilyValue::CssFontFamilyValue(names));
            },
        }
    }
}

/// The font-size value a trimmed region denotes.
pub open spec fn spec_font_size_value(t: Seq<char>) -> Option<CssFontSizeValue> {
    if lower(t) == "inherit"@ {
        Some(CssFontSizeValue::CssFontSizeInherit)
    } else if lower(t) == "xx-small"@ {
        Some(CssFontSizeValue::CssFontSizeXXSmall)
    } else if lower(t) == "x-small"@ {
        Some(CssFontSizeValue::CssFontSizeXSmall)
    } else if lower(t) == "small"@ {
        Some(CssFontSizeValue::CssFontSizeSmall)
    } else if lower(t) == "medium"@ {
        Some(CssFontSizeValue::CssFontSizeMedium)
    } else if lower(t) == "large"@ {
        Some(CssFontSizeValue::CssFontSizeLarge)
    } else if lower(t) == "x-large"@ {
        Some(CssFontSizeValue::CssFontSizeXLarge)
    } else if lower(t) == "xx-large"@ {
        Some(CssFontSizeValue::CssFontSizeXXLarge)
    } else if lower(t) == "larger"@ {
        Some(CssFontSizeValue::CssFontSizeLarger)
    } else if lower(t) == "smaller"@ {
        Some(CssFontSizeValue::CssFontSizeSmaller)
    } else {
        match spec_unit(t) {
            Some(u) => Some(CssFontSizeValue::CssFontSizeDimension(u)),
            None => None,
        }
    }
}

// Reads a font-size value: `inherit`, a size keyword, or a dimension.
fn parse_font_size_value(v: &Vec<char>, from: usize, to: usize) -> (r: Option<CssFontSizeValue>)
    requires
        from <= to <= v@.len(),
    ensures
        r == spec_font_size_value(v@.subrange(from as int, to as int)),
        match r {
            Some(m) => font_size_supported(m),
            None => true,
        },
{
    if region_eq_lower(v, from, to, "inherit") {
        Some(CssFontSizeValue::CssFontSizeInherit)
    } else if region_eq_lower(v, from, to, "xx-small") {
        Some(CssFontSizeValue::CssFontSizeXXSmall)
    } else if region_eq_lower(v, from, to, "x-small") {
        Some(CssFontSizeValue::CssFontSizeXSmall)
    } else if region_eq_lower(v, from, to, "small") {
        Some(CssFontSizeValue::CssFontSizeSmall)
    } else if region_eq_lower(v, from, to, "medium") {
        Some(CssFontSizeValue::CssFontSizeMedium)
    } else if region_eq_lower(v, from, to, "large") {
        Some(CssFontSizeValue::CssFontSizeLarge)
    } else if region_eq_lower(v, from, to, "x-large") {
        Some(CssFontSizeValue::CssFontSizeXLarge)
    } else if region_eq_lower(v, from, to, "xx-large") {
        Some(CssFontSizeValue::CssFontSizeXXLarge)
    } else if region_eq_lower(v, from, to, "larger") {
        Some(CssFontSizeValue::CssFontSizeLarger)
    } else if region_eq_lower(v, from, to, "smaller") {
        Some(CssFontSizeValue::CssFontSizeSmaller)
    } else {
        match parse_unit(v, from, to) {
            Some(u) => Some(CssFontSizeValue::CssFontSizeDimension(u)),
            None => None,
        }
    }
}

/// The font-style keyword a trimmed region denotes.
pub open spec fn spec_font_style_value(t: Seq<char>) -> Option<CssFontStyleValue> {
    if lower(t) == "inherit"@ {
        Some(CssFontStyleValue::CssFontStyleInherit)
    } else if lower(t) == "normal"@ {
        Some(CssFontStyleValue::CssFontStyleNormal)
    } else if lower(t) == "italic"@ {
        Some(CssFontStyleValue::CssFontStyleItalic)
    } else if lower(t) == "oblique"@ {
        Some(CssFontStyleValue::CssFontStyleOblique)
    } else {
        None
    }
}

/// Reads a font-style keyword.
fn parse_font_style_value(v: &Vec<char>, from: usize, to: usize) -> (r: Option<CssFontStyleValue>)
    requires
        from <= to <= v@.len(),
    ensures
        r == spec_font_style_value(v@.subrange(from as int, to as int)),
{
    if region_eq_lower(v, from, to, "inherit") {
        Some(CssFontStyleValue::CssFontStyleInherit)
    } else if region_eq_lower(v, from, to, "normal") {
        Some(CssFontStyleValue::CssFontStyleNormal)
    } else if region_eq_lower(v, from, to, "italic") {
        Some(CssFontStyleValue::CssFontStyleItalic)
    } else if region_eq_lower(v, from, to, "oblique") {
        Some(CssFontStyleValue::CssFontStyleOblique)
    } else {
        None
    }
}

/// The font-weight value a trimmed region denotes.
pub open spec fn spec_font_weight_value(t: Seq<char>) -> Option<CssFontWeightValue> {
    if lower(t) == "inherit"@ {
        Some(CssFontWeightValue::CssFontWeightInherit)
    } else if lower(t) == "normal"@ {
        Some(CssFontWeightValue::CssFontWeightNormal)
    } else if lower(t) == "bold"@ {
        Some(CssFontWeightValue::CssFontWeightBold)
    } else if lower(t) == "bolder"@ {
        Some(CssFontWeightValue::CssFontWeightBolder)
    } else if lower(t) == "lighter"@ {
        Some(CssFontWeightValue::CssFontWeightLighter)
    } else if lower(t) == "100"@ {
        Some(CssFontWeightValue::CssFontWeight100)
    } else if lower(t) == "200"@ {
        Some(CssFontWeightValue::CssFontWeight200)
    } else if lower(t) == "300"@ {
        Some(CssFontWeightValue::CssFontWeight300)
    } else if lower(t) == "400"@ {
        Some(CssFontWeightValue::CssFontWeight400)
    } else if lower(t) == "500"@ {
        Some(CssFontWeightValue::CssFontWeight500)
    } else if lower(t) == "600"@ {
        Some(CssFontWeightValue::CssFontWeight600)
    } else if lower(t) == "700"@ {
        Some(CssFontWeightValue::CssFontWeight700)
    } else if lower(t) == "800"@ {
        Some(CssFontWeightValue::CssFontWeight800)
    } else if lower(t) == "900"@ {
        Some(CssFontWeightValue::CssFontWeight900)
    } else {
        None
    }
}

/// Reads a font-weight value: a keyword or one of the nine numeric
/// weights.
fn parse_font_weight_value(v: &Vec<char>, from: usize, to: usize) -> (r: Option<
    CssFontWeightValue,
>)
    requires
        from <= to <= v@.len(),
    ensures
        r == spec_font_weight_value(v@.subrange(from as int, to as int)),
{
    if region_eq_lower(v, from, to, "inherit") {
        Some(CssFontWeightValue::CssFontWeightInherit)
    } else if region_eq_lower(v, from, to, "normal") {
        Some(CssFontWeightValue::CssFontWeightNormal)
    } else if region_eq_lower(v, from, to, "bold") {
        Some(CssFontWeightValue::CssFontWeightBold)
    } else if region_eq_lower(v, from, to, "bolder") {
        Some(CssFontWeightValue::CssFontWeightBolder)
    } else if region_eq_lower(v, from, to, "lighter") {
        Some(CssFontWeightValue::CssFontWeightLighter)
    } else if region_eq_lower(v, from, to, "100") {
        Some(CssFontWeightValue::CssFontWeight100)
    } else if region_eq_lower(v, from, to, "200") {
        Some(CssFontWeightValue::CssFontWeight200)
    } else if region_eq_lower(v, from, to, "300") {
        Some(CssFontWeightValue::CssFontWeight300)
    } else if region_eq_lower(v, from, to, "400") {
        Some(CssFontWeightValue::CssFontWeight400)
    } else if region_eq_lower(v, from, to, "500") {
        Some(CssFontWeightValue::CssFontWeight500)
    } else if region_eq_lower(v, from, to, "600") {
        Some(CssFontWeightValue::CssFontWeight600)
    } else if region_eq_lower(v, from, to, "700") {
        Some(CssFontWeightValue::CssFontWeight700)
    } else if region_eq_lower(v, from, to, "800") {
        Some(CssFontWeightValue::CssFontWeight800)
    } else if region_eq_lower(v, from, to, "900") {
        Some(CssFontWeightValue::CssFontWeight900)
    } else {
        None
    }
}

/// The text-align keyword of the CSS 2.1 subset a trimmed region denotes.
pub open spec fn spec_text_align_value(t: Seq<char>) -> Option<CssTextAlignValue> {
    if lower(t) == "inherit"@ {
        Some(CssTextAlignValue::CssTextAlignInherit)
    } else if lower(t) == "left"@ {
        Some(CssTextAlignValue::CssTextAlignLeft)
    } else if lower(t) == "right"@ {
        Some(CssTextAlignValue::CssTextAlignRight)
    } else if lower(t) == "center"@ {
        Some(CssTextAlignValue::CssTextAlignCenter)
    } else if lower(t) == "justify"@ {
        Some(CssTextAlignValue::CssTextAlignJustify)
    } else {
        None
    }
}

/// Reads a text-align keyword of the CSS 2.1 subset.
fn parse_text_align_value(v: &Vec<char>, from: usize, to: usize) -> (r: Option<CssTextAlignValue>)
    requires
        from <= to <= v@.len(),
    ensures
        r == spec_text_align_value(v@.subrange(from as int, to as int)),
        match r {
            Some(m) => text_align_supported(m),
            None => true,
        },
{
    if region_eq_lower(v, from, to, "inherit") {
        Some(CssTextAlignValue::CssTextAlignInherit)
    } else if region_eq_lower(v, from, to, "left") {
        Some(CssTextAlignValue::CssTextAlignLeft)
    } else if region_eq_lower(v, from, to, "right") {
        Some(CssTextAlignValue::CssTextAlignRight)
    } else if region_eq_lower(v, from, to, "center") {
        Some(CssTextAlignValue::CssTextAlignCenter)
    } else if region_eq_lower(v, from, to, "justify") {
        Some(CssTextAlignValue::CssTextAlignJustify)
    } else {
        None
    }
}

/// The text-decoration keyword a trimmed region denotes.
pub open spec fn spec_text_decoration_value(t: Seq<char>) -> Option<CssTextDecorationValue> {
    if lower(t) == "inherit"@ {
        Some(CssTextDecorationValue::CssTextDecorationInherit)
    } else if lower(t) == "none"@ {
        Some(CssTextDecorationValue::CssTextDecorationNone)
    } else if lower(t) == "underline"@ {
        Some(CssTextDecorationValue::CssTextDecorationUnderline)
    } else if lower(t) == "overline"@ {
        Some(CssTextDecorationValue::CssTextDecorationOverline)
    } else if lower(t) == "line-through"@ {
        Some(CssTextDecorationValue::CssTextDecorationLineThrough)
    } else if lower(t) == "blink"@ {
        Some(CssTextDecorationValue::CssTextDecorationBlink)
    } else {
        None
    }
}

/// Reads a text-decoration keyword.
fn parse_text_decoration_value(v: &Vec<char>, from: usize, to: usize) -> (r: Option<
    CssTextDecorationValue,
>)
    requires
        from <= to <= v@.len(),
    ensures
        r == spec_text_decoration_value(v@.subrange(from as int, to as int)),
{
    if region_eq_lower(v, from, to, "inherit") {
        Some(CssTextDecorationValue::CssTextDecorationInherit)
    } else if region_eq_lower(v, from, to, "none") {
        Some(CssTextDecorationValue::CssTextDecorationNone)
    } else if region_eq_lower(v, from, to, "underline") {
        Some(CssTextDecorationValue::CssTextDecorationUnderline)
    } else if region_eq_lower(v, from, to, "overline") {
        Some(CssTextDecorationValue::CssTextDecorationOverline)
    } else if region_eq_lower(v, from, to, "line-through") {
        Some(CssTextDecorationValue::CssTextDecorationLineThrough)
    } else if region_eq_lower(v, from, to, "blink") {
        Some(CssTextDecorationValue::CssTextDecorationBlink)
    } else {
        None
    }
}


/// The four side indices a shorthand of `k` values assigns, in top, right,
/// bottom, left order: one value serves all sides, two split vertical and
/// horizontal, three give top, sides, bottom, four name each side.
fn shorthand_sides(k: usize) -> (r: Option<(usize, usize, usize, usize)>)
    ensures
        match r {
            Some(t) => t.0 < k && t.1 < k && t.2 < k && t.3 < k,
            None => true,
        },
{
    match k {
        1 => Some((0, 0, 0, 0)),
        2 => Some((0, 1, 0, 1)),
        3 => Some((0, 1, 2, 1)),
        4 => Some((0, 1, 2, 3)),
        _ => None,
    }
}

/// Parses one declaration of a block and appends what it sets, shorthands
/// expanded to their four sides. A declaration that does not parse is
/// skipped.
fn parse_declaration_into(s: &str, v: &Vec<char>, from: usize, to: usize, out: &mut Vec<
    Declaration,
>)
    requires
        v@ == s@,
        from <= to <= v@.len(),
        decls_supported(old(out)@),
    ensures
        decls_supported(final(out)@),
{
    let colon = match find_from(v, ':', from) {
        Some(i) => if i < to {
            i
        } else {
            return;
        },
        None => {
            return;
        },
    };
    let p = trim_range(v, from, colon);
    let val = trim_range(v, colon + 1, to);
    let a = val.0;
    let b = val.1;
    let p0 = p.0;
    let p1 = p.1;
    proof {
        assert(a <= b <= v@.len());
    }
    if region_eq_lower(v, p0, p1, "margin-top") {
        if let Some(m) = parse_margin_value(v, a, b) {
            out.push(Declaration::MarginTop(m));
        }
    } else if region_eq_lower(v, p0, p1, "margin-right") {
        if let Some(m) = parse_margin_value(v, a, b) {
            out.push(Declaration::MarginRight(m));
        }
    } else if region_eq_lower(v, p0, p1, "margin-bottom") {
        if let Some(m) = parse_margin_value(v, a, b) {
            out.push(Declaration::MarginBottom(m));
        }
    } else if region_eq_lower(v, p0, p1, "margin-left") {
        if let Some(m) = parse_margin_value(v, a, b) {
            out.push(Declaration::MarginLeft(m));
        }
    } else if region_eq_lower(v, p0, p1, "margin") {
        let toks = ws_tokens(v, a, b);
        let mut vals: Vec<CssMarginValue> = Vec::new();
        let mut i: usize = 0;
        while i < toks.len()
            invariant
                decls_supported(out@),
                0 <= i <= toks@.len(),
                forall|k: int| 0 <= k < toks@.len()
                    ==> #[trigger] toks@[k].0 < toks@[k].1 <= v@.len(),
                forall|k: int| 0 <= k < vals@.len() ==> margin_supported(#[trigger] vals@[k]),
            decreases toks@.len() - i,
        {
            match parse_margin_value(v, toks[i].0, toks[i].1) {
                Some(m) => vals.push(m),
                None => {
                    return;
                },
            }
            i = i + 1;
        }
        if let Some((t, r, bo, l)) = shorthand_sides(vals.len()) {
            out.push(Declaration::MarginTop(vals[t]));
            out.push(Declaration::MarginRight(vals[r]));
            out.push(Declaration::MarginBottom(vals[bo]));
            out.push(Declaration::MarginLeft(vals[l]));
        }
    } else if region_eq_lower(v, p0, p1, "padding-top") {
        if let Some(m) = parse_padding_value(v, a, b) {
            out.push(Declaration::PaddingTop(m));
        }
    } else if region_eq_lower(v, p0, p1, "padding-right") {
        if let Some(m) = parse_padding_value(v, a, b) {
            out.push(Declaration::PaddingRight(m));
        }
    } else if region_eq_lower(v, p0, p1, "padding-bottom") {
        if let Some(m) = parse_padding_value(v, a, b) {
            out.push(Declaration::PaddingBottom(m));
        }
    } else if region_eq_lower(v, p0, p1, "padding-left") {
        if let Some(m) = parse_padding_value(v, a, b) {
            out.push(Declaration::PaddingLeft(m));
        }
    } else if region_eq_lower(v, p0, p1, "padding") {
        let toks = ws_tokens(v, a, b);
        let mut vals: Vec<CssPaddingValue> = Vec::new();
        let mut i: usize = 0;
        while i < toks.len()
            invariant
                decls_supported(out@),
                0 <= i <= toks@.len(),
                forall|k: int| 0 <= k < toks@.len()
                    ==> #[trigger] toks@[k].0 < toks@[k].1 <= v@.len(),
                forall|k: int| 0 <= k < vals@.len() ==> padding_supported(#[trigger] vals@[k]),
            decreases toks@.len() - i,
        {
            match parse_padding_value(v, toks[i].0, toks[i].1) {
                Some(m) => vals.push(m),
                None => {
                    return;
                },
            }
            i = i + 1;
        }
        if let Some((t, r, bo, l)) = shorthand_sides(vals.len()) {
            out.push(Declaration::PaddingTop(vals[t]));
            out.push(Declaration::PaddingRight(vals[r]));
            out.push(Declaration::PaddingBottom(vals[bo]));
            out.push(Declaration::PaddingLeft(vals[l]));
        }
    } else if region_eq_lower(v, p0, p1, "border-top-style") {
        if let Some(m) = parse_border_style_value(v, a, b) {
            out.push(Declaration::BorderTopStyle(m));
        }
    } else if region_eq_lower(v, p0, p1, "border-right-style") {
        if let Some(m) = parse_border_style_value(v, a, b) {
            out.push(Declaration::BorderRightStyle(m));
        }
    } else if region_eq_lower(v, p0, p1, "border-bottom-style") {
        if let Some(m) = parse_border_style_value(v, a, b) {
            out.push(Declaration::BorderBottomStyle(m));
        }
    } else if region_eq_lower(v, p0, p1, "border-left-style") {
        if let Some(m) = parse_border_style_value(v, a, b) {
            out.push(Declaration::BorderLeftStyle(m));
        }
    } else if region_eq_lower(v, p0, p1, "border-style") {
        let toks = ws_tokens(v, a, b);
        let mut vals: Vec<CssBorderStyleValue> = Vec::new();
        let mut i: usize = 0;
        while i < toks.len()
            invariant
                decls_supported(out@),
                0 <= i <= toks@.len(),
                forall|k: int| 0 <= k < toks@.len()
                    ==> #[trigger] toks@[k].0 < toks@[k].1 <= v@.len(),
            decreases toks@.len() - i,
        {
            match parse_border_style_value(v, toks[i].0, toks[i].1) {
                Some(m) => vals.push(m),
                None => {
                    return;
                },
            }
            i = i + 1;
        }
        if let Some((t, r, bo, l)) = shorthand_sides(vals.len()) {
            out.push(Declaration::BorderTopStyle(vals[t]));
            out.push(Declaration::BorderRightStyle(vals[r]));
            out.push(Declaration::BorderBottomStyle(vals[bo]));
            out.push(Declaration::BorderLeftStyle(vals[l]));
        }
    } else if region_eq_lower(v, p0, p1, "border-top-width") {
        if let Some(m) = parse_border_width_value(v, a, b) {
            out.push(Declaration::BorderTopWidth(m));
        }
    } else if region_eq_lower(v, p0, p1, "border-right-width") {
        if let Some(m) = parse_border_width_value(v, a, b) {
            out.push(Declaration::BorderRightWidth(m));
        }
    } else if region_eq_lower(v, p0, p1, "border-bottom-width") {
        if let Some(m) = parse_border_width_value(v, a, b) {
            out.push(Declaration::BorderBottomWidth(m));
        }
    } else if region_eq_lower(v, p0, p1, "border-left-width") {
        if let Some(m) = parse_border_width_value(v, a, b) {
            out.push(Declaration::BorderLeftWidth(m));
        }
    } else if region_eq_lower(v, p0, p1, "border-width") {
        let toks = ws_tokens(v, a, b);
        let mut vals: Vec<CssBorderWidthValue> = Vec::new();
        let mut i: usize = 0;
        while i < toks.len()
            invariant
                decls_supported(out@),
                0 <= i <= toks@.len(),
                forall|k: int| 0 <= k < toks@.len()
                    ==> #[trigger] toks@[k].0 < toks@[k].1 <= v@.len(),
                forall|k: int| 0 <= k < vals@.len() ==> border_width_supported(
                    #[trigger] vals@[k],
                ),
            decreases toks@.len() - i,
        {
            match parse_border_width_value(v, toks[i].0, toks[i].1) {
                Some(m) => vals.push(m),
                None => {
                    return;
                },
            }
            i = i + 1;
        }
        if let Some((t, r, bo, l)) = shorthand_sides(vals.len()) {
            out.push(Declaration::BorderTopWidth(vals[t]));
            out.push(Declaration::BorderRightWidth(vals[r]));
            out.push(Declaration::BorderBottomWidth(vals[bo]));
            out.push(Declaration::BorderLeftWidth(vals[l]));
        }
    } else if region_eq_lower(v, p0, p1, "border-top-color") {
        if let Some(m) = parse_color_value(s, v, a, b) {
            out.push(Declaration::BorderTopColor(m));
        }
    } else if region_eq_lower(v, p0, p1, "border-right-color") {
        if let Some(m) = parse_color_value(s, v, a, b) {
            out.push(Declaration::BorderRightColor(m));
        }
    } else if region_eq_lower(v, p0, p1, "border-bottom-color") {
        if let Some(m) = parse_color_value(s, v, a, b) {
            out.push(Declaration::BorderBottomColor(m));
        }
    } else if region_eq_lower(v, p0, p1, "border-left-color") {
        if let Some(m) = parse_color_value(s, v, a, b) {
            out.push(Declaration::BorderLeftColor(m));
        }
    } else if region_eq_lower(v, p0, p1, "border-color") {
        let toks = ws_tokens(v, a, b);
        let mut vals: Vec<CssColorValue> = Vec::new();
        let mut i: usize = 0;
        while i < toks.len()
            invariant
                decls_supported(out@),
                v@ == s@,
                0 <= i <= toks@.len(),
                forall|k: int| 0 <= k < toks@.len()
                    ==> #[trigger] toks@[k].0 < toks@[k].1 <= v@.len(),
            decreases toks@.len() - i,
        {
            match parse_color_value(s, v, toks[i].0, toks[i].1) {
                Some(m) => vals.push(m),
                None => {
                    return;
                },
            }
            i = i + 1;
        }
        if let Some((t, r, bo, l)) = shorthand_sides(vals.len()) {
            out.push(Declaration::BorderTopColor(vals[t]));
            out.push(Declaration::BorderRightColor(vals[r]));
            out.push(Declaration::BorderBottomColor(vals[bo]));
            out.push(Declaration::BorderLeftColor(vals[l]));
        }
    } else if region_eq_lower(v, p0, p1, "display") {
        if let Some(m) = parse_display_value(v, a, b) {
            out.push(Declaration::Display(m));
        }
    } else if region_eq_lower(v, p0, p1, "position") {
        if let Some(m) = parse_position_value(v, a, b) {
            out.push(Declaration::Position(m));
        }
    } else if region_eq_lower(v, p0, p1, "float") {
        if let Some(m) = parse_float_value(v, a, b) {
            out.push(Declaration::Float(m));
        }
    } else if region_eq_lower(v, p0, p1, "clear") {
        if let Some(m) = parse_clear_value(v, a, b) {
            out.push(Declaration::Clear(m));
        }
    } else if region_eq_lower(v, p0, p1, "width") {
        if let Some(m) = parse_width_value(v, a, b) {
            out.push(Declaration::Width(m));
        }
    } else if region_eq_lower(v, p0, p1, "height") {
        if let Some(m) = parse_height_value(v, a, b) {
            out.push(Declaration::Height(m));
        }
    } else if region_eq_lower(v, p0, p1, "line-height") {
        if let Some(m) = parse_line_height_value(v, a, b) {
            out.push(Declaration::LineHeight(m));
        }
    } else if region_eq_lower(v, p0, p1, "vertical-align") {
        if let Some(m) = parse_vertical_align_value(v, a, b) {
            out.push(Declaration::VerticalAlign(m));
        }
    } else if region_eq_lower(v, p0, p1, "background-color") {
        if let Some(m) = parse_color_value(s, v, a, b) {
            out.push(Declaration::BackgroundColor(m));
        }
    } else if region_eq_lower(v, p0, p1, "color") {
        if let Some(m) = parse_color_value(s, v, a, b) {
            out.push(Declaration::Color(m));
        }
    } else if region_eq_lower(v, p0, p1, "font-family") {
        if let Some(m) = parse_font_family_value(s, v, a, b) {
            out.push(Declaration::FontFamily(m));
        }
    } else if region_eq_lower(v, p0, p1, "font-style") {
        if let Some(m) = parse_font_style_value(v, a, b) {
            out.push(Declaration::FontStyle(m));
        }
    } else if region_eq_lower(v, p0, p1, "font-weight") {
        if let Some(m) = parse_font_weight_value(v, a, b) {
            out.push(Declaration::FontWeight(m));
        }
    } else if region_eq_lower(v, p0, p1, "font-size") {
        if let Some(m) = parse_font_size_value(v, a, b) {
            out.push(Declaration::FontSize(m));
        }
    } else if region_eq_lower(v, p0, p1, "text-align") {
        if let Some(m) = parse_text_align_value(v, a, b) {
            out.push(Declaration::TextAlign(m));
        }
    } else if region_eq_lower(v, p0, p1, "text-decoration") {
        if let Some(m) = parse_text_decoration_value(v, a, b) {
            out.push(Declaration::TextDecoration(m));
        }
    }
}

/// Parses the semicolon-separated declarations of a block.
fn parse_declarations(s: &str, v: &Vec<char>, from: usize, to: usize, out: &mut Vec<Declaration>)
    requires
        v@ == s@,
        from <= to <= v@.len(),
        decls_supported(old(out)@),
    ensures
        decls_supported(final(out)@),
    decreases to - from,
{
    let semi = match find_from(v, ';', from) {
        Some(i) => if i < to {
            Some(i)
        } else {
            None
        },
        None => None,
    };
    match semi {
        Some(i) => {
            parse_declaration_into(s, v, from, i, out);
            parse_declarations(s, v, i + 1, to, out);
        },
        None => {
            parse_declaration_into(s, v, from, to, out);
        },
    }
}

/// Parses one compound selector: an optional element name (or `*`)
/// followed by `#id` and `.class` parts.
fn parse_simple_selector(s: &str, v: &Vec<char>, from: usize, to: usize) -> (r: Option<
    SimpleSelector,
>)
    requires
        v@ == s@,
        from < to <= v@.len(),
{
    let mut element: Option<String> = None;
    let mut id: Option<String> = None;
    let mut classes: Vec<String> = Vec::new();
    let mut pos: usize = from;
    if v[pos] == '*' {
        pos = pos + 1;
    } else if v[pos] != '#' && v[pos] != '.' {
        let mut e: usize = pos;
        while e < to && v[e] != '#' && v[e] != '.'
            invariant
                pos <= e <= to <= v@.len(),
            decreases to - e,
        {
            e = e + 1;
        }
        element = Some(s.substring_char(pos, e).to_owned());
        pos = e;
    }
    while pos < to
        invariant
            from <= pos <= to <= v@.len(),
            v@ == s@,
        decreases to - pos,
    {
        let kind = v[pos];
        if kind != '#' && kind != '.' {
            return None;
        }
        let start: usize = pos + 1;
        let mut e: usize = start;
        while e < to && v[e] != '#' && v[e] != '.'
            invariant
                start <= e <= to <= v@.len(),
            decreases to - e,
        {
            e = e + 1;
        }
        if e == start {
            return None;
        }
        let name = s.substring_char(start, e).to_owned();
        if kind == '#' {
            id = Some(name);
        } else {
            classes.push(name);
        }
        pos = e;
    }
    Some(SimpleSelector { element, id, classes })
}

/// Parses a selector: compound selectors joined by child (`>`) and
/// descendant (whitespace) combinators.
fn parse_selector(s: &str, v: &Vec<char>, from: usize, to: usize) -> (r: Option<Selector>)
    requires
        v@ == s@,
        from <= to <= v@.len(),
{
    let mut comps: Vec<SimpleSelector> = Vec::new();
    let mut combs: Vec<Combinator> = Vec::new();
    let mut saw_child = false;
    let mut i: usize = from;
    while i < to
        invariant
            from <= i <= to <= v@.len(),
            v@ == s@,
            combs@.len() + 1 == comps@.len() || (comps@.len() == 0 && combs@.len() == 0),
        decreases to - i,
    {
        if is_ws_exec(v[i]) {
            i = i + 1;
        } else if v[i] == '>' {
            if comps.len() == 0 || saw_child {
                return None;
            }
            saw_child = true;
            i = i + 1;
        } else {
            let start: usize = i;
            let mut j: usize = i;
            while j < to && !is_ws_exec(v[j]) && v[j] != '>'
                invariant
                    i <= j <= to <= v@.len(),
                decreases to - j,
            {
                j = j + 1;
            }
            let sim = match parse_simple_selector(s, v, start, j) {
                Some(x) => x,
                None => {
                    return None;
                },
            };
            if comps.len() > 0 {
                combs.push(
                    if saw_child {
                        Combinator::Child
                    } else {
                        Combinator::Descendant
                    },
                );
            }
            comps.push(sim);
            saw_child = false;
            i = j;
        }
    }
    if saw_child {
        return None;
    }
    let target = match comps.pop() {
        Some(x) => x,
        None => {
            return None;
        },
    };
    let mut ancestors: Vec<(Combinator, SimpleSelector)> = Vec::new();
    while comps.len() > 0
        invariant
            combs@.len() == comps@.len(),
        decreases comps@.len(),
    {
        let sim = match comps.pop() {
            Some(x) => x,
            None => {
                return None;
            },
        };
        let comb = match combs.pop() {
            Some(x) => x,
            None => {
                return None;
            },
        };
        ancestors.push((comb, sim));
    }
    Some(Selector { target, ancestors })
}

/// Constructs the list of style rules a stylesheet's text holds. Rules
/// whose selector or braces do not parse are skipped, and every
/// declaration produced lies within the adapter's coverage.
pub fn parse_stylesheet(source: &str) -> (r: Vec<Rule>)
    ensures
        rules_supported(r@),
{
    let v = chars_of(source);
    let n: usize = v.len();
    let mut out: Vec<Rule> = Vec::new();
    let mut pos: usize = 0;
    loop
        invariant
            pos <= n == v@.len(),
            v@ == source@,
            rules_supported(out@),
        decreases n - pos,
    {
        let b1 = match find_from(&v, '{', pos) {
            Some(i) => i,
            None => {
                break ;
            },
        };
        let b2 = match find_from(&v, '}', b1 + 1) {
            Some(i) => i,
            None => {
                break ;
            },
        };
        let sel = parse_selector(source, &v, pos, b1);
        let mut decls: Vec<Declaration> = Vec::new();
        parse_declarations(source, &v, b1 + 1, b2, &mut decls);
        if let Some(selector) = sel {
            let ghost before = out@;
            out.push(Rule { selector, declarations: decls });
            proof {
                assert(forall|i: int| 0 <= i < out@.len() ==> crate::stylesheet::rule_supported(
                    &out@[i],
                ));
            }
        }
        pos = b2 + 1;
    }
    out
}

/// Constructs the rules of a style attribute: its declarations under a
/// selector that matches any node.
pub fn parse_style_attribute(data: &str) -> (r: Vec<Rule>)
    ensures
        rules_supported(r@),
{
    let v = chars_of(data);
    let mut decls: Vec<Declaration> = Vec::new();
    parse_declarations(data, &v, 0, v.len(), &mut decls);
    let universal = SimpleSelector { element: None, id: None, classes: Vec::new() };
    let mut out: Vec<Rule> = Vec::new();
    out.push(Rule { selector: Selector { target: universal, ancestors: Vec::new() }, declarations: decls });
    proof {
        assert(forall|i: int| 0 <= i < out@.len() ==> crate::stylesheet::rule_supported(&out@[i]));
    }
    out
}

} // verus!
