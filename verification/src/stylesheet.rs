//! Stylesheets: parsed style rules, immutable after creation.
//!
//! A stylesheet is a list of rules; a rule pairs a selector with the
//! declarations it applies. Selectors cover element names, ids and
//! classes, joined by child and descendant combinators. Each declaration
//! carries a longhand property's hint, shorthands having been expanded
//! when the text was parsed.

use vstd::prelude::*;
use crate::hint::{
    border_width_supported, copy_font_family, display_supported, font_size_supported,
    height_supported, line_height_supported, margin_supported, padding_supported,
    text_align_supported, vertical_align_supported, width_supported, CssBorderStyleValue,
    CssBorderWidthValue, CssClearValue, CssColorValue, CssComputedStyle, CssDisplayValue,
    CssFloatValue, CssFontFamilyValue, CssFontSizeValue, CssFontStyleValue, CssFontWeightValue,
    CssHeightValue, CssLineHeightValue, CssMarginValue, CssPaddingValue, CssPositionValue,
    CssTextAlignValue, CssTextDecorationValue, CssVerticalAlignValue, CssWidthValue,
};
use crate::parser::{parse_stylesheet, parse_style_attribute};

verus! {

/// One parsed longhand declaration: the property and the hint its written
/// value denotes.
pub enum Declaration {
    MarginTop(CssMarginValue),
    MarginRight(CssMarginValue),
    MarginBottom(CssMarginValue),
    MarginLeft(CssMarginValue),
    PaddingTop(CssPaddingValue),
    PaddingRight(CssPaddingValue),
    PaddingBottom(CssPaddingValue),
    PaddingLeft(CssPaddingValue),
    BorderTopStyle(CssBorderStyleValue),
    BorderRightStyle(CssBorderStyleValue),
    BorderBottomStyle(CssBorderStyleValue),
    BorderLeftStyle(CssBorderStyleValue),
    BorderTopWidth(CssBorderWidthValue),
    BorderRightWidth(CssBorderWidthValue),
    BorderBottomWidth(CssBorderWidthValue),
    BorderLeftWidth(CssBorderWidthValue),
    BorderTopColor(CssColorValue),
    BorderRightColor(CssColorValue),
    BorderBottomColor(CssColorValue),
    BorderLeftColor(CssColorValue),
    Display(CssDisplayValue),
    Position(CssPositionValue),
    Float(CssFloatValue),
    Clear(CssClearValue),
    Width(CssWidthValue),
    Height(CssHeightValue),
    LineHeight(CssLineHeightValue),
    VerticalAlign(CssVerticalAlignValue),
    BackgroundColor(CssColorValue),
    Color(CssColorValue),
    FontFamily(CssFontFamilyValue),
    FontStyle(CssFontStyleValue),
    FontWeight(CssFontWeightValue),
    FontSize(CssFontSizeValue),
    TextAlign(CssTextAlignValue),
    TextDecoration(CssTextDecorationValue),
}

/// Whether a declaration's hint lies within the adapter's coverage; the
/// parser only produces such declarations.
pub open spec fn decl_supported(d: &Declaration) -> bool {
    match d {
        Declaration::MarginTop(v) => margin_supported(*v),
        Declaration::MarginRight(v) => margin_supported(*v),
        Declaration::MarginBottom(v) => margin_supported(*v),
        Declaration::MarginLeft(v) => margin_supported(*v),
        Declaration::PaddingTop(v) => padding_supported(*v),
        Declaration::PaddingRight(v) => padding_supported(*v),
        Declaration::PaddingBottom(v) => padding_supported(*v),
        Declaration::PaddingLeft(v) => padding_supported(*v),
        Declaration::BorderTopStyle(_) => true,
        Declaration::BorderRightStyle(_) => true,
        Declaration::BorderBottomStyle(_) => true,
        Declaration::BorderLeftStyle(_) => true,
        Declaration::BorderTopWidth(v) => border_width_supported(*v),
        Declaration::BorderRightWidth(v) => border_width_supported(*v),
        Declaration::BorderBottomWidth(v) => border_width_supported(*v),
        Declaration::BorderLeftWidth(v) => border_width_supported(*v),
        Declaration::BorderTopColor(_) => true,
        Declaration::BorderRightColor(_) => true,
        Declaration::BorderBottomColor(_) => true,
        Declaration::BorderLeftColor(_) => true,
        Declaration::Display(v) => display_supported(*v),
        Declaration::Position(_) => true,
        Declaration::Float(_) => true,
        Declaration::Clear(_) => true,
        Declaration::Width(v) => width_supported(*v),
        Declaration::Height(v) => height_supported(*v),
        Declaration::LineHeight(v) => line_height_supported(*v),
        Declaration::VerticalAlign(v) => vertical_align_supported(*v),
        Declaration::BackgroundColor(_) => true,
        Declaration::Color(_) => true,
        Declaration::FontFamily(_) => true,
        Declaration::FontStyle(_) => true,
        Declaration::FontWeight(_) => true,
        Declaration::FontSize(v) => font_size_supported(*v),
        Declaration::TextAlign(v) => text_align_supported(*v),
        Declaration::TextDecoration(_) => true,
    }
}

/// One simple selector: an optional element name, an optional id, and any
/// number of class names, all of which the node must carry.
pub struct SimpleSelector {
    pub element: Option<String>,
    pub id: Option<String>,
    pub classes: Vec<String>,
}

/// How a compound selector relates to the one on its right.
#[derive(Clone, Copy, PartialEq, Eq, Structural, Debug)]
pub enum Combinator {
    Child,
    Descendant,
}

/// A full selector: the compound the node itself must match, and the
/// compounds its ancestors must match, nearest first.
pub struct Selector {
    pub target: SimpleSelector,
    pub ancestors: Vec<(Combinator, SimpleSelector)>,
}

/// One style rule: a selector and the declarations it applies.
pub struct Rule {
    pub selector: Selector,
    pub declarations: Vec<Declaration>,
}

/// Whether every declaration of a rule is within coverage.
pub open spec fn rule_supported(r: &Rule) -> bool {
    forall|i: int| 0 <= i < r.declarations@.len() ==> decl_supported(&r.declarations@[i])
}

/// Whether every rule of a sequence is within coverage.
pub open spec fn rules_supported(rs: Seq<Rule>) -> bool {
    forall|i: int| 0 <= i < rs.len() ==> rule_supported(&rs[i])
}

/// A parsed stylesheet, immutable after creation.
pub struct Stylesheet {
    pub rules: Vec<Rule>,
}

impl Stylesheet {
    /// Every declaration the stylesheet holds is within coverage.
    pub open spec fn wf(&self) -> bool {
        rules_supported(self.rules@)
    }

    /// Parses a stylesheet from its text. Rules and declarations that do
    /// not parse are skipped, as permissive CSS error recovery asks.
    pub fn new(source: &str) -> (r: Stylesheet)
        ensures
            r.wf(),
    {
        Stylesheet { rules: parse_stylesheet(source) }
    }

    /// Parses the declarations of a style attribute; they apply to the
    /// attribute's own node, so they stand under a selector that matches
    /// any node.
    pub fn from_attribute(data: &str) -> (r: Stylesheet)
        ensures
            r.wf(),
    {
        Stylesheet { rules: parse_style_attribute(data) }
    }
}

/// Applies one declaration to a computed style, overriding that
/// property's hint.
pub fn apply_declaration(style: &mut CssComputedStyle, d: &Declaration)
    requires
        old(style).supported(),
        decl_supported(d),
    ensures
        final(style).supported(),
{
    match d {
        Declaration::MarginTop(v) => {
            style.margin_top = *v;
        },
        Declaration::MarginRight(v) => {
            style.margin_right = *v;
        },
        Declaration::MarginBottom(v) => {
            style.margin_bottom = *v;
        },
        Declaration::MarginLeft(v) => {
            style.margin_left = *v;
        },
        Declaration::PaddingTop(v) => {
            style.padding_top = *v;
        },
        Declaration::PaddingRight(v) => {
            style.padding_right = *v;
        },
        Declaration::PaddingBottom(v) => {
            style.padding_bottom = *v;
        },
        Declaration::PaddingLeft(v) => {
            style.padding_left = *v;
        },
        Declaration::BorderTopStyle(v) => {
            style.border_top_style = *v;
        },
        Declaration::BorderRightStyle(v) => {
            style.border_right_style = *v;
        },
        Declaration::BorderBottomStyle(v) => {
            style.border_bottom_style = *v;
        },
        Declaration::BorderLeftStyle(v) => {
            style.border_left_style = *v;
        },
        Declaration::BorderTopWidth(v) => {
            style.border_top_width = *v;
        },
        Declaration::BorderRightWidth(v) => {
            style.border_right_width = *v;
        },
        Declaration::BorderBottomWidth(v) => {
            style.border_bottom_width = *v;
        },
        Declaration::BorderLeftWidth(v) => {
            style.border_left_width = *v;
        },
        Declaration::BorderTopColor(v) => {
            style.border_top_color = *v;
        },
        Declaration::BorderRightColor(v) => {
            style.border_right_color = *v;
        },
        Declaration::BorderBottomColor(v) => {
            style.border_bottom_color = *v;
        },
        Declaration::BorderLeftColor(v) => {
            style.border_left_color = *v;
        },
        Declaration::Display(v) => {
            style.display = *v;
        },
        Declaration::Position(v) => {
            style.position = *v;
        },
        Declaration::Float(v) => {
            style.float = *v;
        },
        Declaration::Clear(v) => {
            style.clear = *v;
        },
        Declaration::Width(v) => {
            style.width = *v;
        },
        Declaration::Height(v) => {
            style.height = *v;
        },
        Declaration::LineHeight(v) => {
            style.line_height = *v;
        },
        Declaration::VerticalAlign(v) => {
            style.vertical_align = *v;
        },
        Declaration::BackgroundColor(v) => {
            style.background_color = *v;
        },
        Declaration::Color(v) => {
            style.color = *v;
        },
        Declaration::FontFamily(v) => {
            style.font_family = copy_font_family(v);
        },
        Declaration::FontStyle(v) => {
            style.font_style = *v;
        },
        Declaration::FontWeight(v) => {
            style.font_weight = *v;
        },
        Declaration::FontSize(v) => {
            style.font_size = *v;
        },
        Declaration::TextAlign(v) => {
            style.text_align = *v;
        },
        Declaration::TextDecoration(v) => {
            style.text_decoration = *v;
        },
    }
}

} // verus!
