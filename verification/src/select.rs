//! Selector matching.
//!
//! Matching runs over generic node types: what the engine must know of the
//! document (names, ids, classes, ancestry) it asks through the
//! `SelectHandler` capabilities the host supplies. The `SelectCtx` owns
//! the stylesheets of the cascade; `select_style` answers one node's
//! computed style.

use vstd::prelude::*;
use crate::computed::ComputedStyle;
use crate::fixed::Fixed;
use crate::hint::{
    CssBorderStyleValue, CssBorderWidthValue, CssClearValue, CssColor, CssColorValue,
    CssComputedStyle, CssDisplayValue, CssFloatValue, CssFontFamilyValue, CssFontSizeValue,
    CssFontStyleValue, CssFontWeightValue, CssHeightValue, CssLineHeightValue, CssMarginValue,
    CssPaddingValue, CssPositionValue, CssTextAlignValue, CssTextDecorationValue, CssUnit,
    CssVerticalAlignValue, CssWidthValue,
};
use crate::stylesheet::{apply_declaration, Combinator, Selector, SimpleSelector, Stylesheet};
use crate::types::StylesheetOrigin;

verus! {

/// The style of a single node as selector matching computed it.
pub struct SelectResults {
    pub inner: CssComputedStyle,
}

impl SelectResults {
    /// The computed style, read through the typed adapter.
    pub fn computed_style<'a>(&'a self) -> (r: ComputedStyle<'a>)
        ensures
            *r.inner == self.inner,
    {
        ComputedStyle { inner: &self.inner }
    }
}


/// Callbacks used to query the host's document representation during
/// selector matching. The matching engine is generic over the node type;
/// the host supplies these capabilities for it.
pub trait SelectHandler<N> {
    /// The node's element name.
    fn node_name(&self, node: &N) -> String;

    /// The node's id attribute, if it has one.
    fn node_id(&self, node: &N) -> Option<String>;

    /// The node's space-separated class list, if it has one.
    fn node_classes(&self, node: &N) -> Option<String>;

    /// The node's parent, if it has one.
    fn parent_node(&self, node: &N) -> Option<N>;

    /// The node's parent, if it has one and bears the given element name.
    fn named_parent_node(&self, node: &N, name: &str) -> Option<N>;

    /// Whether the node carries the given class.
    fn node_has_class(&self, node: &N, name: &str) -> bool;

    /// Whether the node carries the given id.
    fn node_has_id(&self, node: &N, name: &str) -> bool;

    /// The nearest ancestor bearing the given element name, if any.
    fn named_ancestor_node(&self, node: &N, name: &str) -> Option<N>;

    /// Whether the node is the document root.
    fn node_is_root(&self, node: &N) -> bool;

    /// Whether the node is a link.
    fn node_is_link(&self, node: &N) -> bool;
}

/// Whether a node matches one compound selector.
fn matches_simple<N, H: SelectHandler<N>>(sim: &SimpleSelector, node: &N, handler: &H) -> bool {
    match &sim.element {
        Some(name) => {
            let nn = handler.node_name(node);
            if !(nn == *name) {
                return false;
            }
        },
        None => {},
    }
    match &sim.id {
        Some(id) => {
            if !handler.node_has_id(node, id.as_str()) {
                return false;
            }
        },
        None => {},
    }
    let mut i: usize = 0;
    let n: usize = sim.classes.len();
    while i < n
        invariant
            i <= n == sim.classes@.len(),
        decreases n - i,
    {
        if !handler.node_has_class(node, sim.classes[i].as_str()) {
            return false;
        }
        i = i + 1;
    }
    true
}

/// Climbs one combinator step from `cur`: the node that must match the
/// next compound, if the document offers one that does.
fn step_to_ancestor<N, H: SelectHandler<N>>(
    handler: &H,
    cur: &N,
    comb: Combinator,
    sim: &SimpleSelector,
) -> Option<N> {
    match comb {
        Combinator::Child => {
            match handler.parent_node(cur) {
                Some(p) => if matches_simple(sim, &p, handler) {
                    Some(p)
                } else {
                    None
                },
                None => None,
            }
        },
        Combinator::Descendant => {
            match &sim.element {
                Some(name) => {
                    match handler.named_ancestor_node(cur, name.as_str()) {
                        Some(p) => if matches_simple(sim, &p, handler) {
                            Some(p)
                        } else {
                            None
                        },
                        None => None,
                    }
                },
                // a descendant compound without an element name is not
                // matched by this engine
                None => None,
            }
        },
    }
}

/// Whether a node matches a selector: the node matches the target
/// compound, and its ancestry matches the ancestor compounds through
/// their combinators.
fn matches_selector<N, H: SelectHandler<N>>(sel: &Selector, node: &N, handler: &H) -> bool {
    if !matches_simple(&sel.target, node, handler) {
        return false;
    }
    let mut cur: Option<N> = None;
    let mut i: usize = 0;
    let n: usize = sel.ancestors.len();
    while i < n
        invariant
            i <= n == sel.ancestors@.len(),
        decreases n - i,
    {
        let pair = &sel.ancestors[i];
        let stepped = match &cur {
            None => step_to_ancestor(handler, node, pair.0, &pair.1),
            Some(c) => step_to_ancestor(handler, c, pair.0, &pair.1),
        };
        match stepped {
            Some(p) => {
                cur = Some(p);
            },
            None => {
                return false;
            },
        }
        i = i + 1;
    }
    true
}

/// The initial computed style of a node no declaration touched: inherited
/// properties answer the inherit sentinel, the rest their CSS 2.1 initial
/// values.
pub fn initial_computed_style() -> (r: CssComputedStyle)
    ensures
        r.supported(),
{
    CssComputedStyle {
        margin_top: CssMarginValue::CssMarginSet(CssUnit::CssUnitPx(Fixed::of_micro(0))),
        margin_right: CssMarginValue::CssMarginSet(CssUnit::CssUnitPx(Fixed::of_micro(0))),
        margin_bottom: CssMarginValue::CssMarginSet(CssUnit::CssUnitPx(Fixed::of_micro(0))),
        margin_left: CssMarginValue::CssMarginSet(CssUnit::CssUnitPx(Fixed::of_micro(0))),
        padding_top: CssPaddingValue::CssPaddingSet(CssUnit::CssUnitPx(Fixed::of_micro(0))),
        padding_right: CssPaddingValue::CssPaddingSet(CssUnit::CssUnitPx(Fixed::of_micro(0))),
        padding_bottom: CssPaddingValue::CssPaddingSet(CssUnit::CssUnitPx(Fixed::of_micro(0))),
        padding_left: CssPaddingValue::CssPaddingSet(CssUnit::CssUnitPx(Fixed::of_micro(0))),
        border_top_style: CssBorderStyleValue::CssBorderStyleNone,
        border_right_style: CssBorderStyleValue::CssBorderStyleNone,
        border_bottom_style: CssBorderStyleValue::CssBorderStyleNone,
        border_left_style: CssBorderStyleValue::CssBorderStyleNone,
        border_top_width: CssBorderWidthValue::CssBorderWidthMedium,
        border_right_width: CssBorderWidthValue::CssBorderWidthMedium,
        border_bottom_width: CssBorderWidthValue::CssBorderWidthMedium,
        border_left_width: CssBorderWidthValue::CssBorderWidthMedium,
        border_top_color: CssColorValue::CssColorColor(CssColor { a: 255, r: 0, g: 0, b: 0 }),
        border_right_color: CssColorValue::CssColorColor(CssColor { a: 255, r: 0, g: 0, b: 0 }),
        border_bottom_color: CssColorValue::CssColorColor(CssColor { a: 255, r: 0, g: 0, b: 0 }),
        border_left_color: CssColorValue::CssColorColor(CssColor { a: 255, r: 0, g: 0, b: 0 }),
        display: CssDisplayValue::CssDisplayInline,
        position: CssPositionValue::CssPositionStatic,
        float: CssFloatValue::CssFloatNone,
        clear: CssClearValue::CssClearNone,
        width: CssWidthValue::CssWidthAuto,
        height: CssHeightValue::CssHeightAuto,
        line_height: CssLineHeightValue::CssLineHeightInherit,
        vertical_align: CssVerticalAlignValue::CssVerticalAlignBaseline,
        background_color: CssColorValue::CssColorColor(CssColor { a: 0, r: 0, g: 0, b: 0 }),
        color: CssColorValue::CssColorInherit,
        font_family: CssFontFamilyValue::CssFontFamilyInherit,
        font_style: CssFontStyleValue::CssFontStyleInherit,
        font_weight: CssFontWeightValue::CssFontWeightInherit,
        font_size: CssFontSizeValue::CssFontSizeInherit,
        text_align: CssTextAlignValue::CssTextAlignInherit,
        text_decoration: CssTextDecorationValue::CssTextDecorationNone,
    }
}

/// The selection context: it owns the stylesheets that take part in the
/// cascade and answers per-node style requests.
pub struct SelectCtx {
    pub sheets: Vec<(Stylesheet, StylesheetOrigin)>,
}

impl SelectCtx {
    /// Every appended stylesheet is within the adapter's coverage.
    pub open spec fn wf(&self) -> bool {
        forall|i: int| 0 <= i < self.sheets@.len() ==> (#[trigger] self.sheets@[i].0).wf()
    }

    /// An empty selection context.
    pub fn new() -> (r: SelectCtx)
        ensures
            r.wf(),
            r.sheets@.len() == 0,
    {
        SelectCtx { sheets: Vec::new() }
    }

    /// Adds a stylesheet to the context, where it will take part in the
    /// cascade of future selector matching under the given origin.
    pub fn append_sheet(&mut self, sheet: Stylesheet, origin: StylesheetOrigin)
        requires
            old(self).wf(),
            sheet.wf(),
        ensures
            final(self).wf(),
            final(self).sheets@.len() == old(self).sheets@.len() + 1,
    {
        self.sheets.push((sheet, origin));
    }

    /// Selects the style of a single node: starting from the initial
    /// values, the declarations of every matching rule apply in cascade
    /// order, user-agent sheets first, then user sheets, then author
    /// sheets, later rules overriding earlier ones.
    pub fn select_style<N, H: SelectHandler<N>>(&self, node: &N, handler: &H) -> (r: SelectResults)
        requires
            self.wf(),
        ensures
            r.inner.supported(),
    {
        let mut style = initial_computed_style();
        self.apply_origin(node, handler, OriginPass::UA, &mut style);
        self.apply_origin(node, handler, OriginPass::User, &mut style);
        self.apply_origin(node, handler, OriginPass::Author, &mut style);
        SelectResults { inner: style }
    }

    /// Applies the declarations of every matching rule of one origin.
    fn apply_origin<N, H: SelectHandler<N>>(
        &self,
        node: &N,
        handler: &H,
        pass: OriginPass,
        style: &mut CssComputedStyle,
    )
        requires
            self.wf(),
            old(style).supported(),
        ensures
            final(style).supported(),
    {
        let mut i: usize = 0;
        let n: usize = self.sheets.len();
        while i < n
            invariant
                self.wf(),
                i <= n == self.sheets@.len(),
                style.supported(),
            decreases n - i,
        {
            let entry = &self.sheets[i];
            let wanted = match (pass, entry.1) {
                (OriginPass::UA, StylesheetOrigin::OriginUA) => true,
                (OriginPass::User, StylesheetOrigin::OriginUser) => true,
                (OriginPass::Author, StylesheetOrigin::OriginAuthor) => true,
                _ => false,
            };
            if wanted {
                apply_sheet(&entry.0, node, handler, style);
            }
            i = i + 1;
        }
    }
}

/// One pass of the cascade's origin order.
#[derive(Clone, Copy, PartialEq, Eq, Structural, Debug)]
enum OriginPass {
    UA,
    User,
    Author,
}

/// Applies the declarations of every rule of one sheet that matches the
/// node.
fn apply_sheet<N, H: SelectHandler<N>>(
    sheet: &Stylesheet,
    node: &N,
    handler: &H,
    style: &mut CssComputedStyle,
)
    requires
        sheet.wf(),
        old(style).supported(),
    ensures
        final(style).supported(),
{
    let mut i: usize = 0;
    let n: usize = sheet.rules.len();
    while i < n
        invariant
            sheet.wf(),
            i <= n == sheet.rules@.len(),
            style.supported(),
        decreases n - i,
    {
        let rule = &sheet.rules[i];
        if matches_selector(&rule.selector, node, handler) {
            let mut j: usize = 0;
            let m: usize = rule.declarations.len();
            while j < m
                invariant
                    crate::stylesheet::rule_supported(rule),
                    j <= m == rule.declarations@.len(),
                    style.supported(),
                decreases m - j,
            {
                apply_declaration(style, &rule.declarations[j]);
                j = j + 1;
            }
        }
        i = i + 1;
    }
}

} // verus!
