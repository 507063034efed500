use std::cell::RefCell;
use std::rc::Rc;

use css::color::rgb;
use css::complete::{CompleteSelectResults, CompleteStyle};
use css::fixed::Fixed;
use css::select::{SelectCtx, SelectHandler};
use css::stylesheet::Stylesheet;
use css::types::StylesheetOrigin;
use css::units::Length;
use css::values::{CSSBorderWidth, CSSFontSize, CSSMargin, CSSValue};

fn px(i: i64) -> Length {
    Length::Px(Fixed::of_int(i))
}

struct NodeData {
    name: String,
    id: String,
    parent: RefCell<Option<Node>>,
}

#[derive(Clone)]
struct Node(Rc<NodeData>);

impl Node {
    fn new(name: &str, id: &str) -> Node {
        Node(Rc::new(NodeData {
            name: name.to_string(),
            id: id.to_string(),
            parent: RefCell::new(None),
        }))
    }
}

struct Handler;

impl SelectHandler<Node> for Handler {
    fn node_name(&self, node: &Node) -> String {
        node.0.name.clone()
    }
    fn node_id(&self, node: &Node) -> Option<String> {
        Some(node.0.id.clone())
    }
    fn node_classes(&self, _node: &Node) -> Option<String> {
        None
    }
    fn parent_node(&self, node: &Node) -> Option<Node> {
        node.0.parent.borrow().clone()
    }
    fn named_parent_node(&self, node: &Node, name: &str) -> Option<Node> {
        match &*node.0.parent.borrow() {
            Some(p) => {
                if p.0.name == name {
                    Some(p.clone())
                } else {
                    None
                }
            }
            None => None,
        }
    }
    fn node_has_class(&self, _node: &Node, _name: &str) -> bool {
        true
    }
    fn node_has_id(&self, node: &Node, name: &str) -> bool {
        node.0.id == name
    }
    fn named_ancestor_node(&self, node: &Node, name: &str) -> Option<Node> {
        let mut cur = self.parent_node(node);
        while let Some(p) = cur {
            if p.0.name == name {
                return Some(p);
            }
            cur = self.parent_node(&p);
        }
        None
    }
    fn node_is_root(&self, node: &Node) -> bool {
        node.0.parent.borrow().is_none()
    }
    fn node_is_link(&self, node: &Node) -> bool {
        node.0.name == "a"
    }
}

fn resolved_div(style: &str, f: &dyn Fn(&CompleteStyle)) {
    let sheet = Stylesheet::new(style);
    let mut ctx = SelectCtx::new();
    let handler = Handler;
    ctx.append_sheet(sheet, StylesheetOrigin::OriginAuthor);
    let dom = Node::new("div", "id1");
    let results = ctx.select_style(&dom, &handler);
    let complete = CompleteSelectResults::new_root(results);
    let style = complete.computed_style();
    f(&style);
}

fn resolved_parent_child(style: &str) -> (CompleteSelectResults, CompleteSelectResults) {
    let sheet = Stylesheet::new(style);
    let mut ctx = SelectCtx::new();
    let handler = Handler;
    ctx.append_sheet(sheet, StylesheetOrigin::OriginAuthor);
    let child = Node::new("span", "id1");
    let parent = Node::new("div", "id2");
    *child.0.parent.borrow_mut() = Some(parent.clone());
    let parent_results = ctx.select_style(&parent, &handler);
    let child_results = ctx.select_style(&child, &handler);
    let complete_parent = CompleteSelectResults::new_root(parent_results);
    let complete_child = CompleteSelectResults::new_from_parent(&complete_parent, child_results);
    (complete_parent, complete_child)
}

#[test]
fn test_resolved_border_top_width() {
    let style = "div { border-top-width: 10px; }";
    resolved_div(style, &|resolved| {
        assert!(resolved.border_top_width() == CSSBorderWidth::CSSBorderWidthLength(px(10)));
    });
}

#[test]
fn test_resolved_border_color_shorthand() {
    let style = "div { border-color: red; }";
    resolved_div(style, &|resolved| {
        assert!(resolved.border_top_color() == rgb(255, 0, 0));
        assert!(resolved.border_right_color() == rgb(255, 0, 0));
        assert!(resolved.border_bottom_color() == rgb(255, 0, 0));
        assert!(resolved.border_left_color() == rgb(255, 0, 0));
    });
}

#[test]
fn test_resolved_margin_auto_defaults() {
    let style = "div { margin-left: auto; }";
    resolved_div(style, &|resolved| {
        assert!(resolved.margin_left() == CSSMargin::CSSMarginAuto);
        assert!(resolved.margin_top() == CSSMargin::CSSMarginLength(px(0)));
        assert!(resolved.margin_right() == CSSMargin::CSSMarginLength(px(0)));
        assert!(resolved.margin_bottom() == CSSMargin::CSSMarginLength(px(0)));
    });
}

#[test]
fn test_relative_font_size_percentage() {
    let style = "div { font-size: 20px; } span { font-size: 150%; }";
    let (_, child) = resolved_parent_child(style);
    let resolved = child.computed_style();
    assert!(resolved.font_size() == CSSFontSize::CSSFontSizeLength(px(30)));
}

#[test]
fn test_relative_font_size_em() {
    let style = "div { font-size: 20px; } span { font-size: 2em; }";
    let (_, child) = resolved_parent_child(style);
    let resolved = child.computed_style();
    assert!(resolved.font_size() == CSSFontSize::CSSFontSizeLength(px(40)));
}

#[test]
fn test_inherited_background_color() {
    let style = "div { background-color: blue; } span { background-color: inherit; }";
    let (_, child) = resolved_parent_child(style);
    let resolved = child.computed_style();
    assert!(resolved.background_color() == rgb(0, 0, 255));
}

#[test]
fn test_resolution_repeatable() {
    let style = "div { font-size: 20px; color: red; } span { font-size: 150%; }";
    let (p1, c1) = resolved_parent_child(style);
    let (p2, c2) = resolved_parent_child(style);
    assert!(p1.inner.inner == p2.inner.inner);
    assert!(c1.inner.inner == c2.inner.inner);
    // resolving a resolved style once more changes nothing
    let again = CompleteSelectResults::new_from_parent(
        &p1,
        css::select::SelectResults { inner: c1.inner.inner.clone() },
    );
    assert!(again.inner.inner == c1.inner.inner);
}

#[test]
fn test_root_font_size_baseline() {
    let style = "div { font-size: 150%; }";
    resolved_div(style, &|resolved| {
        // 150% of the 16px baseline
        assert!(resolved.font_size() == CSSFontSize::CSSFontSizeLength(px(24)));
    });
}

#[test]
fn test_unparsed_declaration_skipped() {
    let style = "div { border-top-width: banana; margin-top: 5px; }";
    resolved_div(style, &|resolved| {
        assert!(resolved.border_top_width() == CSSBorderWidth::CSSBorderWidthMedium);
        assert!(resolved.margin_top() == CSSMargin::CSSMarginLength(px(5)));
    });
}

#[test]
fn test_short_hex_and_transparent() {
    let style = "div { background-color: #fff; }";
    resolved_div(style, &|resolved| {
        assert!(resolved.background_color() == rgb(255, 255, 255));
    });
    let style = "div { background-color: transparent; }";
    resolved_div(style, &|resolved| {
        assert!(resolved.background_color() == css::color::rgba(0, 0, 0, Fixed::of_micro(0)));
    });
}

#[test]
fn test_alpha_through_stylesheet() {
    // .5 rounds to the alpha byte 128, which reads back as 128/255
    let style = "div { background-color: rgba(0,0,0,.5); }";
    resolved_div(style, &|resolved| {
        assert!(
            resolved.background_color()
                == css::color::rgba(0, 0, 0, Fixed::of_micro(501_961))
        );
    });
}

#[test]
fn test_later_rule_wins() {
    let style = "div { color: red; } div { color: blue; }";
    resolved_div(style, &|resolved| {
        assert!(resolved.color() == rgb(0, 0, 255));
    });
}

#[test]
fn test_negative_margin() {
    let style = "div { margin-top: -5px; }";
    resolved_div(style, &|resolved| {
        assert!(
            resolved.margin_top() == CSSMargin::CSSMarginLength(Length::Px(Fixed::of_int(-5)))
        );
    });
}
