use std::cell::RefCell;
use std::rc::Rc;

use css::color::{self, rgb};
use css::complete::CompleteSelectResults;
use css::computed::ComputedStyle;
use css::fixed::Fixed;
use css::select::{SelectCtx, SelectHandler};
use css::stylesheet::Stylesheet;
use css::types::StylesheetOrigin;
use css::units::{AbsoluteSize, GenericFontFamily, Length, RelativeSize};
use css::values::{
    CSSBorderStyle, CSSBorderWidth, CSSClear, CSSDisplay, CSSFloat, CSSFontFamily, CSSFontSize,
    CSSFontStyle, CSSFontWeight, CSSHeight, CSSLineHeight, CSSMargin, CSSPosition, CSSTextAlign,
    CSSTextDecoration, CSSValue, CSSVerticalAlign, CSSWidth,
};

fn px(i: i64) -> Length {
    Length::Px(Fixed::of_int(i))
}

fn fx(micro: i64) -> Fixed {
    Fixed::of_micro(micro)
}

struct NodeData {
    name: String,
    id: String,
    parent: RefCell<Option<TestNode>>,
}

#[derive(Clone)]
struct TestNode(Rc<NodeData>);

impl TestNode {
    fn new(name: &str, id: &str) -> TestNode {
        TestNode(Rc::new(NodeData {
            name: name.to_string(),
            id: id.to_string(),
            parent: RefCell::new(None),
        }))
    }
}

struct TestHandler;

impl TestHandler {
    fn new() -> TestHandler {
        TestHandler
    }
}

impl SelectHandler<TestNode> for TestHandler {
    fn node_name(&self, node: &TestNode) -> String {
        node.0.name.clone()
    }
    fn node_id(&self, node: &TestNode) -> Option<String> {
        Some(node.0.id.clone())
    }
    fn node_classes(&self, _node: &TestNode) -> Option<String> {
        None
    }
    fn parent_node(&self, node: &TestNode) -> Option<TestNode> {
        node.0.parent.borrow().clone()
    }
    fn named_parent_node(&self, node: &TestNode, name: &str) -> Option<TestNode> {
        match &*node.0.parent.borrow() {
            Some(p) => {
                if p.0.name == name {
                    Some(p.clone())
                } else {
                    None
                }
            }
            None => None,
        }
    }
    fn node_has_class(&self, _node: &TestNode, _name: &str) -> bool {
        true
    }
    fn node_has_id(&self, node: &TestNode, name: &str) -> bool {
        node.0.id == name
    }
    fn named_ancestor_node(&self, node: &TestNode, name: &str) -> Option<TestNode> {
        let mut cur = self.parent_node(node);
        while let Some(p) = cur {
            if p.0.name == name {
                return Some(p);
            }
            cur = self.parent_node(&p);
        }
        None
    }
    fn node_is_root(&self, node: &TestNode) -> bool {
        node.0.parent.borrow().is_none()
    }
    fn node_is_link(&self, node: &TestNode) -> bool {
        node.0.name == "a"
    }
}

fn single_div_test(style: &str, f: &dyn Fn(&ComputedStyle)) {
    let sheet = Stylesheet::new(style);
    let mut select_ctx = SelectCtx::new();
    let handler = TestHandler::new();
    select_ctx.append_sheet(sheet, StylesheetOrigin::OriginAuthor);
    let dom = TestNode::new("div", "id1");
    let style = select_ctx.select_style(&dom, &handler);
    let computed = style.computed_style();
    f(&computed);
}

fn single_html_test(style: &str, f: &dyn Fn(&ComputedStyle)) {
    let sheet = Stylesheet::new(style);
    let mut select_ctx = SelectCtx::new();
    let handler = TestHandler::new();
    select_ctx.append_sheet(sheet, StylesheetOrigin::OriginAuthor);
    let dom = TestNode::new("html", "id1");
    let style = select_ctx.select_style(&dom, &handler);
    let computed = style.computed_style();
    f(&computed);
}

fn child_test(style: &str, f: &dyn Fn(&ComputedStyle)) {
    let sheet = Stylesheet::new(style);
    let mut select_ctx = SelectCtx::new();
    let handler = TestHandler::new();
    select_ctx.append_sheet(sheet, StylesheetOrigin::OriginAuthor);
    let child = TestNode::new("span", "id1");
    let parent = TestNode::new("div", "id2");
    *child.0.parent.borrow_mut() = Some(parent);
    let style = select_ctx.select_style(&child, &handler);
    let computed = style.computed_style();
    f(&computed);
}

#[test]
fn test_background_color_simple() {
    let style = "div { background-color: #123456; }";
    single_div_test(style, &|computed| {
        let color = computed.background_color();
        assert!(color == CSSValue::Specified(rgb(0x12, 0x34, 0x56)));
    });
}

#[test]
fn test_border_top_style() {
    let style = "div { border-top-style: dotted; }";
    single_div_test(style, &|computed| {
        let style = computed.border_top_style();
        assert!(style == CSSValue::Specified(CSSBorderStyle::CSSBorderStyleDotted));
    });
}

#[test]
fn test_border_right_style() {
    let style = "div { border-right-style: solid; }";
    single_div_test(style, &|computed| {
        let style = computed.border_right_style();
        assert!(style == CSSValue::Specified(CSSBorderStyle::CSSBorderStyleSolid));
    });
}

#[test]
fn test_border_bottom_style() {
    let style = "div { border-bottom-style: groove; }";
    single_div_test(style, &|computed| {
        let style = computed.border_bottom_style();
        assert!(style == CSSValue::Specified(CSSBorderStyle::CSSBorderStyleGroove));
    });
}

#[test]
fn test_border_left_style() {
    let style = "div { border-left-style: inset; }";
    single_div_test(style, &|computed| {
        let style = computed.border_left_style();
        assert!(style == CSSValue::Specified(CSSBorderStyle::CSSBorderStyleInset));
    });
}

#[test]
fn test_border_style() {
    let style = "div { border-style: inset; }";
    single_div_test(style, &|computed| {
        let style = computed.border_top_style();
        assert!(style == CSSValue::Specified(CSSBorderStyle::CSSBorderStyleInset));
        let style = computed.border_right_style();
        assert!(style == CSSValue::Specified(CSSBorderStyle::CSSBorderStyleInset));
        let style = computed.border_left_style();
        assert!(style == CSSValue::Specified(CSSBorderStyle::CSSBorderStyleInset));
        let style = computed.border_bottom_style();
        assert!(style == CSSValue::Specified(CSSBorderStyle::CSSBorderStyleInset));
    });
}

#[test]
fn test_border_top_width_px() {
    let style = "div { border-top-width: 10px; }";
    single_div_test(style, &|computed| {
        let width = computed.border_top_width();
        assert!(width == CSSValue::Specified(CSSBorderWidth::CSSBorderWidthLength(px(10))));
    });
}

#[test]
fn test_border_right_width_px() {
    let style = "div { border-right-width: 10px; }";
    single_div_test(style, &|computed| {
        let width = computed.border_right_width();
        assert!(width == CSSValue::Specified(CSSBorderWidth::CSSBorderWidthLength(px(10))));
    });
}

#[test]
fn test_border_bottom_width_px() {
    let style = "div { border-bottom-width: 10px; }";
    single_div_test(style, &|computed| {
        let width = computed.border_bottom_width();
        assert!(width == CSSValue::Specified(CSSBorderWidth::CSSBorderWidthLength(px(10))));
    });
}

#[test]
fn test_border_left_width_px() {
    let style = "div { border-left-width: 10px; }";
    single_div_test(style, &|computed| {
        let width = computed.border_left_width();
        assert!(width == CSSValue::Specified(CSSBorderWidth::CSSBorderWidthLength(px(10))));
    });
}

#[test]
fn test_border_width_px() {
    let style = "div { border-width: 10px; }";
    single_div_test(style, &|computed| {
        let width = computed.border_top_width();
        assert!(width == CSSValue::Specified(CSSBorderWidth::CSSBorderWidthLength(px(10))));
        let width = computed.border_right_width();
        assert!(width == CSSValue::Specified(CSSBorderWidth::CSSBorderWidthLength(px(10))));
        let width = computed.border_bottom_width();
        assert!(width == CSSValue::Specified(CSSBorderWidth::CSSBorderWidthLength(px(10))));
        let width = computed.border_left_width();
        assert!(width == CSSValue::Specified(CSSBorderWidth::CSSBorderWidthLength(px(10))));
    });
}

#[test]
fn test_border_color() {
    let style = "div {\
                 border-top-color: red;\
                 border-right-color: green;\
                 border-bottom-color: blue;\
                 border-left-color: yellow;\
                 }";
    single_div_test(style, &|computed| {
        let top_color = computed.border_top_color();
        let right_color = computed.border_right_color();
        let bottom_color = computed.border_bottom_color();
        let left_color = computed.border_left_color();
        assert!(top_color == CSSValue::Specified(rgb(255, 0, 0)));
        assert!(right_color == CSSValue::Specified(rgb(0, 128, 0)));
        assert!(bottom_color == CSSValue::Specified(rgb(0, 0, 255)));
        assert!(left_color == CSSValue::Specified(rgb(255, 255, 0)));
    });
}

#[test]
fn test_border_color_shorthand() {
    let style = "div {\
                 border-color: red;\
                 }";
    single_div_test(style, &|computed| {
        let top_color = computed.border_top_color();
        let right_color = computed.border_right_color();
        let bottom_color = computed.border_bottom_color();
        let left_color = computed.border_left_color();
        assert!(top_color == CSSValue::Specified(rgb(255, 0, 0)));
        assert!(right_color == CSSValue::Specified(rgb(255, 0, 0)));
        assert!(bottom_color == CSSValue::Specified(rgb(255, 0, 0)));
        assert!(left_color == CSSValue::Specified(rgb(255, 0, 0)));
    });
}

#[test]
fn test_margin() {
    let style = "div {\
                 margin-top: 10px;\
                 margin-right: 20px;\
                 margin-bottom: 30px;\
                 margin-left: auto;\
                 }";
    single_div_test(style, &|computed| {
        assert!(computed.margin_top() == CSSValue::Specified(CSSMargin::CSSMarginLength(px(10))));
        assert!(computed.margin_right() == CSSValue::Specified(CSSMargin::CSSMarginLength(px(20))));
        assert!(
            computed.margin_bottom() == CSSValue::Specified(CSSMargin::CSSMarginLength(px(30)))
        );
        assert!(computed.margin_left() == CSSValue::Specified(CSSMargin::CSSMarginAuto));
    });
}

#[test]
fn test_display() {
    let style = "div { display: none; }";
    single_div_test(style, &|computed| {
        assert!(computed.display(false) == CSSValue::Specified(CSSDisplay::CSSDisplayNone));
    });
}

#[test]
fn test_float() {
    let style = "div { float: right; }";
    single_div_test(style, &|computed| {
        assert!(computed.float() == CSSValue::Specified(CSSFloat::CSSFloatRight));
    });
}

#[test]
fn test_clear() {
    let style = "div { clear: both; }";
    single_div_test(style, &|computed| {
        assert!(computed.clear() == CSSValue::Specified(CSSClear::CSSClearBoth));
    });
}

#[test]
fn test_position() {
    let style = "div { position: static; }";
    single_div_test(style, &|computed| {
        assert!(computed.position() == CSSValue::Specified(CSSPosition::CSSPositionStatic));
    });
    let style = "div { position: relative; }";
    single_div_test(style, &|computed| {
        assert!(computed.position() == CSSValue::Specified(CSSPosition::CSSPositionRelative));
    });
    let style = "div { position: absolute; }";
    single_div_test(style, &|computed| {
        assert!(computed.position() == CSSValue::Specified(CSSPosition::CSSPositionAbsolute));
    });
    let style = "div { position: fixed; }";
    single_div_test(style, &|computed| {
        assert!(computed.position() == CSSValue::Specified(CSSPosition::CSSPositionFixed));
    });
}

#[test]
fn test_width() {
    let style = "div { width: 10px; }";
    single_div_test(style, &|computed| {
        assert!(computed.width() == CSSValue::Specified(CSSWidth::CSSWidthLength(px(10))));
    });
}

#[test]
fn test_height() {
    let style = "div { height: 10px; }";
    single_div_test(style, &|computed| {
        assert!(computed.height() == CSSValue::Specified(CSSHeight::CSSHeightLength(px(10))));
    });
}

#[test]
fn test_font_family_generic() {
    let style = "div { font-family: fantasy; }";
    single_div_test(style, &|computed| {
        let fam = computed.font_family();
        let spec = CSSValue::Specified(vec![
            CSSFontFamily::CSSFontFamilyGenericFamily(GenericFontFamily::Fantasy),
        ]);
        assert!(fam.eq(&spec));
    });
}

#[test]
fn test_font_family_specific() {
    let style = "div { font-family: Wombat, Jones; }";
    single_div_test(style, &|computed| {
        assert!(
            computed.font_family()
                == CSSValue::Specified(vec![
                    CSSFontFamily::CSSFontFamilyFamilyName("Wombat".to_string()),
                    CSSFontFamily::CSSFontFamilyFamilyName("Jones".to_string()),
                ])
        );
    });
}

#[test]
fn test_font_size() {
    let style = "span { font-size: 10px; }";
    child_test(style, &|computed| {
        assert!(computed.font_size() == CSSValue::Specified(CSSFontSize::CSSFontSizeLength(px(10))));
    });
    let style = "span { font-size: 10%; }";
    child_test(style, &|computed| {
        assert!(
            computed.font_size()
                == CSSValue::Specified(CSSFontSize::CSSFontSizePercentage(Fixed::of_int(10)))
        );
    });
    let style = "span { font-size: small; }";
    child_test(style, &|computed| {
        assert!(
            computed.font_size()
                == CSSValue::Specified(CSSFontSize::CSSFontSizeAbsoluteSize(AbsoluteSize::Small))
        );
    });
    let style = "span { font-size: smaller; }";
    child_test(style, &|computed| {
        assert!(
            computed.font_size()
                == CSSValue::Specified(CSSFontSize::CSSFontSizeRelativeSize(RelativeSize::Smaller))
        );
    });
}

#[test]
fn test_font_style() {
    let style = "div { font-style: oblique; }";
    single_div_test(style, &|computed| {
        assert!(
            computed.font_style() == CSSValue::Specified(CSSFontStyle::CSSFontStyleOblique)
        );
    });
}

#[test]
fn test_font_weight() {
    let style = "div { font-weight: bold; }";
    single_div_test(style, &|computed| {
        assert!(
            computed.font_weight() == CSSValue::Specified(CSSFontWeight::CSSFontWeightBold)
        );
    });
}

#[test]
fn test_text_align() {
    let style = "div { text-align: center; }";
    single_div_test(style, &|computed| {
        assert!(computed.text_align() == CSSValue::Specified(CSSTextAlign::CSSTextAlignCenter));
    });
}

#[test]
fn test_text_decoration() {
    let style = "div { text-decoration: none; }";
    single_html_test(style, &|computed| {
        assert!(
            computed.text_decoration()
                == CSSValue::Specified(CSSTextDecoration::CSSTextDecorationNone)
        );
    });
    let style = "html { text-decoration: underline; }";
    single_html_test(style, &|computed| {
        assert!(
            computed.text_decoration()
                == CSSValue::Specified(CSSTextDecoration::CSSTextDecorationUnderline)
        );
    });
    let style = "";
    single_html_test(style, &|computed| {
        assert!(
            computed.text_decoration()
                == CSSValue::Specified(CSSTextDecoration::CSSTextDecorationNone)
        );
    });
}

#[test]
fn test_id_selector() {
    let style = "#id1 { text-align: center; }";
    single_div_test(style, &|computed| {
        assert!(computed.text_align() == CSSValue::Specified(CSSTextAlign::CSSTextAlignCenter));
    });
}

#[test]
fn test_line_height() {
    let style = "div { line-height: 2; }";
    single_div_test(style, &|computed| {
        assert!(
            computed.line_height()
                == CSSValue::Specified(CSSLineHeight::CSSLineHeightNumber(Fixed::of_int(2)))
        );
    });
}

#[test]
fn test_vertical_align() {
    let style = "div { vertical-align: 20%; }";
    single_div_test(style, &|computed| {
        assert!(
            computed.vertical_align()
                == CSSValue::Specified(CSSVerticalAlign::CSSVerticalAlignPercentage(
                    Fixed::of_int(20)
                ))
        );
    });
    let style = "div { vertical-align: text-top; }";
    single_div_test(style, &|computed| {
        assert!(
            computed.vertical_align()
                == CSSValue::Specified(CSSVerticalAlign::CSSVerticalAlignTextTop)
        );
    });
}

#[test]
fn test_child() {
    let style = "div > span { border-left-width: 10px; }";
    child_test(style, &|computed| {
        let width = computed.border_left_width();
        assert!(width == CSSValue::Specified(CSSBorderWidth::CSSBorderWidthLength(px(10))));
    });
}

#[test]
fn test_not_child() {
    let style = "div > not_span { border-left-width: 10px; }";
    child_test(style, &|computed| {
        let width = computed.border_left_width();
        assert!(width != CSSValue::Specified(CSSBorderWidth::CSSBorderWidthLength(px(10))));
    });
}

#[test]
fn test_descendant() {
    let style = "div span { border-left-width: 10px; }";
    child_test(style, &|computed| {
        let width = computed.border_left_width();
        assert!(width == CSSValue::Specified(CSSBorderWidth::CSSBorderWidthLength(px(10))));
    });
}

#[test]
fn test_compose() {
    let style = "div { background-color: blue; }\
                 span { background-color: inherit; }";

    let sheet = Stylesheet::new(style);
    let mut select_ctx = SelectCtx::new();
    let handler = TestHandler::new();
    select_ctx.append_sheet(sheet, StylesheetOrigin::OriginAuthor);
    let child = TestNode::new("span", "id1");
    let parent = TestNode::new("div", "id2");
    *child.0.parent.borrow_mut() = Some(parent.clone());
    let parent_results = select_ctx.select_style(&parent, &handler);
    let child_results = select_ctx.select_style(&child, &handler);

    let complete_parent_results = CompleteSelectResults::new_root(parent_results);
    let complete_child_results =
        CompleteSelectResults::new_from_parent(&complete_parent_results, child_results);

    let computed = complete_child_results.computed_style();

    assert!(computed.background_color() == color::parse_color("blue").unwrap());
}
