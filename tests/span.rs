use moxie_native::attribute::{Attr, SpacingValue};
use moxie_native::element::{Element, LayoutOptions};
use moxie_native::node::Node;
use moxie_native::span::{bytes_equal, parse_color, Span, SpanEvent};
use moxie_native::style::{Color, ComputedValues, Sides};

struct Click;

impl SpanEvent for Click {
    fn set_to_span(span: &mut Span, _func: impl FnMut(&Self) + 'static) {
        span.class_name = Some(String::from("clickable"));
    }
}

#[test]
fn parse_color_forms() {
    assert_eq!(parse_color("#ff0000"), Some(Color::rgba(255, 0, 0, 255)));
    assert_eq!(parse_color("#00FF0080"), Some(Color::rgba(0, 255, 0, 128)));
    assert_eq!(parse_color("#1a2B3c"), Some(Color::rgba(26, 43, 60, 255)));
}

#[test]
fn parse_color_rejects() {
    assert_eq!(parse_color("red"), None);
    assert_eq!(parse_color("#12345g"), None);
    assert_eq!(parse_color("ff00000"), None);
    assert_eq!(parse_color("#fff"), None);
    assert_eq!(parse_color(""), None);
    assert_eq!(parse_color("#ff00008z"), None);
}

#[test]
fn bytes_equal_cases() {
    assert!(bytes_equal(b"color", b"color"));
    assert!(!bytes_equal(b"color", b"colour"));
    assert!(!bytes_equal(b"abc", b"abd"));
}

#[test]
fn new_span_is_empty() {
    let s = Span::new();
    assert_eq!(s.class_name, None);
    assert_eq!(s.color, None);
    assert_eq!(Span::default(), s);
}

#[test]
fn span_set_attributes() {
    let mut s = Span::new();
    s.set_attribute("className", Some(String::from("title")));
    assert_eq!(s.class_name, Some(String::from("title")));
    s.set_attribute("color", Some(String::from("#0000ff")));
    assert_eq!(s.color, Some(Color::rgba(0, 0, 255, 255)));
    assert_eq!(s.class_name, Some(String::from("title")));
    s.set_attribute("unknown", Some(String::from("#ffffff")));
    assert_eq!(s.color, Some(Color::rgba(0, 0, 255, 255)));
    s.set_attribute("color", Some(String::from("blue-ish")));
    assert_eq!(s.color, None);
    s.set_attribute("className", None);
    assert_eq!(s.class_name, None);
}

#[test]
fn span_paints_nothing_and_uses_default_layout() {
    let s = Span::new();
    assert!(s.paint().is_none());
    let l = s.create_layout_opts();
    assert_eq!(l, LayoutOptions::default());
    assert_eq!(l.width, None);
    assert_eq!(l.padding, Sides::zero());
}

#[test]
fn span_on_registers_handler() {
    let mut s = Span::new();
    s.on::<Click>(|_c: &Click| {});
    assert_eq!(s.class_name, Some(String::from("clickable")));
}

#[test]
fn node_children_resolve_under_parent() {
    let root_style = ComputedValues::default();
    let mut root = Node::new(
        Span::new(),
        vec![Attr::DisplayBlock, Attr::TextSize(24), Attr::Padding(SpacingValue::Uniform(5))],
        &root_style,
    );
    assert_eq!(root.style().text_size, 24);
    let child = Node::new(Span::new(), vec![Attr::DisplayBlock], root.style());
    root.push_child(child);
    assert_eq!(root.children().len(), 1);
    assert_eq!(root.children()[0].style().text_size, 24);
    assert_eq!(root.children()[0].style().padding(), Sides::zero());
    assert_eq!(root.attrs().len(), 3);
    assert_eq!(root.element(), &Span::new());
}
