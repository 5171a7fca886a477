use moxie_native::attribute::{
    apply, expand_edges, resolve, Attr, Border, BorderStyle, BorderValue, Edges, SpacingValue,
};
use moxie_native::style::{BlockValues, Color, ComputedValues, Direction, DisplayType, Sides};

fn block_parent_with_padding(l: u32) -> ComputedValues {
    let root = ComputedValues::default();
    resolve(&vec![Attr::DisplayBlock, Attr::Padding(SpacingValue::Uniform(l))], &root)
}

fn top_only(l: u32) -> Edges<u32> {
    Edges { top: Some(l), right: None, bottom: None, left: None }
}

#[test]
fn padding_top_only_takes_parent_edges() {
    let parent = block_parent_with_padding(4);
    let child = resolve(
        &vec![Attr::DisplayBlock, Attr::Padding(SpacingValue::PerEdge(top_only(10)))],
        &parent,
    );
    assert_eq!(child.padding(), Sides { top: 10, right: 4, bottom: 4, left: 4 });
}

#[test]
fn missing_edges_follow_each_parent_edge() {
    let root = ComputedValues::default();
    let parent = resolve(
        &vec![
            Attr::DisplayBlock,
            Attr::Margin(SpacingValue::PerEdge(Edges {
                top: Some(1),
                right: Some(2),
                bottom: Some(3),
                left: Some(5),
            })),
        ],
        &root,
    );
    let child = resolve(
        &vec![
            Attr::DisplayBlock,
            Attr::Margin(SpacingValue::PerEdge(Edges {
                top: None,
                right: None,
                bottom: Some(9),
                left: None,
            })),
        ],
        &parent,
    );
    assert_eq!(child.margin(), Sides { top: 1, right: 2, bottom: 9, left: 5 });
}

#[test]
fn per_edge_under_inline_parent_uses_zero() {
    let parent = ComputedValues::default();
    let child = resolve(
        &vec![Attr::DisplayBlock, Attr::Padding(SpacingValue::PerEdge(top_only(7)))],
        &parent,
    );
    assert_eq!(child.padding(), Sides { top: 7, right: 0, bottom: 0, left: 0 });
}

#[test]
fn uniform_padding_ignores_parent() {
    let parent = block_parent_with_padding(4);
    let child =
        resolve(&vec![Attr::DisplayBlock, Attr::Padding(SpacingValue::Uniform(12))], &parent);
    assert_eq!(child.padding(), Sides::all(12));
    let other_parent = ComputedValues::default();
    let child2 =
        resolve(&vec![Attr::DisplayBlock, Attr::Padding(SpacingValue::Uniform(12))], &other_parent);
    assert_eq!(child2.padding(), Sides { top: 12, right: 12, bottom: 12, left: 12 });
}

#[test]
fn block_only_attributes_leave_inline_record_unchanged() {
    let parent = block_parent_with_padding(4);
    let start = ComputedValues::inherit(&parent);
    let attrs = vec![
        Attr::Width(100),
        Attr::Height(50),
        Attr::Direction(Direction::Horizontal),
        Attr::Padding(SpacingValue::Uniform(3)),
        Attr::Padding(SpacingValue::PerEdge(top_only(3))),
        Attr::Margin(SpacingValue::Uniform(8)),
        Attr::Margin(SpacingValue::PerEdge(top_only(8))),
    ];
    for a in attrs.iter() {
        let mut v = start;
        apply(&mut v, a, &parent);
        assert_eq!(v, start);
    }
}

#[test]
fn block_attributes_apply_on_block() {
    let parent = ComputedValues::default();
    let r = resolve(
        &vec![
            Attr::DisplayBlock,
            Attr::Width(100),
            Attr::Height(50),
            Attr::Direction(Direction::Horizontal),
            Attr::Margin(SpacingValue::Uniform(2)),
        ],
        &parent,
    );
    assert_eq!(
        r.display,
        DisplayType::Block(BlockValues {
            width: Some(100),
            height: Some(50),
            direction: Direction::Horizontal,
            padding: Sides::zero(),
            margin: Sides::all(2),
        })
    );
}

#[test]
fn display_block_resets_block_fields() {
    let r = resolve(
        &vec![Attr::DisplayBlock, Attr::Width(10), Attr::DisplayBlock],
        &ComputedValues::default(),
    );
    assert_eq!(r.display, DisplayType::Block(BlockValues::default()));
}

#[test]
fn inheritable_fields_come_from_parent() {
    let red = Color::rgba(255, 0, 0, 255);
    let blue = Color::rgba(0, 0, 255, 255);
    let parent = resolve(
        &vec![Attr::TextSize(20), Attr::TextColor(red), Attr::BackgroundColor(blue)],
        &ComputedValues::default(),
    );
    assert_eq!(parent.text_size, 20);
    let child = resolve(&vec![], &parent);
    assert_eq!(child.text_size, 20);
    assert_eq!(child.text_color, red);
    assert_eq!(child.background_color, Color::transparent());
    assert_eq!(child.display, DisplayType::Inline);
    assert_eq!(child.border_thickness, Sides::zero());
}

#[test]
fn later_attribute_wins() {
    let r = resolve(&vec![Attr::TextSize(10), Attr::TextSize(30)], &ComputedValues::default());
    assert_eq!(r.text_size, 30);
}

#[test]
fn root_defaults() {
    let d = ComputedValues::default();
    assert_eq!(d.text_size, 16);
    assert_eq!(d.text_color, Color::black());
    assert_eq!(d.background_color, Color::transparent());
    assert_eq!(d.display, DisplayType::Inline);
    assert_eq!(d.border_color, Color::transparent());
    assert_eq!(d.border_thickness, Sides::zero());
    assert_eq!(BlockValues::default().direction, Direction::Vertical);
}

#[test]
fn uniform_border_sets_color_and_all_widths() {
    let green = Color::rgba(0, 255, 0, 255);
    let r = resolve(
        &vec![Attr::Border(BorderValue::Uniform(Border {
            color: green,
            width: 3,
            style: BorderStyle::Solid,
        }))],
        &ComputedValues::default(),
    );
    assert_eq!(r.border_color, green);
    assert_eq!(r.border_thickness, Sides::all(3));
}

#[test]
fn per_edge_border_takes_left_color_and_parent_widths() {
    let green = Color::rgba(0, 255, 0, 255);
    let blue = Color::rgba(0, 0, 255, 255);
    let parent = resolve(
        &vec![Attr::Border(BorderValue::Uniform(Border {
            color: green,
            width: 2,
            style: BorderStyle::Solid,
        }))],
        &ComputedValues::default(),
    );
    let b = Border { color: blue, width: 6, style: BorderStyle::Solid };
    let r = resolve(
        &vec![Attr::Border(BorderValue::PerEdge(Edges {
            top: None,
            right: Some(b),
            bottom: None,
            left: Some(b),
        }))],
        &parent,
    );
    assert_eq!(r.border_color, blue);
    assert_eq!(r.border_thickness, Sides { top: 2, right: 6, bottom: 2, left: 6 });
    let r2 = resolve(
        &vec![Attr::Border(BorderValue::PerEdge(Edges {
            top: Some(b),
            right: None,
            bottom: None,
            left: None,
        }))],
        &parent,
    );
    assert_eq!(r2.border_color, green);
    assert_eq!(r2.border_thickness, Sides { top: 6, right: 2, bottom: 2, left: 2 });
}

#[test]
fn expand_edges_mixes_declared_and_parent() {
    let parent = Sides { top: 1, right: 2, bottom: 3, left: 4 };
    let e = Edges { top: None, right: Some(20), bottom: None, left: Some(40) };
    assert_eq!(expand_edges(&e, &parent), Sides { top: 1, right: 20, bottom: 3, left: 40 });
}
