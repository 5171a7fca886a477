//! Typed attributes and the cascade that resolves a node's computed style
//! from its declared attributes and its parent's resolved style.
use vstd::prelude::*;
use crate::style::{BlockValues, Color, ComputedValues, Direction, DisplayType, Length, Sides};

verus! {

/// A per-edge declaration: an edge left `None` takes the parent's value.
#[derive(Clone, Copy, Debug, PartialEq, Eq, Structural)]
pub struct Edges<T> {
    pub top: Option<T>,
    pub right: Option<T>,
    pub bottom: Option<T>,
    pub left: Option<T>,
}

/// The line style of a border.
#[derive(Clone, Copy, Debug, PartialEq, Eq, Structural)]
pub enum BorderStyle {
    Solid,
}

/// One border: its colour, thickness and line style.
#[derive(Clone, Copy, Debug, PartialEq, Eq, Structural)]
pub struct Border {
    pub color: Color,
    pub width: Length,
    pub style: BorderStyle,
}

/// The value shapes that padding and margin accept.
#[derive(Clone, Copy, Debug, PartialEq, Eq, Structural)]
pub enum SpacingValue {
    /// One length for all four edges.
    Uniform(Length),
    /// A length for some of the edges.
    PerEdge(Edges<Length>),
}

/// The value shapes that the border attribute accepts.
#[derive(Clone, Copy, Debug, PartialEq, Eq, Structural)]
pub enum BorderValue {
    /// One border for all four edges.
    Uniform(Border),
    /// A border for some of the edges.
    PerEdge(Edges<Border>),
}

/// A declared attribute together with a value of a shape it accepts.
#[derive(Clone, Copy, Debug, PartialEq, Eq, Structural)]
pub enum Attr {
    TextSize(Length),
    TextColor(Color),
    BackgroundColor(Color),
    /// Block only.
    Width(Length),
    /// Block only.
    Height(Length),
    /// Makes the node a block with default block fields.
    DisplayBlock,
    /// Block only.
    Direction(Direction),
    /// Block only.
    Padding(SpacingValue),
    /// Block only.
    Margin(SpacingValue),
    Border(BorderValue),
}

/// Whether an attribute takes effect only on a block.
pub open spec fn is_block_scoped(attr: Attr) -> bool {
    match attr {
        Attr::Width(_) | Attr::Height(_) | Attr::Direction(_) | Attr::Padding(_) | Attr::Margin(
            _,
        ) => true,
        _ => false,
    }
}

pub open spec fn or_else(v: Option<Length>, fallback: Length) -> Length {
    match v {
        Some(l) => l,
        None => fallback,
    }
}

/// Each declared edge takes its value; each missing edge takes the same edge
/// of `parent`.
pub open spec fn spec_expand_edges(value: Edges<Length>, parent: Sides) -> Sides {
    Sides {
        top: or_else(value.top, parent.top),
        right: or_else(value.right, parent.right),
        bottom: or_else(value.bottom, parent.bottom),
        left: or_else(value.left, parent.left),
    }
}

pub open spec fn spec_spacing(value: SpacingValue, parent: Sides) -> Sides {
    match value {
        SpacingValue::Uniform(l) => Sides::spec_all(l),
        SpacingValue::PerEdge(e) => spec_expand_edges(e, parent),
    }
}

pub open spec fn width_of(b: Option<Border>) -> Option<Length> {
    match b {
        Some(b) => Some(b.width),
        None => None,
    }
}

/// The colour that a per-edge border declares: that of its left edge, else
/// the parent's border colour.
pub open spec fn spec_edges_border_color(value: Edges<Border>, parent: Color) -> Color {
    match value.left {
        Some(b) => b.color,
        None => parent,
    }
}

pub open spec fn spec_edges_border_widths(value: Edges<Border>, parent: Sides) -> Sides {
    spec_expand_edges(
        Edges {
            top: width_of(value.top),
            right: width_of(value.right),
            bottom: width_of(value.bottom),
            left: width_of(value.left),
        },
        parent,
    )
}

/// `values` with `b` as its block fields.
pub open spec fn on_block(values: ComputedValues, b: BlockValues) -> ComputedValues {
    ComputedValues { display: DisplayType::Block(b), ..values }
}

/// What applying `attr` to `values` yields, with `parent` the parent's
/// resolved style.
pub open spec fn spec_apply(values: ComputedValues, attr: Attr, parent: ComputedValues) -> ComputedValues {
    match attr {
        Attr::TextSize(l) => ComputedValues { text_size: l, ..values },
        Attr::TextColor(c) => ComputedValues { text_color: c, ..values },
        Attr::BackgroundColor(c) => ComputedValues { background_color: c, ..values },
        Attr::DisplayBlock => ComputedValues {
            display: DisplayType::Block(BlockValues::spec_default()),
            ..values
        },
        Attr::Border(BorderValue::Uniform(b)) => ComputedValues {
            border_color: b.color,
            border_thickness: Sides::spec_all(b.width),
            ..values
        },
        Attr::Border(BorderValue::PerEdge(e)) => ComputedValues {
            border_color: spec_edges_border_color(e, parent.border_color),
            border_thickness: spec_edges_border_widths(e, parent.border_thickness),
            ..values
        },
        _ => match values.display {
            DisplayType::Inline => values,
            DisplayType::Block(b) => on_block(
                values,
                match attr {
                    Attr::Width(l) => BlockValues { width: Some(l), ..b },
                    Attr::Height(l) => BlockValues { height: Some(l), ..b },
                    Attr::Direction(d) => BlockValues { direction: d, ..b },
                    Attr::Padding(v) => BlockValues {
                        padding: spec_spacing(v, parent.spec_padding()),
                        ..b
                    },
                    Attr::Margin(v) => BlockValues {
                        margin: spec_spacing(v, parent.spec_margin()),
                        ..b
                    },
                    _ => b,
                },
            ),
        },
    }
}

fn length_or(v: Option<Length>, fallback: Length) -> (r: Length)
    ensures
        r == or_else(v, fallback),
{
    match v {
        Some(l) => l,
        None => fallback,
    }
}

/// Expands a per-edge declaration against the parent's edges.
pub fn expand_edges(value: &Edges<Length>, parent: &Sides) -> (r: Sides)
    ensures
        r == spec_expand_edges(*value, *parent),
{
    Sides {
        top: length_or(value.top, parent.top),
        right: length_or(value.right, parent.right),
        bottom: length_or(value.bottom, parent.bottom),
        left: length_or(value.left, parent.left),
    }
}

fn spacing(value: &SpacingValue, parent: Sides) -> (r: Sides)
    ensures
        r == spec_spacing(*value, parent),
{
    match value {
        SpacingValue::Uniform(l) => Sides::all(*l),
        SpacingValue::PerEdge(e) => expand_edges(e, &parent),
    }
}

fn border_width(b: Option<Border>) -> (r: Option<Length>)
    ensures
        r == width_of(b),
{
    match b {
        Some(b) => Some(b.width),
        None => None,
    }
}

/// Applies one attribute to `values`. Block-only attributes leave a
/// non-block record as it is.
pub fn apply(values: &mut ComputedValues, attr: &Attr, parent: &ComputedValues)
    ensures
        *final(values) == spec_apply(*old(values), *attr, *parent),
{
    match attr {
        Attr::TextSize(l) => values.text_size = *l,
        Attr::TextColor(c) => values.text_color = *c,
        Attr::BackgroundColor(c) => values.background_color = *c,
        Attr::DisplayBlock => values.display = DisplayType::Block(BlockValues::default()),
        Attr::Border(BorderValue::Uniform(b)) => {
            values.border_color = b.color;
            values.border_thickness = Sides::all(b.width);
        },
        Attr::Border(BorderValue::PerEdge(e)) => {
            values.border_color = match e.left {
                Some(b) => b.color,
                None => parent.border_color,
            };
            let widths = Edges {
                top: border_width(e.top),
                right: border_width(e.right),
                bottom: border_width(e.bottom),
                left: border_width(e.left),
            };
            values.border_thickness = expand_edges(&widths, &parent.border_thickness);
        },
        _ => {
            if let DisplayType::Block(b) = values.display {
                let mut block = b;
                match attr {
                    Attr::Width(l) => block.width = Some(*l),
                    Attr::Height(l) => block.height = Some(*l),
                    Attr::Direction(d) => block.direction = *d,
                    Attr::Padding(v) => block.padding = spacing(v, parent.padding()),
                    Attr::Margin(v) => block.margin = spacing(v, parent.margin()),
                    _ => {},
                }
                values.display = DisplayType::Block(block);
            }
        },
    }
}

/// The record that `attrs` produce, applied in order to `start`.
pub open spec fn spec_apply_all(start: ComputedValues, attrs: Seq<Attr>, parent: ComputedValues) -> ComputedValues
    decreases attrs.len(),
{
    if attrs.len() == 0 {
        start
    } else {
        spec_apply(spec_apply_all(start, attrs.drop_last(), parent), attrs.last(), parent)
    }
}

/// The resolved style of a node that declares `attrs` under a parent whose
/// resolved style is `parent`.
pub open spec fn spec_resolve(attrs: Seq<Attr>, parent: ComputedValues) -> ComputedValues {
    spec_apply_all(ComputedValues::spec_inherit(parent), attrs, parent)
}

/// Resolves a node's style: starts from what it inherits from `parent` and
/// applies the declared attributes in order.
pub fn resolve(attrs: &Vec<Attr>, parent: &ComputedValues) -> (r: ComputedValues)
    ensures
        r == spec_resolve(attrs@, *parent),
{
    let mut values = ComputedValues::inherit(parent);
    let mut i: usize = 0;
    while i < attrs.len()
        invariant
            i <= attrs@.len(),
            values == spec_apply_all(ComputedValues::spec_inherit(*parent), attrs@.take(i as int), *parent),
        decreases attrs@.len() - i,
    {
        assert(attrs@.take(i + 1).drop_last() =~= attrs@.take(i as int));
        apply(&mut values, &attrs[i], parent);
        i = i + 1;
    }
    assert(attrs@.take(i as int) =~= attrs@);
    values
}

/// Resolution leaves no field without a value of known origin: the
/// inheritable fields hold the parent's value or one that an attribute
/// declared; the background and border colours hold the default, the
/// parent's border colour or a declared value; the border thickness is zero
/// or what a declared border made of it; and the display is inline
/// unless some attribute made the node a block.
pub proof fn lemma_resolve_total(attrs: Seq<Attr>, parent: ComputedValues)
    ensures
        spec_resolve(attrs, parent).text_size == parent.text_size || exists|i: int|
            0 <= i < attrs.len() && #[trigger] attrs[i] == Attr::TextSize(
                spec_resolve(attrs, parent).text_size,
            ),
        spec_resolve(attrs, parent).text_color == parent.text_color || exists|i: int|
            0 <= i < attrs.len() && #[trigger] attrs[i] == Attr::TextColor(
                spec_resolve(attrs, parent).text_color,
            ),
        spec_resolve(attrs, parent).background_color == Color::spec_transparent() || exists|
            i: int,
        |
            0 <= i < attrs.len() && #[trigger] attrs[i] == Attr::BackgroundColor(
                spec_resolve(attrs, parent).background_color,
            ),
        spec_resolve(attrs, parent).border_color == Color::spec_transparent()
            || spec_resolve(attrs, parent).border_color == parent.border_color || exists|i: int|
            0 <= i < attrs.len() && (#[trigger] attrs[i]) is Border && spec_resolve(
                attrs,
                parent,
            ).border_color == declared_border_color(attrs[i]),
        spec_resolve(attrs, parent).border_thickness == Sides::spec_zero() || exists|i: int|
            0 <= i < attrs.len() && (#[trigger] attrs[i]) is Border && spec_resolve(
                attrs,
                parent,
            ).border_thickness == declared_border_thickness(attrs[i], parent),
        spec_resolve(attrs, parent).display == DisplayType::Inline || exists|i: int|
            0 <= i < attrs.len() && #[trigger] attrs[i] == Attr::DisplayBlock,
    decreases attrs.len(),
{
    if attrs.len() > 0 {
        let prefix = attrs.drop_last();
        lemma_resolve_total(prefix, parent);
        let last = attrs.len() - 1;
        assert(attrs[last] == attrs.last());
        assert forall|i: int| 0 <= i < prefix.len() implies #[trigger] prefix[i] == attrs[i] by {}
        let r0 = spec_resolve(prefix, parent);
        if r0.text_size != parent.text_size {
            let i = choose|i: int| 0 <= i < prefix.len() && #[trigger] prefix[i] == Attr::TextSize(r0.text_size);
            assert(attrs[i] == prefix[i]);
        }
        if r0.text_color != parent.text_color {
            let i = choose|i: int| 0 <= i < prefix.len() && #[trigger] prefix[i] == Attr::TextColor(r0.text_color);
            assert(attrs[i] == prefix[i]);
        }
        if r0.background_color != Color::spec_transparent() {
            let i = choose|i: int| 0 <= i < prefix.len() && #[trigger] prefix[i] == Attr::BackgroundColor(r0.background_color);
            assert(attrs[i] == prefix[i]);
        }
        if r0.border_color != Color::spec_transparent() && r0.border_color != parent.border_color {
            let i = choose|i: int| 0 <= i < prefix.len() && (#[trigger] prefix[i]) is Border && r0.border_color == declared_border_color(prefix[i]);
            assert(attrs[i] == prefix[i]);
        }
        if r0.border_thickness != Sides::spec_zero() {
            let i = choose|i: int| 0 <= i < prefix.len() && (#[trigger] prefix[i]) is Border && r0.border_thickness == declared_border_thickness(prefix[i], parent);
            assert(attrs[i] == prefix[i]);
        }
        if r0.display != DisplayType::Inline {
            let i = choose|i: int| 0 <= i < prefix.len() && #[trigger] prefix[i] == Attr::DisplayBlock;
            assert(attrs[i] == prefix[i]);
        }
    }
}

/// The border colour that a border attribute sets where it declares one.
pub open spec fn declared_border_color(attr: Attr) -> Color {
    match attr {
        Attr::Border(BorderValue::Uniform(b)) => b.color,
        Attr::Border(BorderValue::PerEdge(e)) => match e.left {
            Some(b) => b.color,
            None => Color::spec_transparent(),
        },
        _ => Color::spec_transparent(),
    }
}

/// The border thickness that a border attribute sets: the declared width on
/// each declared edge, the parent's on each other edge.
pub open spec fn declared_border_thickness(attr: Attr, parent: ComputedValues) -> Sides {
    match attr {
        Attr::Border(BorderValue::Uniform(b)) => Sides::spec_all(b.width),
        Attr::Border(BorderValue::PerEdge(e)) => spec_edges_border_widths(e, parent.border_thickness),
        _ => Sides::spec_zero(),
    }
}

/// A per-edge padding that declares only `top` keeps that value on top and
/// takes right, bottom and left from the parent's resolved padding, on a
/// block node.
pub proof fn lemma_padding_top_only(values: ComputedValues, top: Length, parent: ComputedValues)
    requires
        values.display is Block,
    ensures
        ({
            let p = spec_apply(
                values,
                Attr::Padding(
                    SpacingValue::PerEdge(Edges { top: Some(top), right: None, bottom: None, left: None }),
                ),
                parent,
            ).spec_padding();
            &&& p.top == top
            &&& p.right == parent.spec_padding().right
            &&& p.bottom == parent.spec_padding().bottom
            &&& p.left == parent.spec_padding().left
        }),
{
}

/// A single length for padding sets all four edges of a block node to that
/// length, whatever the parent holds.
pub proof fn lemma_padding_uniform(values: ComputedValues, l: Length, parent: ComputedValues)
    requires
        values.display is Block,
    ensures
        spec_apply(values, Attr::Padding(SpacingValue::Uniform(l)), parent).spec_padding()
            == Sides::spec_all(l),
{
}

/// Width, height, direction, padding and margin leave a record whose
/// display is not a block exactly as it was.
pub proof fn lemma_block_scoped_no_op(values: ComputedValues, attr: Attr, parent: ComputedValues)
    requires
        !(values.display is Block),
        is_block_scoped(attr),
    ensures
        spec_apply(values, attr, parent) == values,
{
}

} // verus!
