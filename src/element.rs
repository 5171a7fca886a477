//! What every element kind offers to the layout and paint collaborators.
use vstd::prelude::*;
use crate::style::{Direction, Length, Sides};

verus! {

/// The layout hints of one element.
#[derive(Clone, Copy, Debug, PartialEq, Eq, Structural)]
pub struct LayoutOptions {
    pub width: Option<Length>,
    pub height: Option<Length>,
    pub direction: Direction,
    pub padding: Sides,
    pub margin: Sides,
}

impl LayoutOptions {
    pub open spec fn spec_default() -> LayoutOptions {
        LayoutOptions {
            width: None,
            height: None,
            direction: Direction::Vertical,
            padding: Sides::spec_zero(),
            margin: Sides::spec_zero(),
        }
    }
}

impl Default for LayoutOptions {
    fn default() -> (r: LayoutOptions)
        ensures
            r == LayoutOptions::spec_default(),
    {
        LayoutOptions {
            width: None,
            height: None,
            direction: Direction::Vertical,
            padding: Sides::zero(),
            margin: Sides::zero(),
        }
    }
}

/// What an element paints itself, beyond its children.
#[derive(Clone, Copy, Debug, PartialEq, Eq, Structural)]
pub struct PaintDetails {
    pub background_color: crate::style::Color,
}

/// An element kind of the tree.
pub trait Element {
    /// The kind of its children.
    type Child;

    /// Sets a raw string attribute; a value that does not convert to the
    /// attribute's type leaves the attribute unset.
    fn set_attribute(&mut self, key: &str, value: Option<String>);

    /// What it paints, if anything.
    fn paint(&self) -> Option<PaintDetails>;

    /// Its layout hints.
    fn create_layout_opts(&self) -> LayoutOptions;
}

} // verus!
