//! The computed style record that every node of a frame carries.
use vstd::prelude::*;

verus! {

/// A length in logical pixels.
pub type Length = u32;

/// An RGBA colour, eight bits per channel.
#[derive(Clone, Copy, Debug, PartialEq, Eq, Structural)]
pub struct Color {
    pub red: u8,
    pub green: u8,
    pub blue: u8,
    pub alpha: u8,
}

impl Color {
    pub open spec fn spec_rgba(red: u8, green: u8, blue: u8, alpha: u8) -> Color {
        Color { red, green, blue, alpha }
    }

    pub fn rgba(red: u8, green: u8, blue: u8, alpha: u8) -> (r: Color)
        ensures
            r == Color::spec_rgba(red, green, blue, alpha),
    {
        Color { red, green, blue, alpha }
    }

    pub open spec fn spec_black() -> Color {
        Color { red: 0, green: 0, blue: 0, alpha: 255 }
    }

    pub fn black() -> (r: Color)
        ensures
            r == Color::spec_black(),
    {
        Color { red: 0, green: 0, blue: 0, alpha: 255 }
    }

    pub open spec fn spec_transparent() -> Color {
        Color { red: 0, green: 0, blue: 0, alpha: 0 }
    }

    pub fn transparent() -> (r: Color)
        ensures
            r == Color::spec_transparent(),
    {
        Color { red: 0, green: 0, blue: 0, alpha: 0 }
    }
}

/// One value for each of the four edges of a box.
#[derive(Clone, Copy, Debug, PartialEq, Eq, Structural)]
pub struct Sides {
    pub top: Length,
    pub right: Length,
    pub bottom: Length,
    pub left: Length,
}

impl Sides {
    pub open spec fn spec_all(l: Length) -> Sides {
        Sides { top: l, right: l, bottom: l, left: l }
    }

    /// The same length on every edge.
    pub fn all(l: Length) -> (r: Sides)
        ensures
            r == Sides::spec_all(l),
    {
        Sides { top: l, right: l, bottom: l, left: l }
    }

    pub open spec fn spec_zero() -> Sides {
        Sides::spec_all(0)
    }

    pub fn zero() -> (r: Sides)
        ensures
            r == Sides::spec_zero(),
    {
        Sides::all(0)
    }
}

/// The axis along which a block lays out its children.
#[derive(Clone, Copy, Debug, PartialEq, Eq, Structural)]
pub enum Direction {
    Horizontal,
    Vertical,
}

/// The fields that only a block container has.
#[derive(Clone, Copy, Debug, PartialEq, Eq, Structural)]
pub struct BlockValues {
    pub width: Option<Length>,
    pub height: Option<Length>,
    pub direction: Direction,
    pub padding: Sides,
    pub margin: Sides,
}

impl BlockValues {
    pub open spec fn spec_default() -> BlockValues {
        BlockValues {
            width: None,
            height: None,
            direction: Direction::Vertical,
            padding: Sides::spec_zero(),
            margin: Sides::spec_zero(),
        }
    }
}

impl Default for BlockValues {
    fn default() -> (r: BlockValues)
        ensures
            r == BlockValues::spec_default(),
    {
        BlockValues {
            width: None,
            height: None,
            direction: Direction::Vertical,
            padding: Sides::zero(),
            margin: Sides::zero(),
        }
    }
}

/// How a node takes part in layout; only a block has the block fields.
#[derive(Clone, Copy, Debug, PartialEq, Eq, Structural)]
pub enum DisplayType {
    Inline,
    Block(BlockValues),
}

/// The resolved style of one node: every field holds a value.
#[derive(Clone, Copy, Debug, PartialEq, Eq, Structural)]
pub struct ComputedValues {
    pub text_size: Length,
    pub text_color: Color,
    pub background_color: Color,
    pub display: DisplayType,
    pub border_color: Color,
    pub border_thickness: Sides,
}

/// The text size of a record that nothing has set.
pub const DEFAULT_TEXT_SIZE: Length = 16;

impl ComputedValues {
    /// The record of a root node before any attribute applies.
    pub open spec fn spec_default() -> ComputedValues {
        ComputedValues {
            text_size: DEFAULT_TEXT_SIZE,
            text_color: Color::spec_black(),
            background_color: Color::spec_transparent(),
            display: DisplayType::Inline,
            border_color: Color::spec_transparent(),
            border_thickness: Sides::spec_zero(),
        }
    }

    /// The record a child starts from: the inheritable fields (text size and
    /// text colour) come from the parent, every other field is the default.
    pub open spec fn spec_inherit(parent: ComputedValues) -> ComputedValues {
        ComputedValues {
            text_size: parent.text_size,
            text_color: parent.text_color,
            ..ComputedValues::spec_default()
        }
    }

    pub fn inherit(parent: &ComputedValues) -> (r: ComputedValues)
        ensures
            r == ComputedValues::spec_inherit(*parent),
    {
        ComputedValues {
            text_size: parent.text_size,
            text_color: parent.text_color,
            background_color: Color::transparent(),
            display: DisplayType::Inline,
            border_color: Color::transparent(),
            border_thickness: Sides::zero(),
        }
    }

    /// The block fields, where the display is a block.
    pub open spec fn spec_block(self) -> Option<BlockValues> {
        match self.display {
            DisplayType::Block(b) => Some(b),
            DisplayType::Inline => None,
        }
    }

    /// The padding as resolved for this node: zero unless it is a block.
    pub open spec fn spec_padding(self) -> Sides {
        match self.display {
            DisplayType::Block(b) => b.padding,
            DisplayType::Inline => Sides::spec_zero(),
        }
    }

    pub fn padding(&self) -> (r: Sides)
        ensures
            r == self.spec_padding(),
    {
        match self.display {
            DisplayType::Block(b) => b.padding,
            DisplayType::Inline => Sides::zero(),
        }
    }

    /// The margin as resolved for this node: zero unless it is a block.
    pub open spec fn spec_margin(self) -> Sides {
        match self.display {
            DisplayType::Block(b) => b.margin,
            DisplayType::Inline => Sides::spec_zero(),
        }
    }

    pub fn margin(&self) -> (r: Sides)
        ensures
            r == self.spec_margin(),
    {
        match self.display {
            DisplayType::Block(b) => b.margin,
            DisplayType::Inline => Sides::zero(),
        }
    }
}

impl Default for ComputedValues {
    fn default() -> (r: ComputedValues)
        ensures
            r == ComputedValues::spec_default(),
    {
        ComputedValues {
            text_size: DEFAULT_TEXT_SIZE,
            text_color: Color::black(),
            background_color: Color::transparent(),
            display: DisplayType::Inline,
            border_color: Color::transparent(),
            border_thickness: Sides::zero(),
        }
    }
}

} // verus!
