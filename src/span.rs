//! The inline text element, and the boundary where its raw string
//! attributes become typed values.
use vstd::prelude::*;
use crate::element::{Element, LayoutOptions, PaintDetails};
use crate::style::Color;
use vstd::string::{is_ascii, is_ascii_spec_bytes, StringSliceAdditionalSpecFns};
use vstd::utf8::encode_utf8;

verus! {

/// The value of one hexadecimal digit, if `b` is one.
pub open spec fn hex_digit(b: u8) -> Option<u8> {
    if 48 <= b <= 57 {
        Some((b - 48) as u8)
    } else if 97 <= b <= 102 {
        Some((b - 87) as u8)
    } else if 65 <= b <= 70 {
        Some((b - 55) as u8)
    } else {
        None
    }
}

/// The byte that the two hexadecimal digits at `i` and `i + 1` spell.
pub open spec fn hex_pair(s: Seq<u8>, i: int) -> Option<u8> {
    match (hex_digit(s[i]), hex_digit(s[i + 1])) {
        (Some(hi), Some(lo)) => Some((hi * 16 + lo) as u8),
        _ => None,
    }
}

/// A colour written `#rrggbb` (opaque) or `#rrggbbaa`, with digits of
/// either case; anything else spells no colour.
pub open spec fn spec_parse_color(s: Seq<u8>) -> Option<Color> {
    if (s.len() == 7 || s.len() == 9) && s[0] == 35u8 {
        match (hex_pair(s, 1), hex_pair(s, 3), hex_pair(s, 5)) {
            (Some(r), Some(g), Some(b)) => if s.len() == 7 {
                Some(Color::spec_rgba(r, g, b, 255))
            } else {
                match hex_pair(s, 7) {
                    Some(a) => Some(Color::spec_rgba(r, g, b, a)),
                    None => None,
                }
            },
            _ => None,
        }
    } else {
        None
    }
}

fn hex_digit_value(b: u8) -> (r: Option<u8>)
    ensures
        r == hex_digit(b),
{
    if 48 <= b && b <= 57 {
        Some(b - 48)
    } else if 97 <= b && b <= 102 {
        Some(b - 87)
    } else if 65 <= b && b <= 70 {
        Some(b - 55)
    } else {
        None
    }
}

fn hex_pair_value(s: &[u8], i: usize) -> (r: Option<u8>)
    requires
        i + 1 < s@.len(),
    ensures
        r == hex_pair(s@, i as int),
{
    match (hex_digit_value(s[i]), hex_digit_value(s[i + 1])) {
        (Some(hi), Some(lo)) => Some(hi * 16 + lo),
        _ => None,
    }
}

/// Reads a colour from its raw text; `None` where the text is no colour.
pub fn parse_color(s: &str) -> (r: Option<Color>)
    ensures
        r == spec_parse_color(s.spec_bytes()),
{
    let b = s.as_bytes();
    let n = b.len();
    if (n == 7 || n == 9) && b[0] == 35u8 {
        match (hex_pair_value(b, 1), hex_pair_value(b, 3), hex_pair_value(b, 5)) {
            (Some(r), Some(g), Some(bl)) => if n == 7 {
                Some(Color::rgba(r, g, bl, 255))
            } else {
                match hex_pair_value(b, 7) {
                    Some(a) => Some(Color::rgba(r, g, bl, a)),
                    None => None,
                }
            },
            _ => None,
        }
    } else {
        None
    }
}

/// Whether `a` and `b` hold the same bytes.
pub fn bytes_equal(a: &[u8], b: &[u8]) -> (r: bool)
    ensures
        r == (a@ == b@),
{
    if a.len() != b.len() {
        return false;
    }
    let mut i: usize = 0;
    while i < a.len()
        invariant
            a@.len() == b@.len(),
            i <= a@.len(),
            forall|j: int| 0 <= j < i ==> a@[j] == b@[j],
        decreases a@.len() - i,
    {
        if a[i] != b[i] {
            return false;
        }
        i = i + 1;
    }
    assert(a@ =~= b@);
    true
}

/// A run of inline text.
#[derive(Clone, Debug, PartialEq, Eq)]
pub struct Span {
    pub class_name: Option<String>,
    pub color: Option<Color>,
}

/// The colour that an optional raw `color` value spells.
pub open spec fn spec_color_value(value: Option<String>) -> Option<Color> {
    match value {
        Some(v) => spec_parse_color(encode_utf8(v@)),
        None => None,
    }
}

/// The two attribute names that a span reads are spelled differently.
proof fn lemma_keys_differ()
    ensures
        "className".spec_bytes() != "color".spec_bytes(),
{
    reveal_strlit("className");
    reveal_strlit("color");
    assert(is_ascii("className"));
    assert(is_ascii("color"));
    is_ascii_spec_bytes("className");
    is_ascii_spec_bytes("color");
}

/// An event that a span can hand to a handler.
pub trait SpanEvent: Sized {
    fn set_to_span(span: &mut Span, func: impl FnMut(&Self) + 'static);
}

impl Span {
    /// A span with neither a class name nor a colour.
    pub fn new() -> (r: Span)
        ensures
            r.class_name is None,
            r.color is None,
    {
        Span { class_name: None, color: None }
    }

    /// Registers `func` as the handler of `Event` on this span.
    pub fn on<Event: SpanEvent>(&mut self, func: impl FnMut(&Event) + 'static) {
        Event::set_to_span(self, func);
    }
}

impl Default for Span {
    fn default() -> (r: Span)
        ensures
            r.class_name is None,
            r.color is None,
    {
        Span::new()
    }
}

impl Element for Span {
    type Child = String;

    /// `className` stores the value as given; `color` stores the colour that
    /// the value spells, or none where it spells none; any other key is
    /// ignored.
    fn set_attribute(&mut self, key: &str, value: Option<String>)
        ensures
            key.spec_bytes() == "className".spec_bytes() ==> *final(self) == (Span {
                class_name: value,
                ..*old(self)
            }),
            key.spec_bytes() == "color".spec_bytes() ==> *final(self) == (Span {
                color: spec_color_value(value),
                ..*old(self)
            }),
            key.spec_bytes() != "className".spec_bytes() && key.spec_bytes()
                != "color".spec_bytes() ==> *final(self) == *old(self),
    {
        proof {
            lemma_keys_differ();
        }
        let k = key.as_bytes();
        if bytes_equal(k, "className".as_bytes()) {
            self.class_name = value;
        } else if bytes_equal(k, "color".as_bytes()) {
            self.color = match value {
                Some(v) => parse_color(v.as_str()),
                None => None,
            };
        }
    }

    /// A span paints nothing of its own.
    fn paint(&self) -> (r: Option<PaintDetails>)
        ensures
            r is None,
    {
        None
    }

    /// A span asks for the default layout.
    fn create_layout_opts(&self) -> (r: LayoutOptions)
        ensures
            r == LayoutOptions::spec_default(),
    {
        LayoutOptions::default()
    }
}

} // verus!
