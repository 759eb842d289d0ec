use vstd::prelude::*;

verus! {

/// Lowest MIDI note of a standard 88-key piano (A0). A key's position in
/// the geometry sequence plus this offset is its MIDI note number.
pub const LOWEST_NOTE: u8 = 21;

/// An axis-aligned rectangle in keyboard-local pixel coordinates.
#[derive(Clone, Copy, Debug, PartialEq, Eq, Structural)]
pub struct Rect {
    pub x: u16,
    pub y: u16,
    pub width: u16,
    pub height: u16,
}

/// The on-screen shape of one piano key: a black key is a single rectangle;
/// a white key has a wide lower part, a small upper part beside the black
/// keys, and, for outer keys with no black neighbour, an optional blind part.
#[derive(Clone, Copy, Debug, PartialEq, Eq)]
pub enum KeyShape {
    Black(Rect),
    White { wide: Rect, small: Rect, blind: Option<Rect> },
}

/// A point lies in a rectangle when it is within its bounds, inclusive on
/// all four edges.
pub open spec fn rect_contains(r: Rect, px: int, py: int) -> bool {
    &&& r.x <= px && px <= r.x + r.width
    &&& r.y <= py && py <= r.y + r.height
}

/// A point hits a key when any constituent rectangle of its shape contains it.
pub open spec fn shape_contains(s: KeyShape, px: int, py: int) -> bool {
    match s {
        KeyShape::Black(r) => rect_contains(r, px, py),
        KeyShape::White { wide, small, blind } => {
            ||| rect_contains(wide, px, py)
            ||| rect_contains(small, px, py)
            ||| match blind {
                    Some(b) => rect_contains(b, px, py),
                    None => false,
                }
        },
    }
}

/// Inclusive point-in-rectangle test.
pub fn point_in_rect(r: &Rect, px: i32, py: i32) -> (b: bool)
    ensures
        b == rect_contains(*r, px as int, py as int),
{
    (r.x as i32) <= px && px <= (r.x as i32) + (r.width as i32)
        && (r.y as i32) <= py && py <= (r.y as i32) + (r.height as i32)
}

/// Tests a point against every constituent rectangle of a key's shape.
pub fn shape_hit(s: &KeyShape, px: i32, py: i32) -> (b: bool)
    ensures
        b == shape_contains(*s, px as int, py as int),
{
    match s {
        KeyShape::Black(r) => point_in_rect(r, px, py),
        KeyShape::White { wide, small, blind } => {
            point_in_rect(wide, px, py) || point_in_rect(small, px, py)
                || match blind {
                    Some(b) => point_in_rect(b, px, py),
                    None => false,
                }
        },
    }
}

/// Containment is inclusive at all four boundary coordinates: the top-left
/// and bottom-right corner points of a rectangle lie inside it.
pub proof fn lemma_containment_inclusive(r: Rect)
    ensures
        rect_contains(r, r.x as int, r.y as int),
        rect_contains(r, r.x + r.width, r.y + r.height),
{
}

} // verus!
