use vstd::prelude::*;
use crate::geometry::KeyShape;
use crate::geometry::Rect;

verus! {

/// piano_keyboard's two-dimensional keyboard, declared so that a built
/// keyboard can be carried through verified code; what it holds is read
/// through `kb_shapes`.
#[verifier::external_type_specification]
#[verifier::external_body]
pub struct ExKeyboard2d(piano_keyboard::Keyboard2d);

/// The key shapes a built keyboard holds, one per key, lowest key first.
pub uninterp spec fn kb_shapes(kb: piano_keyboard::Keyboard2d) -> Seq<KeyShape>;

/// The 88-key layout piano_keyboard computes for a requested pixel width;
/// the computation depends on the width alone.
pub uninterp spec fn standard_layout_88(width: u16) -> Seq<KeyShape>;

/// Relies on piano_keyboard::KeyboardBuilder: `standard_piano(88)` and
/// `set_width` accept a standard 88-key piano at any width from 264 to
/// 65408 pixels, and `build2d` then lays out one element per key, from the
/// lowest key up, deterministically from the width.
#[verifier::external_body]
fn build_standard_keyboard(width: u16) -> (kb: piano_keyboard::Keyboard2d)
    requires
        264 <= width <= 65408,
    ensures
        kb_shapes(kb) == standard_layout_88(width),
        kb_shapes(kb).len() == 88,
{
    piano_keyboard::KeyboardBuilder::new()
        .standard_piano(88)
        .unwrap()
        .set_width(width)
        .unwrap()
        .build2d()
}

/// Relies on piano_keyboard::Keyboard2d::iter: the element at an index of
/// the built keyboard, its rectangles moved field for field into the
/// library's shape type.
#[verifier::external_body]
fn keyboard_shape_at(kb: &piano_keyboard::Keyboard2d, i: usize) -> (s: KeyShape)
    requires
        i < kb_shapes(*kb).len(),
    ensures
        s == kb_shapes(*kb)[i as int],
{
    let cv = |r: &piano_keyboard::Rectangle| Rect { x: r.x, y: r.y, width: r.width, height: r.height };
    match kb.iter().nth(i).expect("index within the keyboard") {
        piano_keyboard::Element::BlackKey(r) => KeyShape::Black(cv(r)),
        piano_keyboard::Element::WhiteKey { wide, small, blind } => KeyShape::White {
            wide: cv(wide),
            small: cv(small),
            blind: blind.as_ref().map(cv),
        },
    }
}

/// Builds the geometry model: the standard 88-key piano laid out for the
/// given pixel width, one shape per key, lowest key first. The sequence's
/// length is 88 whatever width is requested.
pub fn standard_geometry(width: u16) -> (v: Vec<KeyShape>)
    requires
        264 <= width <= 65408,
    ensures
        v@ == standard_layout_88(width),
        v@.len() == 88,
{
    let kb = build_standard_keyboard(width);
    let mut v: Vec<KeyShape> = Vec::new();
    let mut i: usize = 0;
    while i < 88
        invariant
            kb_shapes(kb) == standard_layout_88(width),
            kb_shapes(kb).len() == 88,
            i <= 88,
            v@ == kb_shapes(kb).take(i as int),
        decreases 88 - i,
    {
        let s = keyboard_shape_at(&kb, i);
        v.push(s);
        proof {
            assert(kb_shapes(kb).take(i + 1 as int) =~= kb_shapes(kb).take(i as int).push(
                kb_shapes(kb)[i as int],
            ));
        }
        i += 1;
    }
    proof {
        assert(kb_shapes(kb).take(88) =~= kb_shapes(kb));
    }
    v
}

} // verus!
