use vstd::prelude::*;
use crate::geometry::KeyShape;
use crate::geometry::LOWEST_NOTE;
use crate::geometry::Rect;
use crate::geometry::rect_contains;
use crate::geometry::shape_contains;
use crate::geometry::shape_hit;
use crate::keystate::KeyState;
use crate::keystate::NOTE_COUNT;

verus! {

/// The MIDI note number of the key at a geometry-sequence index.
pub open spec fn note_of_index(i: int) -> int {
    i + LOWEST_NOTE
}

/// Maps a geometry-sequence index to its MIDI note number.
pub fn note_for_index(i: usize) -> (n: u8)
    requires
        note_of_index(i as int) < NOTE_COUNT,
    ensures
        n as int == note_of_index(i as int),
{
    (i as u8) + LOWEST_NOTE
}

/// The table after a click at a point: every key of the geometry whose
/// shape contains the point reads pressed; every other entry keeps its
/// old value.
pub open spec fn pressed_after_click(
    flags: Seq<bool>,
    shapes: Seq<KeyShape>,
    px: int,
    py: int,
) -> Seq<bool> {
    Seq::new(
        flags.len(),
        |j: int|
            if LOWEST_NOTE <= j < note_of_index(shapes.len() as int)
                && shape_contains(shapes[j - LOWEST_NOTE], px, py) {
                true
            } else {
                flags[j]
            },
    )
}

/// On the frame where the pointer button goes down: presses every key of
/// the geometry whose shape contains the pointer, in keyboard-local
/// coordinates. Keys the pointer misses are left exactly as they were.
pub fn press_keys_at(state: &mut KeyState, shapes: &Vec<KeyShape>, px: i32, py: i32)
    requires
        old(state).wf(),
        note_of_index(shapes@.len() as int) <= NOTE_COUNT,
    ensures
        final(state).wf(),
        final(state)@ == pressed_after_click(old(state)@, shapes@, px as int, py as int),
{
    let mut i: usize = 0;
    while i < shapes.len()
        invariant
            state.wf(),
            i <= shapes@.len(),
            note_of_index(shapes@.len() as int) <= NOTE_COUNT,
            forall|j: int|
                0 <= j < NOTE_COUNT ==> state@[j] == (
                if LOWEST_NOTE <= j < note_of_index(i as int)
                    && shape_contains(shapes@[j - LOWEST_NOTE], px as int, py as int) {
                    true
                } else {
                    old(state)@[j]
                }),
        decreases shapes@.len() - i,
    {
        if shape_hit(&shapes[i], px, py) {
            state.set(note_for_index(i), true);
        }
        i += 1;
    }
    assert(state@ =~= pressed_after_click(old(state)@, shapes@, px as int, py as int));
}

/// A click that lands in exactly one key's shape presses that key's note
/// and leaves every other entry of the table unchanged; in particular a
/// click inside a single black key's rectangle presses only that key.
pub proof fn lemma_single_hit_presses_one_key(
    flags: Seq<bool>,
    shapes: Seq<KeyShape>,
    px: int,
    py: int,
    k: int,
)
    requires
        flags.len() == NOTE_COUNT,
        note_of_index(shapes.len() as int) <= NOTE_COUNT,
        0 <= k < shapes.len(),
        shape_contains(shapes[k], px, py),
        forall|i: int| 0 <= i < shapes.len() && i != k ==> !shape_contains(shapes[i], px, py),
    ensures
        ({
            let after = pressed_after_click(flags, shapes, px, py);
            &&& after[note_of_index(k)] == true
            &&& forall|j: int|
                0 <= j < NOTE_COUNT && j != note_of_index(k) ==> after[j] == flags[j]
        }),
{
}

/// A click inside a white key's small rectangle presses that key even
/// where its wide rectangle does not contain the point: any constituent
/// rectangle's match suffices.
pub proof fn lemma_small_rect_hit_presses_key(
    flags: Seq<bool>,
    shapes: Seq<KeyShape>,
    px: int,
    py: int,
    k: int,
    wide: Rect,
    small: Rect,
    blind: Option<Rect>,
)
    requires
        flags.len() == NOTE_COUNT,
        note_of_index(shapes.len() as int) <= NOTE_COUNT,
        0 <= k < shapes.len(),
        shapes[k] == (KeyShape::White { wide, small, blind }),
        rect_contains(small, px, py),
        !rect_contains(wide, px, py),
    ensures
        pressed_after_click(flags, shapes, px, py)[note_of_index(k)] == true,
{
}

} // verus!
