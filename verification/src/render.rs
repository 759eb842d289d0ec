use vstd::prelude::*;
use crate::geometry::KeyShape;
use crate::geometry::Rect;
use crate::hittest::note_of_index;
use crate::keystate::KeyState;
use crate::keystate::NOTE_COUNT;

verus! {

/// The fill colour a key is drawn in: a highlight while it sounds, else
/// the key's neutral colour.
#[derive(Clone, Copy, Debug, PartialEq, Eq, Structural)]
pub enum KeyColor {
    Pressed,
    BlackIdle,
    WhiteIdle,
}

/// One rectangle to draw, in keyboard-local coordinates.
#[derive(Clone, Copy, Debug, PartialEq, Eq, Structural)]
pub struct DrawRect {
    pub rect: Rect,
    pub color: KeyColor,
}

/// The neutral colour of a key that is not sounding.
pub open spec fn idle_color(s: KeyShape) -> KeyColor {
    match s {
        KeyShape::Black(_) => KeyColor::BlackIdle,
        KeyShape::White { .. } => KeyColor::WhiteIdle,
    }
}

/// The colour a key is drawn in, given whether its note sounds.
pub open spec fn color_of(s: KeyShape, pressed: bool) -> KeyColor {
    if pressed {
        KeyColor::Pressed
    } else {
        idle_color(s)
    }
}

/// The constituent rectangles of a key's shape, in draw order: the single
/// rectangle of a black key; wide, small, then the optional blind part of
/// a white key.
pub open spec fn shape_rects(s: KeyShape) -> Seq<Rect> {
    match s {
        KeyShape::Black(r) => seq![r],
        KeyShape::White { wide, small, blind } => match blind {
            Some(b) => seq![wide, small, b],
            None => seq![wide, small],
        },
    }
}

/// The draw commands for one key: each constituent rectangle, filled with
/// the key's colour.
pub open spec fn shape_commands(s: KeyShape, pressed: bool) -> Seq<DrawRect> {
    shape_rects(s).map_values(|r: Rect| DrawRect { rect: r, color: color_of(s, pressed) })
}

/// The draw commands for a whole keyboard, in entry order: each key's
/// rectangles, coloured by the flag of the key's note.
pub open spec fn plan_spec(shapes: Seq<KeyShape>, flags: Seq<bool>) -> Seq<DrawRect>
    decreases shapes.len(),
{
    if shapes.len() == 0 {
        Seq::empty()
    } else {
        plan_spec(shapes.drop_last(), flags)
            + shape_commands(shapes.last(), flags[note_of_index(shapes.len() - 1)])
    }
}

/// The draw commands for one key.
pub fn render_shape(s: &KeyShape, pressed: bool) -> (v: Vec<DrawRect>)
    ensures
        v@ == shape_commands(*s, pressed),
{
    let mut v: Vec<DrawRect> = Vec::new();
    let color = if pressed {
        KeyColor::Pressed
    } else {
        match s {
            KeyShape::Black(_) => KeyColor::BlackIdle,
            KeyShape::White { .. } => KeyColor::WhiteIdle,
        }
    };
    match s {
        KeyShape::Black(r) => {
            v.push(DrawRect { rect: *r, color });
        },
        KeyShape::White { wide, small, blind } => {
            v.push(DrawRect { rect: *wide, color });
            v.push(DrawRect { rect: *small, color });
            if let Some(b) = blind {
                v.push(DrawRect { rect: *b, color });
            }
        },
    }
    assert(v@ =~= shape_commands(*s, pressed));
    v
}

/// The per-frame projection of the table onto the geometry: for each key,
/// in entry order, its rectangles in the colour its flag calls for.
pub fn render_plan(shapes: &Vec<KeyShape>, state: &KeyState) -> (v: Vec<DrawRect>)
    requires
        state.wf(),
        note_of_index(shapes@.len() as int) <= NOTE_COUNT,
    ensures
        v@ == plan_spec(shapes@, state@),
{
    let mut v: Vec<DrawRect> = Vec::new();
    let mut i: usize = 0;
    while i < shapes.len()
        invariant
            state.wf(),
            i <= shapes@.len(),
            note_of_index(shapes@.len() as int) <= NOTE_COUNT,
            v@ == plan_spec(shapes@.take(i as int), state@),
        decreases shapes@.len() - i,
    {
        let pressed = state.get(crate::hittest::note_for_index(i));
        let mut cmds = render_shape(&shapes[i], pressed);
        v.append(&mut cmds);
        proof {
            let taken = shapes@.take(i + 1 as int);
            assert(taken.drop_last() =~= shapes@.take(i as int));
            assert(taken.last() == shapes@[i as int]);
        }
        i += 1;
    }
    proof {
        assert(shapes@.take(shapes@.len() as int) =~= shapes@);
    }
    v
}

} // verus!
