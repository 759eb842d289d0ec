use vstd::prelude::*;
use crate::keystate::KeyState;
use crate::keystate::NOTE_COUNT;

verus! {

/// Status byte of a MIDI Note-On channel-voice message (channel 0).
pub const NOTE_ON: u8 = 0x90;

/// Status byte of a MIDI Note-Off channel-voice message (channel 0).
pub const NOTE_OFF: u8 = 0x80;

/// What one raw MIDI message means for the key table.
#[derive(Clone, Copy, Debug, PartialEq, Eq, Structural)]
pub enum MidiAction {
    /// Note-On with positive velocity: the note starts sounding.
    Press(u8),
    /// Note-Off, or Note-On with velocity zero: the note stops sounding.
    Release(u8),
    /// Too short, or an unrecognized status: the message is discarded.
    Discard,
}

/// The action a raw message calls for. A message shorter than three bytes
/// is discarded; otherwise byte 0 is the status, byte 1 the note and byte 2
/// the velocity. Note-On with velocity zero counts as a release, after the
/// MIDI convention for running status.
pub open spec fn message_action(m: Seq<u8>) -> MidiAction {
    if m.len() < 3 {
        MidiAction::Discard
    } else if m[0] == NOTE_ON && m[2] > 0 {
        MidiAction::Press(m[1])
    } else if m[0] == NOTE_OFF || (m[0] == NOTE_ON && m[2] == 0) {
        MidiAction::Release(m[1])
    } else {
        MidiAction::Discard
    }
}

/// The table after one decoded action: a press sets the note's flag, a
/// release clears it, a discarded message leaves every flag unchanged.
pub open spec fn apply_action(flags: Seq<bool>, a: MidiAction) -> Seq<bool> {
    match a {
        MidiAction::Press(n) => flags.update(n as int, true),
        MidiAction::Release(n) => flags.update(n as int, false),
        MidiAction::Discard => flags,
    }
}

/// Decodes one raw message into the action it calls for.
pub fn decode_message(m: &[u8]) -> (a: MidiAction)
    ensures
        a == message_action(m@),
{
    if m.len() < 3 {
        MidiAction::Discard
    } else {
        let status = m[0];
        let note = m[1];
        let velocity = m[2];
        if status == NOTE_ON && velocity > 0 {
            MidiAction::Press(note)
        } else if status == NOTE_OFF || (status == NOTE_ON && velocity == 0) {
            MidiAction::Release(note)
        } else {
            MidiAction::Discard
        }
    }
}

/// Applies one raw MIDI message to the table. The MIDI protocol carries the
/// note in a 7-bit field, so a note message's second byte is below 128.
pub fn apply_message(state: &mut KeyState, m: &[u8])
    requires
        old(state).wf(),
        m@.len() >= 3 && (m@[0] == NOTE_ON || m@[0] == NOTE_OFF) ==> m@[1] < NOTE_COUNT,
    ensures
        final(state).wf(),
        final(state)@ == apply_action(old(state)@, message_action(m@)),
{
    match decode_message(m) {
        MidiAction::Press(n) => state.set(n, true),
        MidiAction::Release(n) => state.set(n, false),
        MidiAction::Discard => {},
    }
}

/// After a Note-On with positive velocity the note reads pressed, and a
/// following Note-Off, or Note-On with velocity zero, reads it released,
/// for every note and every prior state of the table.
pub proof fn lemma_note_on_note_off(flags: Seq<bool>, n: u8, v: u8, w: u8)
    requires
        flags.len() == NOTE_COUNT,
        n < NOTE_COUNT,
        v > 0,
    ensures
        ({
            let on = apply_action(flags, message_action(seq![NOTE_ON, n, v]));
            &&& on[n as int] == true
            &&& apply_action(on, message_action(seq![NOTE_OFF, n, w]))[n as int] == false
            &&& apply_action(on, message_action(seq![NOTE_ON, n, 0u8]))[n as int] == false
        }),
{
}

/// A message shorter than three bytes changes no flag, whatever the prior
/// state of the table.
pub proof fn lemma_short_message_is_noop(flags: Seq<bool>, m: Seq<u8>)
    requires
        m.len() < 3,
    ensures
        apply_action(flags, message_action(m)) == flags,
{
}

} // verus!
