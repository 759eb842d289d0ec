use vstd::prelude::*;

verus! {

/// The number of MIDI note numbers; the table holds exactly one flag each.
pub const NOTE_COUNT: usize = 128;

/// A fixed-size table of "is sounding" flags, indexed by MIDI note number.
///
/// Created once at startup with every flag false and never resized; written
/// by the MIDI decoder and the pointer hit-tester, read by the renderer.
pub struct KeyState {
    flags: Vec<bool>,
}

impl View for KeyState {
    type V = Seq<bool>;

    closed spec fn view(&self) -> Seq<bool> {
        self.flags@
    }
}

impl KeyState {
    /// The table always holds exactly one flag per MIDI note number.
    pub open spec fn wf(&self) -> bool {
        self@.len() == NOTE_COUNT
    }

    /// A fresh table with every note reading released.
    pub fn new() -> (s: Self)
        ensures
            s.wf(),
            forall|n: int| 0 <= n < NOTE_COUNT ==> !s@[n],
    {
        let mut flags: Vec<bool> = Vec::new();
        while flags.len() < NOTE_COUNT
            invariant
                flags@.len() <= NOTE_COUNT,
                forall|n: int| 0 <= n < flags@.len() ==> !flags@[n],
            decreases NOTE_COUNT - flags@.len(),
        {
            flags.push(false);
        }
        KeyState { flags }
    }

    /// Reads the flag for a note.
    pub fn get(&self, note: u8) -> (b: bool)
        requires
            self.wf(),
            note < NOTE_COUNT,
        ensures
            b == self@[note as int],
    {
        self.flags[note as usize]
    }

    /// Writes the flag for a note; every other entry keeps its value.
    pub fn set(&mut self, note: u8, value: bool)
        requires
            old(self).wf(),
            note < NOTE_COUNT,
        ensures
            final(self).wf(),
            final(self)@ == old(self)@.update(note as int, value),
    {
        self.flags.set(note as usize, value);
    }

    /// Resets every flag to false, whatever source set it.
    pub fn clear_all(&mut self)
        requires
            old(self).wf(),
        ensures
            final(self).wf(),
            forall|n: int| 0 <= n < NOTE_COUNT ==> !final(self)@[n],
    {
        let mut i: usize = 0;
        while i < NOTE_COUNT
            invariant
                i <= NOTE_COUNT,
                self.wf(),
                forall|n: int| 0 <= n < i ==> !self@[n],
            decreases NOTE_COUNT - i,
        {
            self.flags.set(i, false);
            i += 1;
        }
    }
}

} // verus!
