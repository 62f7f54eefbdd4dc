//! Outgoing MIDI messages.

use crate::pqueue::TickQueue;
use vstd::prelude::*;

verus! {

/// A raw MIDI message of up to three bytes; `len` says how many count.
#[derive(Clone, Copy, Debug, PartialEq, Eq, Structural)]
pub struct MidiValue {
    pub len: u8,
    pub status: u8,
    pub data1: u8,
    pub data2: u8,
}

/// The outgoing messages, each with the tick at which to emit it.
pub type MidiValueQueue = TickQueue<MidiValue>;

impl MidiValue {
    /// The note-on message for a channel, a note number and a velocity,
    /// each reduced to its range.
    pub open spec fn note_on_spec(chan: u8, num: u8, vel: u8) -> MidiValue {
        MidiValue {
            len: 3,
            status: (0x90 + chan % 16) as u8,
            data1: (num % 128) as u8,
            data2: (vel % 128) as u8,
        }
    }

    /// The note-off message for a channel, a note number and a velocity,
    /// each reduced to its range.
    pub open spec fn note_off_spec(chan: u8, num: u8, vel: u8) -> MidiValue {
        MidiValue {
            len: 3,
            status: (0x80 + chan % 16) as u8,
            data1: (num % 128) as u8,
            data2: (vel % 128) as u8,
        }
    }

    pub fn note_on(chan: u8, num: u8, vel: u8) -> (m: MidiValue)
        ensures
            m == Self::note_on_spec(chan, num, vel),
    {
        MidiValue { len: 3, status: 0x90 + chan % 16, data1: num % 128, data2: vel % 128 }
    }

    pub fn note_off(chan: u8, num: u8, vel: u8) -> (m: MidiValue)
        ensures
            m == Self::note_off_spec(chan, num, vel),
    {
        MidiValue { len: 3, status: 0x80 + chan % 16, data1: num % 128, data2: vel % 128 }
    }

    /// The bytes that go on the wire: the first `len` of the three, and
    /// nothing for a message of no byte or of more than three.
    pub open spec fn wire_spec(self) -> Seq<u8> {
        if self.len == 1 {
            seq![self.status]
        } else if self.len == 2 {
            seq![self.status, self.data1]
        } else if self.len == 3 {
            seq![self.status, self.data1, self.data2]
        } else {
            Seq::<u8>::empty()
        }
    }

    pub fn wire(&self) -> (b: Vec<u8>)
        ensures
            b@ == self.wire_spec(),
    {
        let mut b: Vec<u8> = Vec::new();
        if self.len >= 1 && self.len <= 3 {
            b.push(self.status);
            if self.len >= 2 {
                b.push(self.data1);
            }
            if self.len >= 3 {
                b.push(self.data2);
            }
        }
        assert(b@ =~= self.wire_spec());
        b
    }
}

} // verus!
