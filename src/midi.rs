//! MIDI messages as the aggregator sees them.
use vstd::prelude::*;

use crate::MidiNote;

verus! {

/// The kind of a MIDI message.
#[derive(Debug, Clone, Copy, PartialEq, Eq, Structural)]
pub enum MidiMessageType {
    /// A note has been pressed.
    NoteOn { note: MidiNote, velocity: u8 },
    /// A note has been released.
    NoteOff { note: MidiNote, velocity: u8 },
    /// A piano pedal has been pressed.
    PedalOn { pedal: MidiNote, value: u8 },
    /// A piano pedal has been released (its value is back to 0).
    PedalOff { pedal: MidiNote },
    /// A MIDI message which is not handled.
    Unknown,
}

/// Status byte of a note-on message.
pub const NOTE_ON_STATUS: u8 = 144;

/// Status byte of a note-off message.
pub const NOTE_OFF_STATUS: u8 = 128;

/// Status byte of a controller message, which pedals send.
pub const CONTROLLER_STATUS: u8 = 176;

/// The message that a status byte and two data bytes encode.
pub open spec fn decoded(status: u8, data1: u8, data2: u8) -> MidiMessageType {
    if status == NOTE_ON_STATUS {
        MidiMessageType::NoteOn { note: data1, velocity: data2 }
    } else if status == NOTE_OFF_STATUS {
        MidiMessageType::NoteOff { note: data1, velocity: data2 }
    } else if status == CONTROLLER_STATUS {
        if data2 == 0 {
            MidiMessageType::PedalOff { pedal: data1 }
        } else {
            MidiMessageType::PedalOn { pedal: data1, value: data2 }
        }
    } else {
        MidiMessageType::Unknown
    }
}

impl MidiMessageType {
    /// Decodes a message from its status byte and its two data bytes.
    pub fn from_raw(status: u8, data1: u8, data2: u8) -> (r: MidiMessageType)
        ensures
            r == decoded(status, data1, data2),
    {
        if status == NOTE_ON_STATUS {
            MidiMessageType::NoteOn { note: data1, velocity: data2 }
        } else if status == NOTE_OFF_STATUS {
            MidiMessageType::NoteOff { note: data1, velocity: data2 }
        } else if status == CONTROLLER_STATUS {
            if data2 == 0 {
                MidiMessageType::PedalOff { pedal: data1 }
            } else {
                MidiMessageType::PedalOn { pedal: data1, value: data2 }
            }
        } else {
            MidiMessageType::Unknown
        }
    }
}

} // verus!
