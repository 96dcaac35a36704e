//! Turns a stream of MIDI note and pedal events into LilyPond note tokens.
//!
//! The library holds the pitch spelling, the octave resolution (absolute and
//! relative entry), the alteration overrides, the note text codec, the
//! chord/pedal aggregation state machine and the parameter commands. Device
//! access and the reading of input live outside of it.
use vstd::prelude::*;

pub mod text;
pub mod errors;
pub mod keysignature;
pub mod accidentals;
pub mod language;
pub mod octave_entry;
pub mod input_mode;
pub mod spelling;
pub mod note_set;
pub mod parameters;
pub mod note;
pub mod parse;
pub mod midi;
pub mod aggregator;
pub mod laws;
pub mod commands;
pub mod session;

pub use errors::{
    InputModeError, LilyParametersError, LilypondAccidentalError, LilypondLanguageError,
    LilypondMidiDeviceError, LilypondNoteError, OctaveEntryError,
};
pub use keysignature::LilyKeySignature;
pub use accidentals::LilyAccidental;
pub use language::{Language, Note};
pub use octave_entry::OctaveEntry;
pub use input_mode::InputMode;
pub use spelling::spell;
pub use note::{LilyNote, LilyNoteRendered};
pub use parameters::{Alteration, LilyParameters};
pub use midi::MidiMessageType;
pub use aggregator::ChordAggregator;
pub use commands::{key_value_pairs, parse_subkeys};

verus! {

/// An absolute MIDI pitch (60 is middle C).
pub type MidiNote = u8;

/// The names that a setting accepts, canonical names first.
pub trait ListOptions {
    /// The canonical name of every value of the setting.
    fn list_options() -> Vec<&'static str>;
}

} // verus!
