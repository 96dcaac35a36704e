//! Error kinds of the library.
use vstd::prelude::*;

verus! {

/// Errors on notes and key signatures.
#[derive(Debug)]
pub enum LilypondNoteError {
    /// Some functions require the note to be within an octave (0 to 11).
    OutsideOctave(u8),
    /// The text is not the name of a key signature.
    InvalidKeyString(String),
    /// The text is not a LilyPond note.
    InvalidNoteString(String),
}

/// The text is not the name of an accidental style.
#[derive(Debug)]
pub enum LilypondAccidentalError {
    InvalidAccidentalString(String),
}

/// The text is not the name of a note name language.
#[derive(Debug)]
pub enum LilypondLanguageError {
    InvalidLanguageString(String),
}

/// The text is not the name of an octave entry mode.
#[derive(Debug)]
pub enum OctaveEntryError {
    InvalidOctaveEntryString(String),
}

/// The text is not the name of an input mode.
#[derive(Debug)]
pub enum InputModeError {
    InvalidModeString(String),
}

/// Errors when building a parameter set.
#[derive(Debug)]
pub enum LilyParametersError {
    NoteError(LilypondNoteError),
}

/// Errors related to MIDI devices.
#[derive(Debug)]
pub enum LilypondMidiDeviceError {
    NamedDeviceNotFound(String),
}

} // verus!
