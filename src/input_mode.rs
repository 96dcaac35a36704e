//! How note input is grouped.
use vstd::prelude::*;

use crate::ListOptions;

use crate::errors::InputModeError;
use crate::text::text_eq;

verus! {

/// How should note inputs behave.
#[derive(Debug, Clone, Copy, PartialEq, Eq, Structural)]
pub enum InputMode {
    /// Enter one note at a time.
    Single,
    /// Held notes are aggregated into a chord, emitted once everything was released.
    Chord,
    /// Behave like `Chord` while a pedal is held, like `Single` otherwise.
    PedalChord,
    /// Behave like `Single` while a pedal is held, like `Chord` otherwise.
    PedalSingle,
}

/// The canonical name of each value.
pub open spec fn input_mode_name(x: InputMode) -> Seq<char> {
    match x {
        InputMode::Single => "single"@,
        InputMode::Chord => "chord"@,
        InputMode::PedalChord => "pedal-chord"@,
        InputMode::PedalSingle => "pedal-single"@,
    }
}

/// The value that a text names: its canonical name, its variant name or an alias.
pub open spec fn input_mode_from_text(t: Seq<char>) -> Option<InputMode> {
    if t == "single"@ || t == "Single"@ || t == "s"@ {
        Some(InputMode::Single)
    } else if t == "chord"@ || t == "Chord"@ || t == "c"@ {
        Some(InputMode::Chord)
    } else if t == "pedal-chord"@ || t == "PedalChord"@ || t == "pc"@ {
        Some(InputMode::PedalChord)
    } else if t == "pedal-single"@ || t == "PedalSingle"@ || t == "ps"@ {
        Some(InputMode::PedalSingle)
    } else {
        None
    }
}

impl InputMode {
    /// Parses a value from its canonical name, its variant name or an alias.
    pub fn from_str(s: &str) -> (r: Result<InputMode, InputModeError>)
        ensures
            match input_mode_from_text(s@) {
                Some(x) => r == Ok::<InputMode, InputModeError>(x),
                None => r matches Err(InputModeError::InvalidModeString(t)) && t@ == s@,
            },
    {
        if text_eq(s, "single") || text_eq(s, "Single") || text_eq(s, "s") {
            Ok(InputMode::Single)
        } else if text_eq(s, "chord") || text_eq(s, "Chord") || text_eq(s, "c") {
            Ok(InputMode::Chord)
        } else if text_eq(s, "pedal-chord") || text_eq(s, "PedalChord") || text_eq(s, "pc") {
            Ok(InputMode::PedalChord)
        } else if text_eq(s, "pedal-single") || text_eq(s, "PedalSingle") || text_eq(s, "ps") {
            Ok(InputMode::PedalSingle)
        } else {
            Err(InputModeError::InvalidModeString(s.to_string()))
        }
    }

    /// The canonical name of the value.
    pub fn as_str(&self) -> (r: &'static str)
        ensures
            r@ == input_mode_name(*self),
    {
        match self {
            InputMode::Single => "single",
            InputMode::Chord => "chord",
            InputMode::PedalChord => "pedal-chord",
            InputMode::PedalSingle => "pedal-single",
        }
    }

    /// Every value, in declaration order.
    pub fn variants() -> (r: Vec<InputMode>)
        ensures
            r@.len() == 4,
            forall|x: InputMode| r@.contains(x),
    {
        let r = vec![InputMode::Single, InputMode::Chord, InputMode::PedalChord, InputMode::PedalSingle];
        assert(forall|x: InputMode| r@.contains(x)) by {
            assert forall|x: InputMode| r@.contains(x) by {
                match x {
                    InputMode::Single => assert(r@[0] == x),
                    InputMode::Chord => assert(r@[1] == x),
                    InputMode::PedalChord => assert(r@[2] == x),
                    InputMode::PedalSingle => assert(r@[3] == x),
                }
            }
        }
        r
    }
}

impl ListOptions for InputMode {
    fn list_options() -> Vec<&'static str> {
        let all = InputMode::variants();
        let mut names: Vec<&'static str> = Vec::new();
        let mut i: usize = 0;
        while i < all.len()
            decreases all@.len() - i,
        {
            names.push(all[i].as_str());
            i = i + 1;
        }
        names
    }
}

} // verus!
