//! Accidental style for notes outside the key.
use vstd::prelude::*;

use crate::ListOptions;

use crate::errors::LilypondAccidentalError;
use crate::text::text_eq;

verus! {

/// The accidentals to use for out of key notes.
#[derive(Debug, Clone, Copy, PartialEq, Eq, Structural)]
pub enum LilyAccidental {
    Sharps,
    Flats,
}

/// The canonical name of each value.
pub open spec fn accidentals_name(x: LilyAccidental) -> Seq<char> {
    match x {
        LilyAccidental::Sharps => "sharps"@,
        LilyAccidental::Flats => "flats"@,
    }
}

/// The value that a text names: its canonical name, its variant name or an alias.
pub open spec fn accidentals_from_text(t: Seq<char>) -> Option<LilyAccidental> {
    if t == "sharps"@ || t == "Sharps"@ || t == "s"@ {
        Some(LilyAccidental::Sharps)
    } else if t == "flats"@ || t == "Flats"@ || t == "f"@ {
        Some(LilyAccidental::Flats)
    } else {
        None
    }
}

impl LilyAccidental {
    /// Parses a value from its canonical name, its variant name or an alias.
    pub fn from_str(s: &str) -> (r: Result<LilyAccidental, LilypondAccidentalError>)
        ensures
            match accidentals_from_text(s@) {
                Some(x) => r == Ok::<LilyAccidental, LilypondAccidentalError>(x),
                None => r matches Err(LilypondAccidentalError::InvalidAccidentalString(t)) && t@ == s@,
            },
    {
        if text_eq(s, "sharps") || text_eq(s, "Sharps") || text_eq(s, "s") {
            Ok(LilyAccidental::Sharps)
        } else if text_eq(s, "flats") || text_eq(s, "Flats") || text_eq(s, "f") {
            Ok(LilyAccidental::Flats)
        } else {
            Err(LilypondAccidentalError::InvalidAccidentalString(s.to_string()))
        }
    }

    /// The canonical name of the value.
    pub fn as_str(&self) -> (r: &'static str)
        ensures
            r@ == accidentals_name(*self),
    {
        match self {
            LilyAccidental::Sharps => "sharps",
            LilyAccidental::Flats => "flats",
        }
    }

    /// Every value, in declaration order.
    pub fn variants() -> (r: Vec<LilyAccidental>)
        ensures
            r@.len() == 2,
            forall|x: LilyAccidental| r@.contains(x),
    {
        let r = vec![LilyAccidental::Sharps, LilyAccidental::Flats];
        assert(forall|x: LilyAccidental| r@.contains(x)) by {
            assert forall|x: LilyAccidental| r@.contains(x) by {
                match x {
                    LilyAccidental::Sharps => assert(r@[0] == x),
                    LilyAccidental::Flats => assert(r@[1] == x),
                }
            }
        }
        r
    }
}

impl ListOptions for LilyAccidental {
    fn list_options() -> Vec<&'static str> {
        let all = LilyAccidental::variants();
        let mut names: Vec<&'static str> = Vec::new();
        let mut i: usize = 0;
        while i < all.len()
            decreases all@.len() - i,
        {
            names.push(all[i].as_str());
            i = i + 1;
        }
        names
    }
}

} // verus!
