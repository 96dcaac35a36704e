//! Octave entry modes.
use vstd::prelude::*;

use crate::ListOptions;

use crate::errors::OctaveEntryError;
use crate::text::text_eq;

verus! {

/// The octave entry mode to use for note generation.
#[derive(Debug, Clone, Copy, PartialEq, Eq, Structural)]
pub enum OctaveEntry {
    /// Every note carries its literal octave.
    Absolute,
    /// Every note carries its octave relative to the previous note.
    Relative,
}

/// The canonical name of each value.
pub open spec fn octave_entry_name(x: OctaveEntry) -> Seq<char> {
    match x {
        OctaveEntry::Absolute => "absolute"@,
        OctaveEntry::Relative => "relative"@,
    }
}

/// The value that a text names: its canonical name, its variant name or an alias.
pub open spec fn octave_entry_from_text(t: Seq<char>) -> Option<OctaveEntry> {
    if t == "absolute"@ || t == "Absolute"@ || t == "a"@ {
        Some(OctaveEntry::Absolute)
    } else if t == "relative"@ || t == "Relative"@ || t == "r"@ {
        Some(OctaveEntry::Relative)
    } else {
        None
    }
}

impl OctaveEntry {
    /// Parses a value from its canonical name, its variant name or an alias.
    pub fn from_str(s: &str) -> (r: Result<OctaveEntry, OctaveEntryError>)
        ensures
            match octave_entry_from_text(s@) {
                Some(x) => r == Ok::<OctaveEntry, OctaveEntryError>(x),
                None => r matches Err(OctaveEntryError::InvalidOctaveEntryString(t)) && t@ == s@,
            },
    {
        if text_eq(s, "absolute") || text_eq(s, "Absolute") || text_eq(s, "a") {
            Ok(OctaveEntry::Absolute)
        } else if text_eq(s, "relative") || text_eq(s, "Relative") || text_eq(s, "r") {
            Ok(OctaveEntry::Relative)
        } else {
            Err(OctaveEntryError::InvalidOctaveEntryString(s.to_string()))
        }
    }

    /// The canonical name of the value.
    pub fn as_str(&self) -> (r: &'static str)
        ensures
            r@ == octave_entry_name(*self),
    {
        match self {
            OctaveEntry::Absolute => "absolute",
            OctaveEntry::Relative => "relative",
        }
    }

    /// Every value, in declaration order.
    pub fn variants() -> (r: Vec<OctaveEntry>)
        ensures
            r@.len() == 2,
            forall|x: OctaveEntry| r@.contains(x),
    {
        let r = vec![OctaveEntry::Absolute, OctaveEntry::Relative];
        assert(forall|x: OctaveEntry| r@.contains(x)) by {
            assert forall|x: OctaveEntry| r@.contains(x) by {
                match x {
                    OctaveEntry::Absolute => assert(r@[0] == x),
                    OctaveEntry::Relative => assert(r@[1] == x),
                }
            }
        }
        r
    }
}

impl ListOptions for OctaveEntry {
    fn list_options() -> Vec<&'static str> {
        let all = OctaveEntry::variants();
        let mut names: Vec<&'static str> = Vec::new();
        let mut i: usize = 0;
        while i < all.len()
            decreases all@.len() - i,
        {
            names.push(all[i].as_str());
            i = i + 1;
        }
        names
    }
}

} // verus!
