//! Note name languages and the note names they use.
use vstd::prelude::*;

use crate::ListOptions;

use crate::errors::LilypondLanguageError;
use crate::text::text_eq;

verus! {

/// Supported languages for note names.
#[derive(Debug, Clone, Copy, PartialEq, Eq, Structural)]
pub enum Language {
    Nederlands,
    Catalan,
}

/// A natural note, or a natural note raised or lowered, independent of the
/// language that names it.
#[derive(Debug, Clone, Copy, PartialEq, Eq, Structural)]
pub enum Note {
    C,
    CFlat,
    CSharp,
    CSharpSharp,
    D,
    DFlat,
    DSharp,
    E,
    EFlat,
    ESharp,
    F,
    FFlat,
    FSharp,
    FSharpSharp,
    G,
    GFlat,
    GSharp,
    GSharpSharp,
    A,
    AFlat,
    ASharp,
    B,
    BFlat,
    BSharp,
}

/// The canonical name of each language.
pub open spec fn language_name(x: Language) -> Seq<char> {
    match x {
        Language::Nederlands => "nederlands"@,
        Language::Catalan => "catalan"@,
    }
}

/// The language that a text names.
pub open spec fn language_from_text(t: Seq<char>) -> Option<Language> {
    if t == "nederlands"@ || t == "Nederlands"@ {
        Some(Language::Nederlands)
    } else if t == "catalan"@ || t == "Catalan"@ || t == "catal\u{e0}"@ {
        Some(Language::Catalan)
    } else {
        None
    }
}

/// The name of a note in a language.
pub open spec fn note_text(lang: Language, n: Note) -> Seq<char> {
    match lang {
        Language::Nederlands => match n {
            Note::C => "c"@,
            Note::CFlat => "ces"@,
            Note::CSharp => "cis"@,
            Note::CSharpSharp => "cisis"@,
            Note::D => "d"@,
            Note::DFlat => "des"@,
            Note::DSharp => "dis"@,
            Note::E => "e"@,
            Note::EFlat => "ees"@,
            Note::ESharp => "eis"@,
            Note::F => "f"@,
            Note::FFlat => "fes"@,
            Note::FSharp => "fis"@,
            Note::FSharpSharp => "fisis"@,
            Note::G => "g"@,
            Note::GFlat => "ges"@,
            Note::GSharp => "gis"@,
            Note::GSharpSharp => "gisis"@,
            Note::A => "a"@,
            Note::AFlat => "aes"@,
            Note::ASharp => "ais"@,
            Note::B => "b"@,
            Note::BFlat => "bes"@,
            Note::BSharp => "bis"@,
        },
        Language::Catalan => match n {
            Note::C => "do"@,
            Note::CFlat => "dob"@,
            Note::CSharp => "dod"@,
            Note::CSharpSharp => "dodd"@,
            Note::D => "re"@,
            Note::DFlat => "reb"@,
            Note::DSharp => "red"@,
            Note::E => "mi"@,
            Note::EFlat => "mib"@,
            Note::ESharp => "mid"@,
            Note::F => "fa"@,
            Note::FFlat => "fab"@,
            Note::FSharp => "fad"@,
            Note::FSharpSharp => "fadd"@,
            Note::G => "sol"@,
            Note::GFlat => "solb"@,
            Note::GSharp => "sold"@,
            Note::GSharpSharp => "soldd"@,
            Note::A => "la"@,
            Note::AFlat => "lab"@,
            Note::ASharp => "lad"@,
            Note::B => "si"@,
            Note::BFlat => "sib"@,
            Note::BSharp => "sid"@,
        },
    }
}

/// The pitch class of the note's natural letter.
pub open spec fn natural_class(n: Note) -> int {
    match n {
        Note::C => 0,
        Note::CFlat => 0,
        Note::CSharp => 0,
        Note::CSharpSharp => 0,
        Note::D => 2,
        Note::DFlat => 2,
        Note::DSharp => 2,
        Note::E => 4,
        Note::EFlat => 4,
        Note::ESharp => 4,
        Note::F => 5,
        Note::FFlat => 5,
        Note::FSharp => 5,
        Note::FSharpSharp => 5,
        Note::G => 7,
        Note::GFlat => 7,
        Note::GSharp => 7,
        Note::GSharpSharp => 7,
        Note::A => 9,
        Note::AFlat => 9,
        Note::ASharp => 9,
        Note::B => 11,
        Note::BFlat => 11,
        Note::BSharp => 11,
    }
}

/// How many semitones the note's accidentals raise (positive) or lower
/// (negative) its natural letter.
pub open spec fn alteration(n: Note) -> int {
    match n {
        Note::C => 0,
        Note::CFlat => -1,
        Note::CSharp => 1,
        Note::CSharpSharp => 2,
        Note::D => 0,
        Note::DFlat => -1,
        Note::DSharp => 1,
        Note::E => 0,
        Note::EFlat => -1,
        Note::ESharp => 1,
        Note::F => 0,
        Note::FFlat => -1,
        Note::FSharp => 1,
        Note::FSharpSharp => 2,
        Note::G => 0,
        Note::GFlat => -1,
        Note::GSharp => 1,
        Note::GSharpSharp => 2,
        Note::A => 0,
        Note::AFlat => -1,
        Note::ASharp => 1,
        Note::B => 0,
        Note::BFlat => -1,
        Note::BSharp => 1,
    }
}

impl Language {
    /// Parses a language from its name.
    pub fn from_str(s: &str) -> (r: Result<Language, LilypondLanguageError>)
        ensures
            match language_from_text(s@) {
                Some(x) => r == Ok::<Language, LilypondLanguageError>(x),
                None => r matches Err(LilypondLanguageError::InvalidLanguageString(t)) && t@ == s@,
            },
    {
        if text_eq(s, "nederlands") || text_eq(s, "Nederlands") {
            Ok(Language::Nederlands)
        } else if text_eq(s, "catalan") || text_eq(s, "Catalan") || text_eq(s, "catal\u{e0}") {
            Ok(Language::Catalan)
        } else {
            Err(LilypondLanguageError::InvalidLanguageString(s.to_string()))
        }
    }

    /// The canonical name of the language.
    pub fn as_str(&self) -> (r: &'static str)
        ensures
            r@ == language_name(*self),
    {
        match self {
            Language::Nederlands => "nederlands",
            Language::Catalan => "catalan",
        }
    }

    /// Every language.
    pub fn variants() -> (r: Vec<Language>)
        ensures
            r@.len() == 2,
            forall|x: Language| r@.contains(x),
    {
        let r = vec![Language::Nederlands, Language::Catalan];
        assert(forall|x: Language| r@.contains(x)) by {
            assert forall|x: Language| r@.contains(x) by {
                match x {
                    Language::Nederlands => assert(r@[0] == x),
                    Language::Catalan => assert(r@[1] == x),
                }
            }
        }
        r
    }

    /// The name of a note in this language.
    pub fn note_to_str(&self, note: &Note) -> (r: &'static str)
        ensures
            r@ == note_text(*self, *note),
    {
        match self {
            Language::Nederlands => match note {
                Note::C => "c",
                Note::CFlat => "ces",
                Note::CSharp => "cis",
                Note::CSharpSharp => "cisis",
                Note::D => "d",
                Note::DFlat => "des",
                Note::DSharp => "dis",
                Note::E => "e",
                Note::EFlat => "ees",
                Note::ESharp => "eis",
                Note::F => "f",
                Note::FFlat => "fes",
                Note::FSharp => "fis",
                Note::FSharpSharp => "fisis",
                Note::G => "g",
                Note::GFlat => "ges",
                Note::GSharp => "gis",
                Note::GSharpSharp => "gisis",
                Note::A => "a",
                Note::AFlat => "aes",
                Note::ASharp => "ais",
                Note::B => "b",
                Note::BFlat => "bes",
                Note::BSharp => "bis",
            },
            Language::Catalan => match note {
                Note::C => "do",
                Note::CFlat => "dob",
                Note::CSharp => "dod",
                Note::CSharpSharp => "dodd",
                Note::D => "re",
                Note::DFlat => "reb",
                Note::DSharp => "red",
                Note::E => "mi",
                Note::EFlat => "mib",
                Note::ESharp => "mid",
                Note::F => "fa",
                Note::FFlat => "fab",
                Note::FSharp => "fad",
                Note::FSharpSharp => "fadd",
                Note::G => "sol",
                Note::GFlat => "solb",
                Note::GSharp => "sold",
                Note::GSharpSharp => "soldd",
                Note::A => "la",
                Note::AFlat => "lab",
                Note::ASharp => "lad",
                Note::B => "si",
                Note::BFlat => "sib",
                Note::BSharp => "sid",
            },
        }
    }
}

impl Default for Language {
    fn default() -> (r: Language)
        ensures
            r == Language::Nederlands,
    {
        Language::Nederlands
    }
}

impl Note {
    /// How many semitones the accidentals raise or lower the natural letter.
    pub fn alteration(&self) -> (r: i8)
        ensures
            r == alteration(*self),
    {
        match self {
            Note::C => 0,
            Note::CFlat => -1,
            Note::CSharp => 1,
            Note::CSharpSharp => 2,
            Note::D => 0,
            Note::DFlat => -1,
            Note::DSharp => 1,
            Note::E => 0,
            Note::EFlat => -1,
            Note::ESharp => 1,
            Note::F => 0,
            Note::FFlat => -1,
            Note::FSharp => 1,
            Note::FSharpSharp => 2,
            Note::G => 0,
            Note::GFlat => -1,
            Note::GSharp => 1,
            Note::GSharpSharp => 2,
            Note::A => 0,
            Note::AFlat => -1,
            Note::ASharp => 1,
            Note::B => 0,
            Note::BFlat => -1,
            Note::BSharp => 1,
        }
    }
}

impl ListOptions for Language {
    fn list_options() -> Vec<&'static str> {
        let all = Language::variants();
        let mut names: Vec<&'static str> = Vec::new();
        let mut i: usize = 0;
        while i < all.len()
            decreases all@.len() - i,
        {
            names.push(all[i].as_str());
            i = i + 1;
        }
        names
    }
}

} // verus!
