//! The pitch spelling table: which note name a pitch class takes in a key.
use vstd::prelude::*;

use crate::accidentals::LilyAccidental;
use crate::keysignature::{key_fifths, key_is_minor, LilyKeySignature};
use crate::language::Note;

verus! {

/// The spelling of pitch class `pc` (0 to 11) in `key`, with `pref` deciding
/// between a sharp and a flat where the key has no spelling of its own.
///
/// Each row lists the keys that spell the pitch class otherwise than the
/// default of the row.
pub open spec fn spelling(key: LilyKeySignature, pc: int, pref: LilyAccidental) -> Note {
    if pc == 0 {
        if key is CSharpMajor || key is ASharpMinor || key is CSharpMinor {
            Note::BSharp
        } else {
            Note::C
        }
    } else if pc == 1 {
        if key is AFlatMajor || key is FMinor || key is DFlatMajor || key is BFlatMinor || key is GFlatMajor || key is EFlatMinor || key is CFlatMajor || key is AFlatMinor {
            Note::DFlat
        } else if key is DMajor || key is BMinor || key is AMajor || key is FSharpMinor || key is EMajor || key is CSharpMinor || key is BMajor || key is GSharpMinor || key is FSharpMajor || key is DSharpMinor || key is CSharpMajor || key is ASharpMinor || key is DMinor {
            Note::CSharp
        } else {
            match pref {
                LilyAccidental::Sharps => Note::CSharp,
                LilyAccidental::Flats => Note::DFlat,
            }
        }
    } else if pc == 2 {
        if key is DSharpMinor {
            Note::CSharpSharp
        } else {
            Note::D
        }
    } else if pc == 3 {
        if key is BFlatMajor || key is GMinor || key is EFlatMajor || key is CMinor || key is AFlatMajor || key is FMinor || key is DFlatMajor || key is BFlatMinor || key is GFlatMajor || key is EFlatMinor || key is CFlatMajor || key is AFlatMinor {
            Note::EFlat
        } else if key is EMajor || key is CSharpMinor || key is BMajor || key is GSharpMinor || key is FSharpMajor || key is DSharpMinor || key is CSharpMajor || key is ASharpMinor || key is EMinor {
            Note::DSharp
        } else {
            match pref {
                LilyAccidental::Sharps => Note::DSharp,
                LilyAccidental::Flats => Note::EFlat,
            }
        }
    } else if pc == 4 {
        if key is CFlatMajor || key is AFlatMinor {
            Note::FFlat
        } else {
            Note::E
        }
    } else if pc == 5 {
        if key is FSharpMajor || key is DSharpMinor || key is CSharpMajor || key is ASharpMinor || key is FSharpMinor {
            Note::ESharp
        } else {
            Note::F
        }
    } else if pc == 6 {
        if key is DFlatMajor || key is BFlatMinor || key is GFlatMajor || key is EFlatMinor || key is CFlatMajor || key is AFlatMinor {
            Note::GFlat
        } else if key is GMajor || key is EMinor || key is DMajor || key is BMinor || key is AMajor || key is FSharpMinor || key is EMajor || key is CSharpMinor || key is BMajor || key is GSharpMinor || key is FSharpMajor || key is DSharpMinor || key is CSharpMajor || key is ASharpMinor || key is GMinor {
            Note::FSharp
        } else {
            match pref {
                LilyAccidental::Sharps => Note::FSharp,
                LilyAccidental::Flats => Note::GFlat,
            }
        }
    } else if pc == 7 {
        if key is GSharpMinor {
            Note::FSharpSharp
        } else {
            Note::G
        }
    } else if pc == 8 {
        if key is EFlatMajor || key is CMinor || key is AFlatMajor || key is FMinor || key is DFlatMajor || key is BFlatMinor || key is GFlatMajor || key is EFlatMinor || key is CFlatMajor || key is AFlatMinor {
            Note::AFlat
        } else if key is AMajor || key is FSharpMinor || key is EMajor || key is CSharpMinor || key is BMajor || key is GSharpMinor || key is FSharpMajor || key is DSharpMinor || key is CSharpMajor || key is ASharpMinor || key is AMinor {
            Note::GSharp
        } else {
            match pref {
                LilyAccidental::Sharps => Note::GSharp,
                LilyAccidental::Flats => Note::AFlat,
            }
        }
    } else if pc == 9 {
        if key is ASharpMinor {
            Note::GSharpSharp
        } else {
            Note::A
        }
    } else if pc == 10 {
        if key is FMajor || key is DMinor || key is BFlatMajor || key is GMinor || key is EFlatMajor || key is CMinor || key is AFlatMajor || key is FMinor || key is DFlatMajor || key is BFlatMinor || key is GFlatMajor || key is EFlatMinor || key is CFlatMajor || key is AFlatMinor {
            Note::BFlat
        } else if key is BMajor || key is GSharpMinor || key is FSharpMajor || key is DSharpMinor || key is CSharpMajor || key is ASharpMinor || key is BMinor {
            Note::ASharp
        } else {
            match pref {
                LilyAccidental::Sharps => Note::ASharp,
                LilyAccidental::Flats => Note::BFlat,
            }
        }
    } else {
        if key is GFlatMajor || key is EFlatMinor || key is CFlatMajor || key is AFlatMinor {
            Note::CFlat
        } else {
            Note::B
        }
    }
}

/// The note at position `q` on the line of fifths, counted from C (F is -1,
/// G is 1, F sharp is 6, B flat is -2).
pub open spec fn note_at_fifth(q: int) -> Note {
    if q == -8 {
        Note::FFlat
    } else if q == -7 {
        Note::CFlat
    } else if q == -6 {
        Note::GFlat
    } else if q == -5 {
        Note::DFlat
    } else if q == -4 {
        Note::AFlat
    } else if q == -3 {
        Note::EFlat
    } else if q == -2 {
        Note::BFlat
    } else if q == -1 {
        Note::F
    } else if q == 0 {
        Note::C
    } else if q == 1 {
        Note::G
    } else if q == 2 {
        Note::D
    } else if q == 3 {
        Note::A
    } else if q == 4 {
        Note::E
    } else if q == 5 {
        Note::B
    } else if q == 6 {
        Note::FSharp
    } else if q == 7 {
        Note::CSharp
    } else if q == 8 {
        Note::GSharp
    } else if q == 9 {
        Note::DSharp
    } else if q == 10 {
        Note::ASharp
    } else if q == 11 {
        Note::ESharp
    } else if q == 12 {
        Note::BSharp
    } else if q == 13 {
        Note::FSharpSharp
    } else if q == 14 {
        Note::CSharpSharp
    } else {
        Note::GSharpSharp
    }
}

/// Whether the note at position `q` on the line of fifths belongs to the key
/// with `fifths` sharps (negative: flats): the seven notes of its signature,
/// and for a minor key its raised leading note.
pub open spec fn in_key(fifths: int, minor: bool, q: int) -> bool {
    (fifths - 1 <= q <= fifths + 5) || (minor && q == fifths + 8)
}

fn note_at_fifth_exec(q: i8) -> (r: Note)
    requires
        -8 <= q <= 15,
    ensures
        r == note_at_fifth(q as int),
{
    if q == -8 {
        Note::FFlat
    } else if q == -7 {
        Note::CFlat
    } else if q == -6 {
        Note::GFlat
    } else if q == -5 {
        Note::DFlat
    } else if q == -4 {
        Note::AFlat
    } else if q == -3 {
        Note::EFlat
    } else if q == -2 {
        Note::BFlat
    } else if q == -1 {
        Note::F
    } else if q == 0 {
        Note::C
    } else if q == 1 {
        Note::G
    } else if q == 2 {
        Note::D
    } else if q == 3 {
        Note::A
    } else if q == 4 {
        Note::E
    } else if q == 5 {
        Note::B
    } else if q == 6 {
        Note::FSharp
    } else if q == 7 {
        Note::CSharp
    } else if q == 8 {
        Note::GSharp
    } else if q == 9 {
        Note::DSharp
    } else if q == 10 {
        Note::ASharp
    } else if q == 11 {
        Note::ESharp
    } else if q == 12 {
        Note::BSharp
    } else if q == 13 {
        Note::FSharpSharp
    } else if q == 14 {
        Note::CSharpSharp
    } else {
        Note::GSharpSharp
    }
}

/// Spells pitch class `pitch_class` in `key`.
///
/// The note is the one of the key that has this pitch class, if there is one
/// on the line of fifths; otherwise the natural note where the pitch class is
/// a natural, or else the sharp or the flat that `accidentals` prefers.
pub fn spell(key: LilyKeySignature, pitch_class: u8, accidentals: LilyAccidental) -> (r: Note)
    requires
        pitch_class < 12,
    ensures
        r == spelling(key, pitch_class as int, accidentals),
{
    let fifths = key.fifths();
    let minor = key.is_minor();
    // the position of the sharp-side or natural spelling, between 0 and 11
    let q0: i8 = ((7 * pitch_class as u16) % 12) as i8;
    let low: i8 = fifths - 1;
    let high: i8 = fifths + 5;
    let q: i8 = if (low <= q0 - 12 && q0 - 12 <= high) || (minor && q0 - 12 == fifths + 8) {
        q0 - 12
    } else if (low <= q0 && q0 <= high) || (minor && q0 == fifths + 8) {
        q0
    } else if (low <= q0 + 12 && q0 + 12 <= high) || (minor && q0 + 12 == fifths + 8) {
        q0 + 12
    } else if q0 <= 5 {
        q0
    } else if q0 == 11 {
        -1
    } else {
        match accidentals {
            LilyAccidental::Sharps => q0,
            LilyAccidental::Flats => q0 - 12,
        }
    };
    proof {
        assert(key_fifths(key) == fifths && key_is_minor(key) == minor);
    }
    note_at_fifth_exec(q)
}

} // verus!
