//! The thirty key signatures: fifteen major keys and fifteen minor keys,
//! from seven flats to seven sharps.
use vstd::prelude::*;

use crate::ListOptions;

use crate::errors::LilypondNoteError;
use crate::text::text_eq;

verus! {

/// A musical key signature.
#[derive(Debug, Clone, Copy, PartialEq, Eq, Structural)]
pub enum LilyKeySignature {
    CFlatMajor,
    GFlatMajor,
    DFlatMajor,
    AFlatMajor,
    EFlatMajor,
    BFlatMajor,
    FMajor,
    CMajor,
    GMajor,
    DMajor,
    AMajor,
    EMajor,
    BMajor,
    FSharpMajor,
    CSharpMajor,
    AFlatMinor,
    EFlatMinor,
    BFlatMinor,
    FMinor,
    CMinor,
    GMinor,
    DMinor,
    AMinor,
    EMinor,
    BMinor,
    FSharpMinor,
    CSharpMinor,
    GSharpMinor,
    DSharpMinor,
    ASharpMinor,
}

/// The canonical name of a key signature.
pub open spec fn key_name(k: LilyKeySignature) -> Seq<char> {
    match k {
        LilyKeySignature::CFlatMajor => "cesM"@,
        LilyKeySignature::GFlatMajor => "gesM"@,
        LilyKeySignature::DFlatMajor => "desM"@,
        LilyKeySignature::AFlatMajor => "aesM"@,
        LilyKeySignature::EFlatMajor => "eesM"@,
        LilyKeySignature::BFlatMajor => "besM"@,
        LilyKeySignature::FMajor => "fM"@,
        LilyKeySignature::CMajor => "cM"@,
        LilyKeySignature::GMajor => "gM"@,
        LilyKeySignature::DMajor => "dM"@,
        LilyKeySignature::AMajor => "aM"@,
        LilyKeySignature::EMajor => "eM"@,
        LilyKeySignature::BMajor => "bM"@,
        LilyKeySignature::FSharpMajor => "fisM"@,
        LilyKeySignature::CSharpMajor => "cisM"@,
        LilyKeySignature::AFlatMinor => "dm"@,
        LilyKeySignature::EFlatMinor => "gm"@,
        LilyKeySignature::BFlatMinor => "cm"@,
        LilyKeySignature::FMinor => "fm"@,
        LilyKeySignature::CMinor => "besm"@,
        LilyKeySignature::GMinor => "eesm"@,
        LilyKeySignature::DMinor => "aesm"@,
        LilyKeySignature::AMinor => "am"@,
        LilyKeySignature::EMinor => "em"@,
        LilyKeySignature::BMinor => "bm"@,
        LilyKeySignature::FSharpMinor => "fism"@,
        LilyKeySignature::CSharpMinor => "cism"@,
        LilyKeySignature::GSharpMinor => "gism"@,
        LilyKeySignature::DSharpMinor => "dism"@,
        LilyKeySignature::ASharpMinor => "aism"@,
    }
}

/// The key signature that a text names: its canonical name or its variant name.
pub open spec fn key_from_text(t: Seq<char>) -> Option<LilyKeySignature> {
    if t == "cesM"@ || t == "CFlatMajor"@ {
        Some(LilyKeySignature::CFlatMajor)
    } else if t == "gesM"@ || t == "GFlatMajor"@ {
        Some(LilyKeySignature::GFlatMajor)
    } else if t == "desM"@ || t == "DFlatMajor"@ {
        Some(LilyKeySignature::DFlatMajor)
    } else if t == "aesM"@ || t == "AFlatMajor"@ {
        Some(LilyKeySignature::AFlatMajor)
    } else if t == "eesM"@ || t == "EFlatMajor"@ {
        Some(LilyKeySignature::EFlatMajor)
    } else if t == "besM"@ || t == "BFlatMajor"@ {
        Some(LilyKeySignature::BFlatMajor)
    } else if t == "fM"@ || t == "FMajor"@ {
        Some(LilyKeySignature::FMajor)
    } else if t == "cM"@ || t == "CMajor"@ {
        Some(LilyKeySignature::CMajor)
    } else if t == "gM"@ || t == "GMajor"@ {
        Some(LilyKeySignature::GMajor)
    } else if t == "dM"@ || t == "DMajor"@ {
        Some(LilyKeySignature::DMajor)
    } else if t == "aM"@ || t == "AMajor"@ {
        Some(LilyKeySignature::AMajor)
    } else if t == "eM"@ || t == "EMajor"@ {
        Some(LilyKeySignature::EMajor)
    } else if t == "bM"@ || t == "BMajor"@ {
        Some(LilyKeySignature::BMajor)
    } else if t == "fisM"@ || t == "FSharpMajor"@ {
        Some(LilyKeySignature::FSharpMajor)
    } else if t == "cisM"@ || t == "CSharpMajor"@ {
        Some(LilyKeySignature::CSharpMajor)
    } else if t == "dm"@ || t == "AFlatMinor"@ {
        Some(LilyKeySignature::AFlatMinor)
    } else if t == "gm"@ || t == "EFlatMinor"@ {
        Some(LilyKeySignature::EFlatMinor)
    } else if t == "cm"@ || t == "BFlatMinor"@ {
        Some(LilyKeySignature::BFlatMinor)
    } else if t == "fm"@ || t == "FMinor"@ {
        Some(LilyKeySignature::FMinor)
    } else if t == "besm"@ || t == "CMinor"@ {
        Some(LilyKeySignature::CMinor)
    } else if t == "eesm"@ || t == "GMinor"@ {
        Some(LilyKeySignature::GMinor)
    } else if t == "aesm"@ || t == "DMinor"@ {
        Some(LilyKeySignature::DMinor)
    } else if t == "am"@ || t == "AMinor"@ {
        Some(LilyKeySignature::AMinor)
    } else if t == "em"@ || t == "EMinor"@ {
        Some(LilyKeySignature::EMinor)
    } else if t == "bm"@ || t == "BMinor"@ {
        Some(LilyKeySignature::BMinor)
    } else if t == "fism"@ || t == "FSharpMinor"@ {
        Some(LilyKeySignature::FSharpMinor)
    } else if t == "cism"@ || t == "CSharpMinor"@ {
        Some(LilyKeySignature::CSharpMinor)
    } else if t == "gism"@ || t == "GSharpMinor"@ {
        Some(LilyKeySignature::GSharpMinor)
    } else if t == "dism"@ || t == "DSharpMinor"@ {
        Some(LilyKeySignature::DSharpMinor)
    } else if t == "aism"@ || t == "ASharpMinor"@ {
        Some(LilyKeySignature::ASharpMinor)
    } else {
        None
    }
}

/// Position of the key's tonic signature on the circle of fifths: the number
/// of sharps, or minus the number of flats.
pub open spec fn key_fifths(k: LilyKeySignature) -> int {
    match k {
        LilyKeySignature::CFlatMajor => -7,
        LilyKeySignature::GFlatMajor => -6,
        LilyKeySignature::DFlatMajor => -5,
        LilyKeySignature::AFlatMajor => -4,
        LilyKeySignature::EFlatMajor => -3,
        LilyKeySignature::BFlatMajor => -2,
        LilyKeySignature::FMajor => -1,
        LilyKeySignature::CMajor => 0,
        LilyKeySignature::GMajor => 1,
        LilyKeySignature::DMajor => 2,
        LilyKeySignature::AMajor => 3,
        LilyKeySignature::EMajor => 4,
        LilyKeySignature::BMajor => 5,
        LilyKeySignature::FSharpMajor => 6,
        LilyKeySignature::CSharpMajor => 7,
        LilyKeySignature::AFlatMinor => -7,
        LilyKeySignature::EFlatMinor => -6,
        LilyKeySignature::BFlatMinor => -5,
        LilyKeySignature::FMinor => -4,
        LilyKeySignature::CMinor => -3,
        LilyKeySignature::GMinor => -2,
        LilyKeySignature::DMinor => -1,
        LilyKeySignature::AMinor => 0,
        LilyKeySignature::EMinor => 1,
        LilyKeySignature::BMinor => 2,
        LilyKeySignature::FSharpMinor => 3,
        LilyKeySignature::CSharpMinor => 4,
        LilyKeySignature::GSharpMinor => 5,
        LilyKeySignature::DSharpMinor => 6,
        LilyKeySignature::ASharpMinor => 7,
    }
}

/// Whether the key is a minor key.
pub open spec fn key_is_minor(k: LilyKeySignature) -> bool {
    match k {
        LilyKeySignature::AFlatMinor => true,
        LilyKeySignature::EFlatMinor => true,
        LilyKeySignature::BFlatMinor => true,
        LilyKeySignature::FMinor => true,
        LilyKeySignature::CMinor => true,
        LilyKeySignature::GMinor => true,
        LilyKeySignature::DMinor => true,
        LilyKeySignature::AMinor => true,
        LilyKeySignature::EMinor => true,
        LilyKeySignature::BMinor => true,
        LilyKeySignature::FSharpMinor => true,
        LilyKeySignature::CSharpMinor => true,
        LilyKeySignature::GSharpMinor => true,
        LilyKeySignature::DSharpMinor => true,
        LilyKeySignature::ASharpMinor => true,
        _ => false,
    }
}

impl LilyKeySignature {
    /// Parses a key signature from its canonical name or its variant name.
    pub fn from_str(s: &str) -> (r: Result<LilyKeySignature, LilypondNoteError>)
        ensures
            match key_from_text(s@) {
                Some(k) => r == Ok::<LilyKeySignature, LilypondNoteError>(k),
                None => r matches Err(LilypondNoteError::InvalidKeyString(t)) && t@ == s@,
            },
    {
        if text_eq(s, "cesM") || text_eq(s, "CFlatMajor") {
            Ok(LilyKeySignature::CFlatMajor)
        } else if text_eq(s, "gesM") || text_eq(s, "GFlatMajor") {
            Ok(LilyKeySignature::GFlatMajor)
        } else if text_eq(s, "desM") || text_eq(s, "DFlatMajor") {
            Ok(LilyKeySignature::DFlatMajor)
        } else if text_eq(s, "aesM") || text_eq(s, "AFlatMajor") {
            Ok(LilyKeySignature::AFlatMajor)
        } else if text_eq(s, "eesM") || text_eq(s, "EFlatMajor") {
            Ok(LilyKeySignature::EFlatMajor)
        } else if text_eq(s, "besM") || text_eq(s, "BFlatMajor") {
            Ok(LilyKeySignature::BFlatMajor)
        } else if text_eq(s, "fM") || text_eq(s, "FMajor") {
            Ok(LilyKeySignature::FMajor)
        } else if text_eq(s, "cM") || text_eq(s, "CMajor") {
            Ok(LilyKeySignature::CMajor)
        } else if text_eq(s, "gM") || text_eq(s, "GMajor") {
            Ok(LilyKeySignature::GMajor)
        } else if text_eq(s, "dM") || text_eq(s, "DMajor") {
            Ok(LilyKeySignature::DMajor)
        } else if text_eq(s, "aM") || text_eq(s, "AMajor") {
            Ok(LilyKeySignature::AMajor)
        } else if text_eq(s, "eM") || text_eq(s, "EMajor") {
            Ok(LilyKeySignature::EMajor)
        } else if text_eq(s, "bM") || text_eq(s, "BMajor") {
            Ok(LilyKeySignature::BMajor)
        } else if text_eq(s, "fisM") || text_eq(s, "FSharpMajor") {
            Ok(LilyKeySignature::FSharpMajor)
        } else if text_eq(s, "cisM") || text_eq(s, "CSharpMajor") {
            Ok(LilyKeySignature::CSharpMajor)
        } else if text_eq(s, "dm") || text_eq(s, "AFlatMinor") {
            Ok(LilyKeySignature::AFlatMinor)
        } else if text_eq(s, "gm") || text_eq(s, "EFlatMinor") {
            Ok(LilyKeySignature::EFlatMinor)
        } else if text_eq(s, "cm") || text_eq(s, "BFlatMinor") {
            Ok(LilyKeySignature::BFlatMinor)
        } else if text_eq(s, "fm") || text_eq(s, "FMinor") {
            Ok(LilyKeySignature::FMinor)
        } else if text_eq(s, "besm") || text_eq(s, "CMinor") {
            Ok(LilyKeySignature::CMinor)
        } else if text_eq(s, "eesm") || text_eq(s, "GMinor") {
            Ok(LilyKeySignature::GMinor)
        } else if text_eq(s, "aesm") || text_eq(s, "DMinor") {
            Ok(LilyKeySignature::DMinor)
        } else if text_eq(s, "am") || text_eq(s, "AMinor") {
            Ok(LilyKeySignature::AMinor)
        } else if text_eq(s, "em") || text_eq(s, "EMinor") {
            Ok(LilyKeySignature::EMinor)
        } else if text_eq(s, "bm") || text_eq(s, "BMinor") {
            Ok(LilyKeySignature::BMinor)
        } else if text_eq(s, "fism") || text_eq(s, "FSharpMinor") {
            Ok(LilyKeySignature::FSharpMinor)
        } else if text_eq(s, "cism") || text_eq(s, "CSharpMinor") {
            Ok(LilyKeySignature::CSharpMinor)
        } else if text_eq(s, "gism") || text_eq(s, "GSharpMinor") {
            Ok(LilyKeySignature::GSharpMinor)
        } else if text_eq(s, "dism") || text_eq(s, "DSharpMinor") {
            Ok(LilyKeySignature::DSharpMinor)
        } else if text_eq(s, "aism") || text_eq(s, "ASharpMinor") {
            Ok(LilyKeySignature::ASharpMinor)
        } else {
            Err(LilypondNoteError::InvalidKeyString(s.to_string()))
        }
    }

    /// The canonical name of the key signature.
    pub fn as_str(&self) -> (r: &'static str)
        ensures
            r@ == key_name(*self),
    {
        match self {
            LilyKeySignature::CFlatMajor => "cesM",
            LilyKeySignature::GFlatMajor => "gesM",
            LilyKeySignature::DFlatMajor => "desM",
            LilyKeySignature::AFlatMajor => "aesM",
            LilyKeySignature::EFlatMajor => "eesM",
            LilyKeySignature::BFlatMajor => "besM",
            LilyKeySignature::FMajor => "fM",
            LilyKeySignature::CMajor => "cM",
            LilyKeySignature::GMajor => "gM",
            LilyKeySignature::DMajor => "dM",
            LilyKeySignature::AMajor => "aM",
            LilyKeySignature::EMajor => "eM",
            LilyKeySignature::BMajor => "bM",
            LilyKeySignature::FSharpMajor => "fisM",
            LilyKeySignature::CSharpMajor => "cisM",
            LilyKeySignature::AFlatMinor => "dm",
            LilyKeySignature::EFlatMinor => "gm",
            LilyKeySignature::BFlatMinor => "cm",
            LilyKeySignature::FMinor => "fm",
            LilyKeySignature::CMinor => "besm",
            LilyKeySignature::GMinor => "eesm",
            LilyKeySignature::DMinor => "aesm",
            LilyKeySignature::AMinor => "am",
            LilyKeySignature::EMinor => "em",
            LilyKeySignature::BMinor => "bm",
            LilyKeySignature::FSharpMinor => "fism",
            LilyKeySignature::CSharpMinor => "cism",
            LilyKeySignature::GSharpMinor => "gism",
            LilyKeySignature::DSharpMinor => "dism",
            LilyKeySignature::ASharpMinor => "aism",
        }
    }

    /// Every key signature, from seven flats to seven sharps, majors first.
    pub fn variants() -> (r: Vec<LilyKeySignature>)
        ensures
            r@.len() == 30,
            forall|k: LilyKeySignature| r@.contains(k),
    {
        let r = vec![
            LilyKeySignature::CFlatMajor,
            LilyKeySignature::GFlatMajor,
            LilyKeySignature::DFlatMajor,
            LilyKeySignature::AFlatMajor,
            LilyKeySignature::EFlatMajor,
            LilyKeySignature::BFlatMajor,
            LilyKeySignature::FMajor,
            LilyKeySignature::CMajor,
            LilyKeySignature::GMajor,
            LilyKeySignature::DMajor,
            LilyKeySignature::AMajor,
            LilyKeySignature::EMajor,
            LilyKeySignature::BMajor,
            LilyKeySignature::FSharpMajor,
            LilyKeySignature::CSharpMajor,
            LilyKeySignature::AFlatMinor,
            LilyKeySignature::EFlatMinor,
            LilyKeySignature::BFlatMinor,
            LilyKeySignature::FMinor,
            LilyKeySignature::CMinor,
            LilyKeySignature::GMinor,
            LilyKeySignature::DMinor,
            LilyKeySignature::AMinor,
            LilyKeySignature::EMinor,
            LilyKeySignature::BMinor,
            LilyKeySignature::FSharpMinor,
            LilyKeySignature::CSharpMinor,
            LilyKeySignature::GSharpMinor,
            LilyKeySignature::DSharpMinor,
            LilyKeySignature::ASharpMinor,
        ];
        assert(forall|k: LilyKeySignature| r@.contains(k)) by {
            assert forall|k: LilyKeySignature| r@.contains(k) by {
                match k {
                    LilyKeySignature::CFlatMajor => assert(r@[0] == k),
                    LilyKeySignature::GFlatMajor => assert(r@[1] == k),
                    LilyKeySignature::DFlatMajor => assert(r@[2] == k),
                    LilyKeySignature::AFlatMajor => assert(r@[3] == k),
                    LilyKeySignature::EFlatMajor => assert(r@[4] == k),
                    LilyKeySignature::BFlatMajor => assert(r@[5] == k),
                    LilyKeySignature::FMajor => assert(r@[6] == k),
                    LilyKeySignature::CMajor => assert(r@[7] == k),
                    LilyKeySignature::GMajor => assert(r@[8] == k),
                    LilyKeySignature::DMajor => assert(r@[9] == k),
                    LilyKeySignature::AMajor => assert(r@[10] == k),
                    LilyKeySignature::EMajor => assert(r@[11] == k),
                    LilyKeySignature::BMajor => assert(r@[12] == k),
                    LilyKeySignature::FSharpMajor => assert(r@[13] == k),
                    LilyKeySignature::CSharpMajor => assert(r@[14] == k),
                    LilyKeySignature::AFlatMinor => assert(r@[15] == k),
                    LilyKeySignature::EFlatMinor => assert(r@[16] == k),
                    LilyKeySignature::BFlatMinor => assert(r@[17] == k),
                    LilyKeySignature::FMinor => assert(r@[18] == k),
                    LilyKeySignature::CMinor => assert(r@[19] == k),
                    LilyKeySignature::GMinor => assert(r@[20] == k),
                    LilyKeySignature::DMinor => assert(r@[21] == k),
                    LilyKeySignature::AMinor => assert(r@[22] == k),
                    LilyKeySignature::EMinor => assert(r@[23] == k),
                    LilyKeySignature::BMinor => assert(r@[24] == k),
                    LilyKeySignature::FSharpMinor => assert(r@[25] == k),
                    LilyKeySignature::CSharpMinor => assert(r@[26] == k),
                    LilyKeySignature::GSharpMinor => assert(r@[27] == k),
                    LilyKeySignature::DSharpMinor => assert(r@[28] == k),
                    LilyKeySignature::ASharpMinor => assert(r@[29] == k),
                }
            }
        }
        r
    }

    /// The number of sharps of the key signature, or minus its number of flats.
    pub fn fifths(&self) -> (r: i8)
        ensures
            r == key_fifths(*self),
    {
        match self {
            LilyKeySignature::CFlatMajor => -7,
            LilyKeySignature::GFlatMajor => -6,
            LilyKeySignature::DFlatMajor => -5,
            LilyKeySignature::AFlatMajor => -4,
            LilyKeySignature::EFlatMajor => -3,
            LilyKeySignature::BFlatMajor => -2,
            LilyKeySignature::FMajor => -1,
            LilyKeySignature::CMajor => 0,
            LilyKeySignature::GMajor => 1,
            LilyKeySignature::DMajor => 2,
            LilyKeySignature::AMajor => 3,
            LilyKeySignature::EMajor => 4,
            LilyKeySignature::BMajor => 5,
            LilyKeySignature::FSharpMajor => 6,
            LilyKeySignature::CSharpMajor => 7,
            LilyKeySignature::AFlatMinor => -7,
            LilyKeySignature::EFlatMinor => -6,
            LilyKeySignature::BFlatMinor => -5,
            LilyKeySignature::FMinor => -4,
            LilyKeySignature::CMinor => -3,
            LilyKeySignature::GMinor => -2,
            LilyKeySignature::DMinor => -1,
            LilyKeySignature::AMinor => 0,
            LilyKeySignature::EMinor => 1,
            LilyKeySignature::BMinor => 2,
            LilyKeySignature::FSharpMinor => 3,
            LilyKeySignature::CSharpMinor => 4,
            LilyKeySignature::GSharpMinor => 5,
            LilyKeySignature::DSharpMinor => 6,
            LilyKeySignature::ASharpMinor => 7,
        }
    }

    /// Whether the key is a minor key.
    pub fn is_minor(&self) -> (r: bool)
        ensures
            r == key_is_minor(*self),
    {
        match self {
            LilyKeySignature::CFlatMajor => false,
            LilyKeySignature::GFlatMajor => false,
            LilyKeySignature::DFlatMajor => false,
            LilyKeySignature::AFlatMajor => false,
            LilyKeySignature::EFlatMajor => false,
            LilyKeySignature::BFlatMajor => false,
            LilyKeySignature::FMajor => false,
            LilyKeySignature::CMajor => false,
            LilyKeySignature::GMajor => false,
            LilyKeySignature::DMajor => false,
            LilyKeySignature::AMajor => false,
            LilyKeySignature::EMajor => false,
            LilyKeySignature::BMajor => false,
            LilyKeySignature::FSharpMajor => false,
            LilyKeySignature::CSharpMajor => false,
            LilyKeySignature::AFlatMinor => true,
            LilyKeySignature::EFlatMinor => true,
            LilyKeySignature::BFlatMinor => true,
            LilyKeySignature::FMinor => true,
            LilyKeySignature::CMinor => true,
            LilyKeySignature::GMinor => true,
            LilyKeySignature::DMinor => true,
            LilyKeySignature::AMinor => true,
            LilyKeySignature::EMinor => true,
            LilyKeySignature::BMinor => true,
            LilyKeySignature::FSharpMinor => true,
            LilyKeySignature::CSharpMinor => true,
            LilyKeySignature::GSharpMinor => true,
            LilyKeySignature::DSharpMinor => true,
            LilyKeySignature::ASharpMinor => true,
        }
    }
}

impl ListOptions for LilyKeySignature {
    fn list_options() -> Vec<&'static str> {
        let all = LilyKeySignature::variants();
        let mut names: Vec<&'static str> = Vec::new();
        let mut i: usize = 0;
        while i < all.len()
            decreases all@.len() - i,
        {
            names.push(all[i].as_str());
            i = i + 1;
        }
        names
    }
}

} // verus!
