use lilypond_midi_input::{spell, LilyAccidental, LilyKeySignature, Note};

fn table(accidentals: LilyAccidental) -> Vec<(LilyKeySignature, [Note; 12])> {
    match accidentals {
        LilyAccidental::Sharps => vec![
            (LilyKeySignature::CFlatMajor, [Note::C, Note::DFlat, Note::D, Note::EFlat, Note::FFlat, Note::F, Note::GFlat, Note::G, Note::AFlat, Note::A, Note::BFlat, Note::CFlat]),
            (LilyKeySignature::GFlatMajor, [Note::C, Note::DFlat, Note::D, Note::EFlat, Note::E, Note::F, Note::GFlat, Note::G, Note::AFlat, Note::A, Note::BFlat, Note::CFlat]),
            (LilyKeySignature::DFlatMajor, [Note::C, Note::DFlat, Note::D, Note::EFlat, Note::E, Note::F, Note::GFlat, Note::G, Note::AFlat, Note::A, Note::BFlat, Note::B]),
            (LilyKeySignature::AFlatMajor, [Note::C, Note::DFlat, Note::D, Note::EFlat, Note::E, Note::F, Note::FSharp, Note::G, Note::AFlat, Note::A, Note::BFlat, Note::B]),
            (LilyKeySignature::EFlatMajor, [Note::C, Note::CSharp, Note::D, Note::EFlat, Note::E, Note::F, Note::FSharp, Note::G, Note::AFlat, Note::A, Note::BFlat, Note::B]),
            (LilyKeySignature::BFlatMajor, [Note::C, Note::CSharp, Note::D, Note::EFlat, Note::E, Note::F, Note::FSharp, Note::G, Note::GSharp, Note::A, Note::BFlat, Note::B]),
            (LilyKeySignature::FMajor, [Note::C, Note::CSharp, Note::D, Note::DSharp, Note::E, Note::F, Note::FSharp, Note::G, Note::GSharp, Note::A, Note::BFlat, Note::B]),
            (LilyKeySignature::CMajor, [Note::C, Note::CSharp, Note::D, Note::DSharp, Note::E, Note::F, Note::FSharp, Note::G, Note::GSharp, Note::A, Note::ASharp, Note::B]),
            (LilyKeySignature::GMajor, [Note::C, Note::CSharp, Note::D, Note::DSharp, Note::E, Note::F, Note::FSharp, Note::G, Note::GSharp, Note::A, Note::ASharp, Note::B]),
            (LilyKeySignature::DMajor, [Note::C, Note::CSharp, Note::D, Note::DSharp, Note::E, Note::F, Note::FSharp, Note::G, Note::GSharp, Note::A, Note::ASharp, Note::B]),
            (LilyKeySignature::AMajor, [Note::C, Note::CSharp, Note::D, Note::DSharp, Note::E, Note::F, Note::FSharp, Note::G, Note::GSharp, Note::A, Note::ASharp, Note::B]),
            (LilyKeySignature::EMajor, [Note::C, Note::CSharp, Note::D, Note::DSharp, Note::E, Note::F, Note::FSharp, Note::G, Note::GSharp, Note::A, Note::ASharp, Note::B]),
            (LilyKeySignature::BMajor, [Note::C, Note::CSharp, Note::D, Note::DSharp, Note::E, Note::F, Note::FSharp, Note::G, Note::GSharp, Note::A, Note::ASharp, Note::B]),
            (LilyKeySignature::FSharpMajor, [Note::C, Note::CSharp, Note::D, Note::DSharp, Note::E, Note::ESharp, Note::FSharp, Note::G, Note::GSharp, Note::A, Note::ASharp, Note::B]),
            (LilyKeySignature::CSharpMajor, [Note::BSharp, Note::CSharp, Note::D, Note::DSharp, Note::E, Note::ESharp, Note::FSharp, Note::G, Note::GSharp, Note::A, Note::ASharp, Note::B]),
            (LilyKeySignature::AFlatMinor, [Note::C, Note::DFlat, Note::D, Note::EFlat, Note::FFlat, Note::F, Note::GFlat, Note::G, Note::AFlat, Note::A, Note::BFlat, Note::CFlat]),
            (LilyKeySignature::EFlatMinor, [Note::C, Note::DFlat, Note::D, Note::EFlat, Note::E, Note::F, Note::GFlat, Note::G, Note::AFlat, Note::A, Note::BFlat, Note::CFlat]),
            (LilyKeySignature::BFlatMinor, [Note::C, Note::DFlat, Note::D, Note::EFlat, Note::E, Note::F, Note::GFlat, Note::G, Note::AFlat, Note::A, Note::BFlat, Note::B]),
            (LilyKeySignature::FMinor, [Note::C, Note::DFlat, Note::D, Note::EFlat, Note::E, Note::F, Note::FSharp, Note::G, Note::AFlat, Note::A, Note::BFlat, Note::B]),
            (LilyKeySignature::CMinor, [Note::C, Note::CSharp, Note::D, Note::EFlat, Note::E, Note::F, Note::FSharp, Note::G, Note::AFlat, Note::A, Note::BFlat, Note::B]),
            (LilyKeySignature::GMinor, [Note::C, Note::CSharp, Note::D, Note::EFlat, Note::E, Note::F, Note::FSharp, Note::G, Note::GSharp, Note::A, Note::BFlat, Note::B]),
            (LilyKeySignature::DMinor, [Note::C, Note::CSharp, Note::D, Note::DSharp, Note::E, Note::F, Note::FSharp, Note::G, Note::GSharp, Note::A, Note::BFlat, Note::B]),
            (LilyKeySignature::AMinor, [Note::C, Note::CSharp, Note::D, Note::DSharp, Note::E, Note::F, Note::FSharp, Note::G, Note::GSharp, Note::A, Note::ASharp, Note::B]),
            (LilyKeySignature::EMinor, [Note::C, Note::CSharp, Note::D, Note::DSharp, Note::E, Note::F, Note::FSharp, Note::G, Note::GSharp, Note::A, Note::ASharp, Note::B]),
            (LilyKeySignature::BMinor, [Note::C, Note::CSharp, Note::D, Note::DSharp, Note::E, Note::F, Note::FSharp, Note::G, Note::GSharp, Note::A, Note::ASharp, Note::B]),
            (LilyKeySignature::FSharpMinor, [Note::C, Note::CSharp, Note::D, Note::DSharp, Note::E, Note::ESharp, Note::FSharp, Note::G, Note::GSharp, Note::A, Note::ASharp, Note::B]),
            (LilyKeySignature::CSharpMinor, [Note::BSharp, Note::CSharp, Note::D, Note::DSharp, Note::E, Note::F, Note::FSharp, Note::G, Note::GSharp, Note::A, Note::ASharp, Note::B]),
            (LilyKeySignature::GSharpMinor, [Note::C, Note::CSharp, Note::D, Note::DSharp, Note::E, Note::F, Note::FSharp, Note::FSharpSharp, Note::GSharp, Note::A, Note::ASharp, Note::B]),
            (LilyKeySignature::DSharpMinor, [Note::C, Note::CSharp, Note::CSharpSharp, Note::DSharp, Note::E, Note::ESharp, Note::FSharp, Note::G, Note::GSharp, Note::A, Note::ASharp, Note::B]),
            (LilyKeySignature::ASharpMinor, [Note::BSharp, Note::CSharp, Note::D, Note::DSharp, Note::E, Note::ESharp, Note::FSharp, Note::G, Note::GSharp, Note::GSharpSharp, Note::ASharp, Note::B]),
        ],
        LilyAccidental::Flats => vec![
            (LilyKeySignature::CFlatMajor, [Note::C, Note::DFlat, Note::D, Note::EFlat, Note::FFlat, Note::F, Note::GFlat, Note::G, Note::AFlat, Note::A, Note::BFlat, Note::CFlat]),
            (LilyKeySignature::GFlatMajor, [Note::C, Note::DFlat, Note::D, Note::EFlat, Note::E, Note::F, Note::GFlat, Note::G, Note::AFlat, Note::A, Note::BFlat, Note::CFlat]),
            (LilyKeySignature::DFlatMajor, [Note::C, Note::DFlat, Note::D, Note::EFlat, Note::E, Note::F, Note::GFlat, Note::G, Note::AFlat, Note::A, Note::BFlat, Note::B]),
            (LilyKeySignature::AFlatMajor, [Note::C, Note::DFlat, Note::D, Note::EFlat, Note::E, Note::F, Note::GFlat, Note::G, Note::AFlat, Note::A, Note::BFlat, Note::B]),
            (LilyKeySignature::EFlatMajor, [Note::C, Note::DFlat, Note::D, Note::EFlat, Note::E, Note::F, Note::GFlat, Note::G, Note::AFlat, Note::A, Note::BFlat, Note::B]),
            (LilyKeySignature::BFlatMajor, [Note::C, Note::DFlat, Note::D, Note::EFlat, Note::E, Note::F, Note::GFlat, Note::G, Note::AFlat, Note::A, Note::BFlat, Note::B]),
            (LilyKeySignature::FMajor, [Note::C, Note::DFlat, Note::D, Note::EFlat, Note::E, Note::F, Note::GFlat, Note::G, Note::AFlat, Note::A, Note::BFlat, Note::B]),
            (LilyKeySignature::CMajor, [Note::C, Note::DFlat, Note::D, Note::EFlat, Note::E, Note::F, Note::GFlat, Note::G, Note::AFlat, Note::A, Note::BFlat, Note::B]),
            (LilyKeySignature::GMajor, [Note::C, Note::DFlat, Note::D, Note::EFlat, Note::E, Note::F, Note::FSharp, Note::G, Note::AFlat, Note::A, Note::BFlat, Note::B]),
            (LilyKeySignature::DMajor, [Note::C, Note::CSharp, Note::D, Note::EFlat, Note::E, Note::F, Note::FSharp, Note::G, Note::AFlat, Note::A, Note::BFlat, Note::B]),
            (LilyKeySignature::AMajor, [Note::C, Note::CSharp, Note::D, Note::EFlat, Note::E, Note::F, Note::FSharp, Note::G, Note::GSharp, Note::A, Note::BFlat, Note::B]),
            (LilyKeySignature::EMajor, [Note::C, Note::CSharp, Note::D, Note::DSharp, Note::E, Note::F, Note::FSharp, Note::G, Note::GSharp, Note::A, Note::BFlat, Note::B]),
            (LilyKeySignature::BMajor, [Note::C, Note::CSharp, Note::D, Note::DSharp, Note::E, Note::F, Note::FSharp, Note::G, Note::GSharp, Note::A, Note::ASharp, Note::B]),
            (LilyKeySignature::FSharpMajor, [Note::C, Note::CSharp, Note::D, Note::DSharp, Note::E, Note::ESharp, Note::FSharp, Note::G, Note::GSharp, Note::A, Note::ASharp, Note::B]),
            (LilyKeySignature::CSharpMajor, [Note::BSharp, Note::CSharp, Note::D, Note::DSharp, Note::E, Note::ESharp, Note::FSharp, Note::G, Note::GSharp, Note::A, Note::ASharp, Note::B]),
            (LilyKeySignature::AFlatMinor, [Note::C, Note::DFlat, Note::D, Note::EFlat, Note::FFlat, Note::F, Note::GFlat, Note::G, Note::AFlat, Note::A, Note::BFlat, Note::CFlat]),
            (LilyKeySignature::EFlatMinor, [Note::C, Note::DFlat, Note::D, Note::EFlat, Note::E, Note::F, Note::GFlat, Note::G, Note::AFlat, Note::A, Note::BFlat, Note::CFlat]),
            (LilyKeySignature::BFlatMinor, [Note::C, Note::DFlat, Note::D, Note::EFlat, Note::E, Note::F, Note::GFlat, Note::G, Note::AFlat, Note::A, Note::BFlat, Note::B]),
            (LilyKeySignature::FMinor, [Note::C, Note::DFlat, Note::D, Note::EFlat, Note::E, Note::F, Note::GFlat, Note::G, Note::AFlat, Note::A, Note::BFlat, Note::B]),
            (LilyKeySignature::CMinor, [Note::C, Note::DFlat, Note::D, Note::EFlat, Note::E, Note::F, Note::GFlat, Note::G, Note::AFlat, Note::A, Note::BFlat, Note::B]),
            (LilyKeySignature::GMinor, [Note::C, Note::DFlat, Note::D, Note::EFlat, Note::E, Note::F, Note::FSharp, Note::G, Note::AFlat, Note::A, Note::BFlat, Note::B]),
            (LilyKeySignature::DMinor, [Note::C, Note::CSharp, Note::D, Note::EFlat, Note::E, Note::F, Note::GFlat, Note::G, Note::AFlat, Note::A, Note::BFlat, Note::B]),
            (LilyKeySignature::AMinor, [Note::C, Note::DFlat, Note::D, Note::EFlat, Note::E, Note::F, Note::GFlat, Note::G, Note::GSharp, Note::A, Note::BFlat, Note::B]),
            (LilyKeySignature::EMinor, [Note::C, Note::DFlat, Note::D, Note::DSharp, Note::E, Note::F, Note::FSharp, Note::G, Note::AFlat, Note::A, Note::BFlat, Note::B]),
            (LilyKeySignature::BMinor, [Note::C, Note::CSharp, Note::D, Note::EFlat, Note::E, Note::F, Note::FSharp, Note::G, Note::AFlat, Note::A, Note::ASharp, Note::B]),
            (LilyKeySignature::FSharpMinor, [Note::C, Note::CSharp, Note::D, Note::EFlat, Note::E, Note::ESharp, Note::FSharp, Note::G, Note::GSharp, Note::A, Note::BFlat, Note::B]),
            (LilyKeySignature::CSharpMinor, [Note::BSharp, Note::CSharp, Note::D, Note::DSharp, Note::E, Note::F, Note::FSharp, Note::G, Note::GSharp, Note::A, Note::BFlat, Note::B]),
            (LilyKeySignature::GSharpMinor, [Note::C, Note::CSharp, Note::D, Note::DSharp, Note::E, Note::F, Note::FSharp, Note::FSharpSharp, Note::GSharp, Note::A, Note::ASharp, Note::B]),
            (LilyKeySignature::DSharpMinor, [Note::C, Note::CSharp, Note::CSharpSharp, Note::DSharp, Note::E, Note::ESharp, Note::FSharp, Note::G, Note::GSharp, Note::A, Note::ASharp, Note::B]),
            (LilyKeySignature::ASharpMinor, [Note::BSharp, Note::CSharp, Note::D, Note::DSharp, Note::E, Note::ESharp, Note::FSharp, Note::G, Note::GSharp, Note::GSharpSharp, Note::ASharp, Note::B]),
        ],
    }
}

#[test]
fn spelling_golden_table() {
    for accidentals in [LilyAccidental::Sharps, LilyAccidental::Flats] {
        let rows = table(accidentals);
        assert_eq!(rows.len(), 30);
        for (key, row) in rows {
            for pc in 0..12u8 {
                assert_eq!(spell(key, pc, accidentals), row[pc as usize], "{:?} {}", key, pc);
            }
        }
    }
}
