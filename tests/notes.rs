use std::collections::HashMap;

use lilypond_midi_input::{
    InputMode, Language, LilyAccidental, LilyKeySignature, LilyNote, LilyParameters,
    LilypondNoteError, OctaveEntry,
};

fn params(key: LilyKeySignature, entry: OctaveEntry) -> LilyParameters {
    LilyParameters::new(
        key,
        LilyAccidental::Sharps,
        InputMode::Single,
        Language::Nederlands,
        entry,
        false,
        false,
        HashMap::new(),
        HashMap::new(),
    )
    .unwrap()
}

fn text(value: u8, p: &LilyParameters) -> String {
    LilyNote::new(value, p).to_text()
}

#[test]
fn absolute_octave_marks() {
    let p = params(LilyKeySignature::CMajor, OctaveEntry::Absolute);
    // the octave of a note is note / 12 - 4: middle C is c'
    assert_eq!(text(60, &p), "c'");
    assert_eq!(text(72, &p), "c''");
    assert_eq!(text(48, &p), "c");
    assert_eq!(text(0, &p), "c,,,,");
    assert_eq!(text(127, &p), "g''''''");
}

#[test]
fn relative_octave_within_a_fifth() {
    let mut p = params(LilyKeySignature::CMajor, OctaveEntry::Relative);
    p.set_previous_absolute_note_reference(Some(60));
    assert_eq!(text(65, &p), "f");
    assert_eq!(text(66, &p), "fis");
    assert_eq!(text(55, &p), "g");
    // a fifth (seven semitones) is beyond the reach of six
    assert_eq!(text(67, &p), "g'");
    assert_eq!(text(53, &p), "f,");
}

#[test]
fn relative_octave_beyond_a_fifth() {
    let mut p = params(LilyKeySignature::CMajor, OctaveEntry::Relative);
    p.set_previous_absolute_note_reference(Some(60));
    assert_eq!(text(79, &p), "g''");
    assert_eq!(text(91, &p), "g'''");
    assert_eq!(text(48, &p), "c,");
    assert_eq!(text(36, &p), "c,,");
    assert_eq!(text(42, &p), "fis,,");
    assert_eq!(text(41, &p), "f,,");
}

#[test]
fn relative_octave_rounds_down_below() {
    let mut p = params(LilyKeySignature::CMajor, OctaveEntry::Relative);
    p.set_previous_absolute_note_reference(Some(59));
    assert_eq!(text(41, &p), "f,");
    assert_eq!(text(40, &p), "e,,");
}

#[test]
fn relative_tritone_from_b_up_to_f() {
    let mut p = params(LilyKeySignature::CMajor, OctaveEntry::Relative);
    p.set_previous_absolute_note_reference(Some(59));
    // B up to F sharp counts as B up to F: a reach of five, so one mark up
    assert_eq!(text(66, &p), "fis'");
    assert_eq!(text(65, &p), "f'");
    assert_eq!(text(64, &p), "e");
}

#[test]
fn relative_tritone_from_f_to_b_reaches_six() {
    let mut p = params(LilyKeySignature::CMajor, OctaveEntry::Relative);
    p.set_previous_absolute_note_reference(Some(65));
    assert_eq!(text(71, &p), "b");
    p.set_previous_absolute_note_reference(Some(71));
    assert_eq!(text(65, &p), "f");
}

#[test]
fn relative_counts_without_accidentals() {
    // B sharp is spelled for C in C sharp major and counts as a B
    let mut p = params(LilyKeySignature::CSharpMajor, OctaveEntry::Relative);
    p.set_previous_absolute_note_reference(Some(60));
    assert_eq!(text(66, &p), "fis'");
}

#[test]
fn relative_first_note_is_checked() {
    let p = params(LilyKeySignature::CMajor, OctaveEntry::Relative);
    assert_eq!(text(60, &p), "c='");
    assert_eq!(text(72, &p), "c=''");
    assert_eq!(text(47, &p), "b=,");
    assert_eq!(text(48, &p), "c=");
}

#[test]
fn octave_checks_on_request() {
    let mut p = params(LilyKeySignature::CMajor, OctaveEntry::Absolute);
    p.set_octave_check_on_next_note(true);
    assert_eq!(text(72, &p), "c''=''");
    p.set_octave_check_on_next_note(false);
    p.set_octave_check_notes(true);
    assert_eq!(text(48, &p), "c=");
    assert_eq!(text(36, &p), "c,=,");
}

#[test]
fn global_alteration_masks_local_alteration() {
    let mut p = params(LilyKeySignature::CMajor, OctaveEntry::Absolute);
    p.add_alteration(0, String::from("loc")).unwrap();
    p.add_global_alteration(60, String::from("glob"));
    assert_eq!(text(60, &p), "glob");
    assert_eq!(text(72, &p), "loc''");
    assert_eq!(text(61, &p), "cis'");
}

#[test]
fn local_alteration_masks_spelling() {
    let mut p = params(LilyKeySignature::CMajor, OctaveEntry::Absolute);
    p.add_alteration(1, String::from("des")).unwrap();
    assert_eq!(text(61, &p), "des'");
    assert_eq!(text(49, &p), "des");
}

#[test]
fn global_alteration_in_relative_entry_is_checked() {
    let mut p = params(LilyKeySignature::CMajor, OctaveEntry::Relative);
    p.set_previous_absolute_note_reference(Some(60));
    p.add_global_alteration(72, String::from("x"));
    assert_eq!(text(72, &p), "x=''");
}

#[test]
fn ottavation_suffix_moves_octave() {
    let mut p = params(LilyKeySignature::CMajor, OctaveEntry::Absolute);
    p.add_alteration(0, String::from("foo+")).unwrap();
    // one octave above the computed base
    assert_eq!(text(60, &p), "foo''");
    assert_eq!(text(72, &p), "foo'''");
    p.add_alteration(2, String::from("bar--")).unwrap();
    assert_eq!(text(62, &p), "bar,");
    p.add_alteration(4, String::from("m+-")).unwrap();
    assert_eq!(text(64, &p), "m+");
    p.add_alteration(5, String::from("+++")).unwrap();
    assert_eq!(text(53, &p), "'''");
}

#[test]
fn ottavation_suffix_moves_check_in_relative_entry() {
    let mut p = params(LilyKeySignature::CMajor, OctaveEntry::Relative);
    p.set_previous_absolute_note_reference(Some(60));
    p.add_alteration(0, String::from("foo+")).unwrap();
    assert_eq!(text(60, &p), "foo=''");
}

#[test]
fn catalan_names() {
    let mut p = params(LilyKeySignature::CMajor, OctaveEntry::Absolute);
    p.set_language(Language::Catalan);
    assert_eq!(text(61, &p), "dod'");
    assert_eq!(text(72, &p), "do''");
}

#[test]
fn flats_preference_outside_the_key() {
    let mut p = params(LilyKeySignature::CMajor, OctaveEntry::Absolute);
    p.set_accidentals(LilyAccidental::Flats);
    assert_eq!(text(61, &p), "des'");
    assert_eq!(text(70, &p), "bes'");
}

#[test]
fn render_removes_accidental() {
    let p = params(LilyKeySignature::CSharpMajor, OctaveEntry::Absolute);
    let r = LilyNote::render(60, &p);
    assert_eq!(r.note_name(), "bis");
    assert_eq!(r.note_no_accidental(), 59);
    let q = params(LilyKeySignature::GFlatMajor, OctaveEntry::Absolute);
    let r = LilyNote::render(59, &q);
    assert_eq!(r.note_name(), "ces");
    assert_eq!(r.note_no_accidental(), 60);
}

#[test]
fn parse_note_text() {
    let n = LilyNote::from_lilypond_str("c'").unwrap();
    assert_eq!(*n.note(), 60);
    assert_eq!(n.to_text(), "c'");
    assert_eq!(*LilyNote::from_lilypond_str("bis").unwrap().note(), 48);
    assert_eq!(*LilyNote::from_lilypond_str("ces,").unwrap().note(), 47);
    assert_eq!(*LilyNote::from_lilypond_str("fisis''").unwrap().note(), 79);
    assert_eq!(*LilyNote::from_lilypond_str("ceses").unwrap().note(), 58);
    assert_eq!(*LilyNote::from_lilypond_str("bisis,").unwrap().note(), 37);
    assert_eq!(*LilyNote::from_lilypond_str("g").unwrap().note(), 55);
}

#[test]
fn parse_note_text_errors() {
    for bad in ["", "h", "cs", "c'x", "c',", "cisisis", "c''''''''"] {
        match LilyNote::from_lilypond_str(bad) {
            Err(LilypondNoteError::InvalidNoteString(s)) => assert_eq!(s, bad),
            _ => panic!("{} should not parse", bad),
        }
    }
}

#[test]
fn spelled_text_round_trip() {
    let keys = LilyKeySignature::variants();
    for key in keys {
        for accidentals in [LilyAccidental::Sharps, LilyAccidental::Flats] {
            let mut p = params(key, OctaveEntry::Absolute);
            p.set_accidentals(accidentals);
            for value in 0..128u8 {
                let t = text(value, &p);
                let back = LilyNote::from_lilypond_str(&t).unwrap();
                assert_eq!(*back.note(), value, "{:?} {}", key, t);
            }
        }
    }
}
