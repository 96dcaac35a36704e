use std::collections::HashMap;

use lilypond_midi_input::{
    InputMode, Language, LilyAccidental, LilyKeySignature, LilyParameters, LilyParametersError,
    LilypondNoteError, OctaveEntry,
};

fn params() -> LilyParameters {
    LilyParameters::new(
        LilyKeySignature::CMajor,
        LilyAccidental::Sharps,
        InputMode::Single,
        Language::Nederlands,
        OctaveEntry::Absolute,
        false,
        false,
        HashMap::new(),
        HashMap::new(),
    )
    .unwrap()
}

#[test]
fn new_rejects_alteration_outside_octave() {
    let mut alterations = HashMap::new();
    alterations.insert(3u8, String::from("x"));
    alterations.insert(12u8, String::from("y"));
    let r = LilyParameters::new(
        LilyKeySignature::CMajor,
        LilyAccidental::Sharps,
        InputMode::Single,
        Language::Nederlands,
        OctaveEntry::Absolute,
        false,
        false,
        alterations,
        HashMap::new(),
    );
    assert!(matches!(r, Err(LilyParametersError::NoteError(LilypondNoteError::OutsideOctave(12)))));
}

#[test]
fn add_alteration_outside_octave_fails() {
    let mut p = params();
    p.add_alteration(5, String::from("x")).unwrap();
    let r = p.add_alteration(12, String::from("y"));
    assert!(matches!(r, Err(LilypondNoteError::OutsideOctave(12))));
    assert_eq!(p.alterations().len(), 1);
    assert_eq!(p.alterations().get(&5), Some(&String::from("x")));
    assert_eq!(p.alterations().get(&12), None);
}

#[test]
fn set_alterations_checks_every_key() {
    let mut p = params();
    let mut good = HashMap::new();
    good.insert(0u8, String::from("a"));
    good.insert(11u8, String::from("b"));
    p.set_alterations(good).unwrap();
    assert_eq!(p.alterations().len(), 2);
    let mut bad = HashMap::new();
    bad.insert(200u8, String::from("c"));
    assert!(matches!(p.set_alterations(bad), Err(LilypondNoteError::OutsideOctave(200))));
    assert_eq!(p.alterations().len(), 2);
    p.clear_alterations();
    assert!(p.alterations().is_empty());
}

#[test]
fn verify_alteration_bounds() {
    assert!(LilyParameters::verify_alteration(&0).is_ok());
    assert!(LilyParameters::verify_alteration(&11).is_ok());
    assert!(matches!(LilyParameters::verify_alteration(&12), Err(LilypondNoteError::OutsideOctave(12))));
}

#[test]
fn global_alterations_take_any_note() {
    let mut p = params();
    p.add_global_alteration(100, String::from("z"));
    assert_eq!(p.global_alterations().get(&100), Some(&String::from("z")));
    p.clear_global_alterations();
    assert!(p.global_alterations().is_empty());
}

#[test]
fn previous_chord_from_text() {
    let mut p = params();
    p.set_previous_chord_lilypond_str(vec![String::from("e'"), String::from("c'"), String::from("e'")])
        .unwrap();
    assert_eq!(p.previous_chord(), Some(&vec![60, 64]));
    let r = p.set_previous_chord_lilypond_str(vec![String::from("d"), String::from("x")]);
    match r {
        Err(LilypondNoteError::InvalidNoteString(s)) => assert_eq!(s, "x"),
        _ => panic!("expected an invalid note"),
    }
    assert_eq!(p.previous_chord(), Some(&vec![60, 64]));
    assert_eq!(p.take_previous_chord(), Some(vec![60, 64]));
    assert_eq!(p.previous_chord(), None);
}

#[test]
fn previous_note_from_text() {
    let mut p = params();
    p.set_previous_absolute_note_reference_lilypond_str(String::from("a'")).unwrap();
    assert_eq!(p.previous_absolute_note_reference(), Some(&69));
    assert!(p.set_previous_absolute_note_reference_lilypond_str(String::from("q")).is_err());
    assert_eq!(p.previous_absolute_note_reference(), Some(&69));
    p.set_previous_absolute_note_reference(None);
    assert_eq!(p.previous_absolute_note_reference(), None);
}

#[test]
fn setters_and_getters() {
    let mut p = params();
    p.set_key(LilyKeySignature::DMajor);
    p.set_accidentals(LilyAccidental::Flats);
    p.set_mode(InputMode::PedalChord);
    p.set_language(Language::Catalan);
    p.set_octave_entry(OctaveEntry::Relative);
    p.set_octave_check_notes(true);
    assert_eq!(*p.key(), LilyKeySignature::DMajor);
    assert_eq!(*p.accidentals(), LilyAccidental::Flats);
    assert_eq!(*p.mode(), InputMode::PedalChord);
    assert_eq!(*p.language(), Language::Catalan);
    assert_eq!(*p.octave_entry(), OctaveEntry::Relative);
    assert!(*p.octave_check_notes());
    assert!(!*p.octave_check_on_next_note());
}
