use lilypond_midi_input::{
    key_value_pairs, parse_subkeys, InputMode, InputModeError, Language, LilyAccidental,
    LilyKeySignature, LilypondAccidentalError, LilypondLanguageError, LilypondNoteError,
    ListOptions, OctaveEntry, OctaveEntryError,
};

#[test]
fn key_signature_names() {
    assert_eq!(LilyKeySignature::from_str("gM").unwrap(), LilyKeySignature::GMajor);
    assert_eq!(LilyKeySignature::from_str("FSharpMinor").unwrap(), LilyKeySignature::FSharpMinor);
    assert_eq!(LilyKeySignature::from_str("dm").unwrap(), LilyKeySignature::AFlatMinor);
    match LilyKeySignature::from_str("xM") {
        Err(LilypondNoteError::InvalidKeyString(s)) => assert_eq!(s, "xM"),
        _ => panic!("expected an invalid key"),
    }
    assert_eq!(LilyKeySignature::CSharpMajor.as_str(), "cisM");
    assert_eq!(LilyKeySignature::variants().len(), 30);
    assert_eq!(LilyKeySignature::list_options().len(), 30);
    assert_eq!(LilyKeySignature::GMajor.fifths(), 1);
    assert!(LilyKeySignature::EMinor.is_minor());
}

#[test]
fn small_setting_names() {
    assert_eq!(LilyAccidental::from_str("f").unwrap(), LilyAccidental::Flats);
    assert!(matches!(
        LilyAccidental::from_str("b"),
        Err(LilypondAccidentalError::InvalidAccidentalString(_))
    ));
    assert_eq!(Language::from_str("catal\u{e0}").unwrap(), Language::Catalan);
    assert_eq!(Language::from_str("nederlands").unwrap(), Language::Nederlands);
    assert!(matches!(Language::from_str("english"), Err(LilypondLanguageError::InvalidLanguageString(_))));
    assert_eq!(Language::default(), Language::Nederlands);
    assert_eq!(InputMode::from_str("pc").unwrap(), InputMode::PedalChord);
    assert_eq!(InputMode::from_str("pedal-single").unwrap(), InputMode::PedalSingle);
    assert!(matches!(InputMode::from_str("x"), Err(InputModeError::InvalidModeString(_))));
    assert_eq!(OctaveEntry::from_str("r").unwrap(), OctaveEntry::Relative);
    assert!(matches!(OctaveEntry::from_str("rel"), Err(OctaveEntryError::InvalidOctaveEntryString(_))));
    assert_eq!(InputMode::list_options(), vec!["single", "chord", "pedal-chord", "pedal-single"]);
    assert_eq!(OctaveEntry::list_options(), vec!["absolute", "relative"]);
    assert_eq!(LilyAccidental::list_options(), vec!["sharps", "flats"]);
    assert_eq!(Language::list_options(), vec!["nederlands", "catalan"]);
}

#[test]
fn subkey_entries() {
    assert_eq!(
        parse_subkeys("0:foo,1:bar+"),
        Some(vec![(0, String::from("foo")), (1, String::from("bar+"))])
    );
    assert_eq!(parse_subkeys("0:a b,,11:c"), Some(vec![(0, String::from("a b")), (11, String::from("c"))]));
    assert_eq!(parse_subkeys("255:x"), Some(vec![(255, String::from("x"))]));
    assert_eq!(parse_subkeys(""), Some(vec![]));
    assert_eq!(parse_subkeys("nothing here"), Some(vec![]));
    assert_eq!(parse_subkeys("a:foo"), None);
    assert_eq!(parse_subkeys("256:foo"), None);
    assert_eq!(parse_subkeys("1:x,-2:y"), None);
}

#[test]
fn command_words() {
    assert_eq!(
        key_value_pairs("key=gM  mode=chord"),
        vec![(String::from("key"), String::from("gM")), (String::from("mode"), String::from("chord"))]
    );
    assert_eq!(
        key_value_pairs("alt=0:foo,1:bar"),
        vec![(String::from("alt"), String::from("0:foo,1:bar"))]
    );
    assert_eq!(key_value_pairs("x = y"), vec![]);
    assert_eq!(key_value_pairs("a=b=c"), vec![(String::from("a"), String::from("b=c"))]);
}

use lilypond_midi_input::session::{apply_command, split_text, CommandOutcome};
use lilypond_midi_input::LilyParameters;
use std::collections::HashMap;

fn fresh() -> LilyParameters {
    LilyParameters::new(
        LilyKeySignature::CMajor,
        LilyAccidental::Sharps,
        InputMode::Single,
        Language::Nederlands,
        OctaveEntry::Absolute,
        false,
        false,
        HashMap::new(),
        HashMap::new(),
    )
    .unwrap()
}

#[test]
fn commands_change_settings() {
    let mut p = fresh();
    assert_eq!(apply_command(&mut p, "k", "dM"), (CommandOutcome::Applied, vec![]));
    assert_eq!(*p.key(), LilyKeySignature::DMajor);
    assert_eq!(apply_command(&mut p, "key", "zz"), (CommandOutcome::InvalidValue, vec![]));
    assert_eq!(*p.key(), LilyKeySignature::DMajor);
    assert_eq!(apply_command(&mut p, "m", "chord"), (CommandOutcome::Applied, vec![]));
    assert_eq!(*p.mode(), InputMode::Chord);
    assert_eq!(apply_command(&mut p, "oconn", "true"), (CommandOutcome::Applied, vec![]));
    assert!(*p.octave_check_on_next_note());
    assert_eq!(apply_command(&mut p, "octave-check-notes", "yes"), (CommandOutcome::Applied, vec![]));
    assert!(!*p.octave_check_notes());
    assert_eq!(apply_command(&mut p, "tempo", "fast"), (CommandOutcome::UnknownKey, vec![]));
    assert_eq!(apply_command(&mut p, "list", "all"), (CommandOutcome::Listed, vec![]));
}

#[test]
fn octave_entry_command_forgets_previous_note() {
    let mut p = fresh();
    p.set_previous_absolute_note_reference(Some(60));
    assert_eq!(apply_command(&mut p, "octave-entry", "relative"), (CommandOutcome::Applied, vec![]));
    assert_eq!(*p.octave_entry(), OctaveEntry::Relative);
    assert_eq!(p.previous_absolute_note_reference(), None);
}

#[test]
fn alteration_commands() {
    let mut p = fresh();
    assert_eq!(
        apply_command(&mut p, "alt", "0:foo,12:bar,3:baz"),
        (CommandOutcome::PartlyApplied, vec![12])
    );
    assert_eq!(p.alterations().len(), 2);
    assert_eq!(p.alterations().get(&3), Some(&String::from("baz")));
    assert_eq!(apply_command(&mut p, "alt", "x:foo"), (CommandOutcome::InvalidValue, vec![]));
    assert_eq!(apply_command(&mut p, "alt", "clear"), (CommandOutcome::Cleared, vec![]));
    assert!(p.alterations().is_empty());
    assert_eq!(apply_command(&mut p, "galt", "100:x,12:y"), (CommandOutcome::Applied, vec![]));
    assert_eq!(p.global_alterations().len(), 2);
}

#[test]
fn previous_chord_and_note_commands() {
    let mut p = fresh();
    assert_eq!(apply_command(&mut p, "pc", "g':c':e'"), (CommandOutcome::Applied, vec![]));
    assert_eq!(p.previous_chord(), Some(&vec![60, 64, 67]));
    assert_eq!(apply_command(&mut p, "pc", "c':h"), (CommandOutcome::InvalidValue, vec![]));
    assert_eq!(p.previous_chord(), Some(&vec![60, 64, 67]));
    assert_eq!(apply_command(&mut p, "pc", "clear"), (CommandOutcome::Cleared, vec![]));
    assert_eq!(p.previous_chord(), Some(&vec![]));
    assert_eq!(apply_command(&mut p, "panr", "a"), (CommandOutcome::Applied, vec![]));
    assert_eq!(p.previous_absolute_note_reference(), Some(&57));
    assert_eq!(apply_command(&mut p, "panr", "clear"), (CommandOutcome::Cleared, vec![]));
    assert_eq!(p.previous_absolute_note_reference(), None);
}

#[test]
fn split_on_colons() {
    assert_eq!(split_text("a:b", ':'), vec![String::from("a"), String::from("b")]);
    assert_eq!(split_text("", ':'), vec![String::new()]);
    assert_eq!(split_text("a::", ':'), vec![String::from("a"), String::new(), String::new()]);
}
