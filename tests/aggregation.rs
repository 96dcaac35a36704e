use std::collections::HashMap;

use lilypond_midi_input::{
    ChordAggregator, InputMode, Language, LilyAccidental, LilyKeySignature, LilyParameters,
    MidiMessageType, OctaveEntry,
};

fn params(mode: InputMode, entry: OctaveEntry) -> LilyParameters {
    LilyParameters::new(
        LilyKeySignature::CMajor,
        LilyAccidental::Sharps,
        mode,
        Language::Nederlands,
        entry,
        false,
        false,
        HashMap::new(),
        HashMap::new(),
    )
    .unwrap()
}

fn on(note: u8) -> MidiMessageType {
    MidiMessageType::NoteOn { note, velocity: 100 }
}

fn off(note: u8) -> MidiMessageType {
    MidiMessageType::NoteOff { note, velocity: 0 }
}

fn feed(a: &mut ChordAggregator, p: &mut LilyParameters, events: &[MidiMessageType]) -> Vec<Option<String>> {
    events.iter().map(|e| a.handle_event(p, e)).collect()
}

#[test]
fn chord_then_repeat_shorthand() {
    let mut p = params(InputMode::Chord, OctaveEntry::Absolute);
    let mut a = ChordAggregator::new();
    let gesture = [on(60), on(64), on(67), off(60), off(64), off(67)];
    let out = feed(&mut a, &mut p, &gesture);
    assert_eq!(out, vec![None, None, None, None, None, Some(String::from("<c' e' g'>"))]);
    let out = feed(&mut a, &mut p, &gesture);
    assert_eq!(out, vec![None, None, None, None, None, Some(String::from("q"))]);
    assert_eq!(p.previous_absolute_note_reference(), Some(&60));
}

#[test]
fn chord_notes_in_ascending_order() {
    let mut p = params(InputMode::Chord, OctaveEntry::Absolute);
    let mut a = ChordAggregator::new();
    let out = feed(&mut a, &mut p, &[on(67), on(60), off(67), on(64), off(60), off(64)]);
    assert_eq!(out[5], Some(String::from("<c' e' g'>")));
}

#[test]
fn single_note_in_chord_mode() {
    let mut p = params(InputMode::Chord, OctaveEntry::Absolute);
    let mut a = ChordAggregator::new();
    let out = feed(&mut a, &mut p, &[on(60), off(60)]);
    assert_eq!(out, vec![None, Some(String::from("c'"))]);
}

#[test]
fn single_mode_writes_lowest_pending_note() {
    let mut p = params(InputMode::Single, OctaveEntry::Absolute);
    let mut a = ChordAggregator::new();
    let out = feed(&mut a, &mut p, &[on(60), on(64), off(64), off(60)]);
    assert_eq!(out, vec![None, None, None, Some(String::from("c'"))]);
    // the surplus note stays pending for the next flush
    let out = feed(&mut a, &mut p, &[on(67), off(67)]);
    assert_eq!(out, vec![None, Some(String::from("e'"))]);
}

#[test]
fn pedal_chord_mode() {
    let mut p = params(InputMode::PedalChord, OctaveEntry::Absolute);
    let mut a = ChordAggregator::new();
    let out = feed(
        &mut a,
        &mut p,
        &[
            MidiMessageType::PedalOn { pedal: 64, value: 127 },
            on(60),
            on(64),
            off(60),
            off(64),
            MidiMessageType::PedalOff { pedal: 64 },
            on(62),
            on(65),
            off(62),
            off(65),
        ],
    );
    assert_eq!(
        out,
        vec![
            None,
            None,
            None,
            None,
            Some(String::from("<c' e'>")),
            None,
            None,
            None,
            None,
            Some(String::from("d'")),
        ]
    );
}

#[test]
fn pedal_single_mode() {
    let mut p = params(InputMode::PedalSingle, OctaveEntry::Absolute);
    let mut a = ChordAggregator::new();
    let out = feed(&mut a, &mut p, &[on(60), on(64), off(60), off(64)]);
    assert_eq!(out[3], Some(String::from("<c' e'>")));
}

#[test]
fn previous_chord_set_by_hand() {
    let mut p = params(InputMode::Chord, OctaveEntry::Absolute);
    let mut a = ChordAggregator::new();
    p.set_previous_chord_lilypond_str(vec![String::from("g'"), String::from("c'"), String::from("e'")])
        .unwrap();
    assert_eq!(p.previous_chord(), Some(&vec![60, 64, 67]));
    let out = feed(&mut a, &mut p, &[on(60), on(64), on(67), off(60), off(64), off(67)]);
    assert_eq!(out[5], Some(String::from("q")));
    assert_eq!(p.previous_chord(), None);
}

#[test]
fn previous_chord_cleared_by_hand() {
    let mut p = params(InputMode::Chord, OctaveEntry::Absolute);
    let mut a = ChordAggregator::new();
    let gesture = [on(60), on(64), off(60), off(64)];
    feed(&mut a, &mut p, &gesture);
    p.set_previous_chord(Some(Vec::new()));
    let out = feed(&mut a, &mut p, &gesture);
    assert_eq!(out[3], Some(String::from("<c' e'>")));
}

#[test]
fn relative_chord_counts_from_note_to_note() {
    let mut p = params(InputMode::Chord, OctaveEntry::Relative);
    let mut a = ChordAggregator::new();
    let out = feed(&mut a, &mut p, &[on(60), on(64), on(79), off(60), off(64), off(79)]);
    assert_eq!(out[5], Some(String::from("<c=' e g'>")));
    // the next note counts from the lowest note of the chord
    let out = feed(&mut a, &mut p, &[on(72), off(72)]);
    assert_eq!(out[1], Some(String::from("c'")));
}

#[test]
fn one_time_octave_check_is_used_once() {
    let mut p = params(InputMode::Single, OctaveEntry::Absolute);
    p.set_octave_check_on_next_note(true);
    let mut a = ChordAggregator::new();
    let out = feed(&mut a, &mut p, &[on(60), off(60), on(62), off(62)]);
    assert_eq!(out, vec![None, Some(String::from("c'='")), None, Some(String::from("d'"))]);
    assert!(!*p.octave_check_on_next_note());
}

#[test]
fn unknown_events_are_ignored() {
    let mut p = params(InputMode::Single, OctaveEntry::Absolute);
    let mut a = ChordAggregator::new();
    let out = feed(&mut a, &mut p, &[on(60), MidiMessageType::Unknown, off(60)]);
    assert_eq!(out, vec![None, None, Some(String::from("c'"))]);
}

#[test]
fn decode_raw_messages() {
    assert_eq!(MidiMessageType::from_raw(144, 60, 100), MidiMessageType::NoteOn { note: 60, velocity: 100 });
    assert_eq!(MidiMessageType::from_raw(128, 60, 0), MidiMessageType::NoteOff { note: 60, velocity: 0 });
    assert_eq!(MidiMessageType::from_raw(176, 64, 127), MidiMessageType::PedalOn { pedal: 64, value: 127 });
    assert_eq!(MidiMessageType::from_raw(176, 64, 0), MidiMessageType::PedalOff { pedal: 64 });
    assert_eq!(MidiMessageType::from_raw(224, 1, 2), MidiMessageType::Unknown);
}
