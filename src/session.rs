//! Applying parameter commands: a setting name and a value, as read from a
//! `key=value` word.
use vstd::prelude::*;
use vstd::string::*;

use crate::accidentals::{accidentals_from_text, LilyAccidental};
use crate::commands::{parse_subkeys, subkeys};
use crate::input_mode::{input_mode_from_text, InputMode};
use crate::keysignature::{key_from_text, LilyKeySignature};
use crate::language::{language_from_text, Language};
use crate::octave_entry::{octave_entry_from_text, OctaveEntry};
use crate::parameters::{LilyParameters, ParametersView};
use crate::parse::parsed_note;
use crate::note_set::{lemma_note_set_of, note_set_of};
use crate::text::text_eq;
use crate::MidiNote;

verus! {

/// The settings that commands change.
#[derive(Debug, Clone, Copy, PartialEq, Eq, Structural)]
pub enum Setting {
    Key,
    Accidentals,
    Mode,
    Language,
    OctaveEntry,
    OctaveCheckNotes,
    OctaveCheckOnNextNote,
    Alterations,
    GlobalAlterations,
    PreviousChord,
    PreviousNote,
    List,
}

/// The setting that a command key names, by its name or its short name.
pub open spec fn setting_from_text(t: Seq<char>) -> Option<Setting> {
    if t == "key"@ || t == "k"@ {
        Some(Setting::Key)
    } else if t == "accidentals"@ || t == "a"@ {
        Some(Setting::Accidentals)
    } else if t == "mode"@ || t == "m"@ {
        Some(Setting::Mode)
    } else if t == "language"@ {
        Some(Setting::Language)
    } else if t == "octave-entry"@ {
        Some(Setting::OctaveEntry)
    } else if t == "octave-check-notes"@ {
        Some(Setting::OctaveCheckNotes)
    } else if t == "octave-check-on-next-note"@ || t == "oconn"@ {
        Some(Setting::OctaveCheckOnNextNote)
    } else if t == "alterations"@ || t == "alt"@ {
        Some(Setting::Alterations)
    } else if t == "global-alterations"@ || t == "galt"@ {
        Some(Setting::GlobalAlterations)
    } else if t == "previous-chord"@ || t == "pc"@ {
        Some(Setting::PreviousChord)
    } else if t == "previous-absolute-note-reference"@ || t == "panr"@ {
        Some(Setting::PreviousNote)
    } else if t == "list"@ {
        Some(Setting::List)
    } else {
        None
    }
}

/// How a command ended.
#[derive(Debug, Clone, Copy, PartialEq, Eq, Structural)]
pub enum CommandOutcome {
    /// The setting was changed as asked.
    Applied,
    /// The setting was cleared.
    Cleared,
    /// Alteration entries were applied, but for those keyed outside an
    /// octave.
    PartlyApplied,
    /// The value is not valid for the setting; nothing changed.
    InvalidValue,
    /// Listing asked for; nothing changed.
    Listed,
    /// The key names no setting; nothing changed.
    UnknownKey,
}

/// The texts between the occurrences of `c` in `s`.
pub open spec fn split_on(s: Seq<char>, c: char) -> Seq<Seq<char>>
    decreases s.len(),
{
    if s.len() == 0 {
        seq![Seq::empty()]
    } else {
        let rest = split_on(s.drop_last(), c);
        if s.last() == c {
            rest.push(Seq::empty())
        } else {
            rest.update(rest.len() - 1, rest.last().push(s.last()))
        }
    }
}

/// The alteration map after the entries, in order; local alterations skip
/// keys outside an octave.
pub open spec fn with_entries(
    m: Map<MidiNote, Seq<char>>,
    entries: Seq<(MidiNote, Seq<char>)>,
    local: bool,
) -> Map<MidiNote, Seq<char>>
    decreases entries.len(),
{
    if entries.len() == 0 {
        m
    } else {
        let before = with_entries(m, entries.drop_last(), local);
        let (k, t) = entries.last();
        if local && k >= 12 {
            before
        } else {
            before.insert(k, t)
        }
    }
}

/// The keys of the entries that lie outside an octave, in order.
pub open spec fn keys_outside_octave(entries: Seq<(MidiNote, Seq<char>)>) -> Seq<MidiNote>
    decreases entries.len(),
{
    if entries.len() == 0 {
        Seq::empty()
    } else {
        let before = keys_outside_octave(entries.drop_last());
        if entries.last().0 >= 12 {
            before.push(entries.last().0)
        } else {
            before
        }
    }
}

/// Whether every text reads as a note.
pub open spec fn all_notes(texts: Seq<Seq<char>>) -> bool {
    forall|i: int| 0 <= i < texts.len() ==> (#[trigger] parsed_note(texts[i])) is Some
}

/// The chord that note texts give.
pub open spec fn chord_of(texts: Seq<Seq<char>>) -> Seq<MidiNote> {
    note_set_of(Seq::new(texts.len(), |i: int| parsed_note(texts[i]).unwrap().note))
}

/// The parameters and the outcome after a command.
pub open spec fn command_result(p: ParametersView, key: Seq<char>, value: Seq<char>) -> (
    ParametersView,
    CommandOutcome,
) {
    match setting_from_text(key) {
        None => (p, CommandOutcome::UnknownKey),
        Some(Setting::Key) => match key_from_text(value) {
            Some(k) => (ParametersView { key: k, ..p }, CommandOutcome::Applied),
            None => (p, CommandOutcome::InvalidValue),
        },
        Some(Setting::Accidentals) => match accidentals_from_text(value) {
            Some(a) => (ParametersView { accidentals: a, ..p }, CommandOutcome::Applied),
            None => (p, CommandOutcome::InvalidValue),
        },
        Some(Setting::Mode) => match input_mode_from_text(value) {
            Some(m) => (ParametersView { mode: m, ..p }, CommandOutcome::Applied),
            None => (p, CommandOutcome::InvalidValue),
        },
        Some(Setting::Language) => match language_from_text(value) {
            Some(l) => (ParametersView { language: l, ..p }, CommandOutcome::Applied),
            None => (p, CommandOutcome::InvalidValue),
        },
        // a new octave entry mode starts without a previous note
        Some(Setting::OctaveEntry) => match octave_entry_from_text(value) {
            Some(e) => (
                ParametersView { octave_entry: e, previous_absolute_note_reference: None, ..p },
                CommandOutcome::Applied,
            ),
            None => (p, CommandOutcome::InvalidValue),
        },
        Some(Setting::OctaveCheckNotes) => (
            ParametersView { octave_check_notes: value == "true"@, ..p },
            CommandOutcome::Applied,
        ),
        Some(Setting::OctaveCheckOnNextNote) => (
            ParametersView { octave_check_on_next_note: value == "true"@, ..p },
            CommandOutcome::Applied,
        ),
        Some(Setting::Alterations) => if value == "clear"@ {
            (ParametersView { alterations: Map::empty(), ..p }, CommandOutcome::Cleared)
        } else {
            match subkeys(value) {
                Some(e) => (
                    ParametersView { alterations: with_entries(p.alterations, e, true), ..p },
                    if keys_outside_octave(e).len() == 0 {
                        CommandOutcome::Applied
                    } else {
                        CommandOutcome::PartlyApplied
                    },
                ),
                None => (p, CommandOutcome::InvalidValue),
            }
        },
        Some(Setting::GlobalAlterations) => if value == "clear"@ {
            (ParametersView { global_alterations: Map::empty(), ..p }, CommandOutcome::Cleared)
        } else {
            match subkeys(value) {
                Some(e) => (
                    ParametersView {
                        global_alterations: with_entries(p.global_alterations, e, false),
                        ..p
                    },
                    CommandOutcome::Applied,
                ),
                None => (p, CommandOutcome::InvalidValue),
            }
        },
        // an empty chord makes the aggregator forget its last chord
        Some(Setting::PreviousChord) => if value == "clear"@ {
            (ParametersView { previous_chord: Some(Seq::empty()), ..p }, CommandOutcome::Cleared)
        } else if all_notes(split_on(value, ':')) {
            (
                ParametersView { previous_chord: Some(chord_of(split_on(value, ':'))), ..p },
                CommandOutcome::Applied,
            )
        } else {
            (p, CommandOutcome::InvalidValue)
        },
        Some(Setting::PreviousNote) => if value == "clear"@ {
            (ParametersView { previous_absolute_note_reference: None, ..p }, CommandOutcome::Cleared)
        } else {
            match parsed_note(value) {
                Some(t) => (
                    ParametersView { previous_absolute_note_reference: Some(t.note), ..p },
                    CommandOutcome::Applied,
                ),
                None => (p, CommandOutcome::InvalidValue),
            }
        },
        Some(Setting::List) => (p, CommandOutcome::Listed),
    }
}

/// The keys of local alteration entries that a command skips.
pub open spec fn skipped_keys(key: Seq<char>, value: Seq<char>) -> Seq<MidiNote> {
    if setting_from_text(key) == Some(Setting::Alterations) && value != "clear"@ {
        match subkeys(value) {
            Some(e) => keys_outside_octave(e),
            None => Seq::empty(),
        }
    } else {
        Seq::empty()
    }
}

/// The setting that a command key names.
pub fn setting_of(key: &str) -> (r: Option<Setting>)
    ensures
        r == setting_from_text(key@),
{
    if text_eq(key, "key") || text_eq(key, "k") {
        Some(Setting::Key)
    } else if text_eq(key, "accidentals") || text_eq(key, "a") {
        Some(Setting::Accidentals)
    } else if text_eq(key, "mode") || text_eq(key, "m") {
        Some(Setting::Mode)
    } else if text_eq(key, "language") {
        Some(Setting::Language)
    } else if text_eq(key, "octave-entry") {
        Some(Setting::OctaveEntry)
    } else if text_eq(key, "octave-check-notes") {
        Some(Setting::OctaveCheckNotes)
    } else if text_eq(key, "octave-check-on-next-note") || text_eq(key, "oconn") {
        Some(Setting::OctaveCheckOnNextNote)
    } else if text_eq(key, "alterations") || text_eq(key, "alt") {
        Some(Setting::Alterations)
    } else if text_eq(key, "global-alterations") || text_eq(key, "galt") {
        Some(Setting::GlobalAlterations)
    } else if text_eq(key, "previous-chord") || text_eq(key, "pc") {
        Some(Setting::PreviousChord)
    } else if text_eq(key, "previous-absolute-note-reference") || text_eq(key, "panr") {
        Some(Setting::PreviousNote)
    } else if text_eq(key, "list") {
        Some(Setting::List)
    } else {
        None
    }
}

/// The texts between the occurrences of `c` in `s`.
pub fn split_text(s: &str, c: char) -> (r: Vec<String>)
    ensures
        r@.len() == split_on(s@, c).len(),
        forall|i: int| 0 <= i < r@.len() ==> (#[trigger] r@[i])@ == split_on(s@, c)[i],
{
    let n = s.unicode_len();
    let mut r: Vec<String> = Vec::new();
    let mut start: usize = 0;
    let mut i: usize = 0;
    assert(s@.subrange(0, 0) =~= Seq::<char>::empty());
    assert(split_on(s@.subrange(0, 0), c) =~= Seq::new(r@.len() as nat, |j: int| r@[j]@).push(
        s@.subrange(0, 0),
    ));
    while i < n
        invariant
            start <= i <= n,
            n == s@.len(),
            split_on(s@.subrange(0, i as int), c) == Seq::new(r@.len() as nat, |j: int| r@[j]@).push(
                s@.subrange(start as int, i as int),
            ),
        decreases n - i,
    {
        let ghost done = Seq::new(r@.len() as nat, |j: int| r@[j]@);
        let ghost prefix = s@.subrange(0, i as int + 1);
        assert(prefix.drop_last() =~= s@.subrange(0, i as int));
        let ghost piece = s@.subrange(start as int, i as int);
        if s.get_char(i) == c {
            r.push(s.substring_char(start, i).to_string());
            start = i + 1;
            proof {
                let now = Seq::new(r@.len() as nat, |j: int| r@[j]@);
                assert(now =~= done.push(piece));
                assert(s@.subrange(start as int, i as int + 1) =~= Seq::empty());
                assert(split_on(prefix, c) =~= now.push(Seq::empty()));
            }
        } else {
            proof {
                assert(s@.subrange(start as int, i as int + 1) =~= piece.push(s@[i as int]));
                assert(split_on(prefix, c) =~= done.push(piece.push(s@[i as int])));
            }
        }
        i = i + 1;
    }
    r.push(s.substring_char(start, n).to_string());
    proof {
        assert(s@.subrange(0, n as int) =~= s@);
        let all = Seq::new(r@.len() as nat, |j: int| r@[j]@);
        assert(all =~= split_on(s@, c));
        assert forall|j: int| 0 <= j < r@.len() implies (#[trigger] r@[j])@ == split_on(s@, c)[j] by {
            assert(all[j] == r@[j]@);
        }
    }
    r
}

/// The entries as they are seen in contracts.
pub open spec fn entries_view(v: Seq<(MidiNote, String)>) -> Seq<(MidiNote, Seq<char>)> {
    Seq::new(v.len(), |i: int| (v[i].0, v[i].1@))
}

/// Adds alteration entries in order: local ones (`local`) skip and return
/// the keys outside an octave, global ones take every key.
fn apply_entries(params: &mut LilyParameters, entries: Vec<(MidiNote, String)>, local: bool) -> (r: Vec<MidiNote>)
    requires
        old(params)@.wf(),
    ensures
        final(params)@.wf(),
        local ==> final(params)@ == (ParametersView {
            alterations: with_entries(old(params)@.alterations, entries_view(entries@), true),
            ..old(params)@
        }),
        !local ==> final(params)@ == (ParametersView {
            global_alterations: with_entries(old(params)@.global_alterations, entries_view(entries@), false),
            ..old(params)@
        }),
        local ==> r@ == keys_outside_octave(entries_view(entries@)),
{
    let ghost ev = entries_view(entries@);
    let ghost start = params@;
    let mut skipped: Vec<MidiNote> = Vec::new();
    let mut i: usize = 0;
    while i < entries.len()
        invariant
            i <= entries@.len(),
            ev == entries_view(entries@),
            params@.wf(),
            local ==> params@ == (ParametersView {
                alterations: with_entries(start.alterations, ev.take(i as int), true),
                ..start
            }),
            !local ==> params@ == (ParametersView {
                global_alterations: with_entries(start.global_alterations, ev.take(i as int), false),
                ..start
            }),
            local ==> skipped@ == keys_outside_octave(ev.take(i as int)),
        decreases entries@.len() - i,
    {
        let note = entries[i].0;
        let text = entries[i].1.clone();
        proof {
            assert(ev.take(i + 1).drop_last() =~= ev.take(i as int));
            assert(ev.take(i + 1).last() == (note, text@));
        }
        if local {
            match params.add_alteration(note, text) {
                Ok(()) => {},
                Err(_) => {
                    skipped.push(note);
                },
            }
        } else {
            params.add_global_alteration(note, text);
        }
        i = i + 1;
    }
    proof {
        assert(ev.take(entries@.len() as int) =~= ev);
    }
    skipped
}

/// Applies the command `key=value` to the parameters.
///
/// Returns how the command ended, with the keys of local alteration entries
/// that were skipped for lying outside an octave.
pub fn apply_command(params: &mut LilyParameters, key: &str, value: &str) -> (r: (CommandOutcome, Vec<MidiNote>))
    requires
        old(params)@.wf(),
    ensures
        final(params)@.wf(),
        (final(params)@, r.0) == command_result(old(params)@, key@, value@),
        r.1@ == skipped_keys(key@, value@),
{
    let none: Vec<MidiNote> = Vec::new();
    let setting = match setting_of(key) {
        Some(s) => s,
        None => return (CommandOutcome::UnknownKey, none),
    };
    match setting {
        Setting::Key => match LilyKeySignature::from_str(value) {
            Ok(k) => {
                params.set_key(k);
                (CommandOutcome::Applied, none)
            },
            Err(_) => (CommandOutcome::InvalidValue, none),
        },
        Setting::Accidentals => match LilyAccidental::from_str(value) {
            Ok(a) => {
                params.set_accidentals(a);
                (CommandOutcome::Applied, none)
            },
            Err(_) => (CommandOutcome::InvalidValue, none),
        },
        Setting::Mode => match InputMode::from_str(value) {
            Ok(m) => {
                params.set_mode(m);
                (CommandOutcome::Applied, none)
            },
            Err(_) => (CommandOutcome::InvalidValue, none),
        },
        Setting::Language => match Language::from_str(value) {
            Ok(l) => {
                params.set_language(l);
                (CommandOutcome::Applied, none)
            },
            Err(_) => (CommandOutcome::InvalidValue, none),
        },
        Setting::OctaveEntry => match OctaveEntry::from_str(value) {
            Ok(e) => {
                params.set_previous_absolute_note_reference(None);
                params.set_octave_entry(e);
                (CommandOutcome::Applied, none)
            },
            Err(_) => (CommandOutcome::InvalidValue, none),
        },
        Setting::OctaveCheckNotes => {
            params.set_octave_check_notes(text_eq(value, "true"));
            (CommandOutcome::Applied, none)
        },
        Setting::OctaveCheckOnNextNote => {
            params.set_octave_check_on_next_note(text_eq(value, "true"));
            (CommandOutcome::Applied, none)
        },
        Setting::Alterations => {
            if text_eq(value, "clear") {
                params.clear_alterations();
                return (CommandOutcome::Cleared, none);
            }
            match parse_subkeys(value) {
                Some(entries) => {
                    proof {
                        assert(entries_view(entries@) =~= subkeys(value@).unwrap());
                    }
                    let skipped = apply_entries(params, entries, true);
                    if skipped.len() == 0 {
                        (CommandOutcome::Applied, skipped)
                    } else {
                        (CommandOutcome::PartlyApplied, skipped)
                    }
                },
                None => (CommandOutcome::InvalidValue, none),
            }
        },
        Setting::GlobalAlterations => {
            if text_eq(value, "clear") {
                params.clear_global_alterations();
                return (CommandOutcome::Cleared, none);
            }
            match parse_subkeys(value) {
                Some(entries) => {
                    proof {
                        assert(entries_view(entries@) =~= subkeys(value@).unwrap());
                    }
                    apply_entries(params, entries, false);
                    (CommandOutcome::Applied, none)
                },
                None => (CommandOutcome::InvalidValue, none),
            }
        },
        Setting::PreviousChord => {
            if text_eq(value, "clear") {
                let empty: Vec<MidiNote> = Vec::new();
                proof {
                    lemma_note_set_of(Seq::empty(), empty@);
                }
                params.set_previous_chord(Some(empty));
                return (CommandOutcome::Cleared, none);
            }
            let pieces = split_text(value, ':');
            let ghost texts = split_on(value@, ':');
            proof {
                assert(Seq::new(pieces@.len(), |i: int| parsed_note(pieces@[i]@).unwrap().note) =~= Seq::new(
                    texts.len(),
                    |i: int| parsed_note(texts[i]).unwrap().note,
                ));
                assert(all_notes(texts) <==> (forall|i: int| 0 <= i < pieces@.len() ==> (#[trigger] parsed_note(pieces@[i]@)) is Some)) by {
                    if all_notes(texts) {
                        assert forall|i: int| 0 <= i < pieces@.len() implies (#[trigger] parsed_note(pieces@[i]@)) is Some by {
                            assert(parsed_note(texts[i]) is Some);
                        }
                    }
                    if forall|i: int| 0 <= i < pieces@.len() ==> (#[trigger] parsed_note(pieces@[i]@)) is Some {
                        assert forall|i: int| 0 <= i < texts.len() implies (#[trigger] parsed_note(texts[i])) is Some by {
                            assert(parsed_note(pieces@[i]@) is Some);
                        }
                    }
                }
            }
            match params.set_previous_chord_lilypond_str(pieces) {
                Ok(()) => (CommandOutcome::Applied, none),
                Err(_) => (CommandOutcome::InvalidValue, none),
            }
        },
        Setting::PreviousNote => {
            if text_eq(value, "clear") {
                params.set_previous_absolute_note_reference(None);
                return (CommandOutcome::Cleared, none);
            }
            match params.set_previous_absolute_note_reference_lilypond_str(value.to_string()) {
                Ok(()) => (CommandOutcome::Applied, none),
                Err(_) => (CommandOutcome::InvalidValue, none),
            }
        },
        Setting::List => (CommandOutcome::Listed, none),
    }
}

} // verus!
