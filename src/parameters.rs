//! The mutable configuration that note generation reads.
use std::collections::HashMap;

use vstd::prelude::*;

use crate::accidentals::LilyAccidental;
use crate::errors::{LilyParametersError, LilypondNoteError};
use crate::input_mode::InputMode;
use crate::keysignature::LilyKeySignature;
use crate::language::Language;
use crate::note::LilyNote;
use crate::note_set::{collect_notes, is_note_set, note_set_of};
use crate::parse::parsed_note;
use crate::octave_entry::OctaveEntry;
use crate::MidiNote;

verus! {

broadcast use vstd::std_specs::hash::group_hash_axioms;

/// Replacement texts for notes, keyed by pitch class or by absolute note.
pub type Alteration = HashMap<MidiNote, String>;

/// The texts of an alteration map.
pub open spec fn alteration_texts(m: Map<MidiNote, String>) -> Map<MidiNote, Seq<char>> {
    m.map_values(|t: String| t@)
}

/// Whether every key of a local alteration map is a pitch class (0 to 11).
pub open spec fn keys_within_octave(m: Map<MidiNote, Seq<char>>) -> bool {
    forall|k: MidiNote| #[trigger] m.contains_key(k) ==> k < 12
}

/// What a parameter set holds.
pub struct ParametersView {
    pub key: LilyKeySignature,
    pub accidentals: LilyAccidental,
    pub mode: InputMode,
    pub language: Language,
    pub octave_entry: OctaveEntry,
    pub octave_check_on_next_note: bool,
    pub octave_check_notes: bool,
    /// alterations within an octave, keyed by pitch class
    pub alterations: Map<MidiNote, Seq<char>>,
    /// alterations of single notes, keyed by absolute note
    pub global_alterations: Map<MidiNote, Seq<char>>,
    /// a chord set by hand, waiting to become the previous chord
    pub previous_chord: Option<Seq<MidiNote>>,
    /// the previous note, from which relative octaves are counted
    pub previous_absolute_note_reference: Option<MidiNote>,
}

impl ParametersView {
    /// The invariant of a parameter set: local alterations stay within an
    /// octave and a chord set by hand is a set in ascending order.
    pub open spec fn wf(self) -> bool {
        &&& keys_within_octave(self.alterations)
        &&& (self.previous_chord matches Some(c) ==> is_note_set(c))
    }
}

/// The configuration consulted for every generated note.
#[derive(Debug)]
pub struct LilyParameters {
    key: LilyKeySignature,
    accidentals: LilyAccidental,
    mode: InputMode,
    language: Language,
    octave_entry: OctaveEntry,
    /// add an octave check to the next generated note
    octave_check_on_next_note: bool,
    /// add an octave check to every generated note
    octave_check_notes: bool,
    /// alterations within an octave (0 to 11)
    alterations: Alteration,
    /// alterations over all notes
    global_alterations: Alteration,
    /// set by hand to decide when a repeated chord becomes `q`
    previous_chord: Option<Vec<MidiNote>>,
    /// the previous note in absolute pitch, for relative octave entry
    previous_absolute_note_reference: Option<MidiNote>,
}

impl View for LilyParameters {
    type V = ParametersView;

    closed spec fn view(&self) -> ParametersView {
        ParametersView {
            key: self.key,
            accidentals: self.accidentals,
            mode: self.mode,
            language: self.language,
            octave_entry: self.octave_entry,
            octave_check_on_next_note: self.octave_check_on_next_note,
            octave_check_notes: self.octave_check_notes,
            alterations: alteration_texts(self.alterations@),
            global_alterations: alteration_texts(self.global_alterations@),
            previous_chord: match self.previous_chord {
                Some(c) => Some(c@),
                None => None,
            },
            previous_absolute_note_reference: self.previous_absolute_note_reference,
        }
    }
}

/// The smallest key of `m` that is not a pitch class, if there is one.
fn first_key_outside_octave(m: &Alteration) -> (r: Option<MidiNote>)
    ensures
        match r {
            Some(k) => m@.contains_key(k) && k >= 12 && !keys_within_octave(alteration_texts(m@))
                && forall|j: MidiNote| 12 <= j < k ==> !m@.contains_key(j),
            None => keys_within_octave(alteration_texts(m@)),
        },
{
    let mut k: u16 = 12;
    while k < 256
        invariant
            12 <= k <= 256,
            forall|j: MidiNote| 12 <= j < k ==> !m@.contains_key(j),
        decreases 256 - k,
    {
        if m.contains_key(&(k as u8)) {
            assert(alteration_texts(m@).contains_key(k as u8));
            return Some(k as u8);
        }
        k = k + 1;
    }
    assert forall|j: MidiNote| #[trigger] alteration_texts(m@).contains_key(j) implies j < 12 by {
        assert(m@.contains_key(j));
    }
    None
}

impl LilyParameters {
    /// Builds a parameter set, with no previous chord and no previous note.
    ///
    /// Fails with `OutsideOctave`, naming the smallest such key, where a local
    /// alteration is keyed by a value that is not a pitch class.
    pub fn new(
        key: LilyKeySignature,
        accidentals: LilyAccidental,
        mode: InputMode,
        language: Language,
        octave_entry: OctaveEntry,
        octave_check_on_next_note: bool,
        octave_check_notes: bool,
        alterations: Alteration,
        global_alterations: Alteration,
    ) -> (r: Result<LilyParameters, LilyParametersError>)
        ensures
            keys_within_octave(alteration_texts(alterations@)) <==> r is Ok,
            r matches Ok(p) ==> p@ == (ParametersView {
                key,
                accidentals,
                mode,
                language,
                octave_entry,
                octave_check_on_next_note,
                octave_check_notes,
                alterations: alteration_texts(alterations@),
                global_alterations: alteration_texts(global_alterations@),
                previous_chord: None,
                previous_absolute_note_reference: None,
            }),
            r matches Ok(p) ==> p@.wf(),
            r matches Err(LilyParametersError::NoteError(e)) ==> (e matches LilypondNoteError::OutsideOctave(k)
                && alterations@.contains_key(k) && k >= 12
                && forall|j: MidiNote| 12 <= j < k ==> !alterations@.contains_key(j)),
    {
        if let Some(k) = first_key_outside_octave(&alterations) {
            return Err(LilyParametersError::NoteError(LilypondNoteError::OutsideOctave(k)));
        }
        Ok(LilyParameters {
            key,
            accidentals,
            mode,
            language,
            octave_entry,
            octave_check_on_next_note,
            octave_check_notes,
            alterations,
            global_alterations,
            previous_chord: None,
            previous_absolute_note_reference: None,
        })
    }

    /// Replaces the local alterations, unless one is keyed outside an octave:
    /// then it fails with `OutsideOctave`, naming the smallest such key, and
    /// changes nothing.
    pub fn set_alterations(&mut self, alterations: Alteration) -> (r: Result<(), LilypondNoteError>)
        requires
            old(self)@.wf(),
        ensures
            final(self)@.wf(),
            keys_within_octave(alteration_texts(alterations@)) <==> r is Ok,
            r is Ok ==> final(self)@ == (ParametersView {
                alterations: alteration_texts(alterations@),
                ..old(self)@
            }),
            r is Err ==> final(self)@ == old(self)@,
            r matches Err(e) ==> (e matches LilypondNoteError::OutsideOctave(k)
                && alterations@.contains_key(k) && k >= 12
                && forall|j: MidiNote| 12 <= j < k ==> !alterations@.contains_key(j)),
    {
        if let Some(k) = first_key_outside_octave(&alterations) {
            return Err(LilypondNoteError::OutsideOctave(k));
        }
        self.alterations = alterations;
        Ok(())
    }

    /// Sets the alteration of pitch class `note` to `value`.
    ///
    /// Fails with `OutsideOctave`, and changes nothing, where `note` is not a
    /// pitch class.
    pub fn add_alteration(&mut self, note: MidiNote, value: String) -> (r: Result<(), LilypondNoteError>)
        requires
            old(self)@.wf(),
        ensures
            final(self)@.wf(),
            note < 12 <==> r is Ok,
            r is Ok ==> final(self)@ == (ParametersView {
                alterations: old(self)@.alterations.insert(note, value@),
                ..old(self)@
            }),
            r is Err ==> final(self)@ == old(self)@ && r == Err::<(), LilypondNoteError>(
                LilypondNoteError::OutsideOctave(note),
            ),
    {
        Self::verify_alteration(&note)?;
        let ghost before = self.alterations@;
        self.alterations.insert(note, value);
        proof {
            assert(alteration_texts(self.alterations@) =~= alteration_texts(before).insert(note, value@));
        }
        Ok(())
    }

    /// Removes every local alteration.
    pub fn clear_alterations(&mut self)
        requires
            old(self)@.wf(),
        ensures
            final(self)@.wf(),
            final(self)@ == (ParametersView { alterations: Map::empty(), ..old(self)@ }),
    {
        self.alterations = HashMap::new();
        assert(alteration_texts(self.alterations@) =~= Map::empty());
    }

    /// Checks that `note` is a pitch class (0 to 11).
    pub fn verify_alteration(note: &MidiNote) -> (r: Result<(), LilypondNoteError>)
        ensures
            *note < 12 ==> r is Ok,
            *note >= 12 ==> r == Err::<(), LilypondNoteError>(LilypondNoteError::OutsideOctave(*note)),
    {
        if *note <= 11 {
            Ok(())
        } else {
            Err(LilypondNoteError::OutsideOctave(*note))
        }
    }

    /// Sets the alteration of absolute note `note` to `value`.
    pub fn add_global_alteration(&mut self, note: MidiNote, value: String)
        requires
            old(self)@.wf(),
        ensures
            final(self)@.wf(),
            final(self)@ == (ParametersView {
                global_alterations: old(self)@.global_alterations.insert(note, value@),
                ..old(self)@
            }),
    {
        let ghost before = self.global_alterations@;
        self.global_alterations.insert(note, value);
        proof {
            assert(alteration_texts(self.global_alterations@) =~= alteration_texts(before).insert(note, value@));
        }
    }

    /// Removes every global alteration.
    pub fn clear_global_alterations(&mut self)
        requires
            old(self)@.wf(),
        ensures
            final(self)@.wf(),
            final(self)@ == (ParametersView { global_alterations: Map::empty(), ..old(self)@ }),
    {
        self.global_alterations = HashMap::new();
        assert(alteration_texts(self.global_alterations@) =~= Map::empty());
    }

    /// Sets the chord that decides when a repeated chord becomes `q` from
    /// note texts.
    ///
    /// Fails with `InvalidNoteString` for the first text that is no note, and
    /// then changes nothing.
    pub fn set_previous_chord_lilypond_str(&mut self, previous_chord: Vec<String>) -> (r: Result<(), LilypondNoteError>)
        requires
            old(self)@.wf(),
        ensures
            final(self)@.wf(),
            (forall|i: int| 0 <= i < previous_chord@.len() ==> (#[trigger] parsed_note(previous_chord@[i]@)) is Some)
                <==> r is Ok,
            r is Ok ==> final(self)@ == (ParametersView {
                previous_chord: Some(note_set_of(Seq::new(
                    previous_chord@.len(),
                    |i: int| parsed_note(previous_chord@[i]@).unwrap().note,
                ))),
                ..old(self)@
            }),
            r matches Err(e) ==> final(self)@ == old(self)@ && exists|i: int|
                0 <= i < previous_chord@.len() && (#[trigger] parsed_note(previous_chord@[i]@)) is None
                && (forall|j: int| 0 <= j < i ==> (#[trigger] parsed_note(previous_chord@[j]@)) is Some)
                && (e matches LilypondNoteError::InvalidNoteString(t) && t@ == previous_chord@[i]@),
    {
        let ghost values = Seq::new(
            previous_chord@.len(),
            |i: int| parsed_note(previous_chord@[i]@).unwrap().note,
        );
        let mut notes: Vec<MidiNote> = Vec::new();
        let mut i: usize = 0;
        while i < previous_chord.len()
            invariant
                i <= previous_chord@.len(),
                self@ == old(self)@,
                old(self)@.wf(),
                notes@.len() == i,
                values == Seq::new(
                    previous_chord@.len(),
                    |i: int| parsed_note(previous_chord@[i]@).unwrap().note,
                ),
                forall|j: int| 0 <= j < i ==> (#[trigger] parsed_note(previous_chord@[j]@)) is Some,
                forall|j: int| 0 <= j < i ==> notes@[j] == values[j],
            decreases previous_chord@.len() - i,
        {
            match LilyNote::from_lilypond_str(previous_chord[i].as_str()) {
                Ok(n) => {
                    notes.push(*n.note());
                },
                Err(e) => {
                    return Err(e);
                },
            }
            i = i + 1;
        }
        assert(notes@ =~= values);
        self.set_previous_chord(Some(notes));
        Ok(())
    }

    /// Sets the previous note, from which relative octaves are counted, from
    /// its text.
    ///
    /// Fails with `InvalidNoteString` where the text is no note, and then
    /// changes nothing.
    pub fn set_previous_absolute_note_reference_lilypond_str(
        &mut self,
        previous_absolute_note_reference: String,
    ) -> (r: Result<(), LilypondNoteError>)
        requires
            old(self)@.wf(),
        ensures
            final(self)@.wf(),
            match parsed_note(previous_absolute_note_reference@) {
                Some(t) => r is Ok && final(self)@ == (ParametersView {
                    previous_absolute_note_reference: Some(t.note),
                    ..old(self)@
                }),
                None => final(self)@ == old(self)@ && (r matches Err(LilypondNoteError::InvalidNoteString(e))
                    && e@ == previous_absolute_note_reference@),
            },
    {
        let n = LilyNote::from_lilypond_str(previous_absolute_note_reference.as_str())?;
        self.previous_absolute_note_reference = Some(*n.note());
        Ok(())
    }

    /// Takes the chord that was set by hand, leaving none.
    pub fn take_previous_chord(&mut self) -> (r: Option<Vec<MidiNote>>)
        requires
            old(self)@.wf(),
        ensures
            final(self)@.wf(),
            final(self)@ == (ParametersView { previous_chord: None, ..old(self)@ }),
            match r {
                Some(c) => old(self)@.previous_chord == Some(c@),
                None => old(self)@.previous_chord is None,
            },
    {
        self.previous_chord.take()
    }

    /// The chord that was set by hand, if any.
    pub fn previous_chord(&self) -> (r: Option<&Vec<MidiNote>>)
        ensures
            match r {
                Some(c) => self@.previous_chord == Some(c@),
                None => self@.previous_chord is None,
            },
    {
        self.previous_chord.as_ref()
    }

    /// The previous note, from which relative octaves are counted.
    pub fn previous_absolute_note_reference(&self) -> (r: Option<&MidiNote>)
        ensures
            match r {
                Some(n) => self@.previous_absolute_note_reference == Some(*n),
                None => self@.previous_absolute_note_reference is None,
            },
    {
        self.previous_absolute_note_reference.as_ref()
    }

    /// The `key` setting.
    pub fn key(&self) -> (r: &LilyKeySignature)
        ensures
            *r == self@.key,
    {
        &self.key
    }

    /// The `accidentals` setting.
    pub fn accidentals(&self) -> (r: &LilyAccidental)
        ensures
            *r == self@.accidentals,
    {
        &self.accidentals
    }

    /// The `mode` setting.
    pub fn mode(&self) -> (r: &InputMode)
        ensures
            *r == self@.mode,
    {
        &self.mode
    }

    /// The `language` setting.
    pub fn language(&self) -> (r: &Language)
        ensures
            *r == self@.language,
    {
        &self.language
    }

    /// The `octave_entry` setting.
    pub fn octave_entry(&self) -> (r: &OctaveEntry)
        ensures
            *r == self@.octave_entry,
    {
        &self.octave_entry
    }

    /// The `octave_check_on_next_note` setting.
    pub fn octave_check_on_next_note(&self) -> (r: &bool)
        ensures
            *r == self@.octave_check_on_next_note,
    {
        &self.octave_check_on_next_note
    }

    /// The `octave_check_notes` setting.
    pub fn octave_check_notes(&self) -> (r: &bool)
        ensures
            *r == self@.octave_check_notes,
    {
        &self.octave_check_notes
    }

    /// The `alterations` map.
    pub fn alterations(&self) -> (r: &Alteration)
        ensures
            alteration_texts(r@) == self@.alterations,
    {
        &self.alterations
    }

    /// The `global_alterations` map.
    pub fn global_alterations(&self) -> (r: &Alteration)
        ensures
            alteration_texts(r@) == self@.global_alterations,
    {
        &self.global_alterations
    }

    /// Sets `key`.
    pub fn set_key(&mut self, value: LilyKeySignature)
        requires
            old(self)@.wf(),
        ensures
            final(self)@.wf(),
            final(self)@ == (ParametersView { key: value, ..old(self)@ }),
    {
        self.key = value;
    }

    /// Sets `accidentals`.
    pub fn set_accidentals(&mut self, value: LilyAccidental)
        requires
            old(self)@.wf(),
        ensures
            final(self)@.wf(),
            final(self)@ == (ParametersView { accidentals: value, ..old(self)@ }),
    {
        self.accidentals = value;
    }

    /// Sets `mode`.
    pub fn set_mode(&mut self, value: InputMode)
        requires
            old(self)@.wf(),
        ensures
            final(self)@.wf(),
            final(self)@ == (ParametersView { mode: value, ..old(self)@ }),
    {
        self.mode = value;
    }

    /// Sets `language`.
    pub fn set_language(&mut self, value: Language)
        requires
            old(self)@.wf(),
        ensures
            final(self)@.wf(),
            final(self)@ == (ParametersView { language: value, ..old(self)@ }),
    {
        self.language = value;
    }

    /// Sets `octave_entry`.
    pub fn set_octave_entry(&mut self, value: OctaveEntry)
        requires
            old(self)@.wf(),
        ensures
            final(self)@.wf(),
            final(self)@ == (ParametersView { octave_entry: value, ..old(self)@ }),
    {
        self.octave_entry = value;
    }

    /// Sets `octave_check_on_next_note`.
    pub fn set_octave_check_on_next_note(&mut self, value: bool)
        requires
            old(self)@.wf(),
        ensures
            final(self)@.wf(),
            final(self)@ == (ParametersView { octave_check_on_next_note: value, ..old(self)@ }),
    {
        self.octave_check_on_next_note = value;
    }

    /// Sets `octave_check_notes`.
    pub fn set_octave_check_notes(&mut self, value: bool)
        requires
            old(self)@.wf(),
        ensures
            final(self)@.wf(),
            final(self)@ == (ParametersView { octave_check_notes: value, ..old(self)@ }),
    {
        self.octave_check_notes = value;
    }

    /// Replaces the global alterations.
    pub fn set_global_alterations(&mut self, value: Alteration)
        requires
            old(self)@.wf(),
        ensures
            final(self)@.wf(),
            final(self)@ == (ParametersView {
                global_alterations: alteration_texts(value@),
                ..old(self)@
            }),
    {
        self.global_alterations = value;
    }

    /// Sets the previous note, from which relative octaves are counted.
    pub fn set_previous_absolute_note_reference(&mut self, value: Option<MidiNote>)
        requires
            old(self)@.wf(),
        ensures
            final(self)@.wf(),
            final(self)@ == (ParametersView { previous_absolute_note_reference: value, ..old(self)@ }),
    {
        self.previous_absolute_note_reference = value;
    }

    /// Sets the chord that decides when a repeated chord becomes `q`: the
    /// given notes in ascending order, each once. An empty chord forgets the
    /// previous chord.
    pub fn set_previous_chord(&mut self, value: Option<Vec<MidiNote>>)
        requires
            old(self)@.wf(),
        ensures
            final(self)@.wf(),
            match value {
                Some(v) => final(self)@ == (ParametersView {
                    previous_chord: Some(note_set_of(v@)),
                    ..old(self)@
                }),
                None => final(self)@ == (ParametersView { previous_chord: None, ..old(self)@ }),
            },
    {
        match value {
            Some(v) => {
                let chord = collect_notes(&v);
                self.previous_chord = Some(chord);
            },
            None => {
                self.previous_chord = None;
            },
        }
    }
}

} // verus!
