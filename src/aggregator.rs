//! The chord and pedal aggregation state machine: it turns raw note and pedal
//! events into single notes, chords and repeated-chord shorthands.
use vstd::prelude::*;
use vstd::string::*;

use crate::input_mode::InputMode;
use crate::midi::MidiMessageType;
use crate::note::{note_token, token_text, LilyNote};
use crate::note_set::{insert_note, is_note_set, remove_note, same_notes, set_insert, set_remove};
use crate::parameters::{LilyParameters, ParametersView};
use crate::MidiNote;

verus! {

/// What the aggregator holds between events.
pub struct AggregatorView {
    /// notes pressed since the last flush, in ascending order
    pub notes: Seq<MidiNote>,
    /// keys held down, in ascending order
    pub pressed: Seq<MidiNote>,
    /// pedals held down, in ascending order
    pub pedals: Seq<MidiNote>,
    /// the last chord that was written out
    pub last_chord: Option<Seq<MidiNote>>,
}

impl AggregatorView {
    /// The three sets are in ascending order without repeats.
    pub open spec fn wf(self) -> bool {
        &&& is_note_set(self.notes)
        &&& is_note_set(self.pressed)
        &&& is_note_set(self.pedals)
    }
}

/// Whether held notes make a chord: always in chord mode, never in single
/// mode, and in the pedal modes depending on whether a pedal is held.
pub open spec fn uses_chords(mode: InputMode, pedals: Seq<MidiNote>) -> bool {
    match mode {
        InputMode::Single => false,
        InputMode::Chord => true,
        InputMode::PedalChord => pedals.len() != 0,
        InputMode::PedalSingle => pedals.len() == 0,
    }
}

/// The parameters after writing out `n`: it is the note to count the next
/// relative octave from, and a one-time octave check has been used.
pub open spec fn after_note(p: ParametersView, n: MidiNote) -> ParametersView {
    ParametersView {
        previous_absolute_note_reference: Some(n),
        octave_check_on_next_note: false,
        ..p
    }
}

/// The parameters under which the note at index `i` of a chord is written.
pub open spec fn chord_parameters(p: ParametersView, notes: Seq<MidiNote>, i: int) -> ParametersView {
    if i == 0 {
        p
    } else {
        after_note(p, notes[i - 1])
    }
}

/// The texts of the notes of a chord, each counted from the one before.
pub open spec fn chord_note_texts(p: ParametersView, notes: Seq<MidiNote>) -> Seq<Seq<char>> {
    Seq::new(
        notes.len(),
        |i: int| token_text(note_token(chord_parameters(p, notes, i), notes[i])),
    )
}

/// Texts separated by single spaces.
pub open spec fn joined(texts: Seq<Seq<char>>) -> Seq<char>
    decreases texts.len(),
{
    if texts.len() == 0 {
        Seq::empty()
    } else if texts.len() == 1 {
        texts[0]
    } else {
        joined(texts.drop_last()) + seq![' '] + texts.last()
    }
}

/// The text of a chord: its notes between `<` and `>`.
pub open spec fn chord_text(p: ParametersView, notes: Seq<MidiNote>) -> Seq<char> {
    seq!['<'] + joined(chord_note_texts(p, notes)) + seq!['>']
}

/// The outcome of a flush: pending notes, last chord, parameters and the
/// text written out.
pub struct Flush {
    pub notes: Seq<MidiNote>,
    pub last_chord: Option<Seq<MidiNote>>,
    pub parameters: ParametersView,
    pub output: Option<Seq<char>>,
}

/// A flush once every key is released. Without chords the lowest pending note
/// is written out and the others stay pending; with chords a single note is
/// written out as such, and several notes as a chord, or as `q` where they
/// repeat the last chord.
pub open spec fn flush(
    chords: bool,
    notes: Seq<MidiNote>,
    last: Option<Seq<MidiNote>>,
    p: ParametersView,
) -> Flush {
    if notes.len() == 0 {
        Flush { notes, last_chord: last, parameters: p, output: None }
    } else if !chords || notes.len() == 1 {
        Flush {
            notes: notes.drop_first(),
            last_chord: last,
            parameters: after_note(p, notes[0]),
            output: Some(token_text(note_token(p, notes[0]))),
        }
    } else {
        Flush {
            notes: Seq::empty(),
            last_chord: Some(notes),
            parameters: after_note(p, notes[0]),
            output: Some(
                if last == Some(notes) {
                    seq!['q']
                } else {
                    chord_text(p, notes)
                },
            ),
        }
    }
}

/// The outcome of one event.
pub struct Step {
    pub state: AggregatorView,
    pub parameters: ParametersView,
    pub output: Option<Seq<char>>,
}

/// After a note event: a flush if no key is held any more.
pub open spec fn after_note_event(a: AggregatorView, p: ParametersView, chords: bool) -> Step {
    if a.pressed.len() != 0 {
        Step { state: a, parameters: p, output: None }
    } else {
        let f = flush(chords, a.notes, a.last_chord, p);
        Step {
            state: AggregatorView { notes: f.notes, last_chord: f.last_chord, ..a },
            parameters: f.parameters,
            output: f.output,
        }
    }
}

/// The chord that was set by hand replaces the last chord (an empty one
/// forgets it).
pub open spec fn adopted_last_chord(a: AggregatorView, p: ParametersView) -> Option<Seq<MidiNote>> {
    match p.previous_chord {
        Some(c) => if c.len() == 0 {
            None
        } else {
            Some(c)
        },
        None => a.last_chord,
    }
}

/// The outcome of event `e` in state `a` under parameters `p`.
pub open spec fn step(a: AggregatorView, p: ParametersView, e: MidiMessageType) -> Step {
    let p1 = ParametersView { previous_chord: None, ..p };
    let a1 = AggregatorView { last_chord: adopted_last_chord(a, p), ..a };
    let chords = uses_chords(p.mode, a.pedals);
    match e {
        MidiMessageType::NoteOn { note, .. } => after_note_event(
            AggregatorView {
                pressed: set_insert(a.pressed, note),
                notes: set_insert(a.notes, note),
                ..a1
            },
            p1,
            chords,
        ),
        MidiMessageType::NoteOff { note, .. } => after_note_event(
            AggregatorView { pressed: set_remove(a.pressed, note), ..a1 },
            p1,
            chords,
        ),
        MidiMessageType::PedalOn { pedal, .. } => Step {
            state: AggregatorView { pedals: set_insert(a.pedals, pedal), ..a1 },
            parameters: p1,
            output: None,
        },
        MidiMessageType::PedalOff { pedal } => Step {
            state: AggregatorView { pedals: set_remove(a.pedals, pedal), ..a1 },
            parameters: p1,
            output: None,
        },
        MidiMessageType::Unknown => Step { state: a1, parameters: p1, output: None },
    }
}

/// The view of an optional text.
pub open spec fn text_view(t: Option<String>) -> Option<Seq<char>> {
    match t {
        Some(s) => Some(s@),
        None => None,
    }
}

/// The state that turns note and pedal events into note text.
#[derive(Debug)]
pub struct ChordAggregator {
    notes: Vec<MidiNote>,
    pressed: Vec<MidiNote>,
    pedals: Vec<MidiNote>,
    last_chord: Option<Vec<MidiNote>>,
}

impl View for ChordAggregator {
    type V = AggregatorView;

    closed spec fn view(&self) -> AggregatorView {
        AggregatorView {
            notes: self.notes@,
            pressed: self.pressed@,
            pedals: self.pedals@,
            last_chord: match self.last_chord {
                Some(c) => Some(c@),
                None => None,
            },
        }
    }
}

impl ChordAggregator {
    /// An aggregator with nothing pressed and no last chord.
    pub fn new() -> (r: ChordAggregator)
        ensures
            r@ == (AggregatorView {
                notes: Seq::empty(),
                pressed: Seq::empty(),
                pedals: Seq::empty(),
                last_chord: None,
            }),
            r@.wf(),
    {
        ChordAggregator { notes: Vec::new(), pressed: Vec::new(), pedals: Vec::new(), last_chord: None }
    }

    /// Writes out the note `n` and makes it the note to count from.
    fn write_note(n: MidiNote, parameters: &mut LilyParameters) -> (r: String)
        requires
            old(parameters)@.wf(),
        ensures
            final(parameters)@.wf(),
            r@ == token_text(note_token(old(parameters)@, n)),
            final(parameters)@ == after_note(old(parameters)@, n),
    {
        let text = LilyNote::new(n, parameters).to_text();
        parameters.set_previous_absolute_note_reference(Some(n));
        parameters.set_octave_check_on_next_note(false);
        text
    }

    /// Writes out the notes of a chord, each counted from the one before.
    fn write_chord(notes: &Vec<MidiNote>, parameters: &mut LilyParameters) -> (r: String)
        requires
            old(parameters)@.wf(),
            notes@.len() > 0,
        ensures
            final(parameters)@.wf(),
            r@ == chord_text(old(parameters)@, notes@),
            final(parameters)@ == after_note(old(parameters)@, notes@.last()),
    {
        proof {
            reveal_strlit("<");
            reveal_strlit(">");
            reveal_strlit(" ");
        }
        let ghost p = parameters@;
        let ghost texts = chord_note_texts(p, notes@);
        let mut inner = String::new();
        let mut i: usize = 0;
        while i < notes.len()
            invariant
                i <= notes@.len(),
                notes@.len() > 0,
                texts == chord_note_texts(p, notes@),
                parameters@.wf(),
                parameters@ == chord_parameters(p, notes@, i as int),
                inner@ == joined(texts.take(i as int)),
            decreases notes@.len() - i,
        {
            if i > 0 {
                proof {
                    reveal_strlit(" ");
                }
                inner.append(" ");
            }
            let text = Self::write_note(notes[i], parameters);
            inner.append(text.as_str());
            proof {
                assert(texts.take(i + 1).drop_last() =~= texts.take(i as int));
                assert(texts.take(i + 1).last() == texts[i as int]);
            }
            i = i + 1;
        }
        assert(texts.take(notes@.len() as int) =~= texts);
        let mut out = String::new();
        out.append("<");
        out.append(inner.as_str());
        out.append(">");
        out
    }

    /// Writes out what is pending now that no key is held.
    fn flush(&mut self, chords: bool, parameters: &mut LilyParameters) -> (r: Option<String>)
        requires
            old(self)@.wf(),
            old(parameters)@.wf(),
        ensures
            final(self)@.wf(),
            final(parameters)@.wf(),
            ({
                let f = flush(chords, old(self)@.notes, old(self)@.last_chord, old(parameters)@);
                &&& final(self)@ == (AggregatorView {
                    notes: f.notes,
                    last_chord: f.last_chord,
                    ..old(self)@
                })
                &&& final(parameters)@ == f.parameters
                &&& text_view(r) == f.output
            }),
    {
        let n = self.notes.len();
        if n == 0 {
            return None;
        }
        if !chords || n == 1 {
            let first = self.notes.remove(0);
            return Some(Self::write_note(first, parameters));
        }
        let first = self.notes[0];
        let text = Self::write_chord(&self.notes, parameters);
        // the note to count from is the lowest of the chord
        parameters.set_previous_absolute_note_reference(Some(first));
        parameters.set_octave_check_on_next_note(false);
        let repeated = match &self.last_chord {
            Some(last) => same_notes(last, &self.notes),
            None => false,
        };
        let notes = self.notes.clone();
        self.notes = Vec::new();
        self.last_chord = Some(notes);
        if repeated {
            proof {
                reveal_strlit("q");
            }
            Some("q".to_string())
        } else {
            Some(text)
        }
    }

    /// Handles one event, and returns the text written out, if any.
    pub fn handle_event(&mut self, parameters: &mut LilyParameters, event: &MidiMessageType) -> (r: Option<String>)
        requires
            old(self)@.wf(),
            old(parameters)@.wf(),
        ensures
            final(self)@.wf(),
            final(parameters)@.wf(),
            ({
                let s = step(old(self)@, old(parameters)@, *event);
                &&& final(self)@ == s.state
                &&& final(parameters)@ == s.parameters
                &&& text_view(r) == s.output
            }),
    {
        let chords = match parameters.mode() {
            InputMode::Single => false,
            InputMode::Chord => true,
            InputMode::PedalChord => self.pedals.len() != 0,
            InputMode::PedalSingle => self.pedals.len() == 0,
        };
        if let Some(previous) = parameters.take_previous_chord() {
            if previous.len() == 0 {
                self.last_chord = None;
            } else {
                self.last_chord = Some(previous);
            }
        }
        match event {
            MidiMessageType::NoteOn { note, .. } => {
                insert_note(&mut self.pressed, *note);
                insert_note(&mut self.notes, *note);
            },
            MidiMessageType::NoteOff { note, .. } => {
                remove_note(&mut self.pressed, *note);
            },
            MidiMessageType::PedalOn { pedal, .. } => {
                insert_note(&mut self.pedals, *pedal);
                return None;
            },
            MidiMessageType::PedalOff { pedal } => {
                remove_note(&mut self.pedals, *pedal);
                return None;
            },
            MidiMessageType::Unknown => {
                return None;
            },
        }
        if self.pressed.len() != 0 {
            return None;
        }
        self.flush(chords, parameters)
    }
}

} // verus!
