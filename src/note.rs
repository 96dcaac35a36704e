//! One generated note: its spelling, its octave marks and its octave check.
use vstd::prelude::*;
use vstd::string::*;

use crate::errors::LilypondNoteError;
use crate::language::{alteration, note_text, Note};
use crate::octave_entry::OctaveEntry;
use crate::parameters::{LilyParameters, ParametersView};
use crate::spelling::{spell, spelling};
use crate::MidiNote;

verus! {

/// The octave of an absolute note: 0 for the octave that starts at middle C.
pub open spec fn absolute_octave(value: int) -> int {
    value / 12 - 4
}

/// The note that spells `value` under the parameters' key, accidental
/// preference and (for its text) language.
pub open spec fn spelled(p: ParametersView, value: int) -> Note {
    spelling(p.key, value % 12, p.accidentals)
}

/// `value` with the accidentals of its spelling removed: a B sharp counts as
/// the B below it, a C flat as the C above it.
pub open spec fn natural_index(p: ParametersView, value: int) -> int {
    value - alteration(spelled(p, value))
}

/// How far a note reaches before it needs an octave mark in relative entry:
/// a tritone from a B up to an F counts as a fifth, everything else reaches
/// up to a tritone.
pub open spec fn octave_threshold(previous: int, current: int) -> int {
    if previous % 12 == 11 && current % 12 == 5 && previous < current {
        5
    } else {
        6
    }
}

/// The octave marks of a note at de-accidented index `current` following one
/// at `previous` in relative entry.
pub open spec fn relative_octave(previous: int, current: int) -> int {
    let threshold = octave_threshold(previous, current);
    let interval = current - previous;
    if interval > threshold {
        // rounded up
        (interval - threshold + 11) / 12
    } else if interval < -threshold {
        // rounded down
        (interval + threshold) / 12
    } else {
        0
    }
}

/// The octave marks computed from the parameters, before any alteration.
pub open spec fn computed_octave(p: ParametersView, value: int) -> int {
    match p.octave_entry {
        OctaveEntry::Absolute => absolute_octave(value),
        OctaveEntry::Relative => match p.previous_absolute_note_reference {
            Some(r) => relative_octave(natural_index(p, r as int), natural_index(p, value)),
            None => 0,
        },
    }
}

/// The octave check computed from the parameters, before any alteration: one
/// is asked for, or relative entry has no previous note to count from.
pub open spec fn computed_check(p: ParametersView, value: int) -> Option<int> {
    if p.octave_check_on_next_note || p.octave_check_notes {
        Some(absolute_octave(value))
    } else {
        match p.octave_entry {
            OctaveEntry::Absolute => None,
            OctaveEntry::Relative => match p.previous_absolute_note_reference {
                Some(_) => None,
                None => Some(absolute_octave(value)),
            },
        }
    }
}

/// Where the run of characters equal to `c` that ends at index `k` of `s` starts.
pub open spec fn run_start(s: Seq<char>, c: char, k: int) -> int
    decreases k,
{
    if k > 0 && s[k - 1] == c {
        run_start(s, c, k - 1)
    } else {
        k
    }
}

/// Whether the text ends in an ottavation suffix, a run of `+` or of `-`.
pub open spec fn has_ottavation(s: Seq<char>) -> bool {
    s.len() > 0 && (s.last() == '+' || s.last() == '-')
}

/// The octaves that a trailing run of `+` (up) or `-` (down) adds.
pub open spec fn ottavation(s: Seq<char>) -> int {
    if has_ottavation(s) {
        let run = s.len() - run_start(s, s.last(), s.len() as int);
        if s.last() == '+' {
            run
        } else {
            -run
        }
    } else {
        0
    }
}

/// The text without its ottavation suffix.
pub open spec fn ottavation_stem(s: Seq<char>) -> Seq<char> {
    if has_ottavation(s) {
        s.subrange(0, run_start(s, s.last(), s.len() as int))
    } else {
        s
    }
}

/// `x` held to the range of an `i8`.
pub open spec fn clamp_i8(x: int) -> int {
    if x > 127 {
        127
    } else if x < -128 {
        -128
    } else {
        x
    }
}

/// What a generated note holds.
pub struct NoteToken {
    pub letter: Seq<char>,
    pub octave: int,
    pub note: MidiNote,
    pub octave_check: Option<int>,
}

/// The note generated for `value` under the parameters.
///
/// A global alteration of `value` is used as it stands, without octave marks,
/// and in relative entry with an octave check. Otherwise a local alteration of
/// its pitch class is used without its ottavation suffix, which moves the
/// octave marks (absolute entry) or the octave check (relative entry, where
/// the check is always given). Otherwise the note is spelled.
pub open spec fn note_token(p: ParametersView, value: MidiNote) -> NoteToken {
    let abs = absolute_octave(value as int);
    if p.global_alterations.contains_key(value) {
        NoteToken {
            letter: p.global_alterations[value],
            octave: 0,
            note: value,
            octave_check: match p.octave_entry {
                OctaveEntry::Relative => Some(abs),
                OctaveEntry::Absolute => computed_check(p, value as int),
            },
        }
    } else if p.alterations.contains_key((value % 12) as MidiNote) {
        let text = p.alterations[(value % 12) as MidiNote];
        match p.octave_entry {
            OctaveEntry::Absolute => NoteToken {
                letter: ottavation_stem(text),
                octave: clamp_i8(computed_octave(p, value as int) + ottavation(text)),
                note: value,
                octave_check: computed_check(p, value as int),
            },
            OctaveEntry::Relative => NoteToken {
                letter: ottavation_stem(text),
                octave: computed_octave(p, value as int),
                note: value,
                octave_check: Some(clamp_i8(abs + ottavation(text))),
            },
        }
    } else {
        NoteToken {
            letter: note_text(p.language, spelled(p, value as int)),
            octave: computed_octave(p, value as int),
            note: value,
            octave_check: computed_check(p, value as int),
        }
    }
}

/// `n` octave marks: `'` upwards, `,` downwards.
pub open spec fn octave_marks(n: int) -> Seq<char> {
    if n >= 0 {
        Seq::new(n as nat, |i: int| '\'')
    } else {
        Seq::new((-n) as nat, |i: int| ',')
    }
}

/// The text of a note: its letter, its octave marks, and `=` with the marks
/// of its octave check where it has one.
pub open spec fn token_text(t: NoteToken) -> Seq<char> {
    match t.octave_check {
        Some(c) => t.letter + octave_marks(t.octave) + seq!['='] + octave_marks(c),
        None => t.letter + octave_marks(t.octave),
    }
}

/// A note as it is rendered: letter, octave marks and octave check.
#[derive(Debug)]
pub struct LilyNote {
    /// the LilyPond note text
    letter: String,
    /// octave marks
    octave: i8,
    /// the midi value the note was made from
    note: MidiNote,
    /// absolute octave to include for an octave check
    octave_check: Option<i8>,
}

impl View for LilyNote {
    type V = NoteToken;

    closed spec fn view(&self) -> NoteToken {
        NoteToken {
            letter: self.letter@,
            octave: self.octave as int,
            note: self.note,
            octave_check: match self.octave_check {
                Some(c) => Some(c as int),
                None => None,
            },
        }
    }
}

/// A spelled note.
#[derive(Debug)]
pub struct LilyNoteRendered {
    /// the name of the note, without octave
    note_name: &'static str,
    /// the midi value with the accidental removed, for relative octave entry
    note_no_accidental: i16,
}

impl LilyNoteRendered {
    /// The name of the note.
    pub fn note_name(&self) -> (r: &'static str)
        ensures
            r@ == self.spec_name(),
    {
        self.note_name
    }

    /// The midi value with the accidental removed.
    pub fn note_no_accidental(&self) -> (r: i16)
        ensures
            r == self.spec_natural_index(),
    {
        self.note_no_accidental
    }

    /// The name of the note.
    pub closed spec fn spec_name(&self) -> Seq<char> {
        self.note_name@
    }

    /// The midi value with the accidental removed.
    pub closed spec fn spec_natural_index(&self) -> int {
        self.note_no_accidental as int
    }
}

/// Appends `n` octave marks to `s`.
fn push_marks(s: &mut String, n: i8)
    ensures
        final(s)@ == old(s)@ + octave_marks(n as int),
{
    let ghost start = s@;
    let count: u8 = if n >= 0 { n as u8 } else { (-(n as i16)) as u8 };
    let mut i: u8 = 0;
    while i < count
        invariant
            i <= count,
            count == (if n >= 0 { n as int } else { -(n as int) }),
            s@ =~= start + octave_marks(n as int).subrange(0, i as int),
        decreases count - i,
    {
        proof {
            reveal_strlit("'");
            reveal_strlit(",");
        }
        if n >= 0 {
            s.append("'");
        } else {
            s.append(",");
        }
        i = i + 1;
    }
    assert(octave_marks(n as int).subrange(0, count as int) =~= octave_marks(n as int));
}

impl LilyNote {
    /// Spells `note` under the parameters' key, accidental preference and
    /// language.
    pub fn render(note: MidiNote, parameters: &LilyParameters) -> (r: LilyNoteRendered)
        ensures
            r.spec_name() == note_text(parameters@.language, spelled(parameters@, note as int)),
            r.spec_natural_index() == natural_index(parameters@, note as int),
    {
        let n = spell(*parameters.key(), note % 12, *parameters.accidentals());
        LilyNoteRendered {
            note_name: parameters.language().note_to_str(&n),
            note_no_accidental: note as i16 - n.alteration() as i16,
        }
    }

    /// Moves `octave` by the ottavation suffix of `text` and returns the text
    /// without it.
    fn adjust_ottavation(text: &String, octave: &mut i8) -> (r: String)
        ensures
            r@ == ottavation_stem(text@),
            *final(octave) as int == clamp_i8(*old(octave) as int + ottavation(text@)),
    {
        let s = text.as_str();
        let n = s.unicode_len();
        if n == 0 {
            return s.to_string();
        }
        let last = s.get_char(n - 1);
        if last != '+' && last != '-' {
            return s.to_string();
        }
        let mut k: usize = n;
        while k > 0 && s.get_char(k - 1) == last
            invariant
                k <= n,
                n == s@.len(),
                run_start(s@, last, n as int) == run_start(s@, last, k as int),
            decreases k,
        {
            k = k - 1;
        }
        let run: usize = n - k;
        let step: i16 = if run > 1000 { 1000 } else { run as i16 };
        let moved: i16 = if last == '+' { *octave as i16 + step } else { *octave as i16 - step };
        *octave = if moved > 127 { 127 } else if moved < -128 { -128 } else { moved as i8 };
        s.substring_char(0, k).to_string()
    }

    /// The note generated for `value` under the parameters.
    pub fn new(value: MidiNote, parameters: &LilyParameters) -> (r: LilyNote)
        ensures
            r@ == note_token(parameters@, value),
    {
        let ghost p = parameters@;
        let note_rendered = Self::render(value, parameters);
        let absolute_octave: i8 = (value / 12) as i8 - 4;
        let relative = match *parameters.octave_entry() {
            OctaveEntry::Absolute => false,
            OctaveEntry::Relative => true,
        };
        let mut octave: i8 = if !relative {
            absolute_octave
        } else {
            match parameters.previous_absolute_note_reference() {
                Some(panr) => {
                    let panr_rendered = Self::render(*panr, parameters);
                    let previous: i16 = panr_rendered.note_no_accidental;
                    let current: i16 = note_rendered.note_no_accidental;
                    let next_octave_distance: i16 = if (previous + 12) % 12 == 11 && (current + 12)
                        % 12 == 5 && previous < current {
                        // the tritone from a B up to an F
                        5
                    } else {
                        6
                    };
                    let interval: i16 = current - previous;
                    if interval > next_octave_distance {
                        ((interval - next_octave_distance + 11) / 12) as i8
                    } else if interval < -next_octave_distance {
                        // rounded down: the division of a negative value rounds to zero
                        (-((-(interval + next_octave_distance) + 11) / 12)) as i8
                    } else {
                        // within a fifth
                        0
                    }
                },
                None => 0,
            }
        };
        let mut octave_check: Option<i8> = if *parameters.octave_check_on_next_note()
            || *parameters.octave_check_notes() {
            Some(absolute_octave)
        } else if !relative {
            None
        } else {
            match parameters.previous_absolute_note_reference() {
                Some(_) => None,
                None => Some(absolute_octave),
            }
        };
        let letter: String = match parameters.global_alterations().get(&value) {
            Some(text) => {
                // global alterations carry no octave marks
                octave = 0;
                if relative {
                    octave_check = Some(absolute_octave);
                }
                text.clone()
            },
            None => match parameters.alterations().get(&(value % 12)) {
                Some(text) => {
                    if !relative {
                        Self::adjust_ottavation(text, &mut octave)
                    } else {
                        let mut check = absolute_octave;
                        let stem = Self::adjust_ottavation(text, &mut check);
                        octave_check = Some(check);
                        stem
                    }
                },
                None => note_rendered.note_name.to_string(),
            },
        };
        LilyNote { letter, octave, note: value, octave_check }
    }

    /// A note made of its parts.
    pub fn from_parts(letter: String, octave: i8, note: MidiNote, octave_check: Option<i8>) -> (r: LilyNote)
        ensures
            r@ == (NoteToken {
                letter: letter@,
                octave: octave as int,
                note,
                octave_check: match octave_check {
                    Some(c) => Some(c as int),
                    None => None,
                },
            }),
    {
        LilyNote { letter, octave, note, octave_check }
    }

    /// The midi value of the note.
    pub fn note(&self) -> (r: &MidiNote)
        ensures
            *r == self@.note,
    {
        &self.note
    }

    /// The text of the note.
    pub fn to_text(&self) -> (r: String)
        ensures
            r@ == token_text(self@),
    {
        let mut s = self.letter.as_str().to_string();
        push_marks(&mut s, self.octave);
        match self.octave_check {
            Some(check) => {
                proof {
                    reveal_strlit("=");
                }
                s.append("=");
                push_marks(&mut s, check);
            },
            None => {},
        }
        s
    }
}

} // verus!
