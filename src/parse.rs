//! Reading note text back into an absolute pitch.
use vstd::prelude::*;
use vstd::string::*;

use crate::errors::LilypondNoteError;
use crate::note::{LilyNote, NoteToken};
use crate::MidiNote;

verus! {

/// The pitch class of a note letter.
pub open spec fn letter_class(c: char) -> Option<int> {
    if c == 'c' {
        Some(0)
    } else if c == 'd' {
        Some(2)
    } else if c == 'e' {
        Some(4)
    } else if c == 'f' {
        Some(5)
    } else if c == 'g' {
        Some(7)
    } else if c == 'a' {
        Some(9)
    } else if c == 'b' {
        Some(11)
    } else {
        None
    }
}

/// The semitones that a Dutch accidental suffix adds: none, `is`, `isis`,
/// `es` or `eses`.
pub open spec fn suffix_alteration(s: Seq<char>) -> Option<int> {
    if s.len() == 0 {
        Some(0)
    } else if s.len() == 2 && s[1] == 's' && (s[0] == 'i' || s[0] == 'e') {
        if s[0] == 'i' {
            Some(1)
        } else {
            Some(-1)
        }
    } else if s.len() == 4 && s[1] == 's' && s[3] == 's' && s[0] == s[2] && (s[0] == 'i' || s[0]
        == 'e') {
        if s[0] == 'i' {
            Some(2)
        } else {
            Some(-2)
        }
    } else {
        None
    }
}

/// The pitch class that a Dutch note name (a letter, then `is` for each sharp
/// or `es` for each flat, up to two) stands for, whatever the key.
pub open spec fn name_class(name: Seq<char>) -> Option<int> {
    if name.len() == 0 {
        None
    } else {
        match (letter_class(name[0]), suffix_alteration(name.subrange(1, name.len() as int))) {
            (Some(l), Some(a)) => Some((l + a) % 12),
            _ => None,
        }
    }
}

/// Whether `c` is an octave mark.
pub open spec fn is_mark(c: char) -> bool {
    c == '\'' || c == ','
}

/// The index of the first octave mark of `t` at or after `i`, or the length
/// of `t` where there is none.
pub open spec fn mark_start(t: Seq<char>, i: int) -> int
    decreases t.len() - i,
{
    if i >= t.len() {
        t.len() as int
    } else if is_mark(t[i]) {
        i
    } else {
        mark_start(t, i + 1)
    }
}

/// The octave that a run of marks gives: the number of `'`, or minus the
/// number of `,`. A run that mixes the two gives none.
pub open spec fn marks_value(m: Seq<char>) -> Option<int> {
    if forall|i: int| 0 <= i < m.len() ==> m[i] == '\'' {
        Some(m.len() as int)
    } else if forall|i: int| 0 <= i < m.len() ==> m[i] == ',' {
        Some(-(m.len() as int))
    } else {
        None
    }
}

/// The note that a text reads as: a note name followed by octave marks, with
/// a value that is a MIDI note.
pub open spec fn parsed_note(t: Seq<char>) -> Option<NoteToken> {
    let k = mark_start(t, 0);
    let name = t.subrange(0, k);
    match (name_class(name), marks_value(t.subrange(k, t.len() as int))) {
        (Some(pc), Some(o)) => {
            let v = (o + 4) * 12 + pc;
            if 0 <= v <= 127 {
                Some(NoteToken { letter: name, octave: o, note: v as MidiNote, octave_check: None })
            } else {
                None
            }
        },
        _ => None,
    }
}

/// The pitch class of a Dutch note name.
fn name_class_exec(name: &str) -> (r: Option<u8>)
    ensures
        match name_class(name@) {
            Some(pc) => r == Some(pc as u8),
            None => r is None,
        },
{
    let n = name.unicode_len();
    if n == 0 {
        return None;
    }
    let c = name.get_char(0);
    let letter: i8 = if c == 'c' {
        0
    } else if c == 'd' {
        2
    } else if c == 'e' {
        4
    } else if c == 'f' {
        5
    } else if c == 'g' {
        7
    } else if c == 'a' {
        9
    } else if c == 'b' {
        11
    } else {
        return None;
    };
    let ghost suffix = name@.subrange(1, n as int);
    let alter: i8 = if n == 1 {
        0
    } else if n == 3 && name.get_char(2) == 's' && (name.get_char(1) == 'i' || name.get_char(1) == 'e') {
        if name.get_char(1) == 'i' {
            1
        } else {
            -1
        }
    } else if n == 5 && name.get_char(2) == 's' && name.get_char(4) == 's' && name.get_char(1)
        == name.get_char(3) && (name.get_char(1) == 'i' || name.get_char(1) == 'e') {
        if name.get_char(1) == 'i' {
            2
        } else {
            -2
        }
    } else {
        return None;
    };
    Some(((letter + alter + 12) % 12) as u8)
}

impl LilyNote {
    /// Reads a note from its text: a Dutch note name, then octave marks.
    ///
    /// Fails with `InvalidNoteString` where the text is no such note, or
    /// names a pitch outside the MIDI range.
    pub fn from_lilypond_str(s: &str) -> (r: Result<LilyNote, LilypondNoteError>)
        ensures
            match parsed_note(s@) {
                Some(t) => r matches Ok(n) && n@ == t,
                None => r matches Err(LilypondNoteError::InvalidNoteString(e)) && e@ == s@,
            },
    {
        let n = s.unicode_len();
        let mut k: usize = 0;
        while k < n && s.get_char(k) != '\'' && s.get_char(k) != ','
            invariant
                k <= n,
                n == s@.len(),
                mark_start(s@, 0) == mark_start(s@, k as int),
            decreases n - k,
        {
            k = k + 1;
        }
        let name = s.substring_char(0, k);
        let pc = match name_class_exec(name) {
            Some(pc) => pc,
            None => return Err(LilypondNoteError::InvalidNoteString(s.to_string())),
        };
        let ghost marks = s@.subrange(k as int, n as int);
        let count: usize = n - k;
        let mut up = true;
        let mut down = true;
        let mut i: usize = k;
        while i < n
            invariant
                k <= i <= n,
                n == s@.len(),
                marks == s@.subrange(k as int, n as int),
                up == (forall|j: int| 0 <= j < i - k ==> marks[j] == '\''),
                down == (forall|j: int| 0 <= j < i - k ==> marks[j] == ','),
            decreases n - i,
        {
            let c = s.get_char(i);
            proof {
                assert(marks[i - k] == c);
                if !up {
                    let j = choose|j: int| 0 <= j < i - k && marks[j] != '\'';
                    assert(marks[j] != '\'');
                }
                if !down {
                    let j = choose|j: int| 0 <= j < i - k && marks[j] != ',';
                    assert(marks[j] != ',');
                }
            }
            up = up && c == '\'';
            down = down && c == ',';
            i = i + 1;
        }
        if count > 12 || !(up || down) {
            return Err(LilypondNoteError::InvalidNoteString(s.to_string()));
        }
        let octave: i8 = if up { count as i8 } else { -(count as i8) };
        let value: i16 = (octave as i16 + 4) * 12 + pc as i16;
        if value < 0 || value > 127 {
            return Err(LilypondNoteError::InvalidNoteString(s.to_string()));
        }
        Ok(LilyNote::from_parts(name.to_string(), octave, value as u8, None))
    }
}

} // verus!
