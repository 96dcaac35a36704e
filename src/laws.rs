//! Laws that relate the spelling, the note text, the alterations and the
//! chord shorthand.
use vstd::prelude::*;

use crate::accidentals::LilyAccidental;
use crate::aggregator::flush;
use crate::keysignature::LilyKeySignature;
use crate::language::{alteration, natural_class, note_text, Language, Note};
use crate::note::{
    computed_octave, note_token, octave_marks, ottavation_stem, NoteToken,
};
use crate::octave_entry::OctaveEntry;
use crate::parameters::ParametersView;
use crate::parse::{is_mark, mark_start, marks_value, name_class, parsed_note};
use crate::spelling::spelling;
use crate::MidiNote;

verus! {

/// The pitch class that a note sounds.
pub open spec fn sounding_class(n: Note) -> int {
    (natural_class(n) + alteration(n)) % 12
}

/// The spelling of a pitch class sounds that pitch class.
pub proof fn lemma_spelling_sounds_pitch_class(key: LilyKeySignature, pc: int, pref: LilyAccidental)
    requires
        0 <= pc < 12,
    ensures
        sounding_class(spelling(key, pc, pref)) == pc,
{
}

/// A Dutch note name holds no octave mark and reads back as the pitch class
/// that the note sounds.
proof fn lemma_dutch_name(n: Note)
    ensures
        note_text(Language::Nederlands, n).len() > 0,
        forall|i: int| 0 <= i < note_text(Language::Nederlands, n).len()
            ==> !is_mark(#[trigger] note_text(Language::Nederlands, n)[i]),
        name_class(note_text(Language::Nederlands, n)) == Some(sounding_class(n)),
{
    reveal_strlit("a");
    reveal_strlit("aes");
    reveal_strlit("ais");
    reveal_strlit("b");
    reveal_strlit("bes");
    reveal_strlit("bis");
    reveal_strlit("c");
    reveal_strlit("ces");
    reveal_strlit("cis");
    reveal_strlit("cisis");
    reveal_strlit("d");
    reveal_strlit("des");
    reveal_strlit("dis");
    reveal_strlit("e");
    reveal_strlit("ees");
    reveal_strlit("eis");
    reveal_strlit("f");
    reveal_strlit("fes");
    reveal_strlit("fis");
    reveal_strlit("fisis");
    reveal_strlit("g");
    reveal_strlit("ges");
    reveal_strlit("gis");
    reveal_strlit("gisis");
}

/// The first octave mark at or after `i` is at `k` where none lies between.
proof fn lemma_mark_start(t: Seq<char>, i: int, k: int)
    requires
        0 <= i <= k <= t.len(),
        forall|j: int| i <= j < k ==> !is_mark(#[trigger] t[j]),
        k == t.len() || is_mark(t[k]),
    ensures
        mark_start(t, i) == k,
    decreases k - i,
{
    if i < k {
        lemma_mark_start(t, i + 1, k);
    }
}

/// A run of octave marks reads back as its octave.
proof fn lemma_marks_value(o: int)
    ensures
        marks_value(octave_marks(o)) == Some(o),
        octave_marks(o).len() == (if o >= 0 { o } else { -o }),
        o != 0 ==> is_mark(octave_marks(o)[0]),
{
    let m = octave_marks(o);
    if o < 0 {
        assert(m[0] == ',');
        assert(!(forall|i: int| 0 <= i < m.len() ==> m[i] == '\''));
    }
}

/// Reading the text of a spelled note in Dutch with `octave` octave marks and
/// no octave check gives back the note's pitch: `(octave + 4) * 12 + pc`,
/// whatever the key and the accidental preference.
pub proof fn lemma_spelled_text_round_trip(
    key: LilyKeySignature,
    pc: int,
    pref: LilyAccidental,
    octave: int,
)
    requires
        0 <= pc < 12,
        0 <= (octave + 4) * 12 + pc <= 127,
    ensures
        ({
            let name = note_text(Language::Nederlands, spelling(key, pc, pref));
            parsed_note(name + octave_marks(octave)) == Some(NoteToken {
                letter: name,
                octave,
                note: ((octave + 4) * 12 + pc) as MidiNote,
                octave_check: None,
            })
        }),
{
    let n = spelling(key, pc, pref);
    let name = note_text(Language::Nederlands, n);
    let marks = octave_marks(octave);
    let t = name + marks;
    lemma_spelling_sounds_pitch_class(key, pc, pref);
    lemma_dutch_name(n);
    lemma_marks_value(octave);
    assert forall|j: int| 0 <= j < name.len() implies !is_mark(#[trigger] t[j]) by {
        assert(t[j] == name[j]);
    }
    if marks.len() > 0 {
        assert(t[name.len() as int] == marks[0]);
    }
    lemma_mark_start(t, 0, name.len() as int);
    assert(t.subrange(0, name.len() as int) =~= name);
    assert(t.subrange(name.len() as int, t.len() as int) =~= marks);
}

/// Without a previous note, a note in relative entry carries no octave marks
/// and an octave check.
pub proof fn lemma_first_relative_note_is_checked(p: ParametersView, value: MidiNote)
    requires
        p.octave_entry == OctaveEntry::Relative,
        p.previous_absolute_note_reference is None,
    ensures
        note_token(p, value).octave == 0,
        note_token(p, value).octave_check is Some,
{
}

/// A global alteration of a note masks a local alteration of its pitch class,
/// and a local alteration masks the spelling table.
pub proof fn lemma_alteration_priority(p: ParametersView, value: MidiNote)
    ensures
        p.global_alterations.contains_key(value) ==> note_token(p, value).letter
            == p.global_alterations[value],
        !p.global_alterations.contains_key(value) && p.alterations.contains_key(
            (value % 12) as MidiNote,
        ) ==> note_token(p, value).letter == ottavation_stem(
            p.alterations[(value % 12) as MidiNote],
        ),
{
}

/// Once a chord of several notes is written out, writing out the same notes
/// as a chord again gives the shorthand `q`, whatever the parameters are by
/// then.
pub proof fn lemma_repeated_chord_is_shorthand(
    notes: Seq<MidiNote>,
    last: Option<Seq<MidiNote>>,
    p: ParametersView,
    q: ParametersView,
)
    requires
        notes.len() > 1,
    ensures
        flush(true, notes, flush(true, notes, last, p).last_chord, q).output == Some(seq!['q']),
{
}

} // verus!
