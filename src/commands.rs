//! The grammar of parameter commands: `key=value` words on a line, and
//! `note:text` entries separated by commas in alteration values.
use vstd::prelude::*;
use vstd::string::*;

use crate::MidiNote;

verus! {

/// An ASCII letter or digit, or `-`: a character of a key.
pub open spec fn is_key_char(c: char) -> bool {
    ('a' <= c <= 'z') || ('A' <= c <= 'Z') || ('0' <= c <= '9') || c == '-'
}

/// ASCII white space.
pub open spec fn is_space(c: char) -> bool {
    c == ' ' || c == '\t' || c == '\n' || c == '\r' || c == '\x0B' || c == '\x0C'
}

/// A character of a value: anything but a comma in an entry list
/// (`entries`), anything but white space on a command line.
pub open spec fn is_value_char(c: char, entries: bool) -> bool {
    if entries {
        c != ','
    } else {
        !is_space(c)
    }
}

/// The separator between a key and its value.
pub open spec fn separator(entries: bool) -> char {
    if entries {
        ':'
    } else {
        '='
    }
}

/// The end of the run of key characters that starts at `i`.
pub open spec fn key_end(s: Seq<char>, i: int) -> int
    decreases s.len() - i,
{
    if 0 <= i < s.len() && is_key_char(s[i]) {
        key_end(s, i + 1)
    } else {
        i
    }
}

/// The end of the run of value characters that starts at `i`.
pub open spec fn value_end(s: Seq<char>, i: int, entries: bool) -> int
    decreases s.len() - i,
{
    if 0 <= i < s.len() && is_value_char(s[i], entries) {
        value_end(s, i + 1, entries)
    } else {
        i
    }
}

/// Whether a pair starts at `i`: a key, the separator, and a value, each
/// part as long as it can be.
pub open spec fn pair_at(s: Seq<char>, i: int, entries: bool) -> bool {
    let k = key_end(s, i);
    &&& k > i
    &&& k < s.len()
    &&& s[k] == separator(entries)
    &&& value_end(s, k + 1, entries) > k + 1
}

/// The pairs found from index `i` on, each searched for where the previous
/// one ended.
pub open spec fn pairs_from(s: Seq<char>, i: int, entries: bool) -> Seq<(Seq<char>, Seq<char>)>
    decreases s.len() - i,
    via pairs_from_decreases
{
    if i < 0 || i >= s.len() {
        Seq::empty()
    } else if pair_at(s, i, entries) {
        let k = key_end(s, i);
        let v = value_end(s, k + 1, entries);
        seq![(s.subrange(i, k), s.subrange(k + 1, v))] + pairs_from(s, v, entries)
    } else {
        pairs_from(s, i + 1, entries)
    }
}

/// A run of value characters ends within the text.
proof fn lemma_value_end_bounded(s: Seq<char>, i: int, entries: bool)
    requires
        0 <= i <= s.len(),
    ensures
        i <= value_end(s, i, entries) <= s.len(),
    decreases s.len() - i,
{
    if i < s.len() && is_value_char(s[i], entries) {
        lemma_value_end_bounded(s, i + 1, entries);
    }
}

/// A run of key characters ends within the text.
proof fn lemma_key_end_bounded(s: Seq<char>, i: int)
    requires
        0 <= i <= s.len(),
    ensures
        i <= key_end(s, i) <= s.len(),
    decreases s.len() - i,
{
    if i < s.len() && is_key_char(s[i]) {
        lemma_key_end_bounded(s, i + 1);
    }
}

#[via_fn]
proof fn pairs_from_decreases(s: Seq<char>, i: int, entries: bool) {
    if 0 <= i < s.len() && pair_at(s, i, entries) {
        let k = key_end(s, i);
        lemma_key_end_bounded(s, i);
        lemma_value_end_bounded(s, k + 1, entries);
    }
}

/// The value of a run of decimal digits.
pub open spec fn digits_value(s: Seq<char>) -> int
    decreases s.len(),
{
    if s.len() == 0 {
        0
    } else {
        digits_value(s.drop_last()) * 10 + (s.last() as int - '0' as int)
    }
}

/// The note number that a key stands for: decimal digits with a value that
/// fits in a byte.
pub open spec fn note_number(s: Seq<char>) -> Option<MidiNote> {
    if s.len() > 0 && (forall|i: int| 0 <= i < s.len() ==> '0' <= #[trigger] s[i] <= '9')
        && digits_value(s) <= 255 {
        Some(digits_value(s) as MidiNote)
    } else {
        None
    }
}

/// The entries of an alteration list: `None` where a key is not a note
/// number.
pub open spec fn subkeys(s: Seq<char>) -> Option<Seq<(MidiNote, Seq<char>)>> {
    let pairs = pairs_from(s, 0, true);
    if forall|i: int| 0 <= i < pairs.len() ==> (#[trigger] note_number(pairs[i].0)) is Some {
        Some(Seq::new(pairs.len(), |i: int| (note_number(pairs[i].0).unwrap(), pairs[i].1)))
    } else {
        None
    }
}

fn key_char(c: char) -> (r: bool)
    ensures
        r == is_key_char(c),
{
    ('a' <= c && c <= 'z') || ('A' <= c && c <= 'Z') || ('0' <= c && c <= '9') || c == '-'
}

fn value_char(c: char, entries: bool) -> (r: bool)
    ensures
        r == is_value_char(c, entries),
{
    if entries {
        c != ','
    } else {
        !(c == ' ' || c == '\t' || c == '\n' || c == '\r' || c == '\x0B' || c == '\x0C')
    }
}

/// The end of the run of key characters at `i`.
fn scan_key(s: &str, n: usize, i: usize) -> (r: usize)
    requires
        n == s@.len(),
        i <= n,
    ensures
        r == key_end(s@, i as int),
        i <= r <= n,
{
    let mut j = i;
    while j < n && key_char(s.get_char(j))
        invariant
            i <= j <= n,
            n == s@.len(),
            key_end(s@, i as int) == key_end(s@, j as int),
        decreases n - j,
    {
        j = j + 1;
    }
    j
}

/// The end of the run of value characters at `i`.
fn scan_value(s: &str, n: usize, i: usize, entries: bool) -> (r: usize)
    requires
        n == s@.len(),
        i <= n,
    ensures
        r == value_end(s@, i as int, entries),
        i <= r <= n,
{
    let mut j = i;
    while j < n && value_char(s.get_char(j), entries)
        invariant
            i <= j <= n,
            n == s@.len(),
            value_end(s@, i as int, entries) == value_end(s@, j as int, entries),
        decreases n - j,
    {
        j = j + 1;
    }
    j
}

/// The key and value texts of every pair in `s`.
fn pairs(s: &str, entries: bool) -> (r: Vec<(String, String)>)
    ensures
        r@.len() == pairs_from(s@, 0, entries).len(),
        forall|i: int| 0 <= i < r@.len() ==> (#[trigger] r@[i]).0@ == pairs_from(s@, 0, entries)[i].0
            && r@[i].1@ == pairs_from(s@, 0, entries)[i].1,
{
    let n = s.unicode_len();
    let ghost all = pairs_from(s@, 0, entries);
    let mut r: Vec<(String, String)> = Vec::new();
    let mut i: usize = 0;
    while i < n
        invariant
            i <= n,
            n == s@.len(),
            all == pairs_from(s@, 0, entries),
            all == Seq::new(r@.len() as nat, |j: int| (r@[j].0@, r@[j].1@)) + pairs_from(s@, i as int, entries),
        decreases n - i,
    {
        let ghost done = Seq::new(r@.len() as nat, |j: int| (r@[j].0@, r@[j].1@));
        let k = scan_key(s, n, i);
        let sep = if entries { ':' } else { '=' };
        if k > i && k < n && s.get_char(k) == sep {
            let v = scan_value(s, n, k + 1, entries);
            if v > k + 1 {
                let key = s.substring_char(i, k).to_string();
                let value = s.substring_char(k + 1, v).to_string();
                r.push((key, value));
                proof {
                    let now = Seq::new(r@.len() as nat, |j: int| (r@[j].0@, r@[j].1@));
                    assert(now =~= done.push((s@.subrange(i as int, k as int), s@.subrange(k + 1, v as int))));
                    assert(now + pairs_from(s@, v as int, entries) =~= done + pairs_from(s@, i as int, entries));
                }
                i = v;
                continue;
            }
        }
        i = i + 1;
    }
    proof {
        let done = Seq::new(r@.len() as nat, |j: int| (r@[j].0@, r@[j].1@));
        assert(all =~= done);
        assert forall|j: int| 0 <= j < r@.len() implies (#[trigger] r@[j]).0@ == all[j].0 && r@[j].1@ == all[j].1 by {
            assert(done[j] == (r@[j].0@, r@[j].1@));
        }
    }
    r
}

/// The `key=value` words of a command line, in order.
pub fn key_value_pairs(s: &str) -> (r: Vec<(String, String)>)
    ensures
        r@.len() == pairs_from(s@, 0, false).len(),
        forall|i: int| 0 <= i < r@.len() ==> (#[trigger] r@[i]).0@ == pairs_from(s@, 0, false)[i].0
            && r@[i].1@ == pairs_from(s@, 0, false)[i].1,
{
    pairs(s, false)
}

/// Reads a note number from decimal digits.
fn parse_note_number(s: &str) -> (r: Option<MidiNote>)
    ensures
        r == note_number(s@),
{
    let n = s.unicode_len();
    if n == 0 {
        return None;
    }
    let mut value: u16 = 0;
    let mut i: usize = 0;
    while i < n
        invariant
            i <= n,
            n == s@.len(),
            n > 0,
            value <= 255,
            value == digits_value(s@.subrange(0, i as int)),
            forall|j: int| 0 <= j < i ==> '0' <= #[trigger] s@[j] <= '9',
        decreases n - i,
    {
        let c = s.get_char(i);
        if !('0' <= c && c <= '9') {
            assert(!('0' <= s@[i as int] <= '9'));
            return None;
        }
        let ghost prefix = s@.subrange(0, i as int + 1);
        assert(prefix.drop_last() =~= s@.subrange(0, i as int));
        let next: u32 = value as u32 * 10 + (c as u32 - '0' as u32);
        if next > 255 {
            proof {
                if forall|j: int| 0 <= j < s@.len() ==> '0' <= #[trigger] s@[j] <= '9' {
                    lemma_digits_grow(s@, i as int + 1);
                }
            }
            return None;
        }
        value = next as u16;
        i = i + 1;
    }
    assert(s@.subrange(0, n as int) =~= s@);
    Some(value as u8)
}

/// A longer run of digits is worth at least as much as its prefix.
proof fn lemma_digits_grow(s: Seq<char>, k: int)
    requires
        0 <= k <= s.len(),
        forall|j: int| 0 <= j < s.len() ==> '0' <= #[trigger] s[j] <= '9',
    ensures
        digits_value(s) >= digits_value(s.subrange(0, k)),
        digits_value(s.subrange(0, k)) >= 0,
    decreases s.len(),
{
    if s.len() == 0 {
        assert(s.subrange(0, k) =~= s);
    } else if k == s.len() {
        assert(s.subrange(0, k) =~= s);
        lemma_digits_grow(s.drop_last(), k - 1);
    } else {
        lemma_digits_grow(s.drop_last(), k);
        assert(s.drop_last().subrange(0, k) =~= s.subrange(0, k));
    }
}

/// The entries `note:text` of an alteration list, separated by commas.
///
/// Gives `None` where a key is not a note number.
pub fn parse_subkeys(s: &str) -> (r: Option<Vec<(MidiNote, String)>>)
    ensures
        match subkeys(s@) {
            Some(e) => r matches Some(v) && v@.len() == e.len() && forall|i: int|
                0 <= i < e.len() ==> (#[trigger] v@[i]).0 == e[i].0 && v@[i].1@ == e[i].1,
            None => r is None,
        },
{
    let found = pairs(s, true);
    let ghost all = pairs_from(s@, 0, true);
    let mut r: Vec<(MidiNote, String)> = Vec::new();
    let mut i: usize = 0;
    while i < found.len()
        invariant
            i <= found@.len(),
            found@.len() == all.len(),
            all == pairs_from(s@, 0, true),
            forall|j: int| 0 <= j < found@.len() ==> (#[trigger] found@[j]).0@ == all[j].0 && found@[j].1@
                == all[j].1,
            r@.len() == i,
            forall|j: int| 0 <= j < i ==> (#[trigger] note_number(all[j].0)) is Some,
            forall|j: int| 0 <= j < i ==> (#[trigger] r@[j]).0 == note_number(all[j].0).unwrap() && r@[j].1@
                == all[j].1,
        decreases found@.len() - i,
    {
        let key = parse_note_number(found[i].0.as_str());
        match key {
            Some(k) => {
                let value = found[i].1.clone();
                r.push((k, value));
            },
            None => {
                assert(note_number(all[i as int].0) is None);
                return None;
            },
        }
        i = i + 1;
    }
    Some(r)
}

} // verus!
