//! Sets of MIDI notes kept as strictly increasing vectors.
use vstd::prelude::*;

use crate::MidiNote;

verus! {

/// A sequence of notes that is strictly increasing: a set in ascending order.
pub open spec fn is_note_set(s: Seq<MidiNote>) -> bool {
    forall|i: int, j: int| 0 <= i < j < s.len() ==> s[i] < s[j]
}

/// Whether `a` and `b` hold the same notes.
pub open spec fn same_elements(a: Seq<MidiNote>, b: Seq<MidiNote>) -> bool {
    forall|y: MidiNote| a.contains(y) <==> b.contains(y)
}

/// The notes of `s` as a set in ascending order.
pub open spec fn note_set_of(s: Seq<MidiNote>) -> Seq<MidiNote> {
    choose|r: Seq<MidiNote>| is_note_set(r) && same_elements(r, s)
}

/// `s` with `x` added, in ascending order.
pub open spec fn set_insert(s: Seq<MidiNote>, x: MidiNote) -> Seq<MidiNote> {
    note_set_of(s.push(x))
}

/// `s` with `x` removed, in ascending order.
pub open spec fn set_remove(s: Seq<MidiNote>, x: MidiNote) -> Seq<MidiNote> {
    choose|r: Seq<MidiNote>|
        is_note_set(r) && forall|y: MidiNote| #[trigger] r.contains(y) <==> (s.contains(y) && y != x)
}

/// Two sets in ascending order with the same notes are equal.
pub proof fn lemma_note_set_unique(a: Seq<MidiNote>, b: Seq<MidiNote>)
    requires
        is_note_set(a),
        is_note_set(b),
        same_elements(a, b),
    ensures
        a == b,
    decreases a.len(),
{
    if a.len() == 0 {
        if b.len() > 0 {
            assert(b.contains(b[0]));
        }
        assert(a =~= b);
    } else {
        assert(a.contains(a[0]));
        let j = choose|j: int| 0 <= j < b.len() && b[j] == a[0];
        assert(b.contains(b[0]));
        let i = choose|i: int| 0 <= i < a.len() && a[i] == b[0];
        assert(a[0] <= a[i]);
        assert(b[0] <= b[j]);
        assert(a[0] == b[0]);
        let a1 = a.drop_first();
        let b1 = b.drop_first();
        assert forall|y: MidiNote| a1.contains(y) <==> b1.contains(y) by {
            if a1.contains(y) {
                let k = choose|k: int| 0 <= k < a1.len() && a1[k] == y;
                assert(a[k + 1] == y);
                assert(y > a[0]);
                assert(b.contains(y));
                let m = choose|m: int| 0 <= m < b.len() && b[m] == y;
                assert(m != 0);
                assert(b1[m - 1] == y);
            }
            if b1.contains(y) {
                let k = choose|k: int| 0 <= k < b1.len() && b1[k] == y;
                assert(b[k + 1] == y);
                assert(y > b[0]);
                assert(a.contains(y));
                let m = choose|m: int| 0 <= m < a.len() && a[m] == y;
                assert(m != 0);
                assert(a1[m - 1] == y);
            }
        }
        lemma_note_set_unique(a1, b1);
        assert forall|k: int| 0 <= k < a.len() implies a[k] == b[k] by {
            if k > 0 {
                assert(a[k] == a1[k - 1]);
                assert(b[k] == b1[k - 1]);
            }
        }
        assert(a =~= b);
    }
}

/// A set in ascending order is the set of its own notes.
pub proof fn lemma_note_set_of(r: Seq<MidiNote>, s: Seq<MidiNote>)
    requires
        is_note_set(r),
        same_elements(r, s),
    ensures
        note_set_of(s) == r,
{
    let c = note_set_of(s);
    assert(is_note_set(c) && same_elements(c, s));
    assert(same_elements(c, r));
    lemma_note_set_unique(c, r);
}

/// The notes of `v`, each once, in ascending order.
pub fn collect_notes(v: &Vec<MidiNote>) -> (r: Vec<MidiNote>)
    ensures
        r@ == note_set_of(v@),
        is_note_set(r@),
{
    let mut r: Vec<MidiNote> = Vec::new();
    let mut i: usize = 0;
    while i < v.len()
        invariant
            i <= v@.len(),
            is_note_set(r@),
            forall|y: MidiNote| r@.contains(y) <==> (exists|k: int| 0 <= k < i && #[trigger] v@[k] == y),
        decreases v@.len() - i,
    {
        insert_note(&mut r, v[i]);
        proof {
            assert forall|y: MidiNote| r@.contains(y) <==> (exists|k: int| 0 <= k < i + 1 && #[trigger] v@[k] == y) by {
                if y == v@[i as int] {
                    assert(0 <= i < i + 1 && v@[i as int] == y);
                }
                if exists|k: int| 0 <= k < i + 1 && #[trigger] v@[k] == y {
                    let k = choose|k: int| 0 <= k < i + 1 && #[trigger] v@[k] == y;
                    if k < i {
                        assert(0 <= k < i && v@[k] == y);
                    }
                }
            }
        }
        i = i + 1;
    }
    proof {
        assert forall|y: MidiNote| r@.contains(y) <==> v@.contains(y) by {
            if v@.contains(y) {
                let k = choose|k: int| 0 <= k < v@.len() && v@[k] == y;
                assert(0 <= k < i && v@[k] == y);
            }
        }
        lemma_note_set_of(r@, v@);
    }
    r
}

/// The index of the first note of `s` from `k` on that is at least `x`.
spec fn first_at_least(s: Seq<MidiNote>, x: MidiNote, k: int) -> int
    decreases s.len() - k,
{
    if k < 0 || k >= s.len() || s[k] >= x {
        k
    } else {
        first_at_least(s, x, k + 1)
    }
}

proof fn lemma_first_at_least(s: Seq<MidiNote>, x: MidiNote, k: int)
    requires
        0 <= k <= s.len(),
        forall|j: int| 0 <= j < k ==> s[j] < x,
        is_note_set(s),
    ensures
        k <= first_at_least(s, x, k) <= s.len(),
        forall|j: int| 0 <= j < first_at_least(s, x, k) ==> s[j] < x,
        forall|j: int| first_at_least(s, x, k) <= j < s.len() ==> s[j] >= x,
    decreases s.len() - k,
{
    if k < s.len() && s[k] < x {
        lemma_first_at_least(s, x, k + 1);
    } else if k < s.len() {
        assert forall|j: int| k <= j < s.len() implies s[j] >= x by {
            if j > k {
                assert(s[k] < s[j]);
            }
        }
    }
}

/// Adding a note to a set in ascending order gives a set in ascending order
/// with that note and the others.
pub proof fn lemma_set_insert(s: Seq<MidiNote>, x: MidiNote)
    requires
        is_note_set(s),
    ensures
        is_note_set(set_insert(s, x)),
        forall|y: MidiNote| #[trigger] set_insert(s, x).contains(y) <==> (s.contains(y) || y == x),
        set_insert(s, x).len() == if s.contains(x) {
            s.len()
        } else {
            s.len() + 1
        },
{
    lemma_first_at_least(s, x, 0);
    let i = first_at_least(s, x, 0);
    if i < s.len() && s[i] == x {
        assert forall|y: MidiNote| s.contains(y) <==> (s.contains(y) || y == x) by {
            if y == x {
                assert(s[i] == y);
            }
        }
        lemma_insert_set(s, x, s);
    } else {
        let r = s.take(i).push(x) + s.skip(i);
        assert forall|a: int, b: int| 0 <= a < b < r.len() implies r[a] < r[b] by {
            if b < i {
                assert(r[a] == s[a] && r[b] == s[b]);
            } else if b == i {
                assert(r[a] == s[a]);
            } else if a < i {
                assert(r[a] == s[a] && r[b] == s[b - 1]);
            } else if a == i {
                assert(r[b] == s[b - 1]);
            } else {
                assert(r[a] == s[a - 1] && r[b] == s[b - 1]);
            }
        }
        assert forall|y: MidiNote| r.contains(y) <==> (s.contains(y) || y == x) by {
            if r.contains(y) {
                let k = choose|k: int| 0 <= k < r.len() && r[k] == y;
                if k < i {
                    assert(s[k] == y);
                } else if k > i {
                    assert(s[k - 1] == y);
                }
            }
            if s.contains(y) {
                let k = choose|k: int| 0 <= k < s.len() && s[k] == y;
                if k < i {
                    assert(r[k] == y);
                } else {
                    assert(r[k + 1] == y);
                }
            }
            if y == x {
                assert(r[i] == y);
            }
        }
        lemma_insert_set(s, x, r);
    }
}

/// Removing a note from a set in ascending order gives a set in ascending
/// order with the other notes.
pub proof fn lemma_set_remove(s: Seq<MidiNote>, x: MidiNote)
    requires
        is_note_set(s),
    ensures
        is_note_set(set_remove(s, x)),
        forall|y: MidiNote| #[trigger] set_remove(s, x).contains(y) <==> (s.contains(y) && y != x),
        set_remove(s, x).len() == if s.contains(x) {
            s.len() - 1
        } else {
            s.len() as int
        },
{
    if s.contains(x) {
        let i = choose|i: int| 0 <= i < s.len() && s[i] == x;
        let r = s.take(i) + s.skip(i + 1);
        assert forall|a: int, b: int| 0 <= a < b < r.len() implies r[a] < r[b] by {
            if b < i {
                assert(r[a] == s[a] && r[b] == s[b]);
            } else if a < i {
                assert(r[a] == s[a] && r[b] == s[b + 1]);
            } else {
                assert(r[a] == s[a + 1] && r[b] == s[b + 1]);
            }
        }
        assert forall|y: MidiNote| r.contains(y) <==> (s.contains(y) && y != x) by {
            if r.contains(y) {
                let k = choose|k: int| 0 <= k < r.len() && r[k] == y;
                if k < i {
                    assert(s[k] == y);
                    assert(s[k] < s[i]);
                } else {
                    assert(s[k + 1] == y);
                    assert(s[i] < s[k + 1]);
                }
            }
            if s.contains(y) && y != x {
                let k = choose|k: int| 0 <= k < s.len() && s[k] == y;
                if k < i {
                    assert(r[k] == y);
                } else {
                    assert(k != i);
                    assert(r[k - 1] == y);
                }
            }
        }
        lemma_remove_set(s, x, r);
    } else {
        lemma_remove_set(s, x, s);
    }
}

proof fn lemma_insert_set(s: Seq<MidiNote>, x: MidiNote, r: Seq<MidiNote>)
    requires
        is_note_set(r),
        forall|y: MidiNote| r.contains(y) <==> (s.contains(y) || y == x),
    ensures
        r == set_insert(s, x),
{
    assert forall|y: MidiNote| r.contains(y) <==> s.push(x).contains(y) by {
        if s.push(x).contains(y) {
            let k = choose|k: int| 0 <= k < s.push(x).len() && s.push(x)[k] == y;
            if k < s.len() {
                assert(s[k] == y);
            }
        }
        if s.contains(y) {
            let k = choose|k: int| 0 <= k < s.len() && s[k] == y;
            assert(s.push(x)[k] == y);
        }
        if y == x {
            assert(s.push(x)[s.len() as int] == y);
        }
    }
    lemma_note_set_of(r, s.push(x));
}

proof fn lemma_remove_set(s: Seq<MidiNote>, x: MidiNote, r: Seq<MidiNote>)
    requires
        is_note_set(r),
        forall|y: MidiNote| r.contains(y) <==> (s.contains(y) && y != x),
    ensures
        r == set_remove(s, x),
{
    let c = set_remove(s, x);
    assert(is_note_set(c) && forall|y: MidiNote| #[trigger] c.contains(y) <==> (s.contains(y) && y != x));
    lemma_note_set_unique(c, r);
}

/// Adds `x` to the set `v`, keeping it in ascending order.
pub fn insert_note(v: &mut Vec<MidiNote>, x: MidiNote)
    requires
        is_note_set(old(v)@),
    ensures
        is_note_set(final(v)@),
        forall|y: MidiNote| final(v)@.contains(y) <==> (old(v)@.contains(y) || y == x),
        final(v)@ == set_insert(old(v)@, x),
{
    let mut i: usize = 0;
    while i < v.len() && v[i] < x
        invariant
            i <= v@.len(),
            v@ == old(v)@,
            is_note_set(v@),
            forall|j: int| 0 <= j < i ==> v@[j] < x,
        decreases v@.len() - i,
    {
        i = i + 1;
    }
    if i < v.len() && v[i] == x {
        assert(v@[i as int] == x);
        assert(v@.contains(x));
        assert forall|y: MidiNote| v@.contains(y) <==> (old(v)@.contains(y) || y == x) by {}
        proof {
            lemma_insert_set(old(v)@, x, v@);
        }
        return;
    }
    let ghost before = v@;
    v.insert(i, x);
    proof {
        assert(v@ =~= before.subrange(0, i as int).push(x) + before.subrange(i as int, before.len() as int));
        assert forall|y: MidiNote| v@.contains(y) <==> (before.contains(y) || y == x) by {
            if v@.contains(y) {
                let k = choose|k: int| 0 <= k < v@.len() && v@[k] == y;
                if k < i {
                    assert(before[k] == y);
                } else if k > i {
                    assert(before[k - 1] == y);
                }
            }
            if before.contains(y) {
                let k = choose|k: int| 0 <= k < before.len() && before[k] == y;
                if k < i {
                    assert(v@[k] == y);
                } else {
                    assert(v@[k + 1] == y);
                }
            }
            if y == x {
                assert(v@[i as int] == y);
            }
        }
        assert forall|a: int, b: int| 0 <= a < b < v@.len() implies v@[a] < v@[b] by {
            if b < i {
                assert(v@[a] == before[a] && v@[b] == before[b]);
            } else if b == i {
                assert(v@[a] == before[a]);
            } else if a < i {
                assert(v@[a] == before[a] && v@[b] == before[b - 1]);
                assert(before[i as int] > x);
            } else if a == i {
                assert(v@[b] == before[b - 1]);
                assert(before[i as int] > x);
                assert(before[i as int] <= before[b - 1]);
            } else {
                assert(v@[a] == before[a - 1] && v@[b] == before[b - 1]);
            }
        }
    }
    assert(forall|y: MidiNote| v@.contains(y) <==> (old(v)@.contains(y) || y == x));
    proof {
        lemma_insert_set(old(v)@, x, v@);
    }
}

/// Removes `x` from the set `v`.
pub fn remove_note(v: &mut Vec<MidiNote>, x: MidiNote)
    requires
        is_note_set(old(v)@),
    ensures
        is_note_set(final(v)@),
        forall|y: MidiNote| final(v)@.contains(y) <==> (old(v)@.contains(y) && y != x),
        final(v)@ == set_remove(old(v)@, x),
{
    let mut i: usize = 0;
    while i < v.len() && v[i] != x
        invariant
            i <= v@.len(),
            v@ == old(v)@,
            forall|j: int| 0 <= j < i ==> v@[j] != x,
        decreases v@.len() - i,
    {
        i = i + 1;
    }
    if i == v.len() {
        proof {
            lemma_remove_set(old(v)@, x, v@);
        }
        return;
    }
    let ghost before = v@;
    v.remove(i);
    proof {
        assert(v@ =~= before.subrange(0, i as int) + before.subrange(i as int + 1, before.len() as int));
        assert forall|y: MidiNote| v@.contains(y) <==> (before.contains(y) && y != x) by {
            if v@.contains(y) {
                let k = choose|k: int| 0 <= k < v@.len() && v@[k] == y;
                if k < i {
                    assert(before[k] == y);
                } else {
                    assert(before[k + 1] == y);
                }
            }
            if before.contains(y) && y != x {
                let k = choose|k: int| 0 <= k < before.len() && before[k] == y;
                if k < i {
                    assert(v@[k] == y);
                } else {
                    assert(k != i);
                    assert(v@[k - 1] == y);
                }
            }
        }
    }
    proof {
        lemma_remove_set(old(v)@, x, v@);
    }
}

/// Whether two note vectors hold the same notes in the same order.
pub fn same_notes(a: &Vec<MidiNote>, b: &Vec<MidiNote>) -> (r: bool)
    ensures
        r == (a@ == b@),
{
    if a.len() != b.len() {
        return false;
    }
    let mut i: usize = 0;
    while i < a.len()
        invariant
            a@.len() == b@.len(),
            i <= a@.len(),
            forall|j: int| 0 <= j < i ==> a@[j] == b@[j],
        decreases a@.len() - i,
    {
        if a[i] != b[i] {
            return false;
        }
        i = i + 1;
    }
    assert(a@ =~= b@);
    true
}

} // verus!
