//! Key-sorted entry lists: the shared representation of keyed composites.
//!
//! Maps, structs and struct variants all store their children as an
//! association list of `(key, value)` entries kept strictly sorted under the
//! explicit total order of [`crate::order`]. Insertion keeps the list sorted
//! and overwrites an entry whose key compares `Equal` — last write wins —
//! so iteration order is deterministic and every key addresses at most one
//! entry.

use crate::order::{
    cmp_value, lemma_cmp_value_flip, lemma_cmp_value_laws, lemma_cmp_value_refl, Cmp,
};
use crate::value::Value;
use vstd::prelude::*;

verus! {

/// Entries are strictly sorted by key: each key compares `Less` than its
/// successor.
pub open spec fn entries_sorted(s: Seq<(Value, Value)>) -> bool {
    forall|i: int| 0 <= i && i + 1 < s.len() ==> #[trigger] cmp_value(s[i].0, s[i + 1].0)
        == Cmp::Less
}

/// Insertion into a key-sorted entry list: the new entry goes in front of
/// the first key it does not exceed; a key comparing `Equal` is overwritten.
pub open spec fn entries_insert(s: Seq<(Value, Value)>, k: Value, v: Value) -> Seq<(Value, Value)>
    decreases s.len(),
{
    if s.len() == 0 {
        seq![(k, v)]
    } else {
        match cmp_value(k, s[0].0) {
            Cmp::Greater => seq![s[0]] + entries_insert(s.drop_first(), k, v),
            Cmp::Equal => seq![(k, v)] + s.drop_first(),
            Cmp::Less => seq![(k, v)] + s,
        }
    }
}

/// The value stored under the first key comparing `Equal` to `k`, if any.
pub open spec fn entries_lookup(s: Seq<(Value, Value)>, k: Value) -> Option<Value>
    decreases s.len(),
{
    if s.len() == 0 {
        None
    } else if cmp_value(k, s[0].0) == Cmp::Equal {
        Some(s[0].1)
    } else {
        entries_lookup(s.drop_first(), k)
    }
}

/// Where the new entry lands: if the first `i` keys compare below `k`, the
/// insertion is an update at `i`, an insertion at `i`, or a push at the end,
/// by how `k` compares to the key at `i`.
proof fn lemma_entries_insert_at(s: Seq<(Value, Value)>, k: Value, v: Value, i: int)
    requires
        0 <= i <= s.len(),
        forall|j: int| 0 <= j < i ==> cmp_value(k, s[j].0) == Cmp::Greater,
    ensures
        i == s.len() ==> entries_insert(s, k, v) == s.push((k, v)),
        i < s.len() && cmp_value(k, s[i].0) == Cmp::Equal ==> entries_insert(s, k, v) == s.update(
            i,
            (k, v),
        ),
        i < s.len() && cmp_value(k, s[i].0) == Cmp::Less ==> entries_insert(s, k, v) == s.insert(
            i,
            (k, v),
        ),
    decreases i,
{
    if i == 0 {
        if s.len() == 0 {
            assert(entries_insert(s, k, v) =~= s.push((k, v)));
        } else {
            match cmp_value(k, s[0].0) {
                Cmp::Equal => {
                    assert(seq![(k, v)] + s.drop_first() =~= s.update(0, (k, v)));
                },
                Cmp::Less => {
                    assert(seq![(k, v)] + s =~= s.insert(0, (k, v)));
                },
                Cmp::Greater => {},
            }
        }
    } else {
        assert(cmp_value(k, s[0].0) == Cmp::Greater);
        let t = s.drop_first();
        lemma_entries_insert_at(t, k, v, i - 1);
        if i == s.len() {
            assert(seq![s[0]] + t.push((k, v)) =~= s.push((k, v)));
        } else if cmp_value(k, s[i].0) == Cmp::Equal {
            assert(cmp_value(k, t[i - 1].0) == Cmp::Equal);
            assert(seq![s[0]] + t.update(i - 1, (k, v)) =~= s.update(i, (k, v)));
        } else if cmp_value(k, s[i].0) == Cmp::Less {
            assert(cmp_value(k, t[i - 1].0) == Cmp::Less);
            assert(seq![s[0]] + t.insert(i - 1, (k, v)) =~= s.insert(i, (k, v)));
        }
    }
}

/// Insertion keeps the entries strictly sorted.
proof fn lemma_entries_insert_sorted(s: Seq<(Value, Value)>, k: Value, v: Value, i: int)
    requires
        entries_sorted(s),
        0 <= i <= s.len(),
        forall|j: int| 0 <= j < i ==> cmp_value(k, s[j].0) == Cmp::Greater,
        i < s.len() ==> cmp_value(k, s[i].0) != Cmp::Greater,
    ensures
        entries_sorted(entries_insert(s, k, v)),
{
    lemma_entries_insert_at(s, k, v, i);
    if i == s.len() {
        let r = s.push((k, v));
        assert forall|j: int| 0 <= j && j + 1 < r.len() implies #[trigger] cmp_value(r[j].0, r[j + 1].0) == Cmp::Less by {
            if j + 1 == i {
                lemma_cmp_value_flip(k, s[j].0);
            }
        }
    } else if cmp_value(k, s[i].0) == Cmp::Equal {
        let r = s.update(i, (k, v));
        assert forall|j: int| 0 <= j && j + 1 < r.len() implies #[trigger] cmp_value(r[j].0, r[j + 1].0) == Cmp::Less by {
            if j + 1 == i {
                lemma_cmp_value_flip(k, s[j].0);
            } else if j == i {
                lemma_cmp_value_laws(k, s[i].0, s[i + 1].0);
            }
        }
    } else {
        s.insert_ensures(i, (k, v));
        let r = s.insert(i, (k, v));
        assert forall|j: int| 0 <= j && j + 1 < r.len() implies #[trigger] cmp_value(r[j].0, r[j + 1].0) == Cmp::Less by {
            if j + 1 < i {
                assert(cmp_value(s[j].0, s[j + 1].0) == Cmp::Less);
            } else if j + 1 == i {
                lemma_cmp_value_flip(k, s[j].0);
            } else if j == i {
                assert(r[j + 1] == s[j]);
            } else {
                assert(r[j] == s[j - 1]);
                assert(r[j + 1] == s[j]);
                assert(cmp_value(s[j - 1].0, s[j].0) == Cmp::Less);
            }
        }
    }
}

/// Inserts `(key, value)` into a key-sorted entry list, keeping it sorted;
/// an entry whose key compares `Equal` is overwritten.
pub fn insert_entry(entries: &mut Vec<(Value, Value)>, key: Value, value: Value)
    ensures
        final(entries)@ == entries_insert(old(entries)@, key, value),
        entries_sorted(old(entries)@) ==> entries_sorted(final(entries)@),
{
    let ghost s = entries@;
    let mut i: usize = 0;
    while i < entries.len()
        invariant
            s == old(entries)@,
            entries@ == s,
            i <= s.len(),
            forall|j: int| 0 <= j < i ==> cmp_value(key, s[j].0) == Cmp::Greater,
        decreases s.len() - i,
    {
        let c = key.compare(&entries[i].0);
        match c {
            Cmp::Greater => {
                i += 1;
            },
            Cmp::Equal => {
                proof {
                    lemma_entries_insert_at(s, key, value, i as int);
                    if entries_sorted(s) {
                        lemma_entries_insert_sorted(s, key, value, i as int);
                    }
                }
                entries[i] = (key, value);
                return ;
            },
            Cmp::Less => {
                proof {
                    lemma_entries_insert_at(s, key, value, i as int);
                    if entries_sorted(s) {
                        lemma_entries_insert_sorted(s, key, value, i as int);
                    }
                }
                entries.insert(i, (key, value));
                return ;
            },
        }
    }
    proof {
        lemma_entries_insert_at(s, key, value, i as int);
        if entries_sorted(s) {
            lemma_entries_insert_sorted(s, key, value, i as int);
        }
    }
    entries.push((key, value));
}

/// Strict sortedness is global, not only between neighbours: any earlier
/// key compares `Less` than any later one.
pub proof fn lemma_sorted_pair(s: Seq<(Value, Value)>, i: int, j: int)
    requires
        entries_sorted(s),
        0 <= i < j < s.len(),
    ensures
        cmp_value(s[i].0, s[j].0) == Cmp::Less,
    decreases j - i,
{
    if j == i + 1 {
        assert(cmp_value(s[i].0, s[i + 1].0) == Cmp::Less);
    } else {
        lemma_sorted_pair(s, i, j - 1);
        assert(cmp_value(s[j - 1].0, s[j - 1 + 1].0) == Cmp::Less);
        lemma_cmp_value_laws(s[i].0, s[j - 1].0, s[j].0);
    }
}

/// In a sorted entry list every key addresses at most one entry: two
/// distinct positions never hold keys comparing `Equal`.
pub proof fn lemma_sorted_keys_distinct(s: Seq<(Value, Value)>, i: int, j: int)
    requires
        entries_sorted(s),
        0 <= i < s.len(),
        0 <= j < s.len(),
        i != j,
    ensures
        cmp_value(s[i].0, s[j].0) != Cmp::Equal,
{
    if i < j {
        lemma_sorted_pair(s, i, j);
    } else {
        lemma_sorted_pair(s, j, i);
        lemma_cmp_value_flip(s[j].0, s[i].0);
    }
}

/// Inserting twice under keys that compare `Equal` leaves only the later
/// write: the earlier insertion is completely overwritten.
pub proof fn lemma_insert_twice(s: Seq<(Value, Value)>, k1: Value, k2: Value, v1: Value, v2: Value)
    requires
        cmp_value(k2, k1) == Cmp::Equal,
    ensures
        entries_insert(entries_insert(s, k1, v1), k2, v2) == entries_insert(s, k2, v2),
    decreases s.len(),
{
    if s.len() == 0 {
        assert(entries_insert(entries_insert(s, k1, v1), k2, v2) =~= entries_insert(s, k2, v2));
    } else {
        lemma_cmp_value_laws(k2, k1, s[0].0);
        match cmp_value(k1, s[0].0) {
            Cmp::Greater => {
                lemma_insert_twice(s.drop_first(), k1, k2, v1, v2);
                let r1 = seq![s[0]] + entries_insert(s.drop_first(), k1, v1);
                assert(r1.drop_first() =~= entries_insert(s.drop_first(), k1, v1));
                assert(entries_insert(entries_insert(s, k1, v1), k2, v2) =~= entries_insert(
                    s,
                    k2,
                    v2,
                ));
            },
            Cmp::Equal => {
                let r1 = seq![(k1, v1)] + s.drop_first();
                assert(r1.drop_first() =~= s.drop_first());
                assert(entries_insert(entries_insert(s, k1, v1), k2, v2) =~= entries_insert(
                    s,
                    k2,
                    v2,
                ));
            },
            Cmp::Less => {
                let r1 = seq![(k1, v1)] + s;
                assert(r1.drop_first() =~= s);
                assert(entries_insert(entries_insert(s, k1, v1), k2, v2) =~= entries_insert(
                    s,
                    k2,
                    v2,
                ));
            },
        }
    }
}

/// The duplicate-push law for keyed builders: two pushes under keys that
/// compare `Equal` into a sorted entry list leave exactly one entry for
/// that key — the second push completely overwrites the first, looking the
/// key up finds the later value, and no two positions both match the key.
pub proof fn lemma_duplicate_push(
    s: Seq<(Value, Value)>,
    k1: Value,
    k2: Value,
    v1: Value,
    v2: Value,
)
    requires
        entries_sorted(s),
        cmp_value(k2, k1) == Cmp::Equal,
    ensures
        entries_insert(entries_insert(s, k1, v1), k2, v2) == entries_insert(s, k2, v2),
        entries_lookup(entries_insert(s, k2, v2), k2) == Some(v2),
        forall|i: int, j: int|
            #![trigger cmp_value(entries_insert(s, k2, v2)[i].0, k2), cmp_value(entries_insert(s, k2, v2)[j].0, k2)]
            0 <= i < j < entries_insert(s, k2, v2).len() ==> !(cmp_value(
                entries_insert(s, k2, v2)[i].0,
                k2,
            ) == Cmp::Equal && cmp_value(entries_insert(s, k2, v2)[j].0, k2) == Cmp::Equal),
{
    lemma_insert_twice(s, k1, k2, v1, v2);
    lemma_insert_lookup_same(s, k2, v2);
    lemma_insert_sorted_any(s, k2, v2);
    let r = entries_insert(s, k2, v2);
    assert forall|i: int, j: int|
        0 <= i < j < r.len() implies !(#[trigger] cmp_value(r[i].0, k2) == Cmp::Equal
        && #[trigger] cmp_value(r[j].0, k2) == Cmp::Equal) by {
        if cmp_value(r[i].0, k2) == Cmp::Equal && cmp_value(r[j].0, k2) == Cmp::Equal {
            lemma_sorted_pair(r, i, j);
            lemma_cmp_value_flip(r[j].0, k2);
            lemma_cmp_value_laws(r[i].0, k2, r[j].0);
        }
    }
}

/// Insertion into a sorted list yields a sorted list; packaged for callers
/// that hold only the sortedness.
pub proof fn lemma_insert_sorted_any(s: Seq<(Value, Value)>, k: Value, v: Value)
    requires
        entries_sorted(s),
    ensures
        entries_sorted(entries_insert(s, k, v)),
{
    lemma_first_not_greater(s, k);
    lemma_entries_insert_sorted(s, k, v, first_not_greater(s, k));
}

/// The landing position is a position: it is in bounds, the keys before it
/// compare below the new key, and the key at it does not.
proof fn lemma_first_not_greater(s: Seq<(Value, Value)>, k: Value)
    ensures
        0 <= first_not_greater(s, k) <= s.len(),
        forall|j: int|
            0 <= j < first_not_greater(s, k) ==> #[trigger] cmp_value(k, s[j].0) == Cmp::Greater,
        first_not_greater(s, k) < s.len() ==> cmp_value(k, s[first_not_greater(s, k)].0)
            != Cmp::Greater,
    decreases s.len(),
{
    if s.len() > 0 && cmp_value(k, s[0].0) == Cmp::Greater {
        let t = s.drop_first();
        lemma_first_not_greater(t, k);
        assert forall|j: int| 0 <= j < first_not_greater(s, k) implies #[trigger] cmp_value(
            k,
            s[j].0,
        ) == Cmp::Greater by {
            if j > 0 {
                assert(t[j - 1] == s[j]);
                assert(cmp_value(k, t[j - 1].0) == Cmp::Greater);
            }
        }
    }
}

/// The position where an insertion lands: the length of the prefix whose
/// keys the new key exceeds.
spec fn first_not_greater(s: Seq<(Value, Value)>, k: Value) -> int
    decreases s.len(),
{
    if s.len() == 0 {
        0
    } else if cmp_value(k, s[0].0) == Cmp::Greater {
        1 + first_not_greater(s.drop_first(), k)
    } else {
        0
    }
}

/// Looking up the key just inserted finds the value just written.
pub proof fn lemma_insert_lookup_same(s: Seq<(Value, Value)>, k: Value, v: Value)
    ensures
        entries_lookup(entries_insert(s, k, v), k) == Some(v),
    decreases s.len(),
{
    lemma_cmp_value_refl(k);
    if s.len() == 0 {
    } else {
        match cmp_value(k, s[0].0) {
            Cmp::Greater => {
                lemma_insert_lookup_same(s.drop_first(), k, v);
                let r = seq![s[0]] + entries_insert(s.drop_first(), k, v);
                assert(r.drop_first() =~= entries_insert(s.drop_first(), k, v));
            },
            Cmp::Equal => {},
            Cmp::Less => {},
        }
    }
}

/// An insertion leaves every other key's lookup unchanged.
pub proof fn lemma_insert_lookup_other(s: Seq<(Value, Value)>, k: Value, v: Value, q: Value)
    requires
        cmp_value(q, k) != Cmp::Equal,
    ensures
        entries_lookup(entries_insert(s, k, v), q) == entries_lookup(s, q),
    decreases s.len(),
{
    if s.len() == 0 {
        let r = seq![(k, v)];
        assert(r.drop_first() =~= Seq::<(Value, Value)>::empty());
        assert(entries_lookup(r.drop_first(), q) == None::<Value>);
    } else {
        match cmp_value(k, s[0].0) {
            Cmp::Greater => {
                lemma_insert_lookup_other(s.drop_first(), k, v, q);
                let r = seq![s[0]] + entries_insert(s.drop_first(), k, v);
                assert(r.drop_first() =~= entries_insert(s.drop_first(), k, v));
            },
            Cmp::Equal => {
                // `q` misses the overwritten head exactly when it missed the
                // old head, since the two keys compare `Equal`.
                lemma_cmp_value_laws(q, k, s[0].0);
                let r = seq![(k, v)] + s.drop_first();
                assert(r.drop_first() =~= s.drop_first());
            },
            Cmp::Less => {
                let r = seq![(k, v)] + s;
                assert(r.drop_first() =~= s);
            },
        }
    }
}

} // verus!
