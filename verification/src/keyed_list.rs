//! Keyed lists: entries kept in strictly ascending key order, the map they
//! hold, and what a `BTreeMap` with text keys yields (its entries in key
//! order, each key once).

use vstd::prelude::*;
use crate::sorted_set::{
    compare_chars, lemma_seq_lt_asymmetric, lemma_seq_lt_irreflexive, lemma_seq_lt_transitive, seq_lt,
};
use crate::strings::{chars_of, to_owned};

verus! {

/// Keys in strictly ascending order.
pub open spec fn keys_sorted<V>(s: Seq<(Seq<char>, V)>) -> bool {
    forall|i: int, j: int| 0 <= i < j < s.len() ==> seq_lt(#[trigger] s[i].0, #[trigger] s[j].0)
}

pub open spec fn has_key<V>(s: Seq<(Seq<char>, V)>, k: Seq<char>) -> bool {
    exists|i: int| 0 <= i < s.len() && #[trigger] s[i].0 == k
}

/// A position of key `k` in a keyed list.
pub open spec fn key_index<V>(s: Seq<(Seq<char>, V)>, k: Seq<char>) -> int {
    choose|i: int| 0 <= i < s.len() && #[trigger] s[i].0 == k
}

/// The map that a keyed list holds.
pub open spec fn entries_map<V>(s: Seq<(Seq<char>, V)>) -> Map<Seq<char>, V> {
    Map::new(|k: Seq<char>| has_key(s, k), |k: Seq<char>| s[key_index(s, k)].1)
}

/// A map's entries in ascending key order.
pub open spec fn sorted_entries<V>(m: Map<Seq<char>, V>) -> Seq<(Seq<char>, V)> {
    choose|s: Seq<(Seq<char>, V)>| keys_sorted(s) && entries_map(s) == m
}

/// In a sorted list, the entry at `i` is what the map holds for its key.
pub proof fn lemma_sorted_entry<V>(s: Seq<(Seq<char>, V)>, i: int)
    requires
        keys_sorted(s),
        0 <= i < s.len(),
    ensures
        entries_map(s).contains_key(s[i].0),
        entries_map(s)[s[i].0] == s[i].1,
{
    let k = s[i].0;
    assert(has_key(s, k));
    let j = key_index(s, k);
    if j < i {
        assert(seq_lt(s[j].0, s[i].0));
        lemma_seq_lt_irreflexive(k);
    } else if i < j {
        assert(seq_lt(s[i].0, s[j].0));
        lemma_seq_lt_irreflexive(k);
    }
    assert(entries_map(s).contains_key(k));
    assert(entries_map(s)[k] == s[j].1);
}

/// Without its last entry, a sorted list holds the map without that key.
pub proof fn lemma_sorted_drop_last<V>(s: Seq<(Seq<char>, V)>)
    requires
        keys_sorted(s),
        s.len() > 0,
    ensures
        keys_sorted(s.drop_last()),
        entries_map(s.drop_last()) == entries_map(s).remove(s.last().0),
{
    let d = s.drop_last();
    let n = s.len() - 1;
    assert forall|i: int, j: int| 0 <= i < j < d.len() implies seq_lt(#[trigger] d[i].0, #[trigger] d[j].0) by {
        assert(d[i] == s[i] && d[j] == s[j]);
    }
    assert forall|k: Seq<char>| #[trigger] entries_map(d).contains_key(k) <==> entries_map(s).remove(
        s.last().0,
    ).contains_key(k) by {
        if has_key(d, k) {
            let i = choose|i: int| 0 <= i < d.len() && #[trigger] d[i].0 == k;
            assert(s[i].0 == k);
            assert(seq_lt(s[i].0, s[n].0));
            if k == s.last().0 {
                lemma_seq_lt_irreflexive(k);
            }
        }
        if has_key(s, k) && k != s.last().0 {
            let i = choose|i: int| 0 <= i < s.len() && #[trigger] s[i].0 == k;
            assert(i != n);
            assert(d[i].0 == k);
        }
    }
    assert forall|k: Seq<char>| #[trigger] entries_map(d).contains_key(k) implies entries_map(d)[k]
        == entries_map(s)[k] by {
        let i = choose|i: int| 0 <= i < d.len() && #[trigger] d[i].0 == k;
        lemma_sorted_entry(d, i);
        assert(s[i] == d[i]);
        lemma_sorted_entry(s, i);
    }
    assert(entries_map(d) =~= entries_map(s).remove(s.last().0));
}

/// A map has one list of entries in ascending key order.
pub proof fn lemma_sorted_entries_unique<V>(s1: Seq<(Seq<char>, V)>, s2: Seq<(Seq<char>, V)>)
    requires
        keys_sorted(s1),
        keys_sorted(s2),
        entries_map(s1) == entries_map(s2),
    ensures
        s1 == s2,
    decreases s1.len(),
{
    if s1.len() == 0 {
        if s2.len() > 0 {
            lemma_sorted_entry(s2, 0);
        }
        assert(s1 =~= s2);
    } else {
        lemma_sorted_entry(s1, s1.len() - 1);
        assert(s2.len() > 0) by {
            if s2.len() == 0 {
                assert(!has_key(s2, s1.last().0));
            }
        }
        lemma_sorted_entry(s2, s2.len() - 1);
        let k1 = s1.last().0;
        let k2 = s2.last().0;
        assert(has_key(s2, k1));
        assert(has_key(s1, k2));
        let j = choose|j: int| 0 <= j < s2.len() && #[trigger] s2[j].0 == k1;
        let i = choose|i: int| 0 <= i < s1.len() && #[trigger] s1[i].0 == k2;
        if k1 != k2 {
            assert(j < s2.len() - 1);
            assert(i < s1.len() - 1);
            assert(seq_lt(s2[j].0, s2[s2.len() - 1].0));
            assert(seq_lt(s1[i].0, s1[s1.len() - 1].0));
            lemma_seq_lt_asymmetric(k1, k2);
        }
        lemma_sorted_drop_last(s1);
        lemma_sorted_drop_last(s2);
        lemma_sorted_entries_unique(s1.drop_last(), s2.drop_last());
        assert(s1 =~= s1.drop_last().push(s1.last()));
        assert(s2 =~= s2.drop_last().push(s2.last()));
    }
}



/// Replacing the value at `i` keeps the keys in order and maps its key to
/// the new value.
pub proof fn lemma_replace_value<V>(s: Seq<(Seq<char>, V)>, i: int, v: V)
    requires
        keys_sorted(s),
        0 <= i < s.len(),
    ensures
        keys_sorted(s.update(i, (s[i].0, v))),
        entries_map(s.update(i, (s[i].0, v))) == entries_map(s).insert(s[i].0, v),
{
    let n = s.update(i, (s[i].0, v));
    let k = s[i].0;
    assert forall|a: int, b: int| 0 <= a < b < n.len() implies seq_lt(#[trigger] n[a].0, #[trigger] n[b].0) by {
        assert(n[a].0 == s[a].0 && n[b].0 == s[b].0);
    }
    lemma_sorted_entry(n, i);
    let m = entries_map(s).insert(k, v);
    assert forall|x: Seq<char>| #[trigger] entries_map(n).contains_key(x) <==> m.contains_key(x) by {
        if has_key(n, x) {
            let j = key_index(n, x);
            assert(s[j].0 == x);
        }
        if has_key(s, x) {
            let j = key_index(s, x);
            assert(n[j].0 == x);
        }
    }
    assert forall|x: Seq<char>| #[trigger] entries_map(n).contains_key(x) implies entries_map(n)[x]
        == m[x] by {
        if x != k {
            let j = key_index(n, x);
            assert(s[j] == n[j]);
            lemma_sorted_entry(n, j);
            lemma_sorted_entry(s, j);
        }
    }
    assert(entries_map(n) =~= m);
}

/// Inserting an entry for a new key at its place in order keeps the keys
/// in order and maps the key to its value.
pub proof fn lemma_insert_entry<V>(s: Seq<(Seq<char>, V)>, i: int, k: Seq<char>, v: V)
    requires
        keys_sorted(s),
        0 <= i <= s.len(),
        forall|j: int| 0 <= j < i ==> seq_lt(#[trigger] s[j].0, k),
        i < s.len() ==> seq_lt(k, s[i].0),
    ensures
        keys_sorted(s.insert(i, (k, v))),
        !has_key(s, k),
        entries_map(s.insert(i, (k, v))) == entries_map(s).insert(k, v),
{
    let n = s.insert(i, (k, v));
    assert forall|a: int, b: int| 0 <= a < b < n.len() implies seq_lt(#[trigger] n[a].0, #[trigger] n[b].0) by {
        if b < i {
        } else if a < i && b == i {
        } else if a < i && b > i {
            assert(n[b] == s[b - 1]);
            if b - 1 != a {
                assert(seq_lt(s[a].0, s[b - 1].0));
            }
        } else if a == i {
            assert(n[b] == s[b - 1]);
            if b - 1 > i {
                assert(seq_lt(s[i].0, s[b - 1].0));
                lemma_seq_lt_transitive(k, s[i].0, s[b - 1].0);
            }
        } else {
            assert(n[a] == s[a - 1]);
            assert(n[b] == s[b - 1]);
        }
    }
    assert(!has_key(s, k)) by {
        if has_key(s, k) {
            let j = key_index(s, k);
            if j < i {
                lemma_seq_lt_irreflexive(k);
            } else {
                if j > i {
                    assert(seq_lt(s[i].0, s[j].0));
                    lemma_seq_lt_transitive(k, s[i].0, s[j].0);
                }
                lemma_seq_lt_irreflexive(k);
            }
        }
    }
    lemma_sorted_entry(n, i);
    let m = entries_map(s).insert(k, v);
    assert forall|x: Seq<char>| #[trigger] entries_map(n).contains_key(x) <==> m.contains_key(x) by {
        if has_key(n, x) && x != k {
            let j = key_index(n, x);
            if j < i {
                assert(s[j].0 == x);
            } else {
                assert(s[j - 1].0 == x);
            }
        }
        if has_key(s, x) {
            let j = key_index(s, x);
            if j < i {
                assert(n[j].0 == x);
            } else {
                assert(n[j + 1].0 == x);
            }
        }
    }
    assert forall|x: Seq<char>| #[trigger] entries_map(n).contains_key(x) implies entries_map(n)[x]
        == m[x] by {
        if x != k {
            let j = key_index(s, x);
            lemma_sorted_entry(s, j);
            if j < i {
                assert(n[j] == s[j]);
                lemma_sorted_entry(n, j);
            } else {
                assert(n[j + 1] == s[j]);
                lemma_sorted_entry(n, j + 1);
            }
        }
    }
    assert(entries_map(n) =~= m);
}

/// The views of a list of text entries.
pub open spec fn text_entries_view(v: Seq<(String, String)>) -> Seq<(Seq<char>, Seq<char>)> {
    v.map_values(|e: (String, String)| (e.0@, e.1@))
}

/// `map.insert(key, value)` on a text map kept in key order.
pub fn insert_text_entry(v: &mut Vec<(String, String)>, key: &str, value: &str)
    requires
        keys_sorted(text_entries_view(old(v)@)),
    ensures
        keys_sorted(text_entries_view(final(v)@)),
        entries_map(text_entries_view(final(v)@)) == entries_map(text_entries_view(old(v)@)).insert(
            key@,
            value@,
        ),
{
    let kc = chars_of(key);
    let ghost s = text_entries_view(v@);
    let mut i: usize = 0;
    while i < v.len()
        invariant
            i <= v.len(),
            v@ == old(v)@,
            s == text_entries_view(v@),
            keys_sorted(s),
            kc@ == key@,
            forall|j: int| 0 <= j < i ==> seq_lt(#[trigger] s[j].0, key@),
        ensures
            i <= v.len(),
            forall|j: int| 0 <= j < i ==> seq_lt(#[trigger] s[j].0, key@),
            i < v.len() ==> seq_lt(key@, s[i as int].0),
        decreases v.len() - i,
    {
        let cs = chars_of(v[i].0.as_str());
        assert(s[i as int].0 == cs@);
        let c = compare_chars(&cs, &kc);
        if c == 0 {
            proof {
                lemma_replace_value(s, i as int, value@);
            }
            v.set(i, (to_owned(key), to_owned(value)));
            assert(text_entries_view(v@) =~= s.update(i as int, (s[i as int].0, value@)));
            return;
        }
        if c == 1 {
            break;
        }
        i = i + 1;
    }
    proof {
        lemma_insert_entry(s, i as int, key@, value@);
    }
    v.insert(i, (to_owned(key), to_owned(value)));
    assert(text_entries_view(v@) =~= s.insert(i as int, (key@, value@)));
}

} // verus!
