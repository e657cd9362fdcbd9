//! An ordered set of strings (what a `BTreeSet<String>` holds and yields).

use vstd::prelude::*;
use crate::strings::chars_of;

verus! {

/// Lexicographic order of character sequences (the order of `String`, as
/// UTF-8 keeps code-point order).
pub open spec fn seq_lt(a: Seq<char>, b: Seq<char>) -> bool
    decreases a.len(),
{
    if a.len() == 0 {
        b.len() > 0
    } else if b.len() == 0 {
        false
    } else if a[0] < b[0] {
        true
    } else if a[0] == b[0] {
        seq_lt(a.drop_first(), b.drop_first())
    } else {
        false
    }
}

pub proof fn lemma_seq_lt_irreflexive(a: Seq<char>)
    ensures
        !seq_lt(a, a),
    decreases a.len(),
{
    if a.len() > 0 {
        lemma_seq_lt_irreflexive(a.drop_first());
    }
}

pub proof fn lemma_seq_lt_transitive(a: Seq<char>, b: Seq<char>, c: Seq<char>)
    requires
        seq_lt(a, b),
        seq_lt(b, c),
    ensures
        seq_lt(a, c),
    decreases a.len(),
{
    if a.len() > 0 && b.len() > 0 && c.len() > 0 && a[0] == b[0] && b[0] == c[0] {
        lemma_seq_lt_transitive(a.drop_first(), b.drop_first(), c.drop_first());
    }
}

pub proof fn lemma_seq_lt_total(a: Seq<char>, b: Seq<char>)
    ensures
        seq_lt(a, b) || seq_lt(b, a) || a == b,
    decreases a.len(),
{
    if a.len() > 0 && b.len() > 0 && a[0] != b[0] {
        assert(a[0] < b[0] || b[0] < a[0]);
    }
    if a.len() > 0 && b.len() > 0 && a[0] == b[0] {
        lemma_seq_lt_total(a.drop_first(), b.drop_first());
        if a.drop_first() == b.drop_first() {
            assert(a =~= seq![a[0]] + a.drop_first());
            assert(b =~= seq![b[0]] + b.drop_first());
        }
    } else if a.len() == 0 && b.len() == 0 {
        assert(a =~= b);
    }
}

pub proof fn lemma_seq_lt_asymmetric(a: Seq<char>, b: Seq<char>)
    requires
        seq_lt(a, b),
    ensures
        !seq_lt(b, a),
{
    if seq_lt(b, a) {
        lemma_seq_lt_transitive(a, b, a);
        lemma_seq_lt_irreflexive(a);
    }
}

/// Strictly increasing, hence without repetition.
pub open spec fn strictly_sorted(s: Seq<Seq<char>>) -> bool {
    forall|i: int, j: int| 0 <= i < j < s.len() ==> seq_lt(#[trigger] s[i], #[trigger] s[j])
}

/// The views of a list of strings.
pub open spec fn views(v: Seq<String>) -> Seq<Seq<char>> {
    v.map_values(|s: String| s@)
}

/// Three-way comparison of character sequences: -1, 0 or 1.
pub fn compare_chars(a: &Vec<char>, b: &Vec<char>) -> (r: i8)
    ensures
        r == -1 <==> seq_lt(a@, b@),
        r == 0 <==> a@ == b@,
        r == 1 <==> seq_lt(b@, a@),
        r == -1 || r == 0 || r == 1,
{
    let mut i: usize = 0;
    while i < a.len() && i < b.len()
        invariant
            i <= a.len(),
            i <= b.len(),
            a@.take(i as int) == b@.take(i as int),
        decreases a.len() - i,
    {
        if a[i] < b[i] {
            proof {
                lemma_seq_lt_prefix(a@, b@, i as int);
                assert(a@.skip(i as int)[0] == a@[i as int]);
                assert(b@.skip(i as int)[0] == b@[i as int]);
                lemma_seq_lt_asymmetric(a@, b@);
                if a@ == b@ {
                    lemma_seq_lt_irreflexive(a@);
                }
            }
            return -1;
        }
        if b[i] < a[i] {
            proof {
                lemma_seq_lt_prefix(b@, a@, i as int);
                assert(a@.skip(i as int)[0] == a@[i as int]);
                assert(b@.skip(i as int)[0] == b@[i as int]);
                lemma_seq_lt_asymmetric(b@, a@);
                if a@ == b@ {
                    lemma_seq_lt_irreflexive(a@);
                }
            }
            return 1;
        }
        assert(a@[i as int] == b@[i as int]);
        assert(a@.take(i + 1) =~= a@.take(i as int).push(a@[i as int]));
        assert(b@.take(i + 1) =~= b@.take(i as int).push(b@[i as int]));
        i = i + 1;
    }
    proof {
        lemma_seq_lt_prefix(a@, b@, i as int);
        lemma_seq_lt_prefix(b@, a@, i as int);
        if a.len() == b.len() {
            assert(a@ =~= a@.take(i as int));
            assert(b@ =~= b@.take(i as int));
        } else {
            assert(a@.len() != b@.len());
        }
    }
    if a.len() < b.len() {
        -1
    } else if b.len() < a.len() {
        1
    } else {
        0
    }
}

/// With a common prefix of length `i`, the order is decided at `i`.
proof fn lemma_seq_lt_prefix(a: Seq<char>, b: Seq<char>, i: int)
    requires
        0 <= i <= a.len(),
        i <= b.len(),
        a.take(i) == b.take(i),
    ensures
        seq_lt(a, b) == seq_lt(a.skip(i), b.skip(i)),
    decreases i,
{
    if i > 0 {
        assert(a[0] == a.take(i)[0]);
        assert(b[0] == b.take(i)[0]);
        assert(a.drop_first().take(i - 1) =~= a.take(i).drop_first());
        assert(b.drop_first().take(i - 1) =~= b.take(i).drop_first());
        lemma_seq_lt_prefix(a.drop_first(), b.drop_first(), i - 1);
        assert(a.drop_first().skip(i - 1) =~= a.skip(i));
        assert(b.drop_first().skip(i - 1) =~= b.skip(i));
    } else {
        assert(a.skip(0) == a);
        assert(b.skip(0) == b);
    }
}

/// Inserts `x` into a strictly sorted list unless it is already there.
pub fn insert_sorted(v: &mut Vec<String>, x: String)
    requires
        strictly_sorted(views(old(v)@)),
    ensures
        strictly_sorted(views(final(v)@)),
        views(final(v)@).to_set() == views(old(v)@).to_set().insert(x@),
{
    let xs = chars_of(x.as_str());
    let ghost old_views = views(v@);
    let mut i: usize = 0;
    while i < v.len()
        invariant
            i <= v.len(),
            v@ == old(v)@,
            old_views == views(v@),
            strictly_sorted(old_views),
            xs@ == x@,
            forall|k: int| 0 <= k < i ==> seq_lt(#[trigger] old_views[k], x@),
        ensures
            i <= v.len(),
            forall|k: int| 0 <= k < i ==> seq_lt(#[trigger] old_views[k], x@),
            i < v.len() ==> seq_lt(x@, old_views[i as int]),
        decreases v.len() - i,
    {
        let cs = chars_of(v[i].as_str());
        assert(old_views[i as int] == cs@);
        let c = compare_chars(&cs, &xs);
        if c == 0 {
            proof {
                assert(old_views.to_set().insert(x@) =~= old_views.to_set()) by {
                    assert(old_views.contains(x@));
                }
            }
            return;
        }
        if c == 1 {
            break;
        }
        assert(seq_lt(old_views[i as int], x@));
        i = i + 1;
    }
    let ghost pos = i as int;
    v.insert(i, x);
    proof {
        let nv = views(v@);
        assert(nv =~= old_views.insert(pos, x@));
        assert forall|a: int, b: int| 0 <= a < b < nv.len() implies seq_lt(#[trigger] nv[a], #[trigger] nv[b]) by {
            if b < pos {
            } else if a < pos && b == pos {
            } else if a < pos && b > pos {
                assert(nv[b] == old_views[b - 1]);
                assert(seq_lt(old_views[a], old_views[b - 1]));
            } else if a == pos {
                assert(nv[b] == old_views[b - 1]);
                if b - 1 > pos {
                    assert(seq_lt(old_views[pos], old_views[b - 1]));
                    lemma_seq_lt_transitive(x@, old_views[pos], old_views[b - 1]);
                }
            } else {
                assert(nv[a] == old_views[a - 1]);
                assert(nv[b] == old_views[b - 1]);
            }
        }
        assert(nv.to_set() =~= old_views.to_set().insert(x@)) by {
            assert forall|s: Seq<char>| nv.to_set().contains(s) implies old_views.to_set().insert(x@).contains(s) by {
                let k = choose|k: int| 0 <= k < nv.len() && nv[k] == s;
                if k < pos {
                    assert(old_views[k] == s);
                } else if k > pos {
                    assert(old_views[k - 1] == s);
                }
            }
            assert forall|s: Seq<char>| old_views.to_set().insert(x@).contains(s) implies nv.to_set().contains(s) by {
                if s == x@ {
                    assert(nv[pos] == s);
                } else {
                    let k = choose|k: int| 0 <= k < old_views.len() && old_views[k] == s;
                    if k < pos {
                        assert(nv[k] == s);
                    } else {
                        assert(nv[k + 1] == s);
                    }
                }
            }
        }
    }
}

} // verus!
