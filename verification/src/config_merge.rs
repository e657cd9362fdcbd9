//! Backfilling a config document with the generated defaults.

use vstd::prelude::*;
use crate::json::{
    find_member, jget, jmember_index, jview, lemma_jmember_index_bounds,
    lemma_jmember_index_push, lemma_jmember_index_same_keys, lemma_object_view, members_view,
    JVal, Json,
};

verus! {

/// Merging `defaults` into `target`: when both are objects, every default
/// member missing from the target is added, every target member that is
/// `null` takes the default value, and every other target member named by
/// the defaults is merged recursively; any other target is kept. The flag
/// says whether anything was added or replaced.
pub open spec fn jmerge(t: JVal, d: JVal) -> (JVal, bool)
    decreases d,
{
    match t {
        JVal::Object(tm) => match d {
            JVal::Object(dm) => {
                let r = jmerge_members(tm, dm);
                (JVal::Object(r.0), r.1)
            },
            _ => (t, false),
        },
        _ => (t, false),
    }
}

/// The members of `tm` after merging the default members `dm` in order.
pub open spec fn jmerge_members(tm: Seq<(Seq<char>, JVal)>, dm: Seq<(Seq<char>, JVal)>) -> (
    Seq<(Seq<char>, JVal)>,
    bool,
)
    decreases dm,
{
    if dm.len() == 0 {
        (tm, false)
    } else {
        let prev = jmerge_members(tm, dm.drop_last());
        let m = prev.0;
        let k = dm[dm.len() - 1].0;
        let dv = dm[dm.len() - 1].1;
        let i = jmember_index(m, k);
        if i < 0 {
            (m.push((k, dv)), true)
        } else if m[i].1 is Null {
            (m.update(i, (k, dv)), true)
        } else {
            let sub = jmerge(m[i].1, dv);
            (m.update(i, (k, sub.0)), prev.1 || sub.1)
        }
    }
}

/// Merges the defaults into `target` as `jmerge` says and reports whether
/// anything changed.
pub fn merge_missing_config_fields(target: &mut Json, defaults: &Json) -> (changed: bool)
    ensures
        (jview(*final(target)), changed) == jmerge(jview(*old(target)), jview(*defaults)),
    decreases defaults,
{
    let dm = match defaults {
        Json::Object(dm) => dm,
        _ => {
            return false;
        },
    };
    proof {
        lemma_object_view(*dm);
    }
    match target {
        Json::Object(tm) => {
            let ghost tm0 = members_view(tm@);
            let ghost dmv = members_view(dm@);
            proof {
                lemma_object_view(*tm);
                assert(dmv.take(0) =~= Seq::<(Seq<char>, JVal)>::empty());
            }
            let mut changed = false;
            let mut i: usize = 0;
            while i < dm.len()
                invariant
                    i <= dm.len(),
                    *defaults == Json::Object(*dm),
                    dmv == members_view(dm@),
                    (members_view(tm@), changed) == jmerge_members(tm0, dmv.take(i as int)),
                decreases dm.len() - i,
            {
                let ghost before = members_view(tm@);
                proof {
                    assert(dmv.take(i + 1).drop_last() =~= dmv.take(i as int));
                    assert(dmv.take(i + 1)[i as int] == dmv[i as int]);
                }
                let key = &dm[i].0;
                let dv = &dm[i].1;
                match find_member(tm, key.as_str()) {
                    None => {
                        let c = dv.deep_clone();
                        tm.push((key.clone(), c));
                        changed = true;
                        proof {
                            assert(members_view(tm@) =~= before.push((key@, jview(*dv))));
                        }
                    },
                    Some(j) => {
                        proof {
                            lemma_jmember_index_bounds(before, key@);
                        }
                        let mut slot: (String, Json) = (String::new(), Json::Null);
                        tm.set_and_swap(j, &mut slot);
                        let (sk, mut sv) = slot;
                        assert(jview(sv) == before[j as int].1);
                        if sv.is_null() {
                            sv = dv.deep_clone();
                            changed = true;
                        } else {
                            proof {
                                assert(decreases_to!(*defaults => (*defaults)->Object_0));
                                assert(decreases_to!((*defaults)->Object_0 => dm@));
                                assert(decreases_to!(dm@ => dm@[i as int]));
                                assert(decreases_to!(dm@[i as int] => dm@[i as int].1));
                            }
                            let c = merge_missing_config_fields(&mut sv, dv);
                            changed = changed || c;
                        }
                        let mut back = (sk, sv);
                        tm.set_and_swap(j, &mut back);
                        proof {
                            assert(members_view(tm@) =~= before.update(j as int, (key@, jview(sv))));
                        }
                    },
                }
                i = i + 1;
            }
            proof {
                assert(dmv.take(dm.len() as int) =~= dmv);
                lemma_object_view(*tm);
            }
            changed
        },
        _ => false,
    }
}

/// A merge that reports no change leaves the target as it was.
pub proof fn lemma_merge_unreported_is_unchanged(t: JVal, d: JVal)
    ensures
        !jmerge(t, d).1 ==> jmerge(t, d).0 == t,
    decreases d,
{
    match t {
        JVal::Object(tm) => match d {
            JVal::Object(dm) => {
                lemma_merge_members_unreported_is_unchanged(tm, dm);
            },
            _ => {},
        },
        _ => {},
    }
}

proof fn lemma_merge_members_unreported_is_unchanged(
    tm: Seq<(Seq<char>, JVal)>,
    dm: Seq<(Seq<char>, JVal)>,
)
    ensures
        !jmerge_members(tm, dm).1 ==> jmerge_members(tm, dm).0 == tm,
    decreases dm,
{
    if dm.len() > 0 {
        lemma_merge_members_unreported_is_unchanged(tm, dm.drop_last());
        let prev = jmerge_members(tm, dm.drop_last());
        let m = prev.0;
        let k = dm[dm.len() - 1].0;
        let dv = dm[dm.len() - 1].1;
        let i = jmember_index(m, k);
        lemma_jmember_index_bounds(m, k);
        if i >= 0 && !(m[i].1 is Null) {
            lemma_merge_unreported_is_unchanged(m[i].1, dv);
            assert(m.update(i, (k, m[i].1)) =~= m);
        }
    }
}

/// Whether a value is not `null`.
pub open spec fn jpresent(v: Option<JVal>) -> bool {
    match v {
        Some(x) => !(x is Null),
        None => false,
    }
}

/// Whether no default member is `null`.
pub open spec fn defaults_have_no_null_members(dm: Seq<(Seq<char>, JVal)>) -> bool {
    forall|j: int| 0 <= j < dm.len() ==> !(#[trigger] dm[j].1 is Null)
}

proof fn lemma_merge_members_keys(tm: Seq<(Seq<char>, JVal)>, dm: Seq<(Seq<char>, JVal)>)
    ensures
        forall|k: Seq<char>|
            jmember_index(tm, k) >= 0 ==> jmember_index(#[trigger] jmerge_members(tm, dm).0, k)
                >= 0,
        forall|j: int|
            0 <= j < dm.len() ==> jmember_index(jmerge_members(tm, dm).0, #[trigger] dm[j].0) >= 0,
        defaults_have_no_null_members(dm) ==> forall|j: int|
            0 <= j < dm.len() ==> !(jmerge_members(tm, dm).0[jmember_index(
                jmerge_members(tm, dm).0,
                #[trigger] dm[j].0,
            )].1 is Null),
    decreases dm.len(),
{
    if dm.len() > 0 {
        let dp = dm.drop_last();
        lemma_merge_members_keys(tm, dp);
        let prev = jmerge_members(tm, dp);
        let m = prev.0;
        let r = jmerge_members(tm, dm).0;
        let k = dm[dm.len() - 1].0;
        let dv = dm[dm.len() - 1].1;
        let i = jmember_index(m, k);
        lemma_jmember_index_bounds(m, k);
        if defaults_have_no_null_members(dm) {
            assert forall|j: int| 0 <= j < dp.len() implies !(#[trigger] dp[j].1 is Null) by {
                assert(dp[j] == dm[j]);
            }
        }
        if i < 0 {
            assert(r == m.push((k, dv)));
            assert forall|k2: Seq<char>| jmember_index(m, k2) >= 0 implies jmember_index(
                r,
                k2,
            ) == jmember_index(m, k2) by {
                lemma_jmember_index_push(m, (k, dv), k2);
            }
            lemma_jmember_index_push(m, (k, dv), k);
            assert forall|j: int| 0 <= j < dm.len() implies jmember_index(r, #[trigger] dm[j].0)
                >= 0 by {
                if j < dm.len() - 1 {
                    assert(dp[j] == dm[j]);
                }
            }
            if defaults_have_no_null_members(dm) {
                assert forall|j: int| 0 <= j < dm.len() implies !(r[jmember_index(
                    r,
                    #[trigger] dm[j].0,
                )].1 is Null) by {
                    if j < dm.len() - 1 {
                        assert(dp[j] == dm[j]);
                        lemma_jmember_index_bounds(m, dm[j].0);
                        assert(r[jmember_index(m, dm[j].0)] == m[jmember_index(m, dm[j].0)]);
                    } else {
                        assert(r[m.len() as int] == (k, dv));
                    }
                }
            }
        } else {
            let nv = if m[i].1 is Null {
                dv
            } else {
                jmerge(m[i].1, dv).0
            };
            assert(r == m.update(i, (k, nv)));
            assert forall|k2: Seq<char>| #![trigger jmember_index(r, k2)] true implies jmember_index(
                r,
                k2,
            ) == jmember_index(m, k2) by {
                lemma_jmember_index_same_keys(m, r, k2);
            }
            assert forall|j: int| 0 <= j < dm.len() implies jmember_index(r, #[trigger] dm[j].0)
                >= 0 by {
                if j < dm.len() - 1 {
                    assert(dp[j] == dm[j]);
                }
                assert(jmember_index(r, dm[j].0) == jmember_index(m, dm[j].0));
            }
            if defaults_have_no_null_members(dm) {
                assert(!(dm[dm.len() - 1].1 is Null));
                assert(!(nv is Null));
                assert forall|j: int| 0 <= j < dm.len() implies !(r[jmember_index(
                    r,
                    #[trigger] dm[j].0,
                )].1 is Null) by {
                    let q = jmember_index(r, dm[j].0);
                    assert(q == jmember_index(m, dm[j].0));
                    if q != i {
                        if j < dm.len() - 1 {
                            assert(dp[j] == dm[j]);
                        }
                        lemma_jmember_index_bounds(m, dm[j].0);
                        assert(r[q] == m[q]);
                    }
                }
            }
        }
    }
}

/// Merging an object of defaults into an object keeps every name the target
/// had and adds every name of the defaults; where no default member is
/// `null`, no default name is left `null`.
pub proof fn lemma_merge_has_default_keys(t: JVal, d: JVal)
    requires
        t is Object,
        d is Object,
    ensures
        jmerge(t, d).0 is Object,
        forall|k: Seq<char>| jget(t, k) is Some ==> jget(#[trigger] jmerge(t, d).0, k) is Some,
        forall|j: int|
            0 <= j < d->Object_0.len() ==> jget(jmerge(t, d).0, #[trigger] d->Object_0[j].0) is Some,
        defaults_have_no_null_members(d->Object_0) ==> forall|j: int|
            0 <= j < d->Object_0.len() ==> jpresent(
                jget(jmerge(t, d).0, #[trigger] d->Object_0[j].0),
            ),
{
    let tm = t->Object_0;
    let dm = d->Object_0;
    lemma_merge_members_keys(tm, dm);
    let r = jmerge_members(tm, dm).0;
    assert forall|k: Seq<char>| jget(t, k) is Some implies jget(
        #[trigger] jmerge(t, d).0,
        k,
    ) is Some by {
        assert(jmember_index(tm, k) >= 0);
    }
}

proof fn lemma_merge_members_only_known_keys(tm: Seq<(Seq<char>, JVal)>, dm: Seq<(Seq<char>, JVal)>)
    ensures
        forall|k: Seq<char>|
            jmember_index(#[trigger] jmerge_members(tm, dm).0, k) >= 0 ==> jmember_index(tm, k) >= 0
                || exists|j: int| 0 <= j < dm.len() && dm[j].0 == k,
    decreases dm.len(),
{
    if dm.len() > 0 {
        let dp = dm.drop_last();
        lemma_merge_members_only_known_keys(tm, dp);
        let m = jmerge_members(tm, dp).0;
        let r = jmerge_members(tm, dm).0;
        let k = dm[dm.len() - 1].0;
        let dv = dm[dm.len() - 1].1;
        let i = jmember_index(m, k);
        assert forall|k2: Seq<char>| jmember_index(r, k2) >= 0 implies jmember_index(tm, k2) >= 0
            || exists|j: int| 0 <= j < dm.len() && dm[j].0 == k2 by {
            if i < 0 {
                lemma_jmember_index_push(m, (k, dv), k2);
                if k2 == k {
                    assert(dm[dm.len() - 1].0 == k2);
                }
            } else {
                lemma_jmember_index_bounds(m, k);
                let nv = if m[i].1 is Null {
                    dv
                } else {
                    jmerge(m[i].1, dv).0
                };
                assert(r == m.update(i, (k, nv)));
                lemma_jmember_index_same_keys(m, r, k2);
            }
            if jmember_index(m, k2) >= 0 && jmember_index(tm, k2) < 0 {
                let j = choose|j: int| 0 <= j < dp.len() && dp[j].0 == k2;
                assert(dm[j] == dp[j]);
            }
        }
    }
}

/// Merging an object of defaults into an object gives exactly the names of
/// the target and of the defaults.
pub proof fn lemma_merge_keys_are_union(t: JVal, d: JVal)
    requires
        t is Object,
        d is Object,
    ensures
        forall|k: Seq<char>|
            jget(#[trigger] jmerge(t, d).0, k) is Some <==> (jget(t, k) is Some || exists|j: int|
                0 <= j < d->Object_0.len() && d->Object_0[j].0 == k),
{
    let tm = t->Object_0;
    let dm = d->Object_0;
    lemma_merge_members_keys(tm, dm);
    lemma_merge_members_only_known_keys(tm, dm);
    assert forall|k: Seq<char>| jget(#[trigger] jmerge(t, d).0, k) is Some <==> (jget(t, k) is Some
        || exists|j: int| 0 <= j < dm.len() && dm[j].0 == k) by {
        if exists|j: int| 0 <= j < dm.len() && dm[j].0 == k {
            let j = choose|j: int| 0 <= j < dm.len() && dm[j].0 == k;
            assert(jmember_index(jmerge_members(tm, dm).0, dm[j].0) >= 0);
        }
    }
}

/// Whether a value is a scalar other than `null`.
pub open spec fn jscalar(v: JVal) -> bool {
    !(v is Null) && !(v is Object)
}

proof fn lemma_merge_members_keeps_scalars(tm: Seq<(Seq<char>, JVal)>, dm: Seq<(Seq<char>, JVal)>)
    ensures
        forall|k: Seq<char>|
            jmember_index(tm, k) >= 0 && jscalar(tm[jmember_index(tm, k)].1) ==> jmember_index(
                #[trigger] jmerge_members(tm, dm).0,
                k,
            ) == jmember_index(tm, k) && jmerge_members(tm, dm).0[jmember_index(tm, k)] == tm[jmember_index(
                tm,
                k,
            )],
    decreases dm.len(),
{
    if dm.len() > 0 {
        let dp = dm.drop_last();
        lemma_merge_members_keeps_scalars(tm, dp);
        let m = jmerge_members(tm, dp).0;
        let r = jmerge_members(tm, dm).0;
        let k = dm[dm.len() - 1].0;
        let dv = dm[dm.len() - 1].1;
        let i = jmember_index(m, k);
        lemma_jmember_index_bounds(m, k);
        assert forall|k2: Seq<char>| jmember_index(tm, k2) >= 0 && jscalar(
            tm[jmember_index(tm, k2)].1,
        ) implies jmember_index(#[trigger] jmerge_members(tm, dm).0, k2) == jmember_index(tm, k2)
            && jmerge_members(tm, dm).0[jmember_index(tm, k2)] == tm[jmember_index(tm, k2)] by {
            let q = jmember_index(tm, k2);
            assert(jmember_index(m, k2) == q && m[q] == tm[q]);
            lemma_jmember_index_bounds(m, k2);
            if i < 0 {
                lemma_jmember_index_push(m, (k, dv), k2);
                assert(r == m.push((k, dv)));
            } else {
                let nv = if m[i].1 is Null {
                    dv
                } else {
                    jmerge(m[i].1, dv).0
                };
                assert(r == m.update(i, (k, nv)));
                lemma_jmember_index_same_keys(m, r, k2);
                if i == q {
                    assert(nv == m[i].1);
                }
            }
        }
    }
}

/// Merging an object of defaults into an object keeps every member of the
/// target whose value is a scalar other than `null`.
pub proof fn lemma_merge_keeps_scalars(t: JVal, d: JVal)
    requires
        t is Object,
        d is Object,
    ensures
        forall|k: Seq<char>|
            (match jget(t, k) {
                Some(v) => jscalar(v),
                None => false,
            }) ==> #[trigger] jget(jmerge(t, d).0, k) == jget(t, k),
{
    lemma_merge_members_keeps_scalars(t->Object_0, d->Object_0);
}

/// Merging defaults into a target that already has every default name with
/// a value other than `null` changes nothing, when no default value is an
/// object.
pub proof fn lemma_merge_flat_defaults_covered(t: JVal, d: JVal)
    requires
        t is Object,
        d is Object,
        forall|j: int| 0 <= j < d->Object_0.len() ==> !(#[trigger] d->Object_0[j].1 is Object),
        forall|j: int|
            0 <= j < d->Object_0.len() ==> jpresent(jget(t, #[trigger] d->Object_0[j].0)),
    ensures
        jmerge(t, d) == (t, false),
{
    lemma_merge_members_flat_covered(t->Object_0, d->Object_0);
}

proof fn lemma_merge_members_flat_covered(tm: Seq<(Seq<char>, JVal)>, dm: Seq<(Seq<char>, JVal)>)
    requires
        forall|j: int| 0 <= j < dm.len() ==> !(#[trigger] dm[j].1 is Object),
        forall|j: int|
            0 <= j < dm.len() ==> jpresent(jget(JVal::Object(tm), #[trigger] dm[j].0)),
    ensures
        jmerge_members(tm, dm) == (tm, false),
    decreases dm.len(),
{
    if dm.len() > 0 {
        let dp = dm.drop_last();
        assert forall|j: int| 0 <= j < dp.len() implies !(#[trigger] dp[j].1 is Object) by {
            assert(dp[j] == dm[j]);
        }
        assert forall|j: int| 0 <= j < dp.len() implies jpresent(
            jget(JVal::Object(tm), #[trigger] dp[j].0),
        ) by {
            assert(dp[j] == dm[j]);
        }
        lemma_merge_members_flat_covered(tm, dp);
        let k = dm[dm.len() - 1].0;
        let dv = dm[dm.len() - 1].1;
        assert(jpresent(jget(JVal::Object(tm), dm[dm.len() - 1].0)));
        let i = jmember_index(tm, k);
        assert(!(dv is Object));
        assert(jmerge(tm[i].1, dv) == (tm[i].1, false));
        assert(tm.update(i, (k, tm[i].1)) =~= tm) by {
            lemma_jmember_index_bounds(tm, k);
        }
    }
}

/// Whether `t` already holds everything `d` would merge into it: when both
/// are objects, every name of `d` is present in `t` with a value other than
/// `null` that in turn holds the default's value.
pub open spec fn covered(t: JVal, d: JVal) -> bool
    decreases d,
{
    match t {
        JVal::Object(tm) => match d {
            JVal::Object(dm) => covered_members(tm, dm),
            _ => true,
        },
        _ => true,
    }
}

/// Whether the members `tm` hold every default member of `dm`.
pub open spec fn covered_members(tm: Seq<(Seq<char>, JVal)>, dm: Seq<(Seq<char>, JVal)>) -> bool
    decreases dm,
{
    if dm.len() == 0 {
        true
    } else {
        let k = dm[dm.len() - 1].0;
        let i = jmember_index(tm, k);
        covered_members(tm, dm.drop_last()) && i >= 0 && !(tm[i].1 is Null) && covered(
            tm[i].1,
            dm[dm.len() - 1].1,
        )
    }
}

/// A target that holds everything of the defaults is left as it is, and the
/// merge reports no change.
pub proof fn lemma_covered_merge_is_unchanged(t: JVal, d: JVal)
    requires
        covered(t, d),
    ensures
        jmerge(t, d) == (t, false),
    decreases d,
{
    match t {
        JVal::Object(tm) => match d {
            JVal::Object(dm) => {
                lemma_covered_members_unchanged(tm, dm);
            },
            _ => {},
        },
        _ => {},
    }
}

proof fn lemma_covered_members_unchanged(tm: Seq<(Seq<char>, JVal)>, dm: Seq<(Seq<char>, JVal)>)
    requires
        covered_members(tm, dm),
    ensures
        jmerge_members(tm, dm) == (tm, false),
    decreases dm,
{
    if dm.len() > 0 {
        lemma_covered_members_unchanged(tm, dm.drop_last());
        let k = dm[dm.len() - 1].0;
        let dv = dm[dm.len() - 1].1;
        let i = jmember_index(tm, k);
        lemma_jmember_index_bounds(tm, k);
        lemma_covered_merge_is_unchanged(tm[i].1, dv);
        assert(tm.update(i, (k, tm[i].1)) =~= tm);
    }
}

/// One step of a merge: the default member `(k, dv)` merged into `m`.
pub open spec fn merge_step(m: Seq<(Seq<char>, JVal)>, k: Seq<char>, dv: JVal) -> Seq<(Seq<char>, JVal)> {
    let i = jmember_index(m, k);
    if i < 0 {
        m.push((k, dv))
    } else if m[i].1 is Null {
        m.update(i, (k, dv))
    } else {
        m.update(i, (k, jmerge(m[i].1, dv).0))
    }
}

proof fn lemma_merge_members_last_step(tm: Seq<(Seq<char>, JVal)>, dm: Seq<(Seq<char>, JVal)>)
    requires
        dm.len() > 0,
    ensures
        jmerge_members(tm, dm).0 == merge_step(
            jmerge_members(tm, dm.drop_last()).0,
            dm[dm.len() - 1].0,
            dm[dm.len() - 1].1,
        ),
{
}

proof fn lemma_merge_keeps_present(t: JVal, d: JVal)
    requires
        !(t is Null),
    ensures
        !(jmerge(t, d).0 is Null),
{
}

/// Merging more defaults keeps whatever a target already held.
proof fn lemma_covered_stable(t: JVal, e: JVal, d2: JVal)
    requires
        covered(t, e),
    ensures
        covered(jmerge(t, d2).0, e),
    decreases d2, 3nat,
{
    match t {
        JVal::Object(tm) => match d2 {
            JVal::Object(dm2) => {
                lemma_members_stable(tm, e, dm2);
            },
            _ => {},
        },
        _ => {},
    }
}

proof fn lemma_members_stable(tm: Seq<(Seq<char>, JVal)>, e: JVal, dm2: Seq<(Seq<char>, JVal)>)
    requires
        covered(JVal::Object(tm), e),
    ensures
        covered(JVal::Object(jmerge_members(tm, dm2).0), e),
    decreases dm2, 2nat,
{
    if dm2.len() > 0 {
        lemma_members_stable(tm, e, dm2.drop_last());
        let m = jmerge_members(tm, dm2.drop_last()).0;
        lemma_merge_members_last_step(tm, dm2);
        match e {
            JVal::Object(em) => {
                lemma_step_stable(m, em, dm2);
            },
            _ => {},
        }
    }
}

proof fn lemma_step_stable(m: Seq<(Seq<char>, JVal)>, em: Seq<(Seq<char>, JVal)>, dm2: Seq<(Seq<char>, JVal)>)
    requires
        dm2.len() > 0,
        covered_members(m, em),
    ensures
        covered_members(merge_step(m, dm2[dm2.len() - 1].0, dm2[dm2.len() - 1].1), em),
    decreases dm2, 1nat, em.len(),
{
    if em.len() > 0 {
        lemma_step_stable(m, em.drop_last(), dm2);
        let k = dm2[dm2.len() - 1].0;
        let dv = dm2[dm2.len() - 1].1;
        let m2 = merge_step(m, k, dv);
        let ke = em[em.len() - 1].0;
        let ve = em[em.len() - 1].1;
        let ie = jmember_index(m, ke);
        let i = jmember_index(m, k);
        lemma_jmember_index_bounds(m, k);
        lemma_jmember_index_bounds(m, ke);
        if i < 0 {
            lemma_jmember_index_push(m, (k, dv), ke);
            assert(m2[ie] == m[ie]);
        } else {
            let nv = if m[i].1 is Null {
                dv
            } else {
                jmerge(m[i].1, dv).0
            };
            assert(m2 == m.update(i, (k, nv)));
            lemma_jmember_index_same_keys(m, m2, ke);
            if ie == i {
                assert(!(m[i].1 is Null));
                assert(decreases_to!(dm2 => dm2[dm2.len() - 1]));
                assert(decreases_to!(dm2[dm2.len() - 1] => dm2[dm2.len() - 1].1));
                lemma_covered_stable(m[i].1, ve, dv);
                lemma_merge_keeps_present(m[i].1, dv);
            } else {
                assert(m2[ie] == m[ie]);
            }
        }
    }
}

/// Defaults with no `null` value and no repeated name, at any depth.
pub open spec fn well_formed_defaults(d: JVal) -> bool
    decreases d,
{
    match d {
        JVal::Object(dm) => well_formed_default_members(dm),
        _ => true,
    }
}

/// Default members with no `null` value and no repeated name, at any
/// depth.
pub open spec fn well_formed_default_members(dm: Seq<(Seq<char>, JVal)>) -> bool
    decreases dm,
{
    if dm.len() == 0 {
        true
    } else {
        let last = dm[dm.len() - 1];
        well_formed_default_members(dm.drop_last()) && !(last.1 is Null) && well_formed_defaults(last.1)
            && forall|j: int| 0 <= j < dm.len() - 1 ==> #[trigger] dm[j].0 != last.0
    }
}

proof fn lemma_well_formed_members_each(dm: Seq<(Seq<char>, JVal)>)
    requires
        well_formed_default_members(dm),
    ensures
        forall|j: int|
            0 <= j < dm.len() ==> !(#[trigger] dm[j].1 is Null) && well_formed_defaults(dm[j].1)
                && jmember_index(dm, dm[j].0) == j,
    decreases dm.len(),
{
    if dm.len() > 0 {
        let dp = dm.drop_last();
        lemma_well_formed_members_each(dp);
        assert forall|j: int| 0 <= j < dm.len() implies !(#[trigger] dm[j].1 is Null) && well_formed_defaults(
            dm[j].1,
        ) && jmember_index(dm, dm[j].0) == j by {
            lemma_jmember_index_bounds(dm, dm[j].0);
            let i = jmember_index(dm, dm[j].0);
            if j < dm.len() - 1 {
                assert(dp[j] == dm[j]);
                lemma_jmember_index_bounds(dp, dm[j].0);
                let ip = jmember_index(dp, dm[j].0);
                assert(ip == j);
                if i >= 0 && i < j {
                    assert(dp[i] == dm[i]);
                }
                if i > j {
                    assert(dm[j].0 != dm[j].0);
                }
            } else {
                if i >= 0 && i < j {
                    assert(dm[i].0 != dm[dm.len() - 1].0);
                }
            }
        }
    }
}

proof fn lemma_defaults_cover_themselves(d: JVal)
    requires
        well_formed_defaults(d),
    ensures
        covered(d, d),
    decreases d, 0nat,
{
    match d {
        JVal::Object(dm) => {
            lemma_well_formed_members_each(dm);
            lemma_members_cover_prefix(dm, dm.len());
            assert(dm.take(dm.len() as int) =~= dm);
        },
        _ => {},
    }
}

proof fn lemma_members_cover_prefix(dm: Seq<(Seq<char>, JVal)>, n: nat)
    requires
        n <= dm.len(),
        forall|j: int|
            0 <= j < dm.len() ==> !(#[trigger] dm[j].1 is Null) && well_formed_defaults(dm[j].1)
                && jmember_index(dm, dm[j].0) == j,
    ensures
        covered_members(dm, dm.take(n as int)),
    decreases dm, n,
{
    if n > 0 {
        lemma_members_cover_prefix(dm, (n - 1) as nat);
        assert(dm.take(n as int).drop_last() =~= dm.take(n - 1));
        assert(dm.take(n as int)[n - 1] == dm[n - 1]);
        let j = n - 1;
        assert(!(dm[j].1 is Null) && well_formed_defaults(dm[j].1) && jmember_index(dm, dm[j].0) == j);
        assert(decreases_to!(dm => dm[j]));
        assert(decreases_to!(dm[j] => dm[j].1));
        lemma_defaults_cover_themselves(dm[j].1);
    } else {
        assert(dm.take(0) =~= Seq::<(Seq<char>, JVal)>::empty());
    }
}

proof fn lemma_merge_covers(t: JVal, d: JVal)
    requires
        well_formed_defaults(d),
    ensures
        covered(jmerge(t, d).0, d),
    decreases d, 1nat,
{
    match t {
        JVal::Object(tm) => match d {
            JVal::Object(dm) => {
                lemma_merge_members_cover(tm, dm);
            },
            _ => {},
        },
        _ => {},
    }
}

proof fn lemma_merge_members_cover(tm: Seq<(Seq<char>, JVal)>, dm: Seq<(Seq<char>, JVal)>)
    requires
        well_formed_default_members(dm),
    ensures
        covered_members(jmerge_members(tm, dm).0, dm),
    decreases dm, 0nat,
{
    if dm.len() > 0 {
        let dp = dm.drop_last();
        lemma_merge_members_cover(tm, dp);
        let m = jmerge_members(tm, dp).0;
        lemma_merge_members_last_step(tm, dm);
        let k = dm[dm.len() - 1].0;
        let dv = dm[dm.len() - 1].1;
        let m2 = merge_step(m, k, dv);
        lemma_step_stable(m, dp, dm);
        let i = jmember_index(m, k);
        lemma_jmember_index_bounds(m, k);
        assert(decreases_to!(dm => dm[dm.len() - 1]));
        assert(decreases_to!(dm[dm.len() - 1] => dm[dm.len() - 1].1));
        if i < 0 {
            lemma_jmember_index_push(m, (k, dv), k);
            lemma_defaults_cover_themselves(dv);
        } else {
            let nv = if m[i].1 is Null {
                dv
            } else {
                jmerge(m[i].1, dv).0
            };
            assert(m2 == m.update(i, (k, nv)));
            lemma_jmember_index_same_keys(m, m2, k);
            if m[i].1 is Null {
                lemma_defaults_cover_themselves(dv);
            } else {
                lemma_merge_covers(m[i].1, dv);
                lemma_merge_keeps_present(m[i].1, dv);
            }
        }
    }
}

/// With well-formed defaults (no `null` value and no repeated name, at any
/// depth), merging a second time changes nothing and reports no change.
pub proof fn lemma_merge_idempotent(t: JVal, d: JVal)
    requires
        well_formed_defaults(d),
    ensures
        jmerge(jmerge(t, d).0, d) == (jmerge(t, d).0, false),
{
    lemma_merge_covers(t, d);
    lemma_covered_merge_is_unchanged(jmerge(t, d).0, d);
}

/// With well-formed defaults, the merge reports a change exactly when the
/// merged document differs from the target.
pub proof fn lemma_merge_reports_exactly_a_change(t: JVal, d: JVal)
    requires
        well_formed_defaults(d),
    ensures
        jmerge(t, d).1 == (jmerge(t, d).0 != t),
{
    lemma_merge_idempotent(t, d);
    lemma_merge_unreported_is_unchanged(t, d);
}

} // verus!
