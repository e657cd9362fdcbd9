//! Health views of a run for the status payload: whether host subagents or
//! assignment drift block the captain, the recovery lane for stalled or
//! failed subagents, and bounded string lists.

use vstd::prelude::*;
use crate::json::{
    get_or, jbool, jget, jget_path, jstr, jstr_at, jstr_field, jstring, jview, juint,
    lemma_array_view, member, members_view, object_of, opt_bool, opt_u64, JVal, Json,
};
use crate::strings::{concat2, is_blank, opt_view, str_eq, trim, trim_string};
use crate::text_utils::{summarize_text_for_visibility, summary_of};
use crate::worker_fleet::jviews;

verus! {

/// The boolean at a path, false when it is not one.
pub open spec fn flag_at(j: JVal, keys: Seq<Seq<char>>) -> bool {
    opt_bool(jget_path(j, keys)) == Some(true)
}

fn flag_at2(j: &Json, a: &str, b: &str) -> (r: bool)
    ensures
        r == flag_at(jview(*j), seq![a@, b@]),
{
    let keys: [&str; 2] = [a, b];
    let ks = keys.as_slice();
    assert(ks@.map_values(|k: &str| k@) =~= seq![a@, b@]);
    match j.get_path(ks) {
        Some(v) => match v.as_bool() {
            Some(x) => x,
            None => false,
        },
        None => false,
    }
}

fn str_at2<'a>(j: &'a Json, a: &str, b: &str) -> (r: Option<&'a str>)
    ensures
        opt_view(r) == jstr_at(jview(*j), seq![a@, b@]),
{
    let keys: [&str; 2] = [a, b];
    let ks = keys.as_slice();
    assert(ks@.map_values(|k: &str| k@) =~= seq![a@, b@]);
    j.str_at(ks)
}

/// The assignment quality state says the assignment drifted (any state but
/// `matched`).
pub open spec fn spec_assignment_drift(task: JVal) -> bool {
    match jstr_at(task, seq!["assignment_quality"@, "state"@]) {
        Some(s) => s != "matched"@,
        None => false,
    }
}

/// The drift severity: as recorded, else blocking for a drift and none
/// otherwise.
pub open spec fn spec_assignment_drift_severity(task: JVal) -> Seq<char> {
    match jstr_at(task, seq!["assignment_quality"@, "drift_severity"@]) {
        Some(s) => s,
        None => if spec_assignment_drift(task) {
            "blocking"@
        } else {
            "none"@
        },
    }
}

/// What blocks the captain: host subagent reclaim or recovery needing the
/// operator, an assignment drift of blocking severity, or a policy drift.
pub open spec fn spec_active_conflict_state(host: JVal, task: JVal) -> JVal {
    let reclaim_attention = flag_at(
        host,
        seq!["reclaim_replan_recommendation"@, "needs_operator_attention"@],
    );
    let recovery_attention = flag_at(
        host,
        seq!["recovery_recommendation"@, "needs_operator_attention"@],
    );
    let active = match opt_u64(jget(host, "active_subagent_count"@)) {
        Some(n) => n,
        None => 0,
    };
    let drift = spec_assignment_drift(task);
    let severity = spec_assignment_drift_severity(task);
    let drift_blocks = drift && !(severity == "none"@ || severity == "info"@ || severity
        == "non_blocking"@);
    let policy_drift = opt_bool(jget_path(task, seq!["subagent_policy_drift"@, "ok"@])) == Some(
        false,
    );
    JVal::Object(
        seq![
            ("active_subagent_count"@, JVal::Num(active)),
            ("reclaim_needs_attention"@, JVal::Bool(reclaim_attention)),
            ("recovery_needs_attention"@, JVal::Bool(recovery_attention)),
            ("assignment_drift"@, JVal::Bool(drift)),
            ("assignment_drift_severity"@, JVal::Str(severity)),
            ("policy_drift"@, JVal::Bool(policy_drift)),
            (
                "blocked"@,
                JVal::Bool(reclaim_attention || recovery_attention || drift_blocks || policy_drift),
            ),
        ],
    )
}

pub fn active_conflict_state(host_subagent_state: &Json, current_task_card: &Json) -> (r: Json)
    ensures
        jview(r) == spec_active_conflict_state(jview(*host_subagent_state), jview(*current_task_card)),
{
    let reclaim_attention = flag_at2(
        host_subagent_state,
        "reclaim_replan_recommendation",
        "needs_operator_attention",
    );
    let recovery_attention = flag_at2(
        host_subagent_state,
        "recovery_recommendation",
        "needs_operator_attention",
    );
    let active: u64 = match host_subagent_state.u64_field("active_subagent_count") {
        Some(n) => n,
        None => 0,
    };
    let drift = match str_at2(current_task_card, "assignment_quality", "state") {
        Some(s) => !str_eq(s, "matched"),
        None => false,
    };
    let severity: &str = match str_at2(current_task_card, "assignment_quality", "drift_severity") {
        Some(s) => s,
        None => if drift {
            "blocking"
        } else {
            "none"
        },
    };
    let drift_blocks = drift && !(str_eq(severity, "none") || str_eq(severity, "info") || str_eq(
        severity,
        "non_blocking",
    ));
    let keys: [&str; 2] = ["subagent_policy_drift", "ok"];
    let ks = keys.as_slice();
    assert(ks@.map_values(|k: &str| k@) =~= seq!["subagent_policy_drift"@, "ok"@]);
    let policy_drift = match current_task_card.get_path(ks) {
        Some(v) => match v.as_bool() {
            Some(b) => !b,
            None => false,
        },
        None => false,
    };
    let mut m: Vec<(String, Json)> = Vec::new();
    m.push(member("active_subagent_count", juint(active)));
    m.push(member("reclaim_needs_attention", jbool(reclaim_attention)));
    m.push(member("recovery_needs_attention", jbool(recovery_attention)));
    m.push(member("assignment_drift", jbool(drift)));
    m.push(member("assignment_drift_severity", jstr(severity)));
    m.push(member("policy_drift", jbool(policy_drift)));
    m.push(
        member(
            "blocked",
            jbool(reclaim_attention || recovery_attention || drift_blocks || policy_drift),
        ),
    );
    let r = object_of(m);
    assert(members_view(m@) =~= spec_active_conflict_state(
        jview(*host_subagent_state),
        jview(*current_task_card),
    )->Object_0);
    r
}

/// A member that is an object, else `null`.
pub open spec fn object_member_or_null(j: JVal, key: Seq<char>) -> JVal {
    match jget(j, key) {
        Some(JVal::Object(m)) => JVal::Object(m),
        _ => JVal::Null,
    }
}

/// A recommended action that is not blank, else `none`.
pub open spec fn spec_recommended_action(rec: JVal) -> Seq<char> {
    match jstr_field(rec, "recommended_action"@) {
        Some(s) => if trim(s).len() > 0 {
            s
        } else {
            "none"@
        },
        None => "none"@,
    }
}

/// The recovery lane status for the recommended recovery and reclaim
/// actions.
pub open spec fn spec_recovery_lane_status(recovery_action: Seq<char>, reclaim_action: Seq<char>) -> Seq<
    char,
> {
    if recovery_action == "none"@ {
        if reclaim_action == "await_fan_in_or_replan"@ {
            "watching"@
        } else {
            "clear"@
        }
    } else if recovery_action == "reclaim"@ {
        "reclaim_pending"@
    } else {
        "recovery_pending"@
    }
}

/// The recovery targets: the recovery recommendation's, else the reclaim
/// recommendation's.
pub open spec fn spec_recovery_targets(recovery: JVal, reclaim: JVal) -> Option<Seq<JVal>> {
    match jget(recovery, "targets"@) {
        Some(JVal::Array(ts)) => Some(ts),
        _ => match jget(reclaim, "targets"@) {
            Some(JVal::Array(ts)) => Some(ts),
            _ => None,
        },
    }
}

/// The recovery lane summary: the recovery summary when a recovery action is
/// recommended, else the reclaim summary or the recovery summary; trimmed
/// and summarized to 220 characters, or the all-clear sentence.
pub open spec fn spec_recovery_summary(recovery: JVal, reclaim: JVal, recovery_action: Seq<char>) -> Seq<
    char,
> {
    let source = if recovery_action != "none"@ {
        jget(recovery, "summary"@)
    } else {
        match jget(reclaim, "summary"@) {
            Some(v) => Some(v),
            None => jget(recovery, "summary"@),
        }
    };
    match source {
        Some(JVal::Str(s)) => if trim(s).len() > 0 {
            summary_of(trim(s), 220)
        } else {
            "No host subagent recovery action is currently needed."@
        },
        _ => "No host subagent recovery action is currently needed."@,
    }
}

/// The recovery lane of a run's host subagents.
pub open spec fn spec_recovery_lane(host: JVal) -> JVal {
    let recovery = object_member_or_null(host, "recovery_recommendation"@);
    let reclaim = object_member_or_null(host, "reclaim_replan_recommendation"@);
    let recovery_action = spec_recommended_action(recovery);
    let reclaim_action = spec_recommended_action(reclaim);
    let targets = spec_recovery_targets(recovery, reclaim);
    JVal::Object(
        seq![
            ("source"@, JVal::Str("host_subagent_state"@)),
            ("status"@, JVal::Str(spec_recovery_lane_status(recovery_action, reclaim_action))),
            ("recommended_action"@, JVal::Str(recovery_action)),
            ("reclaim_replan_action"@, JVal::Str(reclaim_action)),
            (
                "needs_operator_attention"@,
                JVal::Bool(
                    opt_bool(jget(recovery, "needs_operator_attention"@)) == Some(true) || opt_bool(
                        jget(reclaim, "needs_operator_attention"@),
                    ) == Some(true),
                ),
            ),
            (
                "prefer_before_degraded_fallback"@,
                JVal::Bool(opt_bool(jget(recovery, "prefer_before_degraded_fallback"@)) == Some(true)),
            ),
            (
                "target_count"@,
                JVal::Num(
                    match targets {
                        Some(ts) => ts.len() as int,
                        None => 0,
                    },
                ),
            ),
            (
                "targets"@,
                JVal::Array(
                    match targets {
                        Some(ts) => if ts.len() > 4 {
                            ts.take(4)
                        } else {
                            ts
                        },
                        None => Seq::empty(),
                    },
                ),
            ),
            ("summary"@, JVal::Str(spec_recovery_summary(recovery, reclaim, recovery_action))),
        ],
    )
}

fn object_member<'a>(j: &'a Json, key: &str) -> (r: Option<&'a Json>)
    ensures
        match r {
            Some(v) => object_member_or_null(jview(*j), key@) == jview(*v) && jview(*v) is Object,
            None => object_member_or_null(jview(*j), key@) == JVal::Null,
        },
{
    match j.get(key) {
        Some(v) => if v.is_object() {
            Some(v)
        } else {
            None
        },
        None => None,
    }
}

fn recommended_action<'a>(rec: Option<&'a Json>) -> (r: &'a str)
    ensures
        r@ == spec_recommended_action(
            match rec {
                Some(v) => jview(*v),
                None => JVal::Null,
            },
        ),
{
    match rec {
        Some(v) => match v.str_field("recommended_action") {
            Some(s) => if !is_blank(s) {
                s
            } else {
                "none"
            },
            None => "none",
        },
        None => "none",
    }
}

fn rec_get<'a>(rec: Option<&'a Json>, key: &str) -> (r: Option<&'a Json>)
    ensures
        match r {
            Some(v) => jget(
                match rec {
                    Some(x) => jview(*x),
                    None => JVal::Null,
                },
                key@,
            ) == Some(jview(*v)),
            None => jget(
                match rec {
                    Some(x) => jview(*x),
                    None => JVal::Null,
                },
                key@,
            ) is None,
        },
{
    match rec {
        Some(v) => v.get(key),
        None => None,
    }
}

fn rec_flag(rec: Option<&Json>, key: &str) -> (r: bool)
    ensures
        r == (opt_bool(
            jget(
                match rec {
                    Some(x) => jview(*x),
                    None => JVal::Null,
                },
                key@,
            ),
        ) == Some(true)),
{
    match rec_get(rec, key) {
        Some(v) => match v.as_bool() {
            Some(b) => b,
            None => false,
        },
        None => false,
    }
}

pub(crate) fn array_items<'a>(v: Option<&'a Json>) -> (r: Option<&'a Vec<Json>>)
    ensures
        match r {
            Some(items) => v matches Some(x) && jview(*x) == JVal::Array(jviews(items@)),
            None => !(v matches Some(x) && jview(*x) is Array),
        },
{
    match v {
        Some(x) => match x {
            Json::Array(items) => {
                proof {
                    lemma_array_view(*items);
                }
                Some(items)
            },
            _ => None,
        },
        None => None,
    }
}

pub fn create_recovery_lane_payload(host_subagent_state: &Json) -> (r: Json)
    ensures
        jview(r) == spec_recovery_lane(jview(*host_subagent_state)),
{
    let ghost hv = jview(*host_subagent_state);
    let recovery = object_member(host_subagent_state, "recovery_recommendation");
    let reclaim = object_member(host_subagent_state, "reclaim_replan_recommendation");
    let ghost rv = object_member_or_null(hv, "recovery_recommendation"@);
    let ghost cv = object_member_or_null(hv, "reclaim_replan_recommendation"@);
    assert(rv == match recovery {
        Some(x) => jview(*x),
        None => JVal::Null,
    });
    assert(cv == match reclaim {
        Some(x) => jview(*x),
        None => JVal::Null,
    });
    let recovery_action = recommended_action(recovery);
    let reclaim_action = recommended_action(reclaim);
    let status: &str = if str_eq(recovery_action, "none") {
        if str_eq(reclaim_action, "await_fan_in_or_replan") {
            "watching"
        } else {
            "clear"
        }
    } else if str_eq(recovery_action, "reclaim") {
        "reclaim_pending"
    } else {
        "recovery_pending"
    };
    let targets = match array_items(rec_get(recovery, "targets")) {
        Some(ts) => Some(ts),
        None => array_items(rec_get(reclaim, "targets")),
    };
    assert(spec_recovery_targets(rv, cv) == match targets {
        Some(ts) => Some(jviews(ts@)),
        None => None::<Seq<JVal>>,
    });
    let target_count: usize = match targets {
        Some(ts) => ts.len(),
        None => 0,
    };
    let mut bounded: Vec<Json> = Vec::new();
    match targets {
        Some(ts) => {
            let n: usize = if ts.len() > 4 {
                4
            } else {
                ts.len()
            };
            let mut i: usize = 0;
            while i < n
                invariant
                    i <= n <= ts.len(),
                    bounded@.len() == i,
                    forall|k: int| 0 <= k < i ==> jview(#[trigger] bounded@[k]) == jview(ts@[k]),
                decreases n - i,
            {
                bounded.push(ts[i].deep_clone());
                i = i + 1;
            }
            proof {
                let want = if jviews(ts@).len() > 4 {
                    jviews(ts@).take(4)
                } else {
                    jviews(ts@)
                };
                assert(jviews(bounded@) =~= want);
            }
        },
        None => {
            assert(jviews(bounded@) =~= Seq::<JVal>::empty());
        },
    }
    let summary_source = if !str_eq(recovery_action, "none") {
        rec_get(recovery, "summary")
    } else {
        match rec_get(reclaim, "summary") {
            Some(v) => Some(v),
            None => rec_get(recovery, "summary"),
        }
    };
    let summary = match summary_source {
        Some(v) => match v.as_str() {
            Some(s) => {
                let t = trim_string(s);
                if t.as_str().unicode_len() > 0 {
                    summarize_text_for_visibility(t.as_str(), 220)
                } else {
                    crate::strings::to_owned("No host subagent recovery action is currently needed.")
                }
            },
            None => crate::strings::to_owned("No host subagent recovery action is currently needed."),
        },
        None => crate::strings::to_owned("No host subagent recovery action is currently needed."),
    };
    let attention = rec_flag(recovery, "needs_operator_attention") || rec_flag(
        reclaim,
        "needs_operator_attention",
    );
    let prefer = rec_flag(recovery, "prefer_before_degraded_fallback");
    let ghost bounded_view = jviews(bounded@);
    let mut m: Vec<(String, Json)> = Vec::new();
    m.push(member("source", jstr("host_subagent_state")));
    m.push(member("status", jstr(status)));
    m.push(member("recommended_action", jstr(recovery_action)));
    m.push(member("reclaim_replan_action", jstr(reclaim_action)));
    m.push(member("needs_operator_attention", jbool(attention)));
    m.push(member("prefer_before_degraded_fallback", jbool(prefer)));
    m.push(member("target_count", juint(target_count as u64)));
    proof {
        lemma_array_view(bounded);
    }
    m.push(member("targets", Json::Array(bounded)));
    m.push(member("summary", jstring(summary)));
    let r = object_of(m);
    assert(members_view(m@) =~= spec_recovery_lane(hv)->Object_0);
    r
}

/// The non-blank strings of a list, trimmed, in order.
pub open spec fn nonblank_strings(items: Seq<JVal>) -> Seq<Seq<char>>
    decreases items.len(),
{
    if items.len() == 0 {
        Seq::empty()
    } else {
        let prev = nonblank_strings(items.drop_last());
        match items.last() {
            JVal::Str(s) => if trim(s).len() > 0 {
                prev.push(trim(s))
            } else {
                prev
            },
            _ => prev,
        }
    }
}

/// How many non-blank strings an array value holds (0 for anything else).
pub open spec fn spec_count_string_array(v: Option<JVal>) -> nat {
    match v {
        Some(JVal::Array(items)) => nonblank_strings(items).len(),
        _ => 0,
    }
}

fn nonblank_strings_of(items: &Vec<Json>) -> (r: Vec<String>)
    ensures
        r@.map_values(|s: String| s@) == nonblank_strings(jviews(items@)),
{
    let ghost iv = jviews(items@);
    let mut out: Vec<String> = Vec::new();
    let mut i: usize = 0;
    assert(iv.take(0) =~= Seq::<JVal>::empty());
    while i < items.len()
        invariant
            i <= items.len(),
            iv == jviews(items@),
            out@.map_values(|s: String| s@) == nonblank_strings(iv.take(i as int)),
        decreases items.len() - i,
    {
        proof {
            assert(iv.take(i + 1).drop_last() =~= iv.take(i as int));
            assert(iv.take(i + 1).last() == jview(items@[i as int]));
        }
        let ghost before = out@;
        match items[i].as_str() {
            Some(s) => {
                let t = trim_string(s);
                if t.as_str().unicode_len() > 0 {
                    out.push(t);
                    assert(out@.map_values(|s: String| s@) =~= before.map_values(|s: String| s@).push(
                        out@.last()@,
                    ));
                }
            },
            None => {},
        }
        i = i + 1;
    }
    assert(iv.take(items.len() as int) =~= iv);
    out
}

pub fn count_string_array(value: Option<&Json>) -> (r: usize)
    ensures
        r == spec_count_string_array(
            match value {
                Some(v) => Some(jview(*v)),
                None => None,
            },
        ),
{
    match array_items(value) {
        Some(items) => nonblank_strings_of(items).len(),
        None => 0,
    }
}

/// Up to `max_items` non-blank strings of an array (or the one non-blank
/// string value), trimmed and summarized to `max_chars`.
pub open spec fn spec_bounded_string_array(v: Option<JVal>, max_items: nat, max_chars: nat) -> Seq<
    JVal,
> {
    let strings = match v {
        Some(JVal::Array(items)) => {
            let all = nonblank_strings(items);
            if all.len() > max_items {
                all.take(max_items as int)
            } else {
                all
            }
        },
        Some(JVal::Str(s)) => if trim(s).len() > 0 {
            seq![trim(s)]
        } else {
            Seq::empty()
        },
        _ => Seq::empty(),
    };
    strings.map_values(|s: Seq<char>| JVal::Str(summary_of(s, max_chars)))
}

pub fn bounded_string_array(value: Option<&Json>, max_items: usize, max_chars: usize) -> (r: Vec<Json>)
    ensures
        jviews(r@) == spec_bounded_string_array(
            match value {
                Some(v) => Some(jview(*v)),
                None => None,
            },
            max_items as nat,
            max_chars as nat,
        ),
{
    let mut out: Vec<Json> = Vec::new();
    match array_items(value) {
        Some(items) => {
            let all = nonblank_strings_of(items);
            let ghost av = all@.map_values(|s: String| s@);
            let n: usize = if all.len() > max_items {
                max_items
            } else {
                all.len()
            };
            let mut i: usize = 0;
            while i < n
                invariant
                    i <= n <= all.len(),
                    av == all@.map_values(|s: String| s@),
                    out@.len() == i,
                    forall|k: int|
                        0 <= k < i ==> jview(#[trigger] out@[k]) == JVal::Str(
                            summary_of(av[k], max_chars as nat),
                        ),
                decreases n - i,
            {
                out.push(jstring(summarize_text_for_visibility(all[i].as_str(), max_chars)));
                i = i + 1;
            }
            proof {
                let strings = if av.len() > max_items {
                    av.take(max_items as int)
                } else {
                    av
                };
                assert(jviews(out@) =~= strings.map_values(
                    |s: Seq<char>| JVal::Str(summary_of(s, max_chars as nat)),
                ));
            }
            out
        },
        None => {
            match value {
                Some(v) => match v.as_str() {
                    Some(s) => {
                        let t = trim_string(s);
                        if t.as_str().unicode_len() > 0 {
                            out.push(jstring(summarize_text_for_visibility(t.as_str(), max_chars)));
                        }
                    },
                    None => {},
                },
                None => {},
            }
            proof {
                let ghost w = spec_bounded_string_array(
                    match value {
                        Some(v) => Some(jview(*v)),
                        None => None,
                    },
                    max_items as nat,
                    max_chars as nat,
                );
                assert(jviews(out@) =~= w);
            }
            out
        },
    }
}

} // verus!
