//! Compact closeout views of the active task: its verification capsule,
//! what it owns, late subagent output, the skill registry evidence it was
//! dispatched with, and the run's context health, checkpoint and restart
//! handoff.

use vstd::prelude::*;
use crate::json::{
    get_or, jbool, jget, jget_or, jget_path, jstr, jstr_at, jstr_field, jstring, jview, juint,
    lemma_array_view, member, members_view, new_object, object_of, opt_bool, opt_u64, JVal, Json,
};
use crate::strings::{concat2, contains, contains_seq, opt_view, str_eq, trim, trim_string};
use crate::text_utils::{summarize_text_for_visibility, summary_of};
use crate::run_health::{bounded_string_array, spec_bounded_string_array};
use crate::worker_fleet::jviews;
use crate::format::decimal;

verus! {

/// A text value trimmed and summarized to `max_chars`, or `null` when it is
/// not a string or is blank.
pub open spec fn spec_checkpoint_text(v: Option<JVal>, max_chars: nat) -> JVal {
    match v {
        Some(JVal::Str(s)) => if trim(s).len() > 0 {
            JVal::Str(summary_of(trim(s), max_chars))
        } else {
            JVal::Null
        },
        _ => JVal::Null,
    }
}

pub fn summarize_checkpoint_text(value: Option<&Json>, max_chars: usize) -> (r: Json)
    ensures
        jview(r) == spec_checkpoint_text(
            match value {
                Some(v) => Some(jview(*v)),
                None => None,
            },
            max_chars as nat,
        ),
{
    match value {
        Some(v) => match v.as_str() {
            Some(s) => {
                let t = trim_string(s);
                if t.as_str().unicode_len() > 0 {
                    jstring(summarize_text_for_visibility(t.as_str(), max_chars))
                } else {
                    Json::Null
                }
            },
            None => Json::Null,
        },
        None => Json::Null,
    }
}

fn member_or_null<'a>(j: &'a Json, key: &str, null: &'a Json) -> (r: &'a Json)
    requires
        jview(*null) == JVal::Null,
    ensures
        jview(*r) == jget_or(jview(*j), key@, JVal::Null),
{
    match j.get(key) {
        Some(v) => v,
        None => null,
    }
}

/// The late subagent output recorded on a task: how many entries (the last
/// one represents an array), their state (`recorded` or `none` when unset),
/// status, authority (else the captain's stale output policy) and summary.
pub open spec fn spec_late_output(task: JVal) -> JVal {
    let late = jget_or(task, "late_subagent_output"@, JVal::Null);
    let intervention = jget_or(task, "captain_intervention"@, JVal::Null);
    let (count, rep) = match late {
        JVal::Array(items) => (
            items.len(),
            if items.len() > 0 {
                items.last()
            } else {
                JVal::Null
            },
        ),
        JVal::Object(_) => (1nat, late),
        _ => (0nat, late),
    };
    let state_text = match jget(rep, "state"@) {
        Some(v) => match v {
            JVal::Str(s) => Some(s),
            _ => None,
        },
        None => jstr_field(rep, "status"@),
    };
    JVal::Object(
        seq![
            (
                "state"@,
                JVal::Str(
                    match state_text {
                        Some(s) => if trim(s).len() > 0 {
                            s
                        } else if count > 0 {
                            "recorded"@
                        } else {
                            "none"@
                        },
                        None => if count > 0 {
                            "recorded"@
                        } else {
                            "none"@
                        },
                    },
                ),
            ),
            ("count"@, JVal::Num(count as int)),
            ("status"@, jget_or(rep, "status"@, JVal::Null)),
            (
                "authority"@,
                match jget(rep, "authority"@) {
                    Some(a) => a,
                    None => jget_or(intervention, "stale_output_policy"@, JVal::Null),
                },
            ),
            ("summary"@, spec_checkpoint_text(jget(rep, "summary"@), 180)),
        ],
    )
}

pub fn checkpoint_late_output_payload(current_task_card: &Json) -> (r: Json)
    ensures
        jview(r) == spec_late_output(jview(*current_task_card)),
{
    let null = Json::Null;
    let late = member_or_null(current_task_card, "late_subagent_output", &null);
    let intervention = member_or_null(current_task_card, "captain_intervention", &null);
    let (count, rep): (usize, &Json) = match late {
        Json::Array(items) => {
            proof {
                lemma_array_view(*items);
            }
            if items.len() > 0 {
                (items.len(), &items[items.len() - 1])
            } else {
                (0, &null)
            }
        },
        Json::Object(_) => (1, late),
        _ => (0, late),
    };
    let state_text: Option<&str> = match rep.get("state") {
        Some(v) => v.as_str(),
        None => rep.str_field("status"),
    };
    let state: &str = match state_text {
        Some(s) => if !crate::strings::is_blank(s) {
            s
        } else if count > 0 {
            "recorded"
        } else {
            "none"
        },
        None => if count > 0 {
            "recorded"
        } else {
            "none"
        },
    };
    let authority = match rep.get("authority") {
        Some(a) => a.deep_clone(),
        None => get_or(intervention, "stale_output_policy", Json::Null),
    };
    let mut m: Vec<(String, Json)> = Vec::new();
    m.push(member("state", jstr(state)));
    m.push(member("count", juint(count as u64)));
    m.push(member("status", get_or(rep, "status", Json::Null)));
    m.push(member("authority", authority));
    m.push(member("summary", summarize_checkpoint_text(rep.get("summary"), 180)));
    let r = object_of(m);
    assert(members_view(m@) =~= spec_late_output(jview(*current_task_card))->Object_0);
    r
}

/// `out` with each of `items` appended unless an equal value is already
/// there.
pub open spec fn appended_unique(out: Seq<JVal>, items: Seq<JVal>) -> Seq<JVal>
    decreases items.len(),
{
    if items.len() == 0 {
        out
    } else {
        let prev = appended_unique(out, items.drop_last());
        if prev.contains(items.last()) {
            prev
        } else {
            prev.push(items.last())
        }
    }
}

fn contains_string_value(out: &Vec<Json>, text: &str) -> (r: bool)
    ensures
        r == jviews(out@).contains(JVal::Str(text@)),
{
    let ghost ov = jviews(out@);
    let mut i: usize = 0;
    while i < out.len()
        invariant
            i <= out.len(),
            ov == jviews(out@),
            forall|k: int| 0 <= k < i ==> ov[k] != JVal::Str(text@),
        decreases out.len() - i,
    {
        match &out[i] {
            Json::Str(s) => {
                if str_eq(s.as_str(), text) {
                    assert(ov[i as int] == JVal::Str(text@));
                    return true;
                }
            },
            _ => {},
        }
        i = i + 1;
    }
    false
}

/// Appends the bounded strings of `value` to `output`, skipping those
/// already present.
pub fn append_bounded_strings(
    output: &mut Vec<Json>,
    value: Option<&Json>,
    max_items: usize,
    max_chars: usize,
)
    ensures
        jviews(final(output)@) == appended_unique(
            jviews(old(output)@),
            spec_bounded_string_array(
                match value {
                    Some(v) => Some(jview(*v)),
                    None => None,
                },
                max_items as nat,
                max_chars as nat,
            ),
        ),
{
    let items = bounded_string_array(value, max_items, max_chars);
    let ghost iv = jviews(items@);
    let ghost start = jviews(output@);
    let mut i: usize = 0;
    assert(iv.take(0) =~= Seq::<JVal>::empty());
    while i < items.len()
        invariant
            i <= items.len(),
            iv == jviews(items@),
            forall|k: int| 0 <= k < iv.len() ==> #[trigger] iv[k] is Str,
            jviews(output@) == appended_unique(start, iv.take(i as int)),
        decreases items.len() - i,
    {
        proof {
            assert(iv.take(i + 1).drop_last() =~= iv.take(i as int));
            assert(iv.take(i + 1).last() == jview(items@[i as int]));
        }
        match &items[i] {
            Json::Str(s) => {
                if !contains_string_value(output, s.as_str()) {
                    let ghost before = output@;
                    output.push(items[i].deep_clone());
                    assert(jviews(output@) =~= jviews(before).push(jview(items@[i as int])));
                }
            },
            _ => {},
        }
        i = i + 1;
    }
    assert(iv.take(items.len() as int) =~= iv);
}

/// The bounded strings of a member of `j`.
pub open spec fn bounded_member(j: JVal, key: Seq<char>, max_items: nat, max_chars: nat) -> Seq<JVal> {
    spec_bounded_string_array(jget(j, key), max_items, max_chars)
}

/// The evidence of a task: its evidence links, then the evidence paths of its
/// subagent and review fan-in, without repeats.
pub open spec fn spec_capsule_evidence(task: JVal) -> Seq<JVal> {
    let sub = jget_or(task, "subagent_fan_in"@, JVal::Null);
    let rev = jget_or(task, "review_fan_in"@, JVal::Null);
    appended_unique(
        appended_unique(
            appended_unique(Seq::empty(), bounded_member(task, "evidence_links"@, 6, 160)),
            bounded_member(sub, "evidence_paths"@, 6, 160),
        ),
        bounded_member(rev, "evidence_paths"@, 6, 160),
    )
}

/// The validation commands or checks of the fan-in, without repeats.
pub open spec fn spec_capsule_validation(task: JVal) -> Seq<JVal> {
    let sub = jget_or(task, "subagent_fan_in"@, JVal::Null);
    let rev = jget_or(task, "review_fan_in"@, JVal::Null);
    let v1 = appended_unique(Seq::empty(), bounded_member(sub, "validation_commands"@, 6, 180));
    let v2 = appended_unique(v1, bounded_member(rev, "validation_commands"@, 6, 180));
    let v3 = appended_unique(v2, bounded_member(sub, "validation_checks"@, 6, 180));
    let v4 = appended_unique(v3, bounded_member(rev, "validation_checks"@, 6, 180));
    let v5 = appended_unique(v4, bounded_member(sub, "checks"@, 6, 180));
    appended_unique(v5, bounded_member(rev, "checks"@, 6, 180))
}

/// The unresolved questions, risks and findings, without repeats.
pub open spec fn spec_capsule_unresolved(task: JVal) -> Seq<JVal> {
    let sub = jget_or(task, "subagent_fan_in"@, JVal::Null);
    let rev = jget_or(task, "review_fan_in"@, JVal::Null);
    appended_unique(
        appended_unique(
            appended_unique(Seq::empty(), bounded_member(sub, "open_questions"@, 6, 180)),
            bounded_member(sub, "unresolved_risks"@, 6, 180),
        ),
        bounded_member(rev, "unresolved_findings"@, 6, 180),
    )
}

/// The first of two members that is present, else `null`.
pub open spec fn first_member_or_null(j: JVal, a: Seq<char>, b: Seq<char>, c: Seq<char>) -> JVal {
    match jget(j, a) {
        Some(v) => v,
        None => match jget(j, b) {
            Some(v) => v,
            None => jget_or(j, c, JVal::Null),
        },
    }
}

/// A task card's closeout summary (`null` unless the card is an
/// object): acceptance, evidence, the review verdict, validation and the
/// unresolved risk (its recorded count, else the number listed).
pub open spec fn spec_verification_capsule(task: JVal) -> JVal {
    if !(task is Object) {
        JVal::Null
    } else {
        let sub = jget_or(task, "subagent_fan_in"@, JVal::Null);
        let rev = jget_or(task, "review_fan_in"@, JVal::Null);
        let evidence = spec_capsule_evidence(task);
        let validation = spec_capsule_validation(task);
        let unresolved = spec_capsule_unresolved(task);
        JVal::Object(
            seq![
                ("schema"@, JVal::Str("ccc.verification_capsule.v1"@)),
                ("acceptance"@, spec_checkpoint_text(jget(task, "acceptance"@), 240)),
                (
                    "evidence"@,
                    JVal::Object(
                        seq![
                            ("count"@, JVal::Num(evidence.len() as int)),
                            ("items"@, JVal::Array(evidence)),
                        ],
                    ),
                ),
                (
                    "reviewer_verdict"@,
                    first_member_or_null(rev, "outcome"@, "review_outcome"@, "status"@),
                ),
                (
                    "validation"@,
                    JVal::Object(
                        seq![
                            ("count"@, JVal::Num(validation.len() as int)),
                            ("commands_or_checks"@, JVal::Array(validation)),
                        ],
                    ),
                ),
                (
                    "unresolved_risk"@,
                    JVal::Object(
                        seq![
                            (
                                "count"@,
                                JVal::Num(
                                    match opt_u64(jget(rev, "unresolved_finding_count"@)) {
                                        Some(n) => n,
                                        None => match opt_u64(jget(sub, "unresolved_risk_count"@)) {
                                            Some(n) => n,
                                            None => unresolved.len() as int,
                                        },
                                    },
                                ),
                            ),
                            ("items"@, JVal::Array(unresolved)),
                        ],
                    ),
                ),
            ],
        )
    }
}

fn array_json(items: Vec<Json>) -> (r: Json)
    ensures
        jview(r) == JVal::Array(jviews(items@)),
{
    proof {
        lemma_array_view(items);
    }
    Json::Array(items)
}

pub fn create_verification_capsule_payload(task_card: &Json) -> (r: Json)
    ensures
        jview(r) == spec_verification_capsule(jview(*task_card)),
{
    if !task_card.is_object() {
        return Json::Null;
    }
    let null = Json::Null;
    let sub = member_or_null(task_card, "subagent_fan_in", &null);
    let rev = member_or_null(task_card, "review_fan_in", &null);
    let mut evidence: Vec<Json> = Vec::new();
    assert(jviews(evidence@) =~= Seq::<JVal>::empty());
    append_bounded_strings(&mut evidence, task_card.get("evidence_links"), 6, 160);
    append_bounded_strings(&mut evidence, sub.get("evidence_paths"), 6, 160);
    append_bounded_strings(&mut evidence, rev.get("evidence_paths"), 6, 160);
    let mut validation: Vec<Json> = Vec::new();
    assert(jviews(validation@) =~= Seq::<JVal>::empty());
    append_bounded_strings(&mut validation, sub.get("validation_commands"), 6, 180);
    append_bounded_strings(&mut validation, rev.get("validation_commands"), 6, 180);
    append_bounded_strings(&mut validation, sub.get("validation_checks"), 6, 180);
    append_bounded_strings(&mut validation, rev.get("validation_checks"), 6, 180);
    append_bounded_strings(&mut validation, sub.get("checks"), 6, 180);
    append_bounded_strings(&mut validation, rev.get("checks"), 6, 180);
    let mut unresolved: Vec<Json> = Vec::new();
    assert(jviews(unresolved@) =~= Seq::<JVal>::empty());
    append_bounded_strings(&mut unresolved, sub.get("open_questions"), 6, 180);
    append_bounded_strings(&mut unresolved, sub.get("unresolved_risks"), 6, 180);
    append_bounded_strings(&mut unresolved, rev.get("unresolved_findings"), 6, 180);
    let unresolved_count: u64 = match rev.u64_field("unresolved_finding_count") {
        Some(n) => n,
        None => match sub.u64_field("unresolved_risk_count") {
            Some(n) => n,
            None => unresolved.len() as u64,
        },
    };
    let verdict = match rev.get("outcome") {
        Some(v) => v.deep_clone(),
        None => match rev.get("review_outcome") {
            Some(v) => v.deep_clone(),
            None => get_or(rev, "status", Json::Null),
        },
    };
    let evidence_count = evidence.len();
    let validation_count = validation.len();
    let mut e: Vec<(String, Json)> = Vec::new();
    e.push(member("count", juint(evidence_count as u64)));
    e.push(member("items", array_json(evidence)));
    let mut v: Vec<(String, Json)> = Vec::new();
    v.push(member("count", juint(validation_count as u64)));
    v.push(member("commands_or_checks", array_json(validation)));
    let mut u: Vec<(String, Json)> = Vec::new();
    u.push(member("count", juint(unresolved_count)));
    u.push(member("items", array_json(unresolved)));
    let mut m: Vec<(String, Json)> = Vec::new();
    m.push(member("schema", jstr("ccc.verification_capsule.v1")));
    m.push(member("acceptance", summarize_checkpoint_text(task_card.get("acceptance"), 240)));
    m.push(member("evidence", object_of(e)));
    m.push(member("reviewer_verdict", verdict));
    m.push(member("validation", object_of(v)));
    m.push(member("unresolved_risk", object_of(u)));
    let r = object_of(m);
    proof {
        let sp = spec_verification_capsule(jview(*task_card));
        assert(members_view(e@) =~= sp->Object_0[2].1->Object_0);
        assert(members_view(v@) =~= sp->Object_0[4].1->Object_0);
        assert(members_view(u@) =~= sp->Object_0[5].1->Object_0);
        assert(members_view(m@) =~= sp->Object_0);
    }
    r
}

/// What a task card owns (`null` unless it is an object): its owner, the
/// searched paths and terms, whether it mutates (its mutation intent names
/// mutation or writing) and the paths it owns, and the guard against
/// repeating delegated work without a recorded reason.
pub open spec fn spec_delegated_ownership(task: JVal) -> JVal {
    if !(task is Object) {
        JVal::Null
    } else {
        let trace = jget_or(task, "routing_trace"@, JVal::Null);
        let intent = match jstr_field(trace, "mutation_intent"@) {
            Some(s) => s,
            None => "unknown"@,
        };
        let status = match jget_path(task, seq!["subagent_lifecycle"@, "status"@]) {
            Some(v) => v,
            None => match jget_path(task, seq!["review_lifecycle"@, "status"@]) {
                Some(v) => v,
                None => JVal::Null,
            },
        };
        let child = match jget_path(task, seq!["subagent_lifecycle"@, "child_agent_id"@]) {
            Some(v) => v,
            None => match jget_path(task, seq!["review_lifecycle"@, "child_agent_id"@]) {
                Some(v) => v,
                None => JVal::Null,
            },
        };
        let reclaim_recorded = jstr_at(task, seq!["captain_intervention"@, "chosen_next_action"@])
            == Some("reclaim"@) || (jget(task, "subagent_fallback"@) matches Some(f) && f
            != JVal::Null);
        let stale_recorded = (jget(task, "late_subagent_output"@) matches Some(l) && l != JVal::Null)
            || jget_path(task, seq!["captain_intervention"@, "stale_output_policy"@]) is Some;
        JVal::Object(
            seq![
                ("schema"@, JVal::Str("ccc.delegated_ownership.v1"@)),
                (
                    "owner"@,
                    JVal::Object(
                        seq![
                            ("task_card_id"@, jget_or(task, "task_card_id"@, JVal::Null)),
                            ("assigned_role"@, jget_or(task, "assigned_role"@, JVal::Null)),
                            ("assigned_agent_id"@, jget_or(task, "assigned_agent_id"@, JVal::Null)),
                            ("child_agent_id"@, child),
                            ("status"@, status),
                        ],
                    ),
                ),
                (
                    "search_ownership"@,
                    JVal::Object(
                        seq![
                            ("paths"@, JVal::Array(bounded_member(trace, "paths"@, 8, 160))),
                            ("terms"@, JVal::Array(bounded_member(trace, "terms"@, 8, 120))),
                        ],
                    ),
                ),
                (
                    "mutation_ownership"@,
                    JVal::Object(
                        seq![
                            (
                                "active"@,
                                JVal::Bool(
                                    contains_seq(intent, "mutation"@) || contains_seq(intent, "write"@),
                                ),
                            ),
                            ("paths"@, JVal::Array(bounded_member(trace, "paths"@, 8, 160))),
                        ],
                    ),
                ),
                (
                    "repeat_guard"@,
                    JVal::Object(
                        seq![
                            (
                                "policy"@,
                                JVal::Str(
                                    "do_not_repeat_delegated_search_or_mutation_without_recorded_reason"@,
                                ),
                            ),
                            (
                                "allowed_reasons"@,
                                JVal::Array(
                                    seq![
                                        JVal::Str("reclaim_recorded"@),
                                        JVal::Str("stale_output_recorded"@),
                                        JVal::Str("explicit_reason_recorded"@),
                                    ],
                                ),
                            ),
                            ("reclaim_recorded"@, JVal::Bool(reclaim_recorded)),
                            ("stale_output_recorded"@, JVal::Bool(stale_recorded)),
                        ],
                    ),
                ),
            ],
        )
    }
}

fn path_value2<'a>(j: &'a Json, a: &str, b: &str) -> (r: Option<&'a Json>)
    ensures
        match r {
            Some(v) => jget_path(jview(*j), seq![a@, b@]) == Some(jview(*v)),
            None => jget_path(jview(*j), seq![a@, b@]) is None,
        },
{
    let keys: [&str; 2] = [a, b];
    let ks = keys.as_slice();
    assert(ks@.map_values(|k: &str| k@) =~= seq![a@, b@]);
    j.get_path(ks)
}

fn present_not_null(v: Option<&Json>) -> (r: bool)
    ensures
        r == (match v {
            Some(x) => Some(jview(*x)),
            None => None::<JVal>,
        } matches Some(f) && f != JVal::Null),
{
    match v {
        Some(x) => !x.is_null(),
        None => false,
    }
}

pub fn create_delegated_ownership_payload(task_card: &Json) -> (r: Json)
    ensures
        jview(r) == spec_delegated_ownership(jview(*task_card)),
{
    if !task_card.is_object() {
        return Json::Null;
    }
    let null = Json::Null;
    let trace = member_or_null(task_card, "routing_trace", &null);
    let paths = bounded_string_array(trace.get("paths"), 8, 160);
    let terms = bounded_string_array(trace.get("terms"), 8, 120);
    let mutation_paths = bounded_string_array(trace.get("paths"), 8, 160);
    let intent: &str = match trace.str_field("mutation_intent") {
        Some(s) => s,
        None => "unknown",
    };
    let active = contains(intent, "mutation") || contains(intent, "write");
    let status = match path_value2(task_card, "subagent_lifecycle", "status") {
        Some(v) => v.deep_clone(),
        None => match path_value2(task_card, "review_lifecycle", "status") {
            Some(v) => v.deep_clone(),
            None => Json::Null,
        },
    };
    let child = match path_value2(task_card, "subagent_lifecycle", "child_agent_id") {
        Some(v) => v.deep_clone(),
        None => match path_value2(task_card, "review_lifecycle", "child_agent_id") {
            Some(v) => v.deep_clone(),
            None => Json::Null,
        },
    };
    let chosen = match path_value2(task_card, "captain_intervention", "chosen_next_action") {
        Some(v) => v.as_str(),
        None => None,
    };
    let reclaim_recorded = crate::strings::opt_str_is(chosen, "reclaim") || present_not_null(
        task_card.get("subagent_fallback"),
    );
    let stale_recorded = present_not_null(task_card.get("late_subagent_output"))
        || path_value2(task_card, "captain_intervention", "stale_output_policy").is_some();
    let mut o: Vec<(String, Json)> = Vec::new();
    o.push(member("task_card_id", get_or(task_card, "task_card_id", Json::Null)));
    o.push(member("assigned_role", get_or(task_card, "assigned_role", Json::Null)));
    o.push(member("assigned_agent_id", get_or(task_card, "assigned_agent_id", Json::Null)));
    o.push(member("child_agent_id", child));
    o.push(member("status", status));
    let mut so: Vec<(String, Json)> = Vec::new();
    so.push(member("paths", array_json(paths)));
    so.push(member("terms", array_json(terms)));
    let mut mo: Vec<(String, Json)> = Vec::new();
    mo.push(member("active", jbool(active)));
    mo.push(member("paths", array_json(mutation_paths)));
    let reasons = crate::json::jstr_array(
        &vec!["reclaim_recorded", "stale_output_recorded", "explicit_reason_recorded"],
    );
    let mut rg: Vec<(String, Json)> = Vec::new();
    rg.push(
        member(
            "policy",
            jstr("do_not_repeat_delegated_search_or_mutation_without_recorded_reason"),
        ),
    );
    rg.push(member("allowed_reasons", reasons));
    rg.push(member("reclaim_recorded", jbool(reclaim_recorded)));
    rg.push(member("stale_output_recorded", jbool(stale_recorded)));
    let mut m: Vec<(String, Json)> = Vec::new();
    m.push(member("schema", jstr("ccc.delegated_ownership.v1")));
    m.push(member("owner", object_of(o)));
    m.push(member("search_ownership", object_of(so)));
    m.push(member("mutation_ownership", object_of(mo)));
    m.push(member("repeat_guard", object_of(rg)));
    let r = object_of(m);
    proof {
        let sp = spec_delegated_ownership(jview(*task_card));
        assert(members_view(o@) =~= sp->Object_0[1].1->Object_0);
        assert(members_view(so@) =~= sp->Object_0[2].1->Object_0);
        assert(members_view(mo@) =~= sp->Object_0[3].1->Object_0);
        assert(jview(reasons)->Array_0 =~= sp->Object_0[4].1->Object_0[1].1->Array_0);
        assert(members_view(rg@) =~= sp->Object_0[4].1->Object_0);
        assert(members_view(m@) =~= sp->Object_0);
    }
    r
}

/// The registry a task was dispatched with: the delegation plan's skill
/// registry, else its runtime dispatch's (each only when an object).
pub open spec fn spec_dispatched_registry(task: JVal) -> Option<JVal> {
    match jget_path(task, seq!["delegation_plan"@, "skill_registry"@]) {
        Some(JVal::Object(m)) => Some(JVal::Object(m)),
        _ => match jget_path(task, seq!["delegation_plan"@, "runtime_dispatch"@, "skill_registry"@]) {
            Some(JVal::Object(m)) => Some(JVal::Object(m)),
            _ => None,
        },
    }
}

/// The registry evidence status of a task (`null` without a dispatched
/// registry): its agent, statuses and flags with their advisory defaults,
/// and the manifest's status, path, reason and flags.
pub open spec fn spec_registry_evidence_status(task: JVal) -> JVal {
    match spec_dispatched_registry(task) {
        None => JVal::Null,
        Some(reg) => {
            let manifest = match jget(reg, "skill_ssl_manifest"@) {
                Some(v) => v,
                None => match jget_path(task, seq!["delegation_plan"@, "skill_ssl_manifest"@]) {
                    Some(v) => v,
                    None => JVal::Null,
                },
            };
            JVal::Object(
                seq![
                    ("schema"@, JVal::Str("ccc.registry_evidence_status.v1"@)),
                    ("source"@, JVal::Str("skill_registry"@)),
                    (
                        "agent_name"@,
                        match jget(reg, "agent_name"@) {
                            Some(v) => v,
                            None => jget_or(task, "assigned_agent_id"@, JVal::Null),
                        },
                    ),
                    ("status"@, jget_or(reg, "status"@, JVal::Str("missing"@))),
                    (
                        "manifest_status"@,
                        match jget(reg, "manifest_status"@) {
                            Some(v) => v,
                            None => jget_or(manifest, "status"@, JVal::Null),
                        },
                    ),
                    ("blocking"@, jget_or(reg, "blocking"@, JVal::Bool(false))),
                    ("runtime_truth"@, jget_or(reg, "runtime_truth"@, JVal::Bool(false))),
                    ("advisory_only"@, jget_or(reg, "advisory_only"@, JVal::Bool(true))),
                    (
                        "skill_ssl_manifest"@,
                        JVal::Object(
                            seq![
                                ("status"@, jget_or(manifest, "status"@, JVal::Null)),
                                ("path"@, jget_or(manifest, "path"@, JVal::Null)),
                                ("reason"@, jget_or(manifest, "reason"@, JVal::Null)),
                                ("blocking"@, jget_or(manifest, "blocking"@, JVal::Bool(false))),
                                (
                                    "advisory_only"@,
                                    jget_or(manifest, "advisory_only"@, JVal::Bool(true)),
                                ),
                            ],
                        ),
                    ),
                ],
            )
        },
    }
}

fn path_value3<'a>(j: &'a Json, a: &str, b: &str, c: &str) -> (r: Option<&'a Json>)
    ensures
        match r {
            Some(v) => jget_path(jview(*j), seq![a@, b@, c@]) == Some(jview(*v)),
            None => jget_path(jview(*j), seq![a@, b@, c@]) is None,
        },
{
    let keys: [&str; 3] = [a, b, c];
    let ks = keys.as_slice();
    assert(ks@.map_values(|k: &str| k@) =~= seq![a@, b@, c@]);
    j.get_path(ks)
}

pub fn create_registry_evidence_status_payload(current_task_card: &Json) -> (r: Json)
    ensures
        jview(r) == spec_registry_evidence_status(jview(*current_task_card)),
{
    let task = current_task_card;
    let registry = match path_value2(task, "delegation_plan", "skill_registry") {
        Some(v) => if v.is_object() {
            Some(v)
        } else {
            None
        },
        None => None,
    };
    let registry = match registry {
        Some(v) => Some(v),
        None => match path_value3(task, "delegation_plan", "runtime_dispatch", "skill_registry") {
            Some(v) => if v.is_object() {
                Some(v)
            } else {
                None
            },
            None => None,
        },
    };
    let reg = match registry {
        Some(v) => v,
        None => {
            return Json::Null;
        },
    };
    let null = Json::Null;
    let manifest: &Json = match reg.get("skill_ssl_manifest") {
        Some(v) => v,
        None => match path_value2(task, "delegation_plan", "skill_ssl_manifest") {
            Some(v) => v,
            None => &null,
        },
    };
    let agent_name = match reg.get("agent_name") {
        Some(v) => v.deep_clone(),
        None => get_or(task, "assigned_agent_id", Json::Null),
    };
    let manifest_status = match reg.get("manifest_status") {
        Some(v) => v.deep_clone(),
        None => get_or(manifest, "status", Json::Null),
    };
    let mut ms: Vec<(String, Json)> = Vec::new();
    ms.push(member("status", get_or(manifest, "status", Json::Null)));
    ms.push(member("path", get_or(manifest, "path", Json::Null)));
    ms.push(member("reason", get_or(manifest, "reason", Json::Null)));
    ms.push(member("blocking", get_or(manifest, "blocking", jbool(false))));
    ms.push(member("advisory_only", get_or(manifest, "advisory_only", jbool(true))));
    let mut m: Vec<(String, Json)> = Vec::new();
    m.push(member("schema", jstr("ccc.registry_evidence_status.v1")));
    m.push(member("source", jstr("skill_registry")));
    m.push(member("agent_name", agent_name));
    m.push(member("status", get_or(reg, "status", jstr("missing"))));
    m.push(member("manifest_status", manifest_status));
    m.push(member("blocking", get_or(reg, "blocking", jbool(false))));
    m.push(member("runtime_truth", get_or(reg, "runtime_truth", jbool(false))));
    m.push(member("advisory_only", get_or(reg, "advisory_only", jbool(true))));
    m.push(member("skill_ssl_manifest", object_of(ms)));
    let r = object_of(m);
    proof {
        let sp = spec_registry_evidence_status(jview(*task));
        assert(members_view(ms@) =~= sp->Object_0[8].1->Object_0);
        assert(members_view(m@) =~= sp->Object_0);
    }
    r
}

/// Whether the long-session mitigation recommends a rollover.
pub open spec fn rollover_recommended(mitigation: JVal) -> bool {
    opt_bool(jget(mitigation, "recommended"@)) == Some(true)
}

/// Whether the active conflict state blocks dispatch.
pub open spec fn conflict_blocked(host: JVal, task: JVal) -> bool {
    opt_bool(jget(crate::run_health::spec_active_conflict_state(host, task), "blocked"@)) == Some(true)
}

/// The context health of a run: attention is needed when a rollover is
/// recommended or an active conflict blocks dispatch; the safe action and
/// the operator warning follow that order, then whether the run can
/// advance.
pub open spec fn spec_context_health(
    run_id: Seq<char>,
    next_step: Seq<char>,
    can_advance: bool,
    task: JVal,
    longway: JVal,
    host: JVal,
    mitigation: JVal,
    contract: JVal,
) -> JVal {
    let rollover = rollover_recommended(mitigation);
    let blocked = conflict_blocked(host, task);
    JVal::Object(
        seq![
            ("schema"@, JVal::Str("ccc.context_health.v1"@)),
            ("run_id"@, JVal::Str(run_id)),
            (
                "status"@,
                JVal::Str(
                    if rollover || blocked {
                        "attention_needed"@
                    } else {
                        "ok"@
                    },
                ),
            ),
            (
                "safe_action"@,
                JVal::Str(
                    if rollover {
                        "checkpoint_then_operator_rollover"@
                    } else if blocked {
                        "resolve_active_conflict_before_dispatch"@
                    } else if can_advance {
                        "captain_advance"@
                    } else {
                        "wait_for_current_step"@
                    },
                ),
            ),
            ("next_step"@, JVal::Str(next_step)),
            ("can_advance"@, JVal::Bool(can_advance)),
            ("pressure_signals"@, jget_or(mitigation, "signals"@, JVal::Array(Seq::empty()))),
            (
                "recommended_rollover_action"@,
                JVal::Str(
                    match jstr_field(mitigation, "recommended_action"@) {
                        Some(a) => a,
                        None => "continue"@,
                    },
                ),
            ),
            ("checkpoint_required"@, jget_or(mitigation, "checkpoint_required"@, JVal::Bool(false))),
            ("active_conflict_state"@, crate::run_health::spec_active_conflict_state(host, task)),
            ("longway_state"@, jget_or(longway, "lifecycle_state"@, JVal::Null)),
            ("next_task"@, jget_or(task, "task_card_id"@, JVal::Null)),
            ("captain_allowed_action"@, jget_or(contract, "allowed_action"@, JVal::Null)),
            (
                "operator_warning"@,
                JVal::Str(
                    if rollover {
                        "checkpoint CCC before using /compact, /new, or /exit; CCC does not execute Codex CLI slash commands automatically"@
                    } else if blocked {
                        "resolve the active host subagent or routing conflict before dispatching more work"@
                    } else {
                        "context health is within normal bounds"@
                    },
                ),
            ),
        ],
    )
}

pub fn create_context_health_payload(
    run_id: &str,
    next_step: &str,
    can_advance: bool,
    current_task_card: &Json,
    longway: &Json,
    host_subagent_state: &Json,
    long_session_mitigation: &Json,
    captain_action_contract: &Json,
) -> (r: Json)
    ensures
        jview(r) == spec_context_health(
            run_id@,
            next_step@,
            can_advance,
            jview(*current_task_card),
            jview(*longway),
            jview(*host_subagent_state),
            jview(*long_session_mitigation),
            jview(*captain_action_contract),
        ),
{
    let rollover = match long_session_mitigation.bool_field("recommended") {
        Some(b) => b,
        None => false,
    };
    let recommended_action: &str = match long_session_mitigation.str_field("recommended_action") {
        Some(a) => a,
        None => "continue",
    };
    let conflict = crate::run_health::active_conflict_state(host_subagent_state, current_task_card);
    let blocked = match conflict.bool_field("blocked") {
        Some(b) => b,
        None => false,
    };
    let status: &str = if rollover || blocked {
        "attention_needed"
    } else {
        "ok"
    };
    let safe_action: &str = if rollover {
        "checkpoint_then_operator_rollover"
    } else if blocked {
        "resolve_active_conflict_before_dispatch"
    } else if can_advance {
        "captain_advance"
    } else {
        "wait_for_current_step"
    };
    let warning: &str = if rollover {
        "checkpoint CCC before using /compact, /new, or /exit; CCC does not execute Codex CLI slash commands automatically"
    } else if blocked {
        "resolve the active host subagent or routing conflict before dispatching more work"
    } else {
        "context health is within normal bounds"
    };
    let empty: Vec<Json> = Vec::new();
    let signals = get_or(long_session_mitigation, "signals", array_json(empty));
    proof {
        assert(jviews(Seq::<Json>::empty()) =~= Seq::<JVal>::empty());
    }
    let mut m: Vec<(String, Json)> = Vec::new();
    m.push(member("schema", jstr("ccc.context_health.v1")));
    m.push(member("run_id", jstr(run_id)));
    m.push(member("status", jstr(status)));
    m.push(member("safe_action", jstr(safe_action)));
    m.push(member("next_step", jstr(next_step)));
    m.push(member("can_advance", jbool(can_advance)));
    m.push(member("pressure_signals", signals));
    m.push(member("recommended_rollover_action", jstr(recommended_action)));
    m.push(
        member("checkpoint_required", get_or(long_session_mitigation, "checkpoint_required", jbool(false))),
    );
    m.push(member("active_conflict_state", conflict));
    m.push(member("longway_state", get_or(longway, "lifecycle_state", Json::Null)));
    m.push(member("next_task", get_or(current_task_card, "task_card_id", Json::Null)));
    m.push(member("captain_allowed_action", get_or(captain_action_contract, "allowed_action", Json::Null)));
    m.push(member("operator_warning", jstr(warning)));
    let r = object_of(m);
    assert(members_view(m@) =~= spec_context_health(
        run_id@,
        next_step@,
        can_advance,
        jview(*current_task_card),
        jview(*longway),
        jview(*host_subagent_state),
        jview(*long_session_mitigation),
        jview(*captain_action_contract),
    )->Object_0);
    r
}

/// The restart handoff of a run: a restart is needed when the context health
/// needs attention and a rollover is recommended; it is never automatic.
pub open spec fn spec_restart_handoff(
    run_id: Seq<char>,
    run_ref: Seq<char>,
    task: JVal,
    longway: JVal,
    health: JVal,
    mitigation: JVal,
) -> JVal {
    JVal::Object(
        seq![
            ("schema"@, JVal::Str("ccc.restart_handoff.v1"@)),
            (
                "restart_needed"@,
                JVal::Bool(
                    jstr_field(health, "status"@) == Some("attention_needed"@) && rollover_recommended(
                        mitigation,
                    ),
                ),
            ),
            ("automatic_restart"@, JVal::Bool(false)),
            ("run_id"@, JVal::Str(run_id)),
            ("run_ref"@, JVal::Str(run_ref)),
            (
                "resume_command"@,
                match jget(mitigation, "resume_command"@) {
                    Some(v) => if v != JVal::Null {
                        v
                    } else {
                        JVal::Str("$cap continue "@ + run_id)
                    },
                    None => JVal::Str("$cap continue "@ + run_id),
                },
            ),
            ("checkpoint_command"@, jget_or(mitigation, "checkpoint_command"@, JVal::Null)),
            ("current_longway_state"@, jget_or(longway, "lifecycle_state"@, JVal::Null)),
            (
                "next_task"@,
                JVal::Object(
                    seq![
                        ("task_card_id"@, jget_or(task, "task_card_id"@, JVal::Null)),
                        ("title"@, jget_or(task, "title"@, JVal::Null)),
                        ("assigned_role"@, jget_or(task, "assigned_role"@, JVal::Null)),
                        ("assigned_agent_id"@, jget_or(task, "assigned_agent_id"@, JVal::Null)),
                    ],
                ),
            ),
            ("active_conflict_state"@, jget_or(health, "active_conflict_state"@, JVal::Null)),
            (
                "operator_warning"@,
                JVal::Str(
                    "manual restart or rollover only; CCC records the handoff but does not restart Codex CLI automatically"@,
                ),
            ),
        ],
    )
}

pub fn create_restart_handoff_payload(
    run_id: &str,
    run_ref: &str,
    current_task_card: &Json,
    longway: &Json,
    context_health: &Json,
    long_session_mitigation: &Json,
) -> (r: Json)
    ensures
        jview(r) == spec_restart_handoff(
            run_id@,
            run_ref@,
            jview(*current_task_card),
            jview(*longway),
            jview(*context_health),
            jview(*long_session_mitigation),
        ),
{
    let recommended = match long_session_mitigation.bool_field("recommended") {
        Some(b) => b,
        None => false,
    };
    let restart_needed = crate::strings::opt_str_is(
        context_health.str_field("status"),
        "attention_needed",
    ) && recommended;
    let resume = match long_session_mitigation.get("resume_command") {
        Some(v) => if !v.is_null() {
            v.deep_clone()
        } else {
            jstring(concat2("$cap continue ", run_id))
        },
        None => jstring(concat2("$cap continue ", run_id)),
    };
    let task = current_task_card;
    let mut nt: Vec<(String, Json)> = Vec::new();
    nt.push(member("task_card_id", get_or(task, "task_card_id", Json::Null)));
    nt.push(member("title", get_or(task, "title", Json::Null)));
    nt.push(member("assigned_role", get_or(task, "assigned_role", Json::Null)));
    nt.push(member("assigned_agent_id", get_or(task, "assigned_agent_id", Json::Null)));
    let mut m: Vec<(String, Json)> = Vec::new();
    m.push(member("schema", jstr("ccc.restart_handoff.v1")));
    m.push(member("restart_needed", jbool(restart_needed)));
    m.push(member("automatic_restart", jbool(false)));
    m.push(member("run_id", jstr(run_id)));
    m.push(member("run_ref", jstr(run_ref)));
    m.push(member("resume_command", resume));
    m.push(member("checkpoint_command", get_or(long_session_mitigation, "checkpoint_command", Json::Null)));
    m.push(member("current_longway_state", get_or(longway, "lifecycle_state", Json::Null)));
    m.push(member("next_task", object_of(nt)));
    m.push(member("active_conflict_state", get_or(context_health, "active_conflict_state", Json::Null)));
    m.push(
        member(
            "operator_warning",
            jstr(
                "manual restart or rollover only; CCC records the handoff but does not restart Codex CLI automatically",
            ),
        ),
    );
    let r = object_of(m);
    proof {
        let sp = spec_restart_handoff(
            run_id@,
            run_ref@,
            jview(*current_task_card),
            jview(*longway),
            jview(*context_health),
            jview(*long_session_mitigation),
        );
        assert(members_view(nt@) =~= sp->Object_0[8].1->Object_0);
        assert(members_view(m@) =~= sp->Object_0);
    }
    r
}

/// For a context health built from the same long-session mitigation, the
/// restart handoff asks for a restart exactly when a rollover is
/// recommended, and never restarts automatically.
pub proof fn lemma_restart_needed_iff_rollover_recommended(
    run_id: Seq<char>,
    run_ref: Seq<char>,
    next_step: Seq<char>,
    can_advance: bool,
    task: JVal,
    longway: JVal,
    host: JVal,
    mitigation: JVal,
    contract: JVal,
)
    ensures
        ({
            let health = spec_context_health(
                run_id,
                next_step,
                can_advance,
                task,
                longway,
                host,
                mitigation,
                contract,
            );
            let handoff = spec_restart_handoff(run_id, run_ref, task, longway, health, mitigation);
            &&& jget(handoff, "restart_needed"@) == Some(JVal::Bool(rollover_recommended(mitigation)))
            &&& jget(handoff, "automatic_restart"@) == Some(JVal::Bool(false))
        }),
{
    let health = spec_context_health(
        run_id,
        next_step,
        can_advance,
        task,
        longway,
        host,
        mitigation,
        contract,
    );
    reveal_strlit("schema");
    reveal_strlit("run_id");
    reveal_strlit("status");
    reveal_strlit("restart_needed");
    reveal_strlit("automatic_restart");
    let hm = health->Object_0;
    assert(hm[0].0[1] != "status"@[1]);
    assert(hm[1].0[0] != "status"@[0]);
    crate::json::lemma_jmember_index_scan(hm, "status"@, 2);
    let handoff = spec_restart_handoff(run_id, run_ref, task, longway, health, mitigation);
    let m = handoff->Object_0;
    assert(m[0].0.len() != "restart_needed"@.len());
    crate::json::lemma_jmember_index_scan(m, "restart_needed"@, 1);
    assert(m[0].0.len() != "automatic_restart"@.len());
    assert(m[1].0.len() != "automatic_restart"@.len());
    crate::json::lemma_jmember_index_scan(m, "automatic_restart"@, 2);
}

/// A count from the run truth surface, 0 when unset.
pub open spec fn truth_count(truth: JVal, key: Seq<char>) -> int {
    match opt_u64(jget(truth, key)) {
        Some(n) => n,
        None => 0,
    }
}

/// `workers=<active>/<total> host_subagents=<active>/<total>`.
pub open spec fn delegated_work_summary(wa: nat, wt: nat, ha: nat, ht: nat) -> Seq<char> {
    "workers="@ + decimal(wa) + "/"@ + decimal(wt) + " host_subagents="@ + decimal(ha) + "/"@
        + decimal(ht)
}

/// The active checkpoint of a run (`null` unless the run is active and has a
/// task card object): the current gate and task, the delegated work and
/// fan-in state, whether an approval is pending (an approval state starting
/// with `pending`, or an operator wait), the next legal action and how to
/// resume.
pub open spec fn spec_active_checkpoint(
    run_id: Seq<char>,
    run_record: JVal,
    task: JVal,
    truth: JVal,
    host: JVal,
    state_contract: JVal,
    contract: JVal,
    next_step: Seq<char>,
) -> JVal {
    if jstr_field(run_record, "status"@) != Some("active"@) || !(task is Object) {
        JVal::Null
    } else {
        let wt = truth_count(truth, "worker_total"@);
        let wa = truth_count(truth, "worker_active"@);
        let ht = truth_count(truth, "host_subagent_total"@);
        let ha = truth_count(truth, "host_subagent_active"@);
        let approval_state = match jstr_field(run_record, "approval_state"@) {
            Some(s) => s,
            None => "unknown"@,
        };
        JVal::Object(
            seq![
                ("schema"@, JVal::Str("ccc.active_checkpoint.v1"@)),
                ("run_id"@, JVal::Str(run_id)),
                ("status"@, jget_or(run_record, "status"@, JVal::Null)),
                ("current_gate"@, jget_or(state_contract, "active_gate"@, JVal::Null)),
                ("task_card_id"@, jget_or(task, "task_card_id"@, JVal::Null)),
                ("title"@, spec_checkpoint_text(jget(task, "title"@), 160)),
                ("assigned_role"@, jget_or(task, "assigned_role"@, JVal::Null)),
                ("assigned_agent_id"@, jget_or(task, "assigned_agent_id"@, JVal::Null)),
                ("active_thread_id"@, jget_or(run_record, "active_thread_id"@, JVal::Null)),
                (
                    "delegated_work"@,
                    JVal::Object(
                        seq![
                            (
                                "summary"@,
                                JVal::Str(
                                    delegated_work_summary(wa as nat, wt as nat, ha as nat, ht as nat),
                                ),
                            ),
                            ("worker_total"@, JVal::Num(wt)),
                            ("worker_active"@, JVal::Num(wa)),
                            ("host_subagent_total"@, JVal::Num(ht)),
                            ("host_subagent_active"@, JVal::Num(ha)),
                            ("pending_merge_count"@, jget_or(host, "pending_merge_count"@, JVal::Null)),
                            (
                                "active_lane_count"@,
                                match jget_path(host, seq!["parallel_lane_state"@, "active_lane_count"@]) {
                                    Some(v) => v,
                                    None => JVal::Null,
                                },
                            ),
                            (
                                "ownership"@,
                                match jget(task, "delegated_ownership"@) {
                                    Some(v) => v,
                                    None => spec_delegated_ownership(task),
                                },
                            ),
                        ],
                    ),
                ),
                (
                    "fan_in_state"@,
                    JVal::Object(
                        seq![
                            ("ready"@, jget_or(truth, "fan_in_ready"@, JVal::Bool(false))),
                            ("host_subagent_ready"@, jget_or(host, "fan_in_ready"@, JVal::Null)),
                            ("worker_active"@, JVal::Num(wa)),
                            ("pending_merge_count"@, jget_or(host, "pending_merge_count"@, JVal::Null)),
                            ("parallel_lane_state"@, jget_or(host, "parallel_lane_state"@, JVal::Null)),
                        ],
                    ),
                ),
                (
                    "pending_approval"@,
                    JVal::Object(
                        seq![
                            (
                                "pending"@,
                                JVal::Bool(
                                    crate::strings::has_prefix(approval_state, "pending"@) || next_step
                                        == "await_operator"@,
                                ),
                            ),
                            ("approval_state"@, JVal::Str(approval_state)),
                        ],
                    ),
                ),
                (
                    "next_legal_action"@,
                    match jget(contract, "required_action"@) {
                        Some(v) => v,
                        None => jget_or(contract, "allowed_action"@, JVal::Null),
                    },
                ),
                ("resume_action"@, jget_or(truth, "resume_action"@, JVal::Str(next_step))),
                ("continuation_command"@, JVal::Str("$cap continue "@ + run_id)),
                ("late_output"@, spec_late_output(task)),
            ],
        )
    }
}

fn count_of(truth: &Json, key: &str) -> (r: u64)
    ensures
        r as int == truth_count(jview(*truth), key@),
{
    match truth.u64_field(key) {
        Some(n) => n,
        None => 0,
    }
}

pub fn create_active_checkpoint_payload(
    run_id: &str,
    run_record: &Json,
    current_task_card: &Json,
    run_truth_surface: &Json,
    host_subagent_state: &Json,
    state_contract: &Json,
    captain_action_contract: &Json,
    next_step: &str,
) -> (r: Json)
    ensures
        jview(r) == spec_active_checkpoint(
            run_id@,
            jview(*run_record),
            jview(*current_task_card),
            jview(*run_truth_surface),
            jview(*host_subagent_state),
            jview(*state_contract),
            jview(*captain_action_contract),
            next_step@,
        ),
{
    if !crate::strings::opt_str_is(run_record.str_field("status"), "active")
        || !current_task_card.is_object() {
        return Json::Null;
    }
    let task = current_task_card;
    let truth = run_truth_surface;
    let host = host_subagent_state;
    let wt = count_of(truth, "worker_total");
    let wa = count_of(truth, "worker_active");
    let ht = count_of(truth, "host_subagent_total");
    let ha = count_of(truth, "host_subagent_active");
    let approval_state: &str = match run_record.str_field("approval_state") {
        Some(s) => s,
        None => "unknown",
    };
    let pending = crate::strings::starts_with(approval_state, "pending") || str_eq(
        next_step,
        "await_operator",
    );
    let mut summary = crate::strings::to_owned("workers=");
    crate::format::push_decimal(&mut summary, wa);
    crate::strings::push_str(&mut summary, "/");
    crate::format::push_decimal(&mut summary, wt);
    crate::strings::push_str(&mut summary, " host_subagents=");
    crate::format::push_decimal(&mut summary, ha);
    crate::strings::push_str(&mut summary, "/");
    crate::format::push_decimal(&mut summary, ht);
    let ownership = match task.get("delegated_ownership") {
        Some(v) => v.deep_clone(),
        None => create_delegated_ownership_payload(task),
    };
    let lanes = match path_value2(host, "parallel_lane_state", "active_lane_count") {
        Some(v) => v.deep_clone(),
        None => Json::Null,
    };
    let next_legal = match captain_action_contract.get("required_action") {
        Some(v) => v.deep_clone(),
        None => get_or(captain_action_contract, "allowed_action", Json::Null),
    };
    let mut dw: Vec<(String, Json)> = Vec::new();
    dw.push(member("summary", jstring(summary)));
    dw.push(member("worker_total", juint(wt)));
    dw.push(member("worker_active", juint(wa)));
    dw.push(member("host_subagent_total", juint(ht)));
    dw.push(member("host_subagent_active", juint(ha)));
    dw.push(member("pending_merge_count", get_or(host, "pending_merge_count", Json::Null)));
    dw.push(member("active_lane_count", lanes));
    dw.push(member("ownership", ownership));
    let mut fi: Vec<(String, Json)> = Vec::new();
    fi.push(member("ready", get_or(truth, "fan_in_ready", jbool(false))));
    fi.push(member("host_subagent_ready", get_or(host, "fan_in_ready", Json::Null)));
    fi.push(member("worker_active", juint(wa)));
    fi.push(member("pending_merge_count", get_or(host, "pending_merge_count", Json::Null)));
    fi.push(member("parallel_lane_state", get_or(host, "parallel_lane_state", Json::Null)));
    let mut pa: Vec<(String, Json)> = Vec::new();
    pa.push(member("pending", jbool(pending)));
    pa.push(member("approval_state", jstr(approval_state)));
    let mut m: Vec<(String, Json)> = Vec::new();
    m.push(member("schema", jstr("ccc.active_checkpoint.v1")));
    m.push(member("run_id", jstr(run_id)));
    m.push(member("status", get_or(run_record, "status", Json::Null)));
    m.push(member("current_gate", get_or(state_contract, "active_gate", Json::Null)));
    m.push(member("task_card_id", get_or(task, "task_card_id", Json::Null)));
    m.push(member("title", summarize_checkpoint_text(task.get("title"), 160)));
    m.push(member("assigned_role", get_or(task, "assigned_role", Json::Null)));
    m.push(member("assigned_agent_id", get_or(task, "assigned_agent_id", Json::Null)));
    m.push(member("active_thread_id", get_or(run_record, "active_thread_id", Json::Null)));
    m.push(member("delegated_work", object_of(dw)));
    m.push(member("fan_in_state", object_of(fi)));
    m.push(member("pending_approval", object_of(pa)));
    m.push(member("next_legal_action", next_legal));
    m.push(member("resume_action", get_or(truth, "resume_action", jstr(next_step))));
    m.push(member("continuation_command", jstring(concat2("$cap continue ", run_id))));
    m.push(member("late_output", checkpoint_late_output_payload(task)));
    let r = object_of(m);
    proof {
        let sp = spec_active_checkpoint(
            run_id@,
            jview(*run_record),
            jview(*current_task_card),
            jview(*run_truth_surface),
            jview(*host_subagent_state),
            jview(*state_contract),
            jview(*captain_action_contract),
            next_step@,
        );
        assert(members_view(dw@) =~= sp->Object_0[9].1->Object_0);
        assert(members_view(fi@) =~= sp->Object_0[10].1->Object_0);
        assert(members_view(pa@) =~= sp->Object_0[11].1->Object_0);
        assert(members_view(m@) =~= sp->Object_0);
    }
    r
}

} // verus!
