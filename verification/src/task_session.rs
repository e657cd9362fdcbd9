//! The compact session-state view of the active task that watch and tmux
//! status read: the task, the current gate, the delegated agent, the
//! fallback state, evidence, verification and the internal session.

use vstd::prelude::*;
use crate::json::{
    get_or, get_or_null, jbool, jget, jget_or, jstr, jstr_field, jview, juint, member, members_view,
    object_of, opt_u64, JVal, Json,
};
use crate::run_checkpoint::{
    create_delegated_ownership_payload, create_verification_capsule_payload, spec_checkpoint_text,
    spec_delegated_ownership, spec_verification_capsule, summarize_checkpoint_text,
};
use crate::run_health::{count_string_array, spec_count_string_array};
use crate::status_truth::{spec_task_model_value, task_model_value, ModelField};
use crate::strings::str_eq;

verus! {

/// The task's lifecycle record: its subagent lifecycle when that is an
/// object, else its review lifecycle when that is an object.
pub open spec fn spec_session_lifecycle(task: JVal) -> Option<JVal> {
    match jget(task, "subagent_lifecycle"@) {
        Some(v) if v is Object => Some(v),
        _ => match jget(task, "review_lifecycle"@) {
            Some(v) if v is Object => Some(v),
            _ => None,
        },
    }
}

/// Member `key` of an optional record (`null` when absent).
pub open spec fn spec_opt_member(o: Option<JVal>, key: Seq<char>) -> JVal {
    match o {
        Some(v) => jget_or(v, key, JVal::Null),
        None => JVal::Null,
    }
}

/// Whether the task records a (non-null) subagent fallback.
pub open spec fn spec_fallback_recorded(task: JVal) -> bool {
    match jget(task, "subagent_fallback"@) {
        Some(v) => !(v is Null),
        None => false,
    }
}

/// `recorded` when a fallback is recorded, else the recovery lane's status
/// unless it is missing or `clear`, else `none`.
pub open spec fn spec_fallback_status(recorded: bool, recovery_lane: JVal) -> Seq<char> {
    if recorded {
        "recorded"@
    } else {
        match jstr_field(recovery_lane, "status"@) {
            Some(s) => if s != "clear"@ { s } else { "none"@ },
            None => "none"@,
        }
    }
}

/// How many evidence paths the task's subagent and review fan-ins name.
pub open spec fn spec_session_evidence_count(task: JVal) -> nat {
    spec_count_string_array(jget(jget_or(task, "subagent_fan_in"@, JVal::Null), "evidence_paths"@))
        + spec_count_string_array(jget(jget_or(task, "review_fan_in"@, JVal::Null), "evidence_paths"@))
}

/// The unresolved risk count: the review's unresolved finding count, else
/// the subagent's unresolved risk count, else its open questions.
pub open spec fn spec_session_unresolved(task: JVal) -> int {
    let sub = jget_or(task, "subagent_fan_in"@, JVal::Null);
    let rev = jget_or(task, "review_fan_in"@, JVal::Null);
    match opt_u64(jget(rev, "unresolved_finding_count"@)) {
        Some(n) => n,
        None => match opt_u64(jget(sub, "unresolved_risk_count"@)) {
            Some(n) => n,
            None => spec_count_string_array(jget(sub, "open_questions"@)) as int,
        },
    }
}

/// A member's value when present, else `fallback`.
pub open spec fn spec_present_or(task: JVal, key: Seq<char>, fallback: JVal) -> JVal {
    match jget(task, key) {
        Some(v) => v,
        None => fallback,
    }
}

pub open spec fn spec_session_head(task: JVal, state_contract: JVal) -> Seq<(Seq<char>, JVal)> {
    seq![
        ("schema"@, JVal::Str("ccc.task_session_state.v1"@)),
        ("source"@, JVal::Str("status_payload"@)),
        ("internal_plumbing"@, JVal::Bool(true)),
        ("public_command_path"@, JVal::Bool(false)),
        (
            "active_task"@,
            JVal::Object(
                seq![
                    ("task_card_id"@, jget_or(task, "task_card_id"@, JVal::Null)),
                    ("title"@, spec_checkpoint_text(jget(task, "title"@), 160)),
                    ("status"@, jget_or(task, "status"@, JVal::Null)),
                    ("assigned_role"@, jget_or(task, "assigned_role"@, JVal::Null)),
                    ("assigned_agent_id"@, jget_or(task, "assigned_agent_id"@, JVal::Null)),
                ],
            ),
        ),
        (
            "current_gate"@,
            JVal::Object(
                seq![
                    ("state"@, jget_or(state_contract, "state"@, JVal::Null)),
                    ("active_gate"@, jget_or(state_contract, "active_gate"@, JVal::Null)),
                    ("required_artifact"@, jget_or(state_contract, "required_artifact"@, JVal::Null)),
                ],
            ),
        ),
        (
            "delegated_agent"@,
            JVal::Object(
                seq![
                    ("child_agent_id"@, spec_opt_member(spec_session_lifecycle(task), "child_agent_id"@)),
                    ("status"@, spec_opt_member(spec_session_lifecycle(task), "status"@)),
                    ("model"@, spec_task_model_value(task, "model"@)),
                    ("variant"@, spec_task_model_value(task, "variant"@)),
                ],
            ),
        ),
    ]
}

pub open spec fn spec_session_tail(
    session_id: Seq<char>,
    process_id: u32,
    started_at: Seq<char>,
    task: JVal,
    recovery_lane: JVal,
) -> Seq<(Seq<char>, JVal)> {
    let sub = jget_or(task, "subagent_fan_in"@, JVal::Null);
    let rev = jget_or(task, "review_fan_in"@, JVal::Null);
    let recorded = spec_fallback_recorded(task);
    seq![
        (
            "fallback_state"@,
            JVal::Object(
                seq![
                    ("status"@, JVal::Str(spec_fallback_status(recorded, recovery_lane))),
                    ("recorded"@, JVal::Bool(recorded)),
                    ("recommended_action"@, jget_or(recovery_lane, "recommended_action"@, JVal::Str("none"@))),
                ],
            ),
        ),
        (
            "evidence"@,
            JVal::Object(
                seq![
                    ("count"@, JVal::Num(spec_session_evidence_count(task) as int)),
                    (
                        "latest_summary"@,
                        spec_checkpoint_text(
                            match jget(sub, "summary"@) {
                                Some(v) => Some(v),
                                None => jget(rev, "summary"@),
                            },
                            160,
                        ),
                    ),
                ],
            ),
        ),
        ("verification_capsule"@, spec_present_or(task, "verification_capsule"@, spec_verification_capsule(task))),
        ("delegated_ownership"@, spec_present_or(task, "delegated_ownership"@, spec_delegated_ownership(task))),
        (
            "verification"@,
            JVal::Object(
                seq![
                    ("state"@, jget_or(task, "verification_state"@, JVal::Null)),
                    ("review_outcome"@, jget_or(rev, "outcome"@, JVal::Null)),
                    ("unresolved_risk_count"@, JVal::Num(spec_session_unresolved(task))),
                ],
            ),
        ),
        (
            "internal_session"@,
            JVal::Object(
                seq![
                    ("session_id"@, JVal::Str(session_id)),
                    ("process_id"@, JVal::Num(process_id as int)),
                    ("started_at"@, JVal::Str(started_at)),
                ],
            ),
        ),
    ]
}

/// The task session state (`null` unless the current task card is an
/// object): the task's id, summarized title, status and assignment; the
/// state contract's gate; the delegated agent and its model; the fallback
/// state against the recovery lane; the evidence count and latest summary;
/// the verification capsule and delegated ownership (recorded, else
/// computed); the verification state; and the session that reports it.
pub open spec fn spec_task_session_state(
    session_id: Seq<char>,
    process_id: u32,
    started_at: Seq<char>,
    task: JVal,
    state_contract: JVal,
    recovery_lane: JVal,
) -> JVal {
    if !(task is Object) {
        JVal::Null
    } else {
        JVal::Object(
            spec_session_head(task, state_contract) + spec_session_tail(
                session_id,
                process_id,
                started_at,
                task,
                recovery_lane,
            ),
        )
    }
}

fn opt_member_or_null(o: Option<&Json>, key: &str) -> (r: Json)
    ensures
        jview(r) == spec_opt_member(
            match o {
                Some(v) => Some(jview(*v)),
                None => None,
            },
            key@,
        ),
{
    match o {
        Some(v) => get_or_null(v, key),
        None => Json::Null,
    }
}

fn session_lifecycle(task: &Json) -> (r: Option<&Json>)
    ensures
        match r {
            Some(v) => spec_session_lifecycle(jview(*task)) == Some(jview(*v)),
            None => spec_session_lifecycle(jview(*task)) is None,
        },
{
    match task.get("subagent_lifecycle") {
        Some(v) if v.is_object() => return Some(v),
        _ => {},
    }
    match task.get("review_lifecycle") {
        Some(v) if v.is_object() => Some(v),
        _ => None,
    }
}

fn present_or(task: &Json, key: &str, fallback: Json) -> (r: Json)
    ensures
        jview(r) == spec_present_or(jview(*task), key@, jview(fallback)),
{
    match task.get(key) {
        Some(v) => v.deep_clone(),
        None => fallback,
    }
}

fn fallback_status(recorded: bool, recovery_lane: &Json) -> (r: &str)
    ensures
        r@ == spec_fallback_status(recorded, jview(*recovery_lane)),
{
    proof {
        reveal_strlit("recorded");
        reveal_strlit("clear");
        reveal_strlit("none");
    }
    if recorded {
        "recorded"
    } else {
        match recovery_lane.str_field("status") {
            Some(s) => if !str_eq(s, "clear") { s } else { "none" },
            None => "none",
        }
    }
}

fn push_session_head(m: &mut Vec<(String, Json)>, task: &Json, state_contract: &Json)
    requires
        old(m)@.len() == 0,
    ensures
        members_view(final(m)@) == spec_session_head(jview(*task), jview(*state_contract)),
{
    let mut a: Vec<(String, Json)> = Vec::new();
    a.push(member("task_card_id", get_or_null(task, "task_card_id")));
    a.push(member("title", summarize_checkpoint_text(task.get("title"), 160)));
    a.push(member("status", get_or_null(task, "status")));
    a.push(member("assigned_role", get_or_null(task, "assigned_role")));
    a.push(member("assigned_agent_id", get_or_null(task, "assigned_agent_id")));
    let mut g: Vec<(String, Json)> = Vec::new();
    g.push(member("state", get_or_null(state_contract, "state")));
    g.push(member("active_gate", get_or_null(state_contract, "active_gate")));
    g.push(member("required_artifact", get_or_null(state_contract, "required_artifact")));
    let life = session_lifecycle(task);
    let mut d: Vec<(String, Json)> = Vec::new();
    d.push(member("child_agent_id", opt_member_or_null(life, "child_agent_id")));
    d.push(member("status", opt_member_or_null(life, "status")));
    d.push(member("model", task_model_value(task, ModelField::Model)));
    d.push(member("variant", task_model_value(task, ModelField::Variant)));
    m.push(member("schema", jstr("ccc.task_session_state.v1")));
    m.push(member("source", jstr("status_payload")));
    m.push(member("internal_plumbing", jbool(true)));
    m.push(member("public_command_path", jbool(false)));
    m.push(member("active_task", object_of(a)));
    m.push(member("current_gate", object_of(g)));
    m.push(member("delegated_agent", object_of(d)));
    proof {
        let sp = spec_session_head(jview(*task), jview(*state_contract));
        assert(members_view(a@) =~= sp[4].1->Object_0);
        assert(members_view(g@) =~= sp[5].1->Object_0);
        assert(members_view(d@) =~= sp[6].1->Object_0);
        assert(members_view(m@) =~= sp);
    }
}

fn push_session_tail(
    m: &mut Vec<(String, Json)>,
    session_id: &str,
    process_id: u32,
    started_at: &str,
    task: &Json,
    recovery_lane: &Json,
)
    requires
        old(m)@.len() == 0,
        spec_session_evidence_count(jview(*task)) <= usize::MAX,
    ensures
        members_view(final(m)@) == spec_session_tail(
            session_id@,
            process_id,
            started_at@,
            jview(*task),
            jview(*recovery_lane),
        ),
{
    let null = Json::Null;
    let sub = match task.get("subagent_fan_in") {
        Some(v) => v,
        None => &null,
    };
    let rev = match task.get("review_fan_in") {
        Some(v) => v,
        None => &null,
    };
    let recorded = match task.get("subagent_fallback") {
        Some(v) => !v.is_null(),
        None => false,
    };
    let mut f: Vec<(String, Json)> = Vec::new();
    f.push(member("status", jstr(fallback_status(recorded, recovery_lane))));
    f.push(member("recorded", jbool(recorded)));
    f.push(member("recommended_action", get_or(recovery_lane, "recommended_action", jstr("none"))));
    let count_sub = count_string_array(sub.get("evidence_paths"));
    let count_rev = count_string_array(rev.get("evidence_paths"));
    let evidence_count: usize = count_sub + count_rev;
    let summary = match sub.get("summary") {
        Some(v) => Some(v),
        None => rev.get("summary"),
    };
    let mut e: Vec<(String, Json)> = Vec::new();
    e.push(member("count", juint(evidence_count as u64)));
    e.push(member("latest_summary", summarize_checkpoint_text(summary, 160)));
    let unresolved: u64 = match rev.u64_field("unresolved_finding_count") {
        Some(n) => n,
        None => match sub.u64_field("unresolved_risk_count") {
            Some(n) => n,
            None => count_string_array(sub.get("open_questions")) as u64,
        },
    };
    let mut v: Vec<(String, Json)> = Vec::new();
    v.push(member("state", get_or_null(task, "verification_state")));
    v.push(member("review_outcome", get_or_null(rev, "outcome")));
    v.push(member("unresolved_risk_count", juint(unresolved)));
    let mut s: Vec<(String, Json)> = Vec::new();
    s.push(member("session_id", jstr(session_id)));
    s.push(member("process_id", juint(process_id as u64)));
    s.push(member("started_at", jstr(started_at)));
    let capsule = present_or(task, "verification_capsule", create_verification_capsule_payload(task));
    let ownership = present_or(task, "delegated_ownership", create_delegated_ownership_payload(task));
    m.push(member("fallback_state", object_of(f)));
    m.push(member("evidence", object_of(e)));
    m.push(member("verification_capsule", capsule));
    m.push(member("delegated_ownership", ownership));
    m.push(member("verification", object_of(v)));
    m.push(member("internal_session", object_of(s)));
    proof {
        let sp = spec_session_tail(session_id@, process_id, started_at@, jview(*task), jview(*recovery_lane));
        assert(members_view(f@) =~= sp[0].1->Object_0);
        assert(members_view(e@) =~= sp[1].1->Object_0);
        assert(members_view(v@) =~= sp[4].1->Object_0);
        assert(members_view(s@) =~= sp[5].1->Object_0);
        assert(members_view(m@) =~= sp);
    }
}

/// The compact session state of the current task card for status views.
/// The evidence count must fit the machine's word.
pub fn create_task_session_state_payload(
    session_id: &str,
    process_id: u32,
    started_at: &str,
    current_task_card: &Json,
    state_contract: &Json,
    recovery_lane: &Json,
) -> (r: Json)
    requires
        spec_session_evidence_count(jview(*current_task_card)) <= usize::MAX,
    ensures
        jview(r) == spec_task_session_state(
            session_id@,
            process_id,
            started_at@,
            jview(*current_task_card),
            jview(*state_contract),
            jview(*recovery_lane),
        ),
{
    if !current_task_card.is_object() {
        return Json::Null;
    }
    let mut head: Vec<(String, Json)> = Vec::new();
    push_session_head(&mut head, current_task_card, state_contract);
    let mut tail: Vec<(String, Json)> = Vec::new();
    push_session_tail(&mut tail, session_id, process_id, started_at, current_task_card, recovery_lane);
    let ghost h = head@;
    let ghost t = tail@;
    head.append(&mut tail);
    proof {
        assert(head@ =~= h + t);
        assert(members_view(h + t) =~= members_view(h) + members_view(t));
    }
    object_of(head)
}

} // verus!
