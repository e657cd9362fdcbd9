//! The current task card as a status shows it: the card's own members,
//! its verification capsule, delegated ownership and bounded routing, and
//! the route enforcement state and assignment quality given for it.

use vstd::prelude::*;
use crate::app_panel::{clone_or, get_ref, or_else, or_null};
use crate::json::{jempty_array, jget, jstr, jview, member, members_view, object_of, JVal, Json};

verus! {

fn opt_or_null(o: Option<Json>) -> (r: Json)
    ensures
        jview(r) == or_null(match o {
            Some(v) => Some(jview(v)),
            None => None,
        }),
{
    match o {
        Some(v) => v,
        None => Json::Null,
    }
}

/// Part 1 of `current_task_card_members`.
pub open spec fn current_task_card_members_1(task_card: JVal, task_card_id: Seq<char>, file: Seq<char>, route_enforcement_state: JVal, assignment_quality: JVal) -> Seq<(Seq<char>, JVal)> {
    seq![
        ("file"@, JVal::Str(file)),
        ("run_id"@, or_null(jget(task_card, "run_id"@))),
        ("task_card_id"@, or_else(jget(task_card, "task_card_id"@), JVal::Str(task_card_id))),
        ("title"@, or_null(jget(task_card, "title"@))),
        ("intent"@, or_null(jget(task_card, "intent"@))),
    ]
}

fn push_current_task_card_members_1(m: &mut Vec<(String, Json)>, task_card: &Json, task_card_id: &str, file: &str, route_enforcement_state: &Json, assignment_quality: &Json)
    ensures
        members_view(final(m)@) == members_view(old(m)@) + current_task_card_members_1(jview(*task_card), task_card_id@, file@, jview(*route_enforcement_state), jview(*assignment_quality)),
{
    let ghost start = members_view(m@);
    m.push(member("file", jstr(file)));
    m.push(member("run_id", clone_or(get_ref(task_card, "run_id"), Json::Null)));
    m.push(member("task_card_id", clone_or(get_ref(task_card, "task_card_id"), jstr(task_card_id))));
    m.push(member("title", clone_or(get_ref(task_card, "title"), Json::Null)));
    m.push(member("intent", clone_or(get_ref(task_card, "intent"), Json::Null)));
    assert(members_view(m@) =~= start + current_task_card_members_1(jview(*task_card), task_card_id@, file@, jview(*route_enforcement_state), jview(*assignment_quality)));
}

/// Part 2 of `current_task_card_members`.
pub open spec fn current_task_card_members_2(task_card: JVal, task_card_id: Seq<char>, file: Seq<char>, route_enforcement_state: JVal, assignment_quality: JVal) -> Seq<(Seq<char>, JVal)> {
    seq![
        ("scope"@, or_null(jget(task_card, "scope"@))),
        ("acceptance"@, or_null(jget(task_card, "acceptance"@))),
        ("execution_prompt"@, or_null(jget(task_card, "execution_prompt"@))),
        ("status"@, or_null(jget(task_card, "status"@))),
        ("task_kind"@, or_null(jget(task_card, "task_kind"@))),
    ]
}

fn push_current_task_card_members_2(m: &mut Vec<(String, Json)>, task_card: &Json, task_card_id: &str, file: &str, route_enforcement_state: &Json, assignment_quality: &Json)
    ensures
        members_view(final(m)@) == members_view(old(m)@) + current_task_card_members_2(jview(*task_card), task_card_id@, file@, jview(*route_enforcement_state), jview(*assignment_quality)),
{
    let ghost start = members_view(m@);
    m.push(member("scope", clone_or(get_ref(task_card, "scope"), Json::Null)));
    m.push(member("acceptance", clone_or(get_ref(task_card, "acceptance"), Json::Null)));
    m.push(member("execution_prompt", clone_or(get_ref(task_card, "execution_prompt"), Json::Null)));
    m.push(member("status", clone_or(get_ref(task_card, "status"), Json::Null)));
    m.push(member("task_kind", clone_or(get_ref(task_card, "task_kind"), Json::Null)));
    assert(members_view(m@) =~= start + current_task_card_members_2(jview(*task_card), task_card_id@, file@, jview(*route_enforcement_state), jview(*assignment_quality)));
}

/// Part 3 of `current_task_card_members`.
pub open spec fn current_task_card_members_3(task_card: JVal, task_card_id: Seq<char>, file: Seq<char>, route_enforcement_state: JVal, assignment_quality: JVal) -> Seq<(Seq<char>, JVal)> {
    seq![
        ("review_of_task_card_ids"@, or_else(jget(task_card, "review_of_task_card_ids"@), JVal::Array(Seq::empty()))),
        ("orchestrator_review_gate"@, or_null(jget(task_card, "orchestrator_review_gate"@))),
        ("verification_state"@, or_null(jget(task_card, "verification_state"@))),
        ("review_pass_count"@, or_null(jget(task_card, "review_pass_count"@))),
        ("review_policy"@, or_null(jget(task_card, "review_policy"@))),
    ]
}

fn push_current_task_card_members_3(m: &mut Vec<(String, Json)>, task_card: &Json, task_card_id: &str, file: &str, route_enforcement_state: &Json, assignment_quality: &Json)
    ensures
        members_view(final(m)@) == members_view(old(m)@) + current_task_card_members_3(jview(*task_card), task_card_id@, file@, jview(*route_enforcement_state), jview(*assignment_quality)),
{
    let ghost start = members_view(m@);
    m.push(member("review_of_task_card_ids", clone_or(get_ref(task_card, "review_of_task_card_ids"), jempty_array())));
    m.push(member("orchestrator_review_gate", clone_or(get_ref(task_card, "orchestrator_review_gate"), Json::Null)));
    m.push(member("verification_state", clone_or(get_ref(task_card, "verification_state"), Json::Null)));
    m.push(member("review_pass_count", clone_or(get_ref(task_card, "review_pass_count"), Json::Null)));
    m.push(member("review_policy", clone_or(get_ref(task_card, "review_policy"), Json::Null)));
    assert(members_view(m@) =~= start + current_task_card_members_3(jview(*task_card), task_card_id@, file@, jview(*route_enforcement_state), jview(*assignment_quality)));
}

/// Part 4 of `current_task_card_members`.
pub open spec fn current_task_card_members_4(task_card: JVal, task_card_id: Seq<char>, file: Seq<char>, route_enforcement_state: JVal, assignment_quality: JVal) -> Seq<(Seq<char>, JVal)> {
    seq![
        ("completion_discipline"@, or_null(jget(task_card, "completion_discipline"@))),
        ("assigned_role"@, or_null(jget(task_card, "assigned_role"@))),
        ("assigned_agent_id"@, or_null(jget(task_card, "assigned_agent_id"@))),
        ("sandbox_mode"@, or_null(jget(task_card, "sandbox_mode"@))),
        ("sandbox_rationale"@, or_null(jget(task_card, "sandbox_rationale"@))),
    ]
}

fn push_current_task_card_members_4(m: &mut Vec<(String, Json)>, task_card: &Json, task_card_id: &str, file: &str, route_enforcement_state: &Json, assignment_quality: &Json)
    ensures
        members_view(final(m)@) == members_view(old(m)@) + current_task_card_members_4(jview(*task_card), task_card_id@, file@, jview(*route_enforcement_state), jview(*assignment_quality)),
{
    let ghost start = members_view(m@);
    m.push(member("completion_discipline", clone_or(get_ref(task_card, "completion_discipline"), Json::Null)));
    m.push(member("assigned_role", clone_or(get_ref(task_card, "assigned_role"), Json::Null)));
    m.push(member("assigned_agent_id", clone_or(get_ref(task_card, "assigned_agent_id"), Json::Null)));
    m.push(member("sandbox_mode", clone_or(get_ref(task_card, "sandbox_mode"), Json::Null)));
    m.push(member("sandbox_rationale", clone_or(get_ref(task_card, "sandbox_rationale"), Json::Null)));
    assert(members_view(m@) =~= start + current_task_card_members_4(jview(*task_card), task_card_id@, file@, jview(*route_enforcement_state), jview(*assignment_quality)));
}

/// Part 5 of `current_task_card_members`.
pub open spec fn current_task_card_members_5(task_card: JVal, task_card_id: Seq<char>, file: Seq<char>, route_enforcement_state: JVal, assignment_quality: JVal) -> Seq<(Seq<char>, JVal)> {
    seq![
        ("role_config_snapshot"@, or_null(jget(task_card, "role_config_snapshot"@))),
        ("delegation_plan"@, or_null(jget(task_card, "delegation_plan"@))),
        ("verification_capsule"@, crate::run_checkpoint::spec_verification_capsule(task_card)),
        ("delegated_ownership"@, crate::run_checkpoint::spec_delegated_ownership(task_card)),
        ("route_enforcement_state"@, route_enforcement_state),
    ]
}

fn push_current_task_card_members_5(m: &mut Vec<(String, Json)>, task_card: &Json, task_card_id: &str, file: &str, route_enforcement_state: &Json, assignment_quality: &Json)
    ensures
        members_view(final(m)@) == members_view(old(m)@) + current_task_card_members_5(jview(*task_card), task_card_id@, file@, jview(*route_enforcement_state), jview(*assignment_quality)),
{
    let ghost start = members_view(m@);
    m.push(member("role_config_snapshot", clone_or(get_ref(task_card, "role_config_snapshot"), Json::Null)));
    m.push(member("delegation_plan", clone_or(get_ref(task_card, "delegation_plan"), Json::Null)));
    m.push(member("verification_capsule", crate::run_checkpoint::create_verification_capsule_payload(task_card)));
    m.push(member("delegated_ownership", crate::run_checkpoint::create_delegated_ownership_payload(task_card)));
    m.push(member("route_enforcement_state", route_enforcement_state.deep_clone()));
    assert(members_view(m@) =~= start + current_task_card_members_5(jview(*task_card), task_card_id@, file@, jview(*route_enforcement_state), jview(*assignment_quality)));
}

/// Part 6 of `current_task_card_members`.
pub open spec fn current_task_card_members_6(task_card: JVal, task_card_id: Seq<char>, file: Seq<char>, route_enforcement_state: JVal, assignment_quality: JVal) -> Seq<(Seq<char>, JVal)> {
    seq![
        ("assignment_quality"@, assignment_quality),
        ("routing_summary"@, or_null(crate::routing_trace::spec_bounded_routing_summary(task_card))),
        ("routing_trace"@, or_null(crate::routing_trace::spec_bounded_status_routing_trace(task_card, "task_card"@))),
        ("evidence_links"@, or_null(jget(task_card, "evidence_links"@))),
        ("result_links"@, or_null(jget(task_card, "result_links"@))),
    ]
}

fn push_current_task_card_members_6(m: &mut Vec<(String, Json)>, task_card: &Json, task_card_id: &str, file: &str, route_enforcement_state: &Json, assignment_quality: &Json)
    ensures
        members_view(final(m)@) == members_view(old(m)@) + current_task_card_members_6(jview(*task_card), task_card_id@, file@, jview(*route_enforcement_state), jview(*assignment_quality)),
{
    let ghost start = members_view(m@);
    m.push(member("assignment_quality", assignment_quality.deep_clone()));
    m.push(member("routing_summary", opt_or_null(crate::routing_trace::bounded_status_routing_summary(task_card))));
    m.push(member("routing_trace", opt_or_null(crate::routing_trace::bounded_status_routing_trace(task_card, "task_card"))));
    m.push(member("evidence_links", clone_or(get_ref(task_card, "evidence_links"), Json::Null)));
    m.push(member("result_links", clone_or(get_ref(task_card, "result_links"), Json::Null)));
    assert(members_view(m@) =~= start + current_task_card_members_6(jview(*task_card), task_card_id@, file@, jview(*route_enforcement_state), jview(*assignment_quality)));
}

/// Part 7 of `current_task_card_members`.
pub open spec fn current_task_card_members_7(task_card: JVal, task_card_id: Seq<char>, file: Seq<char>, route_enforcement_state: JVal, assignment_quality: JVal) -> Seq<(Seq<char>, JVal)> {
    seq![
        ("subagent_lifecycle"@, or_null(jget(task_card, "subagent_lifecycle"@))),
        ("review_lifecycle"@, or_null(jget(task_card, "review_lifecycle"@))),
        ("subagent_fan_in"@, or_null(jget(task_card, "subagent_fan_in"@))),
        ("worker_result_envelope"@, or_null(jget(task_card, "subagent_fan_in"@))),
        ("late_subagent_output"@, or_null(jget(task_card, "late_subagent_output"@))),
    ]
}

fn push_current_task_card_members_7(m: &mut Vec<(String, Json)>, task_card: &Json, task_card_id: &str, file: &str, route_enforcement_state: &Json, assignment_quality: &Json)
    ensures
        members_view(final(m)@) == members_view(old(m)@) + current_task_card_members_7(jview(*task_card), task_card_id@, file@, jview(*route_enforcement_state), jview(*assignment_quality)),
{
    let ghost start = members_view(m@);
    m.push(member("subagent_lifecycle", clone_or(get_ref(task_card, "subagent_lifecycle"), Json::Null)));
    m.push(member("review_lifecycle", clone_or(get_ref(task_card, "review_lifecycle"), Json::Null)));
    m.push(member("subagent_fan_in", clone_or(get_ref(task_card, "subagent_fan_in"), Json::Null)));
    m.push(member("worker_result_envelope", clone_or(get_ref(task_card, "subagent_fan_in"), Json::Null)));
    m.push(member("late_subagent_output", clone_or(get_ref(task_card, "late_subagent_output"), Json::Null)));
    assert(members_view(m@) =~= start + current_task_card_members_7(jview(*task_card), task_card_id@, file@, jview(*route_enforcement_state), jview(*assignment_quality)));
}

/// Part 8 of `current_task_card_members`.
pub open spec fn current_task_card_members_8(task_card: JVal, task_card_id: Seq<char>, file: Seq<char>, route_enforcement_state: JVal, assignment_quality: JVal) -> Seq<(Seq<char>, JVal)> {
    seq![
        ("review_fan_in"@, or_null(jget(task_card, "review_fan_in"@))),
        ("captain_intervention"@, or_null(jget(task_card, "captain_intervention"@))),
        ("captain_intervention_history"@, or_else(jget(task_card, "captain_intervention_history"@), JVal::Array(Seq::empty()))),
        ("sentinel_intervention"@, or_null(jget(task_card, "sentinel_intervention"@))),
        ("sentinel_intervention_history"@, or_else(jget(task_card, "sentinel_intervention_history"@), JVal::Array(Seq::empty()))),
    ]
}

fn push_current_task_card_members_8(m: &mut Vec<(String, Json)>, task_card: &Json, task_card_id: &str, file: &str, route_enforcement_state: &Json, assignment_quality: &Json)
    ensures
        members_view(final(m)@) == members_view(old(m)@) + current_task_card_members_8(jview(*task_card), task_card_id@, file@, jview(*route_enforcement_state), jview(*assignment_quality)),
{
    let ghost start = members_view(m@);
    m.push(member("review_fan_in", clone_or(get_ref(task_card, "review_fan_in"), Json::Null)));
    m.push(member("captain_intervention", clone_or(get_ref(task_card, "captain_intervention"), Json::Null)));
    m.push(member("captain_intervention_history", clone_or(get_ref(task_card, "captain_intervention_history"), jempty_array())));
    m.push(member("sentinel_intervention", clone_or(get_ref(task_card, "sentinel_intervention"), Json::Null)));
    m.push(member("sentinel_intervention_history", clone_or(get_ref(task_card, "sentinel_intervention_history"), jempty_array())));
    assert(members_view(m@) =~= start + current_task_card_members_8(jview(*task_card), task_card_id@, file@, jview(*route_enforcement_state), jview(*assignment_quality)));
}

/// Part 9 of `current_task_card_members`.
pub open spec fn current_task_card_members_9(task_card: JVal, task_card_id: Seq<char>, file: Seq<char>, route_enforcement_state: JVal, assignment_quality: JVal) -> Seq<(Seq<char>, JVal)> {
    seq![
        ("subagent_policy_drift"@, or_null(jget(task_card, "subagent_policy_drift"@))),
        ("subagent_fallback"@, or_null(jget(task_card, "subagent_fallback"@))),
        ("parallel_fanout"@, or_null(jget(task_card, "parallel_fanout"@))),
        ("planned_longway_row"@, or_null(jget(task_card, "planned_longway_row"@))),
        ("latest_model_launch"@, or_null(jget(task_card, "latest_model_launch"@))),
    ]
}

fn push_current_task_card_members_9(m: &mut Vec<(String, Json)>, task_card: &Json, task_card_id: &str, file: &str, route_enforcement_state: &Json, assignment_quality: &Json)
    ensures
        members_view(final(m)@) == members_view(old(m)@) + current_task_card_members_9(jview(*task_card), task_card_id@, file@, jview(*route_enforcement_state), jview(*assignment_quality)),
{
    let ghost start = members_view(m@);
    m.push(member("subagent_policy_drift", clone_or(get_ref(task_card, "subagent_policy_drift"), Json::Null)));
    m.push(member("subagent_fallback", clone_or(get_ref(task_card, "subagent_fallback"), Json::Null)));
    m.push(member("parallel_fanout", clone_or(get_ref(task_card, "parallel_fanout"), Json::Null)));
    m.push(member("planned_longway_row", clone_or(get_ref(task_card, "planned_longway_row"), Json::Null)));
    m.push(member("latest_model_launch", clone_or(get_ref(task_card, "latest_model_launch"), Json::Null)));
    assert(members_view(m@) =~= start + current_task_card_members_9(jview(*task_card), task_card_id@, file@, jview(*route_enforcement_state), jview(*assignment_quality)));
}

/// The members of the current task card payload.
pub open spec fn current_task_card_members(task_card: JVal, task_card_id: Seq<char>, file: Seq<char>, route_enforcement_state: JVal, assignment_quality: JVal) -> Seq<(Seq<char>, JVal)> {
    current_task_card_members_1(task_card, task_card_id, file, route_enforcement_state, assignment_quality) + current_task_card_members_2(task_card, task_card_id, file, route_enforcement_state, assignment_quality) + current_task_card_members_3(task_card, task_card_id, file, route_enforcement_state, assignment_quality) + current_task_card_members_4(task_card, task_card_id, file, route_enforcement_state, assignment_quality) + current_task_card_members_5(task_card, task_card_id, file, route_enforcement_state, assignment_quality) + current_task_card_members_6(task_card, task_card_id, file, route_enforcement_state, assignment_quality) + current_task_card_members_7(task_card, task_card_id, file, route_enforcement_state, assignment_quality) + current_task_card_members_8(task_card, task_card_id, file, route_enforcement_state, assignment_quality) + current_task_card_members_9(task_card, task_card_id, file, route_enforcement_state, assignment_quality)
}

fn push_current_task_card_members(m: &mut Vec<(String, Json)>, task_card: &Json, task_card_id: &str, file: &str, route_enforcement_state: &Json, assignment_quality: &Json)
    ensures
        members_view(final(m)@) == members_view(old(m)@) + current_task_card_members(jview(*task_card), task_card_id@, file@, jview(*route_enforcement_state), jview(*assignment_quality)),
{
    let ghost start = members_view(m@);
    push_current_task_card_members_1(m, task_card, task_card_id, file, route_enforcement_state, assignment_quality);
    push_current_task_card_members_2(m, task_card, task_card_id, file, route_enforcement_state, assignment_quality);
    push_current_task_card_members_3(m, task_card, task_card_id, file, route_enforcement_state, assignment_quality);
    push_current_task_card_members_4(m, task_card, task_card_id, file, route_enforcement_state, assignment_quality);
    push_current_task_card_members_5(m, task_card, task_card_id, file, route_enforcement_state, assignment_quality);
    push_current_task_card_members_6(m, task_card, task_card_id, file, route_enforcement_state, assignment_quality);
    push_current_task_card_members_7(m, task_card, task_card_id, file, route_enforcement_state, assignment_quality);
    push_current_task_card_members_8(m, task_card, task_card_id, file, route_enforcement_state, assignment_quality);
    push_current_task_card_members_9(m, task_card, task_card_id, file, route_enforcement_state, assignment_quality);
    assert(members_view(m@) =~= start + current_task_card_members(jview(*task_card), task_card_id@, file@, jview(*route_enforcement_state), jview(*assignment_quality)));
}

/// The current task card payload: `null` without an active, non-blank task
/// card id or without a readable task card. `route_enforcement_state` and
/// `assignment_quality` are what the card's route enforcement and
/// assignment quality were found to be.
pub open spec fn spec_current_task_card_payload(
    task_card: Option<JVal>,
    active_task_card_id: Option<Seq<char>>,
    file: Seq<char>,
    route_enforcement_state: JVal,
    assignment_quality: JVal,
) -> JVal {
    match active_task_card_id {
        Some(id) => if crate::strings::trim(id).len() > 0 {
            match task_card {
                Some(tc) => JVal::Object(
                    current_task_card_members(tc, id, file, route_enforcement_state, assignment_quality),
                ),
                None => JVal::Null,
            }
        } else {
            JVal::Null
        },
        None => JVal::Null,
    }
}

pub fn create_current_task_card_payload(
    task_card: Option<&Json>,
    active_task_card_id: Option<&str>,
    file: &str,
    route_enforcement_state: &Json,
    assignment_quality: &Json,
) -> (r: Json)
    ensures
        jview(r) == spec_current_task_card_payload(
            crate::worker_events::opt_jview_ref(task_card),
            crate::strings::opt_view(active_task_card_id),
            file@,
            jview(*route_enforcement_state),
            jview(*assignment_quality),
        ),
{
    let id = match active_task_card_id {
        Some(id) => id,
        None => return Json::Null,
    };
    if crate::strings::is_blank(id) {
        return Json::Null;
    }
    let tc = match task_card {
        Some(tc) => tc,
        None => return Json::Null,
    };
    let mut m: Vec<(String, Json)> = Vec::new();
    push_current_task_card_members(&mut m, tc, id, file, route_enforcement_state, assignment_quality);
    object_of(m)
}

} // verus!
