//! The compact status: the parts of a status payload that an operator and
//! a captain need, with defaults for the contracts a task does not record,
//! the app panel and the command templates.

use vstd::prelude::*;
use crate::app_panel::{at2, at3, clone_or, get_ref, or_else, or_null};
use crate::config_defaults::jstrs;
use crate::delegation_plan::{
    fan_in_required_fields, spec_fan_in_required_fields, spec_verify_retry_recap_report_contract,
    verify_retry_recap_report_contract,
};
use crate::json::{jbool, jempty_array, jget, jget_path, jstr, jstr_at, jview, member, members_view, object_of, JVal, Json};
use crate::status_templates::{
    compact_captain_action_contract, compact_graph_context_readiness, compact_routing_trace,
    create_status_command_templates_payload, spec_compact_captain_action_contract,
    spec_compact_graph_context_readiness, spec_compact_routing_trace, spec_status_command_templates,
};
use crate::worker_events::opt_jview_ref;
use crate::worker_fleet::jviews;

verus! {

/// The fan-in contract a task has by default.
pub open spec fn spec_default_fan_in_contract() -> JVal {
    JVal::Object(seq![("captain_consumes_compact_fan_in"@, JVal::Bool(true))])
}

fn default_fan_in_contract() -> (r: Json)
    ensures
        jview(r) == spec_default_fan_in_contract(),
{
    let mut m: Vec<(String, Json)> = Vec::new();
    m.push(member("captain_consumes_compact_fan_in", jbool(true)));
    let r = object_of(m);
    assert(members_view(m@) =~= spec_default_fan_in_contract()->Object_0);
    r
}

/// The fan-in's artifact: the one it names, else the task's.
pub open spec fn spec_fan_in_artifact_ref(task: JVal) -> JVal {
    match jget_path(task, seq!["subagent_fan_in"@, "artifact_ref"@]) {
        Some(v) => v,
        None => or_null(jget(task, "subagent_fan_in_artifact"@)),
    }
}

fn fan_in_artifact_ref(task: &Json) -> (r: Json)
    ensures
        jview(r) == spec_fan_in_artifact_ref(jview(*task)),
{
    match at2(task, "subagent_fan_in", "artifact_ref") {
        Some(v) => v.deep_clone(),
        None => clone_or(get_ref(task, "subagent_fan_in_artifact"), Json::Null),
    }
}

/// The lanes that must fan in (none recorded: an empty list).
pub open spec fn spec_required_lane_ids(task: JVal) -> JVal {
    or_else(jget_path(task, seq!["parallel_fanout"@, "required_lane_ids"@]), JVal::Array(Seq::empty()))
}

fn required_lane_ids(task: &Json) -> (r: Json)
    ensures
        jview(r) == spec_required_lane_ids(jview(*task)),
{
    clone_or(at2(task, "parallel_fanout", "required_lane_ids"), jempty_array())
}

/// The first item of a list (`null` for an empty list or anything else).
pub open spec fn first_item(v: JVal) -> JVal {
    match v {
        JVal::Array(s) => if s.len() > 0 {
            s[0]
        } else {
            JVal::Null
        },
        _ => JVal::Null,
    }
}

fn first_item_of(v: &Json) -> (r: Json)
    ensures
        jview(r) == first_item(jview(*v)),
{
    match v {
        Json::Array(s) => {
            proof {
                crate::json::lemma_array_view(*s);
            }
            if s.len() > 0 {
                s[0].deep_clone()
            } else {
                Json::Null
            }
        },
        _ => Json::Null,
    }
}

/// Whether the task fans out in parallel.
pub open spec fn parallel_mode(task: JVal) -> bool {
    jstr_at(task, seq!["parallel_fanout"@, "mode"@]) == Some("parallel"@)
}

fn is_parallel(task: &Json) -> (r: bool)
    ensures
        r == parallel_mode(jview(*task)),
{
    let keys: [&str; 2] = ["parallel_fanout", "mode"];
    assert(keys@.map_values(|k: &str| k@) =~= seq!["parallel_fanout"@, "mode"@]);
    crate::strings::opt_str_is(task.str_at(keys.as_slice()), "parallel")
}

/// The lane a parallel launch starts with.
pub open spec fn spec_launch_lane(task: JVal) -> JVal {
    if parallel_mode(task) {
        first_item(spec_required_lane_ids(task))
    } else {
        JVal::Null
    }
}

fn launch_lane(task: &Json) -> (r: Json)
    ensures
        jview(r) == spec_launch_lane(jview(*task)),
{
    if is_parallel(task) {
        first_item_of(&required_lane_ids(task))
    } else {
        Json::Null
    }
}

/// The lanes of a parallel launch (none otherwise).
pub open spec fn spec_launch_lane_ids(task: JVal) -> JVal {
    if parallel_mode(task) {
        spec_required_lane_ids(task)
    } else {
        JVal::Array(Seq::empty())
    }
}

fn launch_lane_ids(task: &Json) -> (r: Json)
    ensures
        jview(r) == spec_launch_lane_ids(jview(*task)),
{
    if is_parallel(task) {
        required_lane_ids(task)
    } else {
        jempty_array()
    }
}

/// The current task card's id, else the active one.
pub open spec fn spec_compact_task_card_id(payload: JVal, task: JVal) -> JVal {
    match jget(task, "task_card_id"@) {
        Some(v) => v,
        None => or_null(jget(payload, "active_task_card_id"@)),
    }
}

fn compact_task_card_id(payload: &Json, task: &Json) -> (r: Json)
    ensures
        jview(r) == spec_compact_task_card_id(jview(*payload), jview(*task)),
{
    match get_ref(task, "task_card_id") {
        Some(v) => v.deep_clone(),
        None => clone_or(get_ref(payload, "active_task_card_id"), Json::Null),
    }
}

/// The task's expertise framing, else its plan's.
pub open spec fn spec_expertise_framing(task: JVal, plan: JVal) -> JVal {
    match jget(task, "expertise_framing"@) {
        Some(v) => v,
        None => or_null(jget(plan, "expertise_framing"@)),
    }
}

fn expertise_framing(task: &Json, plan: &Json) -> (r: Json)
    ensures
        jview(r) == spec_expertise_framing(jview(*task), jview(*plan)),
{
    match get_ref(task, "expertise_framing") {
        Some(v) => v.deep_clone(),
        None => clone_or(get_ref(plan, "expertise_framing"), Json::Null),
    }
}

/// The task's worker result envelope, else its subagent fan-in.
pub open spec fn spec_worker_result_envelope(task: JVal) -> JVal {
    match jget(task, "worker_result_envelope"@) {
        Some(v) => v,
        None => or_null(jget(task, "subagent_fan_in"@)),
    }
}

fn worker_result_envelope(task: &Json) -> (r: Json)
    ensures
        jview(r) == spec_worker_result_envelope(jview(*task)),
{
    match get_ref(task, "worker_result_envelope") {
        Some(v) => v.deep_clone(),
        None => clone_or(get_ref(task, "subagent_fan_in"), Json::Null),
    }
}

/// The task's routing trace, compacted.
pub open spec fn spec_task_routing_trace(task: JVal) -> JVal {
    match jget(task, "routing_trace"@) {
        Some(t) => spec_compact_routing_trace(t),
        None => JVal::Null,
    }
}

fn task_routing_trace(task: &Json) -> (r: Json)
    ensures
        jview(r) == spec_task_routing_trace(jview(*task)),
{
    match get_ref(task, "routing_trace") {
        Some(t) => compact_routing_trace(t),
        None => Json::Null,
    }
}

/// The payload's scheduler, compacted.
pub open spec fn spec_payload_scheduler(payload: JVal) -> JVal {
    match jget(payload, "scheduler"@) {
        Some(s) => crate::scheduler_status::spec_compact_scheduler_payload(s),
        None => JVal::Null,
    }
}

fn payload_scheduler(payload: &Json) -> (r: Json)
    ensures
        jview(r) == spec_payload_scheduler(jview(*payload)),
{
    match get_ref(payload, "scheduler") {
        Some(s) => crate::scheduler_status::compact_scheduler_payload(s),
        None => Json::Null,
    }
}

/// Part 1 of `compact_subagent_fan_in_members`.
pub open spec fn compact_subagent_fan_in_members_1(task: JVal) -> Seq<(Seq<char>, JVal)> {
    seq![
        ("schema"@, or_else(jget_path(task, seq!["subagent_fan_in"@, "schema"@]), JVal::Str("ccc.worker_result_envelope.v1"@))),
        ("summary"@, or_null(jget_path(task, seq!["subagent_fan_in"@, "summary"@]))),
        ("status"@, or_null(jget_path(task, seq!["subagent_fan_in"@, "status"@]))),
        ("evidence_paths"@, or_else(jget_path(task, seq!["subagent_fan_in"@, "evidence_paths"@]), JVal::Array(Seq::empty()))),
        ("next_action"@, or_null(jget_path(task, seq!["subagent_fan_in"@, "next_action"@]))),
    ]
}

fn push_compact_subagent_fan_in_members_1(m: &mut Vec<(String, Json)>, task: &Json)
    ensures
        members_view(final(m)@) == members_view(old(m)@) + compact_subagent_fan_in_members_1(jview(*task)),
{
    let ghost start = members_view(m@);
    m.push(member("schema", clone_or(at2(task, "subagent_fan_in", "schema"), jstr("ccc.worker_result_envelope.v1"))));
    m.push(member("summary", clone_or(at2(task, "subagent_fan_in", "summary"), Json::Null)));
    m.push(member("status", clone_or(at2(task, "subagent_fan_in", "status"), Json::Null)));
    m.push(member("evidence_paths", clone_or(at2(task, "subagent_fan_in", "evidence_paths"), jempty_array())));
    m.push(member("next_action", clone_or(at2(task, "subagent_fan_in", "next_action"), Json::Null)));
    assert(members_view(m@) =~= start + compact_subagent_fan_in_members_1(jview(*task)));
}

/// Part 2 of `compact_subagent_fan_in_members`.
pub open spec fn compact_subagent_fan_in_members_2(task: JVal) -> Seq<(Seq<char>, JVal)> {
    seq![
        ("open_questions"@, or_else(jget_path(task, seq!["subagent_fan_in"@, "open_questions"@]), JVal::Array(Seq::empty()))),
        ("confidence"@, or_null(jget_path(task, seq!["subagent_fan_in"@, "confidence"@]))),
        ("risk"@, or_null(jget_path(task, seq!["subagent_fan_in"@, "risk"@]))),
        ("checks"@, or_else(jget_path(task, seq!["subagent_fan_in"@, "checks"@]), JVal::Array(Seq::empty()))),
        ("contract"@, or_else(jget_path(task, seq!["subagent_fan_in"@, "contract"@]), spec_default_fan_in_contract())),
    ]
}

fn push_compact_subagent_fan_in_members_2(m: &mut Vec<(String, Json)>, task: &Json)
    ensures
        members_view(final(m)@) == members_view(old(m)@) + compact_subagent_fan_in_members_2(jview(*task)),
{
    let ghost start = members_view(m@);
    m.push(member("open_questions", clone_or(at2(task, "subagent_fan_in", "open_questions"), jempty_array())));
    m.push(member("confidence", clone_or(at2(task, "subagent_fan_in", "confidence"), Json::Null)));
    m.push(member("risk", clone_or(at2(task, "subagent_fan_in", "risk"), Json::Null)));
    m.push(member("checks", clone_or(at2(task, "subagent_fan_in", "checks"), jempty_array())));
    m.push(member("contract", clone_or(at2(task, "subagent_fan_in", "contract"), default_fan_in_contract())));
    assert(members_view(m@) =~= start + compact_subagent_fan_in_members_2(jview(*task)));
}

/// Part 3 of `compact_subagent_fan_in_members`.
pub open spec fn compact_subagent_fan_in_members_3(task: JVal) -> Seq<(Seq<char>, JVal)> {
    seq![
        ("artifact_ref"@, spec_fan_in_artifact_ref(task)),
    ]
}

fn push_compact_subagent_fan_in_members_3(m: &mut Vec<(String, Json)>, task: &Json)
    ensures
        members_view(final(m)@) == members_view(old(m)@) + compact_subagent_fan_in_members_3(jview(*task)),
{
    let ghost start = members_view(m@);
    m.push(member("artifact_ref", fan_in_artifact_ref(task)));
    assert(members_view(m@) =~= start + compact_subagent_fan_in_members_3(jview(*task)));
}

/// The compact fan-in of the current task's subagent.
pub open spec fn compact_subagent_fan_in_members(task: JVal) -> Seq<(Seq<char>, JVal)> {
    compact_subagent_fan_in_members_1(task) + compact_subagent_fan_in_members_2(task) + compact_subagent_fan_in_members_3(task)
}

fn push_compact_subagent_fan_in_members(m: &mut Vec<(String, Json)>, task: &Json)
    ensures
        members_view(final(m)@) == members_view(old(m)@) + compact_subagent_fan_in_members(jview(*task)),
{
    let ghost start = members_view(m@);
    push_compact_subagent_fan_in_members_1(m, task);
    push_compact_subagent_fan_in_members_2(m, task);
    push_compact_subagent_fan_in_members_3(m, task);
    assert(members_view(m@) =~= start + compact_subagent_fan_in_members(jview(*task)));
}

/// The compact lifecycle of a lane.
pub open spec fn lane_lifecycle_members(lane: JVal) -> Seq<(Seq<char>, JVal)> {
    seq![
        ("status"@, or_null(jget_path(lane, seq!["lifecycle"@, "status"@]))),
        ("child_agent_id"@, or_null(jget_path(lane, seq!["lifecycle"@, "child_agent_id"@]))),
        ("thread_id"@, or_null(jget_path(lane, seq!["lifecycle"@, "thread_id"@]))),
        ("summary"@, or_null(jget_path(lane, seq!["lifecycle"@, "summary"@]))),
        ("updated_at"@, or_null(jget_path(lane, seq!["lifecycle"@, "updated_at"@]))),
    ]
}

fn push_lane_lifecycle_members(m: &mut Vec<(String, Json)>, lane: &Json)
    ensures
        members_view(final(m)@) == members_view(old(m)@) + lane_lifecycle_members(jview(*lane)),
{
    let ghost start = members_view(m@);
    m.push(member("status", clone_or(at2(lane, "lifecycle", "status"), Json::Null)));
    m.push(member("child_agent_id", clone_or(at2(lane, "lifecycle", "child_agent_id"), Json::Null)));
    m.push(member("thread_id", clone_or(at2(lane, "lifecycle", "thread_id"), Json::Null)));
    m.push(member("summary", clone_or(at2(lane, "lifecycle", "summary"), Json::Null)));
    m.push(member("updated_at", clone_or(at2(lane, "lifecycle", "updated_at"), Json::Null)));
    assert(members_view(m@) =~= start + lane_lifecycle_members(jview(*lane)));
}

/// A compact parallel lane, with its compacted fan-in.
pub open spec fn compact_lane_members(lane: JVal, fan_in: JVal) -> Seq<(Seq<char>, JVal)> {
    seq![
        ("lane_id"@, or_null(jget(lane, "lane_id"@))),
        ("required"@, or_else(jget(lane, "required"@), JVal::Bool(false))),
        ("scope"@, or_null(jget(lane, "scope"@))),
        ("lifecycle"@, JVal::Object(lane_lifecycle_members(lane))),
        ("fan_in"@, fan_in),
    ]
}

fn push_compact_lane_members(m: &mut Vec<(String, Json)>, lane: &Json, fan_in: Json)
    ensures
        members_view(final(m)@) == members_view(old(m)@) + compact_lane_members(jview(*lane), jview(fan_in)),
{
    let ghost start = members_view(m@);
    let ghost fan_in_view = jview(fan_in);
    m.push(member("lane_id", clone_or(get_ref(lane, "lane_id"), Json::Null)));
    m.push(member("required", clone_or(get_ref(lane, "required"), jbool(false))));
    m.push(member("scope", clone_or(get_ref(lane, "scope"), Json::Null)));
    m.push(member("lifecycle", lane_lifecycle(lane)));
    m.push(member("fan_in", fan_in));
    assert(members_view(m@) =~= start + compact_lane_members(jview(*lane), fan_in_view));
}

/// The compact parallel fan-out of the current task.
pub open spec fn compact_parallel_fanout_members(task: JVal, lanes: JVal) -> Seq<(Seq<char>, JVal)> {
    seq![
        ("mode"@, or_null(jget_path(task, seq!["parallel_fanout"@, "mode"@]))),
        ("summary"@, or_null(jget_path(task, seq!["parallel_fanout"@, "summary"@]))),
        ("required_lane_ids"@, spec_required_lane_ids(task)),
        ("aggregate"@, or_null(jget_path(task, seq!["parallel_fanout"@, "aggregate"@]))),
        ("lanes"@, lanes),
    ]
}

fn push_compact_parallel_fanout_members(m: &mut Vec<(String, Json)>, task: &Json, lanes: Json)
    ensures
        members_view(final(m)@) == members_view(old(m)@) + compact_parallel_fanout_members(jview(*task), jview(lanes)),
{
    let ghost start = members_view(m@);
    let ghost lanes_view = jview(lanes);
    m.push(member("mode", clone_or(at2(task, "parallel_fanout", "mode"), Json::Null)));
    m.push(member("summary", clone_or(at2(task, "parallel_fanout", "summary"), Json::Null)));
    m.push(member("required_lane_ids", required_lane_ids(task)));
    m.push(member("aggregate", clone_or(at2(task, "parallel_fanout", "aggregate"), Json::Null)));
    m.push(member("lanes", lanes));
    assert(members_view(m@) =~= start + compact_parallel_fanout_members(jview(*task), lanes_view));
}

/// Part 1 of `subagent_contract_members`.
pub open spec fn subagent_contract_members_1(plan: JVal) -> Seq<(Seq<char>, JVal)> {
    seq![
        ("mode"@, or_null(jget(plan, "preferred_execution_mode"@))),
        ("agent"@, or_null(jget(plan, "preferred_custom_agent_name"@))),
        ("file"@, or_null(jget(plan, "preferred_custom_agent_file"@))),
        ("model"@, or_null(jget(plan, "model"@))),
        ("effort"@, or_null(jget(plan, "variant"@))),
    ]
}

fn push_subagent_contract_members_1(m: &mut Vec<(String, Json)>, plan: &Json)
    ensures
        members_view(final(m)@) == members_view(old(m)@) + subagent_contract_members_1(jview(*plan)),
{
    let ghost start = members_view(m@);
    m.push(member("mode", clone_or(get_ref(plan, "preferred_execution_mode"), Json::Null)));
    m.push(member("agent", clone_or(get_ref(plan, "preferred_custom_agent_name"), Json::Null)));
    m.push(member("file", clone_or(get_ref(plan, "preferred_custom_agent_file"), Json::Null)));
    m.push(member("model", clone_or(get_ref(plan, "model"), Json::Null)));
    m.push(member("effort", clone_or(get_ref(plan, "variant"), Json::Null)));
    assert(members_view(m@) =~= start + subagent_contract_members_1(jview(*plan)));
}

/// Part 2 of `subagent_contract_members`.
pub open spec fn subagent_contract_members_2(plan: JVal) -> Seq<(Seq<char>, JVal)> {
    seq![
        ("sandbox"@, or_null(jget(plan, "sandbox_mode"@))),
        ("expertise_phrase"@, or_null(jget_path(plan, seq!["expertise_framing"@, "expertise_phrase"@]))),
        ("task_stance"@, or_null(jget_path(plan, seq!["expertise_framing"@, "task_stance"@]))),
        ("expected_thinking_mode"@, or_null(jget_path(plan, seq!["expertise_framing"@, "expected_thinking_mode"@]))),
        ("fresh_context"@, or_else(jget_path(plan, seq!["subagent_spawn_contract"@, "prefer_fresh_child_context"@]), JVal::Bool(true))),
    ]
}

fn push_subagent_contract_members_2(m: &mut Vec<(String, Json)>, plan: &Json)
    ensures
        members_view(final(m)@) == members_view(old(m)@) + subagent_contract_members_2(jview(*plan)),
{
    let ghost start = members_view(m@);
    m.push(member("sandbox", clone_or(get_ref(plan, "sandbox_mode"), Json::Null)));
    m.push(member("expertise_phrase", clone_or(at2(plan, "expertise_framing", "expertise_phrase"), Json::Null)));
    m.push(member("task_stance", clone_or(at2(plan, "expertise_framing", "task_stance"), Json::Null)));
    m.push(member("expected_thinking_mode", clone_or(at2(plan, "expertise_framing", "expected_thinking_mode"), Json::Null)));
    m.push(member("fresh_context", clone_or(at2(plan, "subagent_spawn_contract", "prefer_fresh_child_context"), jbool(true))));
    assert(members_view(m@) =~= start + subagent_contract_members_2(jview(*plan)));
}

/// Part 3 of `subagent_contract_members`.
pub open spec fn subagent_contract_members_3(plan: JVal) -> Seq<(Seq<char>, JVal)> {
    seq![
        ("omit_overrides"@, JVal::Bool(true)),
        ("update_via"@, or_else(jget_path(plan, seq!["subagent_update_contract"@, "transport"@]), JVal::Str("ccc_cli_subcommand"@))),
        ("fan_in_fields"@, or_else(jget_path(plan, seq!["fan_in_contract"@, "required_fields"@]), spec_fan_in_required_fields())),
    ]
}

fn push_subagent_contract_members_3(m: &mut Vec<(String, Json)>, plan: &Json)
    ensures
        members_view(final(m)@) == members_view(old(m)@) + subagent_contract_members_3(jview(*plan)),
{
    let ghost start = members_view(m@);
    m.push(member("omit_overrides", jbool(true)));
    m.push(member("update_via", clone_or(at2(plan, "subagent_update_contract", "transport"), jstr("ccc_cli_subcommand"))));
    m.push(member("fan_in_fields", clone_or(at2(plan, "fan_in_contract", "required_fields"), fan_in_required_fields())));
    assert(members_view(m@) =~= start + subagent_contract_members_3(jview(*plan)));
}

/// The subagent contract of a delegation plan.
pub open spec fn subagent_contract_members(plan: JVal) -> Seq<(Seq<char>, JVal)> {
    subagent_contract_members_1(plan) + subagent_contract_members_2(plan) + subagent_contract_members_3(plan)
}

fn push_subagent_contract_members(m: &mut Vec<(String, Json)>, plan: &Json)
    ensures
        members_view(final(m)@) == members_view(old(m)@) + subagent_contract_members(jview(*plan)),
{
    let ghost start = members_view(m@);
    push_subagent_contract_members_1(m, plan);
    push_subagent_contract_members_2(m, plan);
    push_subagent_contract_members_3(m, plan);
    assert(members_view(m@) =~= start + subagent_contract_members(jview(*plan)));
}

/// The launch visibility of the current task: its first required lane and the lanes when it fans out in parallel, and the fan-in it expects.
pub open spec fn launch_visibility_members(task: JVal, plan: JVal) -> Seq<(Seq<char>, JVal)> {
    seq![
        ("lane"@, spec_launch_lane(task)),
        ("lane_ids"@, spec_launch_lane_ids(task)),
        ("expected_fan_in"@, or_else(jget_path(plan, seq!["fan_in_contract"@, "required_fields"@]), spec_fan_in_required_fields())),
    ]
}

fn push_launch_visibility_members(m: &mut Vec<(String, Json)>, task: &Json, plan: &Json)
    ensures
        members_view(final(m)@) == members_view(old(m)@) + launch_visibility_members(jview(*task), jview(*plan)),
{
    let ghost start = members_view(m@);
    m.push(member("lane", launch_lane(task)));
    m.push(member("lane_ids", launch_lane_ids(task)));
    m.push(member("expected_fan_in", clone_or(at2(plan, "fan_in_contract", "required_fields"), fan_in_required_fields())));
    assert(members_view(m@) =~= start + launch_visibility_members(jview(*task), jview(*plan)));
}

/// Part 1 of `current_task_head_members`.
pub open spec fn current_task_head_members_1(payload: JVal, task: JVal, plan: JVal) -> Seq<(Seq<char>, JVal)> {
    seq![
        ("task_card_id"@, spec_compact_task_card_id(payload, task)),
        ("title"@, or_null(jget(task, "title"@))),
        ("task_kind"@, or_null(jget(task, "task_kind"@))),
        ("scope"@, or_null(jget(task, "scope"@))),
        ("review_of_task_card_ids"@, or_else(jget(task, "review_of_task_card_ids"@), JVal::Array(Seq::empty()))),
    ]
}

fn push_current_task_head_members_1(m: &mut Vec<(String, Json)>, payload: &Json, task: &Json, plan: &Json)
    ensures
        members_view(final(m)@) == members_view(old(m)@) + current_task_head_members_1(jview(*payload), jview(*task), jview(*plan)),
{
    let ghost start = members_view(m@);
    m.push(member("task_card_id", compact_task_card_id(payload, task)));
    m.push(member("title", clone_or(get_ref(task, "title"), Json::Null)));
    m.push(member("task_kind", clone_or(get_ref(task, "task_kind"), Json::Null)));
    m.push(member("scope", clone_or(get_ref(task, "scope"), Json::Null)));
    m.push(member("review_of_task_card_ids", clone_or(get_ref(task, "review_of_task_card_ids"), jempty_array())));
    assert(members_view(m@) =~= start + current_task_head_members_1(jview(*payload), jview(*task), jview(*plan)));
}

/// Part 2 of `current_task_head_members`.
pub open spec fn current_task_head_members_2(payload: JVal, task: JVal, plan: JVal) -> Seq<(Seq<char>, JVal)> {
    seq![
        ("orchestrator_review_gate"@, or_null(jget(task, "orchestrator_review_gate"@))),
        ("verification_state"@, or_null(jget(task, "verification_state"@))),
        ("review_pass_count"@, or_null(jget(task, "review_pass_count"@))),
        ("review_policy"@, or_null(jget(task, "review_policy"@))),
        ("completion_discipline"@, or_null(jget(task, "completion_discipline"@))),
    ]
}

fn push_current_task_head_members_2(m: &mut Vec<(String, Json)>, payload: &Json, task: &Json, plan: &Json)
    ensures
        members_view(final(m)@) == members_view(old(m)@) + current_task_head_members_2(jview(*payload), jview(*task), jview(*plan)),
{
    let ghost start = members_view(m@);
    m.push(member("orchestrator_review_gate", clone_or(get_ref(task, "orchestrator_review_gate"), Json::Null)));
    m.push(member("verification_state", clone_or(get_ref(task, "verification_state"), Json::Null)));
    m.push(member("review_pass_count", clone_or(get_ref(task, "review_pass_count"), Json::Null)));
    m.push(member("review_policy", clone_or(get_ref(task, "review_policy"), Json::Null)));
    m.push(member("completion_discipline", clone_or(get_ref(task, "completion_discipline"), Json::Null)));
    assert(members_view(m@) =~= start + current_task_head_members_2(jview(*payload), jview(*task), jview(*plan)));
}

/// Part 3 of `current_task_head_members`.
pub open spec fn current_task_head_members_3(payload: JVal, task: JVal, plan: JVal) -> Seq<(Seq<char>, JVal)> {
    seq![
        ("captain_intervention"@, or_null(jget(task, "captain_intervention"@))),
        ("sentinel_intervention"@, or_null(jget(task, "sentinel_intervention"@))),
        ("assigned_role"@, or_null(jget(task, "assigned_role"@))),
        ("assigned_agent_id"@, or_null(jget(task, "assigned_agent_id"@))),
        ("verification_capsule"@, or_null(jget(task, "verification_capsule"@))),
    ]
}

fn push_current_task_head_members_3(m: &mut Vec<(String, Json)>, payload: &Json, task: &Json, plan: &Json)
    ensures
        members_view(final(m)@) == members_view(old(m)@) + current_task_head_members_3(jview(*payload), jview(*task), jview(*plan)),
{
    let ghost start = members_view(m@);
    m.push(member("captain_intervention", clone_or(get_ref(task, "captain_intervention"), Json::Null)));
    m.push(member("sentinel_intervention", clone_or(get_ref(task, "sentinel_intervention"), Json::Null)));
    m.push(member("assigned_role", clone_or(get_ref(task, "assigned_role"), Json::Null)));
    m.push(member("assigned_agent_id", clone_or(get_ref(task, "assigned_agent_id"), Json::Null)));
    m.push(member("verification_capsule", clone_or(get_ref(task, "verification_capsule"), Json::Null)));
    assert(members_view(m@) =~= start + current_task_head_members_3(jview(*payload), jview(*task), jview(*plan)));
}

/// Part 4 of `current_task_head_members`.
pub open spec fn current_task_head_members_4(payload: JVal, task: JVal, plan: JVal) -> Seq<(Seq<char>, JVal)> {
    seq![
        ("delegated_ownership"@, or_null(jget(task, "delegated_ownership"@))),
        ("expertise_framing"@, spec_expertise_framing(task, plan)),
    ]
}

fn push_current_task_head_members_4(m: &mut Vec<(String, Json)>, payload: &Json, task: &Json, plan: &Json)
    ensures
        members_view(final(m)@) == members_view(old(m)@) + current_task_head_members_4(jview(*payload), jview(*task), jview(*plan)),
{
    let ghost start = members_view(m@);
    m.push(member("delegated_ownership", clone_or(get_ref(task, "delegated_ownership"), Json::Null)));
    m.push(member("expertise_framing", expertise_framing(task, plan)));
    assert(members_view(m@) =~= start + current_task_head_members_4(jview(*payload), jview(*task), jview(*plan)));
}

/// The first members of the compact current task card.
pub open spec fn current_task_head_members(payload: JVal, task: JVal, plan: JVal) -> Seq<(Seq<char>, JVal)> {
    current_task_head_members_1(payload, task, plan) + current_task_head_members_2(payload, task, plan) + current_task_head_members_3(payload, task, plan) + current_task_head_members_4(payload, task, plan)
}

fn push_current_task_head_members(m: &mut Vec<(String, Json)>, payload: &Json, task: &Json, plan: &Json)
    ensures
        members_view(final(m)@) == members_view(old(m)@) + current_task_head_members(jview(*payload), jview(*task), jview(*plan)),
{
    let ghost start = members_view(m@);
    push_current_task_head_members_1(m, payload, task, plan);
    push_current_task_head_members_2(m, payload, task, plan);
    push_current_task_head_members_3(m, payload, task, plan);
    push_current_task_head_members_4(m, payload, task, plan);
    assert(members_view(m@) =~= start + current_task_head_members(jview(*payload), jview(*task), jview(*plan)));
}

/// Part 1 of `current_task_tail_members`.
pub open spec fn current_task_tail_members_1(task: JVal, plan: JVal) -> Seq<(Seq<char>, JVal)> {
    seq![
        ("launch_visibility"@, JVal::Object(launch_visibility_members(task, plan))),
        ("spec_surfaces"@, or_null(jget(plan, "spec_surfaces"@))),
        ("verify_retry_recap_report_contract"@, or_else(jget(plan, "verify_retry_recap_report_contract"@), spec_verify_retry_recap_report_contract())),
        ("runtime_dispatch"@, or_null(jget(plan, "runtime_dispatch"@))),
        ("lane_artifact_contract"@, or_null(jget(plan, "lane_artifact_contract"@))),
    ]
}

fn push_current_task_tail_members_1(m: &mut Vec<(String, Json)>, task: &Json, plan: &Json)
    ensures
        members_view(final(m)@) == members_view(old(m)@) + current_task_tail_members_1(jview(*task), jview(*plan)),
{
    let ghost start = members_view(m@);
    m.push(member("launch_visibility", launch_visibility(task, plan)));
    m.push(member("spec_surfaces", clone_or(get_ref(plan, "spec_surfaces"), Json::Null)));
    m.push(member("verify_retry_recap_report_contract", clone_or(get_ref(plan, "verify_retry_recap_report_contract"), verify_retry_recap_report_contract())));
    m.push(member("runtime_dispatch", clone_or(get_ref(plan, "runtime_dispatch"), Json::Null)));
    m.push(member("lane_artifact_contract", clone_or(get_ref(plan, "lane_artifact_contract"), Json::Null)));
    assert(members_view(m@) =~= start + current_task_tail_members_1(jview(*task), jview(*plan)));
}

/// Part 2 of `current_task_tail_members`.
pub open spec fn current_task_tail_members_2(task: JVal, plan: JVal) -> Seq<(Seq<char>, JVal)> {
    seq![
        ("execution_prompt"@, or_null(jget(task, "execution_prompt"@))),
        ("subagent_lifecycle"@, or_null(jget(task, "subagent_lifecycle"@))),
        ("review_lifecycle"@, or_null(jget(task, "review_lifecycle"@))),
        ("subagent_fan_in"@, JVal::Object(compact_subagent_fan_in_members(task))),
        ("worker_result_envelope"@, spec_worker_result_envelope(task)),
    ]
}

fn push_current_task_tail_members_2(m: &mut Vec<(String, Json)>, task: &Json, plan: &Json)
    ensures
        members_view(final(m)@) == members_view(old(m)@) + current_task_tail_members_2(jview(*task), jview(*plan)),
{
    let ghost start = members_view(m@);
    m.push(member("execution_prompt", clone_or(get_ref(task, "execution_prompt"), Json::Null)));
    m.push(member("subagent_lifecycle", clone_or(get_ref(task, "subagent_lifecycle"), Json::Null)));
    m.push(member("review_lifecycle", clone_or(get_ref(task, "review_lifecycle"), Json::Null)));
    m.push(member("subagent_fan_in", compact_subagent_fan_in(task)));
    m.push(member("worker_result_envelope", worker_result_envelope(task)));
    assert(members_view(m@) =~= start + current_task_tail_members_2(jview(*task), jview(*plan)));
}

/// Part 3 of `current_task_tail_members`.
pub open spec fn current_task_tail_members_3(task: JVal, plan: JVal, parallel_fanout: JVal) -> Seq<(Seq<char>, JVal)> {
    seq![
        ("subagent_fan_in_artifact"@, or_null(jget(task, "subagent_fan_in_artifact"@))),
        ("late_subagent_output"@, or_null(jget(task, "late_subagent_output"@))),
        ("review_fan_in"@, or_null(jget(task, "review_fan_in"@))),
        ("parallel_fanout"@, parallel_fanout),
        ("subagent_fallback"@, or_null(jget(task, "subagent_fallback"@))),
    ]
}

fn push_current_task_tail_members_3(m: &mut Vec<(String, Json)>, task: &Json, plan: &Json, parallel_fanout: Json)
    ensures
        members_view(final(m)@) == members_view(old(m)@) + current_task_tail_members_3(jview(*task), jview(*plan), jview(parallel_fanout)),
{
    let ghost start = members_view(m@);
    let ghost parallel_fanout_view = jview(parallel_fanout);
    m.push(member("subagent_fan_in_artifact", clone_or(get_ref(task, "subagent_fan_in_artifact"), Json::Null)));
    m.push(member("late_subagent_output", clone_or(get_ref(task, "late_subagent_output"), Json::Null)));
    m.push(member("review_fan_in", clone_or(get_ref(task, "review_fan_in"), Json::Null)));
    m.push(member("parallel_fanout", parallel_fanout));
    m.push(member("subagent_fallback", clone_or(get_ref(task, "subagent_fallback"), Json::Null)));
    assert(members_view(m@) =~= start + current_task_tail_members_3(jview(*task), jview(*plan), parallel_fanout_view));
}

/// Part 4 of `current_task_tail_members`.
pub open spec fn current_task_tail_members_4(task: JVal, plan: JVal) -> Seq<(Seq<char>, JVal)> {
    seq![
        ("subagent_policy_drift"@, or_null(jget(task, "subagent_policy_drift"@))),
        ("route_enforcement_state"@, or_null(jget(task, "route_enforcement_state"@))),
        ("routing_trace"@, spec_task_routing_trace(task)),
        ("subagent_contract"@, JVal::Object(subagent_contract_members(plan))),
    ]
}

fn push_current_task_tail_members_4(m: &mut Vec<(String, Json)>, task: &Json, plan: &Json)
    ensures
        members_view(final(m)@) == members_view(old(m)@) + current_task_tail_members_4(jview(*task), jview(*plan)),
{
    let ghost start = members_view(m@);
    m.push(member("subagent_policy_drift", clone_or(get_ref(task, "subagent_policy_drift"), Json::Null)));
    m.push(member("route_enforcement_state", clone_or(get_ref(task, "route_enforcement_state"), Json::Null)));
    m.push(member("routing_trace", task_routing_trace(task)));
    m.push(member("subagent_contract", subagent_contract(plan)));
    assert(members_view(m@) =~= start + current_task_tail_members_4(jview(*task), jview(*plan)));
}

/// The remaining members of the compact current task card.
pub open spec fn current_task_tail_members(task: JVal, plan: JVal, parallel_fanout: JVal) -> Seq<(Seq<char>, JVal)> {
    current_task_tail_members_1(task, plan) + current_task_tail_members_2(task, plan) + current_task_tail_members_3(task, plan, parallel_fanout) + current_task_tail_members_4(task, plan)
}

fn push_current_task_tail_members(m: &mut Vec<(String, Json)>, task: &Json, plan: &Json, parallel_fanout: Json)
    ensures
        members_view(final(m)@) == members_view(old(m)@) + current_task_tail_members(jview(*task), jview(*plan), jview(parallel_fanout)),
{
    let ghost start = members_view(m@);
    let ghost parallel_fanout_view = jview(parallel_fanout);
    push_current_task_tail_members_1(m, task, plan);
    push_current_task_tail_members_2(m, task, plan);
    push_current_task_tail_members_3(m, task, plan, parallel_fanout);
    push_current_task_tail_members_4(m, task, plan);
    assert(members_view(m@) =~= start + current_task_tail_members(jview(*task), jview(*plan), parallel_fanout_view));
}

/// Part 1 of `compact_longway_members`.
pub open spec fn compact_longway_members_1(payload: JVal) -> Seq<(Seq<char>, JVal)> {
    seq![
        ("completed_phase_count"@, or_null(jget_path(payload, seq!["longway"@, "completed_phase_count"@]))),
        ("phase_count"@, or_null(jget_path(payload, seq!["longway"@, "phase_count"@]))),
        ("planned_row_count"@, or_null(jget_path(payload, seq!["longway"@, "planned_row_count"@]))),
        ("current_item"@, or_null(jget_path(payload, seq!["longway"@, "current_item"@]))),
        ("lifecycle_state"@, or_null(jget_path(payload, seq!["longway"@, "lifecycle_state"@]))),
    ]
}

fn push_compact_longway_members_1(m: &mut Vec<(String, Json)>, payload: &Json)
    ensures
        members_view(final(m)@) == members_view(old(m)@) + compact_longway_members_1(jview(*payload)),
{
    let ghost start = members_view(m@);
    m.push(member("completed_phase_count", clone_or(at2(payload, "longway", "completed_phase_count"), Json::Null)));
    m.push(member("phase_count", clone_or(at2(payload, "longway", "phase_count"), Json::Null)));
    m.push(member("planned_row_count", clone_or(at2(payload, "longway", "planned_row_count"), Json::Null)));
    m.push(member("current_item", clone_or(at2(payload, "longway", "current_item"), Json::Null)));
    m.push(member("lifecycle_state", clone_or(at2(payload, "longway", "lifecycle_state"), Json::Null)));
    assert(members_view(m@) =~= start + compact_longway_members_1(jview(*payload)));
}

/// Part 2 of `compact_longway_members`.
pub open spec fn compact_longway_members_2(payload: JVal) -> Seq<(Seq<char>, JVal)> {
    seq![
        ("sequence"@, or_null(jget_path(payload, seq!["longway"@, "sequence"@]))),
        ("approval_state"@, or_null(jget_path(payload, seq!["longway"@, "approval_state"@]))),
        ("planning_context"@, or_null(jget_path(payload, seq!["longway"@, "planning_context"@]))),
        ("way_clarification_request"@, or_null(jget_path(payload, seq!["longway"@, "way_clarification_request"@]))),
        ("phase_rows"@, or_else(jget_path(payload, seq!["longway"@, "phase_rows"@]), JVal::Array(Seq::empty()))),
    ]
}

fn push_compact_longway_members_2(m: &mut Vec<(String, Json)>, payload: &Json)
    ensures
        members_view(final(m)@) == members_view(old(m)@) + compact_longway_members_2(jview(*payload)),
{
    let ghost start = members_view(m@);
    m.push(member("sequence", clone_or(at2(payload, "longway", "sequence"), Json::Null)));
    m.push(member("approval_state", clone_or(at2(payload, "longway", "approval_state"), Json::Null)));
    m.push(member("planning_context", clone_or(at2(payload, "longway", "planning_context"), Json::Null)));
    m.push(member("way_clarification_request", clone_or(at2(payload, "longway", "way_clarification_request"), Json::Null)));
    m.push(member("phase_rows", clone_or(at2(payload, "longway", "phase_rows"), jempty_array())));
    assert(members_view(m@) =~= start + compact_longway_members_2(jview(*payload)));
}

/// Part 3 of `compact_longway_members`.
pub open spec fn compact_longway_members_3(payload: JVal) -> Seq<(Seq<char>, JVal)> {
    seq![
        ("planned_rows"@, or_else(jget_path(payload, seq!["longway"@, "planned_rows"@]), JVal::Array(Seq::empty()))),
    ]
}

fn push_compact_longway_members_3(m: &mut Vec<(String, Json)>, payload: &Json)
    ensures
        members_view(final(m)@) == members_view(old(m)@) + compact_longway_members_3(jview(*payload)),
{
    let ghost start = members_view(m@);
    m.push(member("planned_rows", clone_or(at2(payload, "longway", "planned_rows"), jempty_array())));
    assert(members_view(m@) =~= start + compact_longway_members_3(jview(*payload)));
}

/// The compact LongWay: its counts, current item, state and rows.
pub open spec fn compact_longway_members(payload: JVal) -> Seq<(Seq<char>, JVal)> {
    compact_longway_members_1(payload) + compact_longway_members_2(payload) + compact_longway_members_3(payload)
}

fn push_compact_longway_members(m: &mut Vec<(String, Json)>, payload: &Json)
    ensures
        members_view(final(m)@) == members_view(old(m)@) + compact_longway_members(jview(*payload)),
{
    let ghost start = members_view(m@);
    push_compact_longway_members_1(m, payload);
    push_compact_longway_members_2(m, payload);
    push_compact_longway_members_3(m, payload);
    assert(members_view(m@) =~= start + compact_longway_members(jview(*payload)));
}

/// Part 1 of `execution_strategy_members`.
pub open spec fn execution_strategy_members_1(payload: JVal) -> Seq<(Seq<char>, JVal)> {
    seq![
        ("preferred_specialist_execution_mode"@, or_null(jget_path(payload, seq!["execution_strategy"@, "preferred_specialist_execution_mode"@]))),
        ("fallback_specialist_execution_mode"@, or_null(jget_path(payload, seq!["execution_strategy"@, "fallback_specialist_execution_mode"@]))),
        ("host_subagent_update_mode"@, or_null(jget_path(payload, seq!["execution_strategy"@, "host_subagent_update_mode"@]))),
        ("operator_visible_transport"@, or_else(jget_path(payload, seq!["execution_strategy"@, "operator_visible_transport"@]), spec_default_operator_visible_transport())),
        ("codex_exec_fallback_allowed"@, or_null(jget_path(payload, seq!["execution_strategy"@, "codex_exec_fallback_allowed"@]))),
    ]
}

fn push_execution_strategy_members_1(m: &mut Vec<(String, Json)>, payload: &Json)
    ensures
        members_view(final(m)@) == members_view(old(m)@) + execution_strategy_members_1(jview(*payload)),
{
    let ghost start = members_view(m@);
    m.push(member("preferred_specialist_execution_mode", clone_or(at2(payload, "execution_strategy", "preferred_specialist_execution_mode"), Json::Null)));
    m.push(member("fallback_specialist_execution_mode", clone_or(at2(payload, "execution_strategy", "fallback_specialist_execution_mode"), Json::Null)));
    m.push(member("host_subagent_update_mode", clone_or(at2(payload, "execution_strategy", "host_subagent_update_mode"), Json::Null)));
    m.push(member("operator_visible_transport", clone_or(at2(payload, "execution_strategy", "operator_visible_transport"), default_operator_visible_transport())));
    m.push(member("codex_exec_fallback_allowed", clone_or(at2(payload, "execution_strategy", "codex_exec_fallback_allowed"), Json::Null)));
    assert(members_view(m@) =~= start + execution_strategy_members_1(jview(*payload)));
}

/// Part 2 of `execution_strategy_members`.
pub open spec fn execution_strategy_members_2(payload: JVal) -> Seq<(Seq<char>, JVal)> {
    seq![
        ("subagent_fallback_recorded"@, or_null(jget_path(payload, seq!["execution_strategy"@, "subagent_fallback_recorded"@]))),
        ("subagent_fallback_ready"@, or_null(jget_path(payload, seq!["execution_strategy"@, "subagent_fallback_ready"@]))),
    ]
}

fn push_execution_strategy_members_2(m: &mut Vec<(String, Json)>, payload: &Json)
    ensures
        members_view(final(m)@) == members_view(old(m)@) + execution_strategy_members_2(jview(*payload)),
{
    let ghost start = members_view(m@);
    m.push(member("subagent_fallback_recorded", clone_or(at2(payload, "execution_strategy", "subagent_fallback_recorded"), Json::Null)));
    m.push(member("subagent_fallback_ready", clone_or(at2(payload, "execution_strategy", "subagent_fallback_ready"), Json::Null)));
    assert(members_view(m@) =~= start + execution_strategy_members_2(jview(*payload)));
}

/// The compact execution strategy.
pub open spec fn execution_strategy_members(payload: JVal) -> Seq<(Seq<char>, JVal)> {
    execution_strategy_members_1(payload) + execution_strategy_members_2(payload)
}

fn push_execution_strategy_members(m: &mut Vec<(String, Json)>, payload: &Json)
    ensures
        members_view(final(m)@) == members_view(old(m)@) + execution_strategy_members(jview(*payload)),
{
    let ghost start = members_view(m@);
    push_execution_strategy_members_1(m, payload);
    push_execution_strategy_members_2(m, payload);
    assert(members_view(m@) =~= start + execution_strategy_members(jview(*payload)));
}

/// Part 1 of `status_head_members`.
pub open spec fn status_head_members_1(payload: JVal) -> Seq<(Seq<char>, JVal)> {
    seq![
        ("compact"@, JVal::Bool(true)),
        ("run_id"@, or_null(jget(payload, "run_id"@))),
        ("run_ref"@, or_null(jget(payload, "run_ref"@))),
        ("status"@, or_null(jget(payload, "status"@))),
        ("stage"@, or_null(jget(payload, "stage"@))),
    ]
}

fn push_status_head_members_1(m: &mut Vec<(String, Json)>, payload: &Json)
    ensures
        members_view(final(m)@) == members_view(old(m)@) + status_head_members_1(jview(*payload)),
{
    let ghost start = members_view(m@);
    m.push(member("compact", jbool(true)));
    m.push(member("run_id", clone_or(get_ref(payload, "run_id"), Json::Null)));
    m.push(member("run_ref", clone_or(get_ref(payload, "run_ref"), Json::Null)));
    m.push(member("status", clone_or(get_ref(payload, "status"), Json::Null)));
    m.push(member("stage", clone_or(get_ref(payload, "stage"), Json::Null)));
    assert(members_view(m@) =~= start + status_head_members_1(jview(*payload)));
}

/// Part 2 of `status_head_members`.
pub open spec fn status_head_members_2(payload: JVal) -> Seq<(Seq<char>, JVal)> {
    seq![
        ("sequence"@, or_null(jget(payload, "sequence"@))),
        ("approval_state"@, or_null(jget(payload, "approval_state"@))),
        ("next_step"@, or_null(jget(payload, "next_step"@))),
        ("can_advance"@, or_null(jget(payload, "can_advance"@))),
        ("run_truth_surface"@, or_null(jget(payload, "run_truth_surface"@))),
    ]
}

fn push_status_head_members_2(m: &mut Vec<(String, Json)>, payload: &Json)
    ensures
        members_view(final(m)@) == members_view(old(m)@) + status_head_members_2(jview(*payload)),
{
    let ghost start = members_view(m@);
    m.push(member("sequence", clone_or(get_ref(payload, "sequence"), Json::Null)));
    m.push(member("approval_state", clone_or(get_ref(payload, "approval_state"), Json::Null)));
    m.push(member("next_step", clone_or(get_ref(payload, "next_step"), Json::Null)));
    m.push(member("can_advance", clone_or(get_ref(payload, "can_advance"), Json::Null)));
    m.push(member("run_truth_surface", clone_or(get_ref(payload, "run_truth_surface"), Json::Null)));
    assert(members_view(m@) =~= start + status_head_members_2(jview(*payload)));
}

/// Part 3 of `status_head_members`.
pub open spec fn status_head_members_3(payload: JVal) -> Seq<(Seq<char>, JVal)> {
    seq![
        ("active_checkpoint"@, or_null(jget(payload, "active_checkpoint"@))),
        ("task_session_state"@, or_null(jget(payload, "task_session_state"@))),
        ("workflow_loop"@, or_null(jget(payload, "workflow_loop"@))),
        ("lifecycle_hooks"@, or_null(jget(payload, "lifecycle_hooks"@))),
        ("scheduler"@, spec_payload_scheduler(payload)),
    ]
}

fn push_status_head_members_3(m: &mut Vec<(String, Json)>, payload: &Json)
    ensures
        members_view(final(m)@) == members_view(old(m)@) + status_head_members_3(jview(*payload)),
{
    let ghost start = members_view(m@);
    m.push(member("active_checkpoint", clone_or(get_ref(payload, "active_checkpoint"), Json::Null)));
    m.push(member("task_session_state", clone_or(get_ref(payload, "task_session_state"), Json::Null)));
    m.push(member("workflow_loop", clone_or(get_ref(payload, "workflow_loop"), Json::Null)));
    m.push(member("lifecycle_hooks", clone_or(get_ref(payload, "lifecycle_hooks"), Json::Null)));
    m.push(member("scheduler", payload_scheduler(payload)));
    assert(members_view(m@) =~= start + status_head_members_3(jview(*payload)));
}

/// Part 4 of `status_head_members`.
pub open spec fn status_head_members_4(payload: JVal) -> Seq<(Seq<char>, JVal)> {
    seq![
        ("review_policy"@, or_null(jget(payload, "review_policy"@))),
        ("completion_discipline"@, or_null(jget(payload, "completion_discipline"@))),
    ]
}

fn push_status_head_members_4(m: &mut Vec<(String, Json)>, payload: &Json)
    ensures
        members_view(final(m)@) == members_view(old(m)@) + status_head_members_4(jview(*payload)),
{
    let ghost start = members_view(m@);
    m.push(member("review_policy", clone_or(get_ref(payload, "review_policy"), Json::Null)));
    m.push(member("completion_discipline", clone_or(get_ref(payload, "completion_discipline"), Json::Null)));
    assert(members_view(m@) =~= start + status_head_members_4(jview(*payload)));
}

/// The run members of the compact status.
pub open spec fn status_head_members(payload: JVal) -> Seq<(Seq<char>, JVal)> {
    status_head_members_1(payload) + status_head_members_2(payload) + status_head_members_3(payload) + status_head_members_4(payload)
}

fn push_status_head_members(m: &mut Vec<(String, Json)>, payload: &Json)
    ensures
        members_view(final(m)@) == members_view(old(m)@) + status_head_members(jview(*payload)),
{
    let ghost start = members_view(m@);
    push_status_head_members_1(m, payload);
    push_status_head_members_2(m, payload);
    push_status_head_members_3(m, payload);
    push_status_head_members_4(m, payload);
    assert(members_view(m@) =~= start + status_head_members(jview(*payload)));
}

/// Part 1 of `status_middle_members`.
pub open spec fn status_middle_members_1(payload: JVal) -> Seq<(Seq<char>, JVal)> {
    seq![
        ("longway"@, JVal::Object(compact_longway_members(payload))),
        ("graph_context"@, spec_compact_graph_context_readiness(payload)),
        ("code_graph"@, or_null(jget(payload, "code_graph"@))),
        ("memory"@, or_null(jget(payload, "memory"@))),
        ("registry_evidence"@, or_null(jget(payload, "registry_evidence"@))),
    ]
}

fn push_status_middle_members_1(m: &mut Vec<(String, Json)>, payload: &Json)
    ensures
        members_view(final(m)@) == members_view(old(m)@) + status_middle_members_1(jview(*payload)),
{
    let ghost start = members_view(m@);
    m.push(member("longway", compact_longway(payload)));
    m.push(member("graph_context", compact_graph_context_readiness(payload)));
    m.push(member("code_graph", clone_or(get_ref(payload, "code_graph"), Json::Null)));
    m.push(member("memory", clone_or(get_ref(payload, "memory"), Json::Null)));
    m.push(member("registry_evidence", clone_or(get_ref(payload, "registry_evidence"), Json::Null)));
    assert(members_view(m@) =~= start + status_middle_members_1(jview(*payload)));
}

/// Part 2 of `status_middle_members`.
pub open spec fn status_middle_members_2(payload: JVal, current_task_card: JVal) -> Seq<(Seq<char>, JVal)> {
    seq![
        ("current_task_card"@, current_task_card),
        ("execution_strategy"@, JVal::Object(execution_strategy_members(payload))),
        ("cost_routing"@, or_null(jget(payload, "cost_routing"@))),
        ("captain_action_contract"@, spec_compact_captain_action_contract(payload)),
        ("captain_direct_mutation_guard"@, or_null(jget(payload, "captain_direct_mutation_guard"@))),
    ]
}

fn push_status_middle_members_2(m: &mut Vec<(String, Json)>, payload: &Json, current_task_card: Json)
    ensures
        members_view(final(m)@) == members_view(old(m)@) + status_middle_members_2(jview(*payload), jview(current_task_card)),
{
    let ghost start = members_view(m@);
    let ghost current_task_card_view = jview(current_task_card);
    m.push(member("current_task_card", current_task_card));
    m.push(member("execution_strategy", execution_strategy(payload)));
    m.push(member("cost_routing", clone_or(get_ref(payload, "cost_routing"), Json::Null)));
    m.push(member("captain_action_contract", compact_captain_action_contract(payload)));
    m.push(member("captain_direct_mutation_guard", clone_or(get_ref(payload, "captain_direct_mutation_guard"), Json::Null)));
    assert(members_view(m@) =~= start + status_middle_members_2(jview(*payload), current_task_card_view));
}

/// Part 3 of `status_middle_members`.
pub open spec fn status_middle_members_3(payload: JVal) -> Seq<(Seq<char>, JVal)> {
    seq![
        ("operator_transport_contract"@, spec_operator_transport_contract()),
    ]
}

fn push_status_middle_members_3(m: &mut Vec<(String, Json)>, payload: &Json)
    ensures
        members_view(final(m)@) == members_view(old(m)@) + status_middle_members_3(jview(*payload)),
{
    let ghost start = members_view(m@);
    m.push(member("operator_transport_contract", operator_transport_contract()));
    assert(members_view(m@) =~= start + status_middle_members_3(jview(*payload)));
}

/// The LongWay, context, task, strategy and contract members of the compact status.
pub open spec fn status_middle_members(payload: JVal, current_task_card: JVal) -> Seq<(Seq<char>, JVal)> {
    status_middle_members_1(payload) + status_middle_members_2(payload, current_task_card) + status_middle_members_3(payload)
}

fn push_status_middle_members(m: &mut Vec<(String, Json)>, payload: &Json, current_task_card: Json)
    ensures
        members_view(final(m)@) == members_view(old(m)@) + status_middle_members(jview(*payload), jview(current_task_card)),
{
    let ghost start = members_view(m@);
    let ghost current_task_card_view = jview(current_task_card);
    push_status_middle_members_1(m, payload);
    push_status_middle_members_2(m, payload, current_task_card);
    push_status_middle_members_3(m, payload);
    assert(members_view(m@) =~= start + status_middle_members(jview(*payload), current_task_card_view));
}

/// Part 1 of `status_tail_members`.
pub open spec fn status_tail_members_1(payload: JVal) -> Seq<(Seq<char>, JVal)> {
    seq![
        ("host_subagent_state"@, or_null(jget(payload, "host_subagent_state"@))),
        ("recovery_lane"@, or_null(jget(payload, "recovery_lane"@))),
        ("latest_captain_intervention"@, or_null(jget(payload, "latest_captain_intervention"@))),
        ("latest_sentinel_intervention"@, or_null(jget(payload, "latest_sentinel_intervention"@))),
        ("pending_captain_follow_up"@, or_null(jget(payload, "pending_captain_follow_up"@))),
    ]
}

fn push_status_tail_members_1(m: &mut Vec<(String, Json)>, payload: &Json)
    ensures
        members_view(final(m)@) == members_view(old(m)@) + status_tail_members_1(jview(*payload)),
{
    let ghost start = members_view(m@);
    m.push(member("host_subagent_state", clone_or(get_ref(payload, "host_subagent_state"), Json::Null)));
    m.push(member("recovery_lane", clone_or(get_ref(payload, "recovery_lane"), Json::Null)));
    m.push(member("latest_captain_intervention", clone_or(get_ref(payload, "latest_captain_intervention"), Json::Null)));
    m.push(member("latest_sentinel_intervention", clone_or(get_ref(payload, "latest_sentinel_intervention"), Json::Null)));
    m.push(member("pending_captain_follow_up", clone_or(get_ref(payload, "pending_captain_follow_up"), Json::Null)));
    assert(members_view(m@) =~= start + status_tail_members_1(jview(*payload)));
}

/// Part 2 of `status_tail_members`.
pub open spec fn status_tail_members_2(payload: JVal) -> Seq<(Seq<char>, JVal)> {
    seq![
        ("latest_delegate_result"@, or_null(jget(payload, "latest_delegate_result"@))),
        ("token_usage"@, or_null(jget(payload, "token_usage"@))),
        ("token_usage_visibility"@, or_null(jget(payload, "token_usage_visibility"@))),
        ("long_session_mitigation"@, or_null(jget(payload, "long_session_mitigation"@))),
        ("context_health"@, or_null(jget(payload, "context_health"@))),
    ]
}

fn push_status_tail_members_2(m: &mut Vec<(String, Json)>, payload: &Json)
    ensures
        members_view(final(m)@) == members_view(old(m)@) + status_tail_members_2(jview(*payload)),
{
    let ghost start = members_view(m@);
    m.push(member("latest_delegate_result", clone_or(get_ref(payload, "latest_delegate_result"), Json::Null)));
    m.push(member("token_usage", clone_or(get_ref(payload, "token_usage"), Json::Null)));
    m.push(member("token_usage_visibility", clone_or(get_ref(payload, "token_usage_visibility"), Json::Null)));
    m.push(member("long_session_mitigation", clone_or(get_ref(payload, "long_session_mitigation"), Json::Null)));
    m.push(member("context_health", clone_or(get_ref(payload, "context_health"), Json::Null)));
    assert(members_view(m@) =~= start + status_tail_members_2(jview(*payload)));
}

/// Part 3 of `status_tail_members`.
pub open spec fn status_tail_members_3(payload: JVal, app_panel: JVal) -> Seq<(Seq<char>, JVal)> {
    seq![
        ("restart_handoff"@, or_null(jget(payload, "restart_handoff"@))),
        ("app_panel"@, app_panel),
        ("token_usage_status"@, or_null(jget_path(payload, seq!["token_usage_visibility"@, "status"@]))),
        ("token_usage_unavailable_reason"@, or_null(jget_path(payload, seq!["token_usage_visibility"@, "unavailable_reason"@]))),
        ("token_usage_unavailable_reason_code"@, or_null(jget_path(payload, seq!["token_usage_visibility"@, "unavailable_reason_code"@]))),
    ]
}

fn push_status_tail_members_3(m: &mut Vec<(String, Json)>, payload: &Json, app_panel: Json)
    ensures
        members_view(final(m)@) == members_view(old(m)@) + status_tail_members_3(jview(*payload), jview(app_panel)),
{
    let ghost start = members_view(m@);
    let ghost app_panel_view = jview(app_panel);
    m.push(member("restart_handoff", clone_or(get_ref(payload, "restart_handoff"), Json::Null)));
    m.push(member("app_panel", app_panel));
    m.push(member("token_usage_status", clone_or(at2(payload, "token_usage_visibility", "status"), Json::Null)));
    m.push(member("token_usage_unavailable_reason", clone_or(at2(payload, "token_usage_visibility", "unavailable_reason"), Json::Null)));
    m.push(member("token_usage_unavailable_reason_code", clone_or(at2(payload, "token_usage_visibility", "unavailable_reason_code"), Json::Null)));
    assert(members_view(m@) =~= start + status_tail_members_3(jview(*payload), app_panel_view));
}

/// Part 4 of `status_tail_members`.
pub open spec fn status_tail_members_4(payload: JVal, command_templates: JVal) -> Seq<(Seq<char>, JVal)> {
    seq![
        ("visibility_signature"@, or_null(jget(payload, "visibility_signature"@))),
        ("command_templates"@, command_templates),
    ]
}

fn push_status_tail_members_4(m: &mut Vec<(String, Json)>, payload: &Json, command_templates: Json)
    ensures
        members_view(final(m)@) == members_view(old(m)@) + status_tail_members_4(jview(*payload), jview(command_templates)),
{
    let ghost start = members_view(m@);
    let ghost command_templates_view = jview(command_templates);
    m.push(member("visibility_signature", clone_or(get_ref(payload, "visibility_signature"), Json::Null)));
    m.push(member("command_templates", command_templates));
    assert(members_view(m@) =~= start + status_tail_members_4(jview(*payload), command_templates_view));
}

/// The subagent, token, panel and command members of the compact status.
pub open spec fn status_tail_members(payload: JVal, app_panel: JVal, command_templates: JVal) -> Seq<(Seq<char>, JVal)> {
    status_tail_members_1(payload) + status_tail_members_2(payload) + status_tail_members_3(payload, app_panel) + status_tail_members_4(payload, command_templates)
}

fn push_status_tail_members(m: &mut Vec<(String, Json)>, payload: &Json, app_panel: Json, command_templates: Json)
    ensures
        members_view(final(m)@) == members_view(old(m)@) + status_tail_members(jview(*payload), jview(app_panel), jview(command_templates)),
{
    let ghost start = members_view(m@);
    let ghost app_panel_view = jview(app_panel);
    let ghost command_templates_view = jview(command_templates);
    push_status_tail_members_1(m, payload);
    push_status_tail_members_2(m, payload);
    push_status_tail_members_3(m, payload, app_panel);
    push_status_tail_members_4(m, payload, command_templates);
    assert(members_view(m@) =~= start + status_tail_members(jview(*payload), app_panel_view, command_templates_view));
}

/// Part 1 of `operator_transport_members`.
pub open spec fn operator_transport_members_1() -> Seq<(Seq<char>, JVal)> {
    seq![
        ("preferred"@, JVal::Str("ccc_cli_quiet_subcommand"@)),
        ("display_expectation"@, JVal::Str("ran"@)),
        ("avoid_for_lifecycle_mutations"@, JVal::Str("mcp_tool_call"@)),
        ("reason"@, JVal::Str("Use inline --json with compact CLI output for repeated CCC lifecycle updates; reserve MCP calls for app/structured inspection or when CLI is unavailable."@)),
        ("default_payload_transport"@, JVal::Str("inline_json"@)),
    ]
}

fn push_operator_transport_members_1(m: &mut Vec<(String, Json)>, )
    ensures
        members_view(final(m)@) == members_view(old(m)@) + operator_transport_members_1(),
{
    let ghost start = members_view(m@);
    m.push(member("preferred", jstr("ccc_cli_quiet_subcommand")));
    m.push(member("display_expectation", jstr("ran")));
    m.push(member("avoid_for_lifecycle_mutations", jstr("mcp_tool_call")));
    m.push(member("reason", jstr("Use inline --json with compact CLI output for repeated CCC lifecycle updates; reserve MCP calls for app/structured inspection or when CLI is unavailable.")));
    m.push(member("default_payload_transport", jstr("inline_json")));
    assert(members_view(m@) =~= start + operator_transport_members_1());
}

/// Part 2 of `operator_transport_members`.
pub open spec fn operator_transport_members_2() -> Seq<(Seq<char>, JVal)> {
    seq![
        ("longway_visibility"@, JVal::Str("Use CCC_LONGWAY_PROJECTION.md for normal progress visibility; refresh it with ccc status --projection --json '{...}' or ccc checklist --projection --json '{...}'."@)),
        ("commands"@, jstrs(seq!["ccc start --quiet --json '{...}'"@, "ccc orchestrate --quiet --json '{...}'"@, "ccc subagent-update --quiet --json '{...}'"@, "ccc memory --quiet --json '{...}'"@])),
    ]
}

fn push_operator_transport_members_2(m: &mut Vec<(String, Json)>, )
    ensures
        members_view(final(m)@) == members_view(old(m)@) + operator_transport_members_2(),
{
    let ghost start = members_view(m@);
    m.push(member("longway_visibility", jstr("Use CCC_LONGWAY_PROJECTION.md for normal progress visibility; refresh it with ccc status --projection --json '{...}' or ccc checklist --projection --json '{...}'.")));
    m.push(member("commands", lit_strs_1()));
    assert(members_view(m@) =~= start + operator_transport_members_2());
}

/// How operator-visible lifecycle updates are sent: quiet inline-JSON CLI subcommands rather than tool calls.
pub open spec fn operator_transport_members() -> Seq<(Seq<char>, JVal)> {
    operator_transport_members_1() + operator_transport_members_2()
}

fn push_operator_transport_members(m: &mut Vec<(String, Json)>, )
    ensures
        members_view(final(m)@) == members_view(old(m)@) + operator_transport_members(),
{
    let ghost start = members_view(m@);
    push_operator_transport_members_1(m, );
    push_operator_transport_members_2(m, );
    assert(members_view(m@) =~= start + operator_transport_members());
}

/// The preferred command shape of each lifecycle update.
pub open spec fn command_shape_members() -> Seq<(Seq<char>, JVal)> {
    seq![
        ("start"@, jstrs(seq!["ccc start --quiet --json '{...}'"@])),
        ("orchestrate"@, jstrs(seq!["ccc orchestrate --quiet --json '{...}'"@])),
        ("subagent_update"@, jstrs(seq!["ccc subagent-update --quiet --json '{...}'"@])),
        ("memory"@, jstrs(seq!["ccc memory --quiet --json '{...}'"@])),
        ("projection"@, jstrs(seq!["ccc status --projection --json '{...}'"@])),
    ]
}

fn push_command_shape_members(m: &mut Vec<(String, Json)>, )
    ensures
        members_view(final(m)@) == members_view(old(m)@) + command_shape_members(),
{
    let ghost start = members_view(m@);
    m.push(member("start", lit_strs_2()));
    m.push(member("orchestrate", lit_strs_3()));
    m.push(member("subagent_update", lit_strs_4()));
    m.push(member("memory", lit_strs_5()));
    m.push(member("projection", lit_strs_6()));
    assert(members_view(m@) =~= start + command_shape_members());
}

/// Part 1 of `operator_visible_transport_members`.
pub open spec fn operator_visible_transport_members_1() -> Seq<(Seq<char>, JVal)> {
    seq![
        ("preferred_transport"@, JVal::Str("ccc_cli_quiet_subcommand"@)),
        ("transcript_signal"@, JVal::Str("ran"@)),
        ("reason"@, JVal::Str("Operator-visible CCC lifecycle mutations should be recorded as quiet inline-JSON CLI subcommands instead of MCP tool calls."@)),
        ("lifecycle_mutations"@, jstrs(seq!["start"@, "orchestrate"@, "subagent-update"@, "memory"@])),
        ("default_payload_transport"@, JVal::Str("inline_json"@)),
    ]
}

fn push_operator_visible_transport_members_1(m: &mut Vec<(String, Json)>, )
    ensures
        members_view(final(m)@) == members_view(old(m)@) + operator_visible_transport_members_1(),
{
    let ghost start = members_view(m@);
    m.push(member("preferred_transport", jstr("ccc_cli_quiet_subcommand")));
    m.push(member("transcript_signal", jstr("ran")));
    m.push(member("reason", jstr("Operator-visible CCC lifecycle mutations should be recorded as quiet inline-JSON CLI subcommands instead of MCP tool calls.")));
    m.push(member("lifecycle_mutations", lit_strs_7()));
    m.push(member("default_payload_transport", jstr("inline_json")));
    assert(members_view(m@) =~= start + operator_visible_transport_members_1());
}

/// Part 2 of `operator_visible_transport_members`.
pub open spec fn operator_visible_transport_members_2() -> Seq<(Seq<char>, JVal)> {
    seq![
        ("longway_visibility"@, JVal::Str("Use CCC_LONGWAY_PROJECTION.md for normal progress visibility; refresh it with ccc status --projection --json '{...}' or ccc checklist --projection --json '{...}'."@)),
        ("preferred_command_shapes"@, JVal::Object(command_shape_members())),
        ("mcp_reserved_for"@, jstrs(seq!["app surfaces"@, "structured inspection"@, "CLI unavailable"@])),
    ]
}

fn push_operator_visible_transport_members_2(m: &mut Vec<(String, Json)>, )
    ensures
        members_view(final(m)@) == members_view(old(m)@) + operator_visible_transport_members_2(),
{
    let ghost start = members_view(m@);
    m.push(member("longway_visibility", jstr("Use CCC_LONGWAY_PROJECTION.md for normal progress visibility; refresh it with ccc status --projection --json '{...}' or ccc checklist --projection --json '{...}'.")));
    m.push(member("preferred_command_shapes", object_of_members_command_shape()));
    m.push(member("mcp_reserved_for", lit_strs_8()));
    assert(members_view(m@) =~= start + operator_visible_transport_members_2());
}

/// The default operator-visible transport of the execution strategy.
pub open spec fn operator_visible_transport_members() -> Seq<(Seq<char>, JVal)> {
    operator_visible_transport_members_1() + operator_visible_transport_members_2()
}

fn push_operator_visible_transport_members(m: &mut Vec<(String, Json)>, )
    ensures
        members_view(final(m)@) == members_view(old(m)@) + operator_visible_transport_members(),
{
    let ghost start = members_view(m@);
    push_operator_visible_transport_members_1(m, );
    push_operator_visible_transport_members_2(m, );
    assert(members_view(m@) =~= start + operator_visible_transport_members());
}

fn lit_strs_1() -> (r: Json)
    ensures
        jview(r) == jstrs(seq!["ccc start --quiet --json '{...}'"@, "ccc orchestrate --quiet --json '{...}'"@, "ccc subagent-update --quiet --json '{...}'"@, "ccc memory --quiet --json '{...}'"@]),
{
    let items = vec!["ccc start --quiet --json '{...}'", "ccc orchestrate --quiet --json '{...}'", "ccc subagent-update --quiet --json '{...}'", "ccc memory --quiet --json '{...}'"];
    let r = crate::json::jstr_array(&items);
    assert(items@.map_values(|s: &str| JVal::Str(s@)) =~= seq!["ccc start --quiet --json '{...}'"@, "ccc orchestrate --quiet --json '{...}'"@, "ccc subagent-update --quiet --json '{...}'"@, "ccc memory --quiet --json '{...}'"@].map_values(|s: Seq<char>| JVal::Str(s)));
    r
}

fn lit_strs_2() -> (r: Json)
    ensures
        jview(r) == jstrs(seq!["ccc start --quiet --json '{...}'"@]),
{
    let items = vec!["ccc start --quiet --json '{...}'"];
    let r = crate::json::jstr_array(&items);
    assert(items@.map_values(|s: &str| JVal::Str(s@)) =~= seq!["ccc start --quiet --json '{...}'"@].map_values(|s: Seq<char>| JVal::Str(s)));
    r
}

fn lit_strs_3() -> (r: Json)
    ensures
        jview(r) == jstrs(seq!["ccc orchestrate --quiet --json '{...}'"@]),
{
    let items = vec!["ccc orchestrate --quiet --json '{...}'"];
    let r = crate::json::jstr_array(&items);
    assert(items@.map_values(|s: &str| JVal::Str(s@)) =~= seq!["ccc orchestrate --quiet --json '{...}'"@].map_values(|s: Seq<char>| JVal::Str(s)));
    r
}

fn lit_strs_4() -> (r: Json)
    ensures
        jview(r) == jstrs(seq!["ccc subagent-update --quiet --json '{...}'"@]),
{
    let items = vec!["ccc subagent-update --quiet --json '{...}'"];
    let r = crate::json::jstr_array(&items);
    assert(items@.map_values(|s: &str| JVal::Str(s@)) =~= seq!["ccc subagent-update --quiet --json '{...}'"@].map_values(|s: Seq<char>| JVal::Str(s)));
    r
}

fn lit_strs_5() -> (r: Json)
    ensures
        jview(r) == jstrs(seq!["ccc memory --quiet --json '{...}'"@]),
{
    let items = vec!["ccc memory --quiet --json '{...}'"];
    let r = crate::json::jstr_array(&items);
    assert(items@.map_values(|s: &str| JVal::Str(s@)) =~= seq!["ccc memory --quiet --json '{...}'"@].map_values(|s: Seq<char>| JVal::Str(s)));
    r
}

fn lit_strs_6() -> (r: Json)
    ensures
        jview(r) == jstrs(seq!["ccc status --projection --json '{...}'"@]),
{
    let items = vec!["ccc status --projection --json '{...}'"];
    let r = crate::json::jstr_array(&items);
    assert(items@.map_values(|s: &str| JVal::Str(s@)) =~= seq!["ccc status --projection --json '{...}'"@].map_values(|s: Seq<char>| JVal::Str(s)));
    r
}

fn lit_strs_7() -> (r: Json)
    ensures
        jview(r) == jstrs(seq!["start"@, "orchestrate"@, "subagent-update"@, "memory"@]),
{
    let items = vec!["start", "orchestrate", "subagent-update", "memory"];
    let r = crate::json::jstr_array(&items);
    assert(items@.map_values(|s: &str| JVal::Str(s@)) =~= seq!["start"@, "orchestrate"@, "subagent-update"@, "memory"@].map_values(|s: Seq<char>| JVal::Str(s)));
    r
}

fn lit_strs_8() -> (r: Json)
    ensures
        jview(r) == jstrs(seq!["app surfaces"@, "structured inspection"@, "CLI unavailable"@]),
{
    let items = vec!["app surfaces", "structured inspection", "CLI unavailable"];
    let r = crate::json::jstr_array(&items);
    assert(items@.map_values(|s: &str| JVal::Str(s@)) =~= seq!["app surfaces"@, "structured inspection"@, "CLI unavailable"@].map_values(|s: Seq<char>| JVal::Str(s)));
    r
}

fn lane_lifecycle(lane: &Json) -> (r: Json)
    ensures
        jview(r) == JVal::Object(lane_lifecycle_members(jview(*lane))),
{
    let mut m: Vec<(String, Json)> = Vec::new();
    push_lane_lifecycle_members(&mut m, lane);
    assert(members_view(m@) =~= lane_lifecycle_members(jview(*lane)));
    object_of(m)
}

fn compact_subagent_fan_in(task: &Json) -> (r: Json)
    ensures
        jview(r) == JVal::Object(compact_subagent_fan_in_members(jview(*task))),
{
    let mut m: Vec<(String, Json)> = Vec::new();
    push_compact_subagent_fan_in_members(&mut m, task);
    assert(members_view(m@) =~= compact_subagent_fan_in_members(jview(*task)));
    object_of(m)
}

fn launch_visibility(task: &Json, plan: &Json) -> (r: Json)
    ensures
        jview(r) == JVal::Object(launch_visibility_members(jview(*task), jview(*plan))),
{
    let mut m: Vec<(String, Json)> = Vec::new();
    push_launch_visibility_members(&mut m, task, plan);
    assert(members_view(m@) =~= launch_visibility_members(jview(*task), jview(*plan)));
    object_of(m)
}

fn subagent_contract(plan: &Json) -> (r: Json)
    ensures
        jview(r) == JVal::Object(subagent_contract_members(jview(*plan))),
{
    let mut m: Vec<(String, Json)> = Vec::new();
    push_subagent_contract_members(&mut m, plan);
    assert(members_view(m@) =~= subagent_contract_members(jview(*plan)));
    object_of(m)
}

fn compact_longway(payload: &Json) -> (r: Json)
    ensures
        jview(r) == JVal::Object(compact_longway_members(jview(*payload))),
{
    let mut m: Vec<(String, Json)> = Vec::new();
    push_compact_longway_members(&mut m, payload);
    assert(members_view(m@) =~= compact_longway_members(jview(*payload)));
    object_of(m)
}

fn execution_strategy(payload: &Json) -> (r: Json)
    ensures
        jview(r) == JVal::Object(execution_strategy_members(jview(*payload))),
{
    let mut m: Vec<(String, Json)> = Vec::new();
    push_execution_strategy_members(&mut m, payload);
    assert(members_view(m@) =~= execution_strategy_members(jview(*payload)));
    object_of(m)
}

fn object_of_members_command_shape() -> (r: Json)
    ensures
        jview(r) == JVal::Object(command_shape_members()),
{
    let mut m: Vec<(String, Json)> = Vec::new();
    push_command_shape_members(&mut m);
    assert(members_view(m@) =~= command_shape_members());
    object_of(m)
}

/// The operator transport contract of the compact status.
pub open spec fn spec_operator_transport_contract() -> JVal {
    JVal::Object(operator_transport_members())
}

fn operator_transport_contract() -> (r: Json)
    ensures
        jview(r) == spec_operator_transport_contract(),
{
    let mut m: Vec<(String, Json)> = Vec::new();
    push_operator_transport_members(&mut m);
    assert(members_view(m@) =~= operator_transport_members());
    object_of(m)
}

/// The operator-visible transport an execution strategy has by default.
pub open spec fn spec_default_operator_visible_transport() -> JVal {
    JVal::Object(operator_visible_transport_members())
}

fn default_operator_visible_transport() -> (r: Json)
    ensures
        jview(r) == spec_default_operator_visible_transport(),
{
    let mut m: Vec<(String, Json)> = Vec::new();
    push_operator_visible_transport_members(&mut m);
    assert(members_view(m@) =~= operator_visible_transport_members());
    object_of(m)
}

/// The compacted fan-in of lane `i` (`null` when none is given).
pub open spec fn fan_in_at(fan_ins: Seq<JVal>, i: int) -> JVal {
    if 0 <= i < fan_ins.len() {
        fan_ins[i]
    } else {
        JVal::Null
    }
}

/// The compact lanes of the task's parallel fan-out.
pub open spec fn spec_compact_lanes(task: JVal, fan_ins: Seq<JVal>) -> Seq<JVal> {
    match jget_path(task, seq!["parallel_fanout"@, "lanes"@]) {
        Some(JVal::Array(ls)) => Seq::new(
            ls.len(),
            |i: int| JVal::Object(compact_lane_members(ls[i], fan_in_at(fan_ins, i))),
        ),
        _ => Seq::empty(),
    }
}

fn compact_lanes(task: &Json, lane_fan_ins: &Vec<Json>) -> (r: Vec<Json>)
    ensures
        jviews(r@) == spec_compact_lanes(jview(*task), jviews(lane_fan_ins@)),
{
    let mut out: Vec<Json> = Vec::new();
    match at2(task, "parallel_fanout", "lanes") {
        Some(Json::Array(ls)) => {
            proof {
                crate::json::lemma_array_view(*ls);
            }
            let ghost lv = jviews(ls@);
            let ghost fv = jviews(lane_fan_ins@);
            let ghost f = |i: int| JVal::Object(compact_lane_members(lv[i], fan_in_at(fv, i)));
            let mut i: usize = 0;
            while i < ls.len()
                invariant
                    i <= ls.len(),
                    lv == jviews(ls@),
                    fv == jviews(lane_fan_ins@),
                    f == (|i: int| JVal::Object(compact_lane_members(lv[i], fan_in_at(fv, i)))),
                    jviews(out@) == Seq::new(i as nat, f),
                decreases ls.len() - i,
            {
                let fan_in = if i < lane_fan_ins.len() {
                    lane_fan_ins[i].deep_clone()
                } else {
                    Json::Null
                };
                assert(jview(fan_in) == fan_in_at(fv, i as int));
                assert(lv[i as int] == jview(ls@[i as int]));
                let mut m: Vec<(String, Json)> = Vec::new();
                push_compact_lane_members(&mut m, &ls[i], fan_in);
                assert(members_view(m@) =~= compact_lane_members(lv[i as int], fan_in_at(fv, i as int)));
                let lane = object_of(m);
                let ghost before = jviews(out@);
                out.push(lane);
                assert(jviews(out@) =~= before.push(f(i as int)));
                assert(jviews(out@) =~= Seq::new((i + 1) as nat, f));
                i = i + 1;
            }
        },
        _ => {
            assert(jviews(out@) =~= Seq::<JVal>::empty());
        },
    }
    out
}

/// The compact parallel fan-out (`null` unless the task has one).
pub open spec fn spec_compact_parallel_fanout(task: JVal, fan_ins: Seq<JVal>) -> JVal {
    match jget(task, "parallel_fanout"@) {
        Some(v) => if v is Object {
            JVal::Object(compact_parallel_fanout_members(task, JVal::Array(spec_compact_lanes(task, fan_ins))))
        } else {
            JVal::Null
        },
        None => JVal::Null,
    }
}

fn compact_parallel_fanout(task: &Json, lane_fan_ins: &Vec<Json>) -> (r: Json)
    ensures
        jview(r) == spec_compact_parallel_fanout(jview(*task), jviews(lane_fan_ins@)),
{
    match get_ref(task, "parallel_fanout") {
        Some(v) => if v.is_object() {
            let lanes = crate::worker_fleet::array_of(compact_lanes(task, lane_fan_ins));
            let mut m: Vec<(String, Json)> = Vec::new();
            push_compact_parallel_fanout_members(&mut m, task, lanes);
            object_of(m)
        } else {
            Json::Null
        },
        None => Json::Null,
    }
}

/// The child agent of the current task: its subagent lifecycle's, else
/// its review lifecycle's, else the preferred child agent given.
pub open spec fn spec_compact_child_agent_id(task: JVal, preferred: Option<Seq<char>>) -> JVal {
    match jstr_at(task, seq!["subagent_lifecycle"@, "child_agent_id"@]) {
        Some(s) => JVal::Str(s),
        None => match jstr_at(task, seq!["review_lifecycle"@, "child_agent_id"@]) {
            Some(s) => JVal::Str(s),
            None => crate::json::jopt_str(preferred),
        },
    }
}

fn compact_child_agent_id(task: &Json, preferred: Option<&str>) -> (r: Json)
    ensures
        jview(r) == spec_compact_child_agent_id(jview(*task), crate::strings::opt_view(preferred)),
{
    let k1: [&str; 2] = ["subagent_lifecycle", "child_agent_id"];
    let k2: [&str; 2] = ["review_lifecycle", "child_agent_id"];
    assert(k1@.map_values(|k: &str| k@) =~= seq!["subagent_lifecycle"@, "child_agent_id"@]);
    assert(k2@.map_values(|k: &str| k@) =~= seq!["review_lifecycle"@, "child_agent_id"@]);
    match task.str_at(k1.as_slice()) {
        Some(s) => jstr(s),
        None => match task.str_at(k2.as_slice()) {
            Some(s) => jstr(s),
            None => crate::json::jopt(preferred),
        },
    }
}

/// The compact current task card.
pub open spec fn spec_compact_current_task_card(payload: JVal, task: JVal, plan: JVal, fan_ins: Seq<JVal>) -> JVal {
    JVal::Object(
        current_task_head_members(payload, task, plan) + current_task_tail_members(
            task,
            plan,
            spec_compact_parallel_fanout(task, fan_ins),
        ),
    )
}

fn compact_current_task_card(payload: &Json, task: &Json, plan: &Json, lane_fan_ins: &Vec<Json>) -> (r: Json)
    ensures
        jview(r) == spec_compact_current_task_card(jview(*payload), jview(*task), jview(*plan), jviews(lane_fan_ins@)),
{
    let mut m: Vec<(String, Json)> = Vec::new();
    push_current_task_head_members(&mut m, payload, task, plan);
    push_current_task_tail_members(&mut m, task, plan, compact_parallel_fanout(task, lane_fan_ins));
    object_of(m)
}

/// The run id as text (`<run_id>` unless it is a string).
pub open spec fn run_id_text(payload: JVal) -> Seq<char> {
    match jget(payload, "run_id"@) {
        Some(JVal::Str(s)) => s,
        _ => "<run_id>"@,
    }
}

/// The compact status of a payload. `shared_config` is the shared config
/// the app panel reads when the payload has none; `preferred_child_agent_id`
/// is the child agent named when the task's lifecycles name none;
/// `lane_fan_ins` holds the compacted fan-in of each parallel lane, in lane
/// order.
pub open spec fn spec_ccc_status_compact_payload(
    payload: JVal,
    shared_config: Option<JVal>,
    preferred_child_agent_id: Option<Seq<char>>,
    lane_fan_ins: Seq<JVal>,
) -> JVal {
    let task = or_null(jget(payload, "current_task_card"@));
    let plan = or_null(jget(task, "delegation_plan"@));
    let app_panel = match jget(payload, "app_panel"@) {
        Some(v) => v,
        None => crate::app_panel::spec_codex_app_panel(payload, shared_config),
    };
    let templates = spec_status_command_templates(
        payload,
        task,
        spec_operator_transport_contract(),
        run_id_text(payload),
        spec_compact_child_agent_id(task, preferred_child_agent_id),
        first_item(spec_required_lane_ids(task)),
        spec_required_lane_ids(task),
    );
    JVal::Object(
        status_head_members(payload) + status_middle_members(
            payload,
            spec_compact_current_task_card(payload, task, plan, lane_fan_ins),
        ) + status_tail_members(payload, app_panel, templates),
    )
}

pub fn create_ccc_status_compact_payload(
    payload: &Json,
    shared_config: Option<&Json>,
    preferred_child_agent_id: Option<&str>,
    lane_fan_ins: &Vec<Json>,
) -> (r: Json)
    ensures
        jview(r) == spec_ccc_status_compact_payload(
            jview(*payload),
            opt_jview_ref(shared_config),
            crate::strings::opt_view(preferred_child_agent_id),
            jviews(lane_fan_ins@),
        ),
{
    let null = Json::Null;
    let task: &Json = match get_ref(payload, "current_task_card") {
        Some(t) => t,
        None => &null,
    };
    let null2 = Json::Null;
    let plan: &Json = match get_ref(task, "delegation_plan") {
        Some(p) => p,
        None => &null2,
    };
    let run_id: &str = match get_ref(payload, "run_id") {
        Some(Json::Str(s)) => s.as_str(),
        _ => "<run_id>",
    };
    let current = compact_current_task_card(payload, task, plan, lane_fan_ins);
    let app_panel = match get_ref(payload, "app_panel") {
        Some(v) => v.deep_clone(),
        None => crate::app_panel::create_codex_app_panel_payload(payload, shared_config),
    };
    let required = required_lane_ids(task);
    let first = first_item_of(&required);
    let child = compact_child_agent_id(task, preferred_child_agent_id);
    let templates = create_status_command_templates_payload(
        payload,
        task,
        operator_transport_contract(),
        run_id,
        &child,
        first,
        required,
    );
    let mut m: Vec<(String, Json)> = Vec::new();
    push_status_head_members(&mut m, payload);
    push_status_middle_members(&mut m, payload, current);
    push_status_tail_members(&mut m, payload, app_panel, templates);
    object_of(m)
}

} // verus!
