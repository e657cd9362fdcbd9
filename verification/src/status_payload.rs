//! The full `ccc status` payload, assembled from the documents of a run
//! that the caller has read: the run record, orchestrator state, configs,
//! the current task card, LongWay, run state, worker and host subagent
//! state, token usage, and the views computed outside this library. The
//! run truth (next step, fan-in readiness, whether the run can advance) is
//! decided here, every derived view is computed from it, and the payload is
//! signed and given its cost routing and app panel.

use vstd::prelude::*;
use crate::app_panel::{at2, create_codex_app_panel_payload, spec_codex_app_panel};
use crate::captain_decision::{
    create_captain_action_contract, create_post_fan_in_captain_decision_payload, spec_captain_action_contract,
    spec_post_fan_in_payload,
};
use crate::cost_routing::{create_cost_routing_payload, spec_cost_routing};
use crate::json::{
    get_or, get_or_null, jbool, jget, jget_or, jget_or_null, jget_path, jinsert, jstr, jstr_field, jview, juint,
    member, members_view, object_of, opt_bool, opt_u64, JVal, Json,
};
use crate::operator_status::{create_visibility_signature, spec_ccc_status_operator_text};
use crate::roles::spec_normalize_execution_mode;
use crate::roles_config::{fallback_specialist_execution_mode, preferred_specialist_execution_mode};
use crate::run_checkpoint::{
    create_active_checkpoint_payload, create_context_health_payload, create_registry_evidence_status_payload,
    create_restart_handoff_payload, spec_active_checkpoint, spec_context_health, spec_registry_evidence_status,
    spec_restart_handoff,
};
use crate::run_health::{create_recovery_lane_payload, spec_recovery_lane};
use crate::scheduler_status::{
    create_scheduler_status_payload, create_state_contract_payload, spec_scheduler_status_payload, spec_state_contract,
};
use crate::signature::spec_visibility_signature;
use crate::status_truth::{
    create_ccc_status_truth_fallback_fields, create_operator_visible_transport_guidance,
    operator_language_from_run_record, spec_operator_language, spec_primary_or_fallback, spec_transport_guidance,
    CccStatusTruthFallbackFields,
};
use crate::strings::str_eq;
use crate::task_session::{create_task_session_state_payload, spec_session_evidence_count, spec_task_session_state};
use crate::token_usage::{create_token_usage_visibility_payload, spec_token_usage_visibility, u64_or_zero};
use crate::worker_events::opt_jview_ref;
use crate::worker_fleet::{create_reclaim_plan_payload, spec_reclaim_plan};
use crate::workflow_loop::{create_workflow_loop_payload, spec_workflow_loop};

verus! {

/// The documents of a run as the caller read them, with the views that
/// other components compute for the same run (host subagent state, long
/// session mitigation, the direct mutation guard, graph context, code
/// graph, memory, lifecycle hooks, the latest scheduler transition and the
/// server identity) and whether a subagent fallback is ready.
pub struct StatusDocuments {
    pub cwd: String,
    pub run_id: String,
    pub run_file: String,
    pub run_directory: String,
    pub run_ref: String,
    pub run_record: Json,
    pub orchestrator_state: Option<Json>,
    pub shared_config: Option<Json>,
    pub runtime_config: Json,
    pub current_task_card: Json,
    pub longway: Json,
    pub run_state: Json,
    pub worker_visibility: Json,
    pub token_usage: Json,
    pub latest_delegate_result: Json,
    pub host_subagent_state: Json,
    pub long_session_mitigation: Json,
    pub subagent_fallback_ready: bool,
    pub captain_direct_mutation_guard: Json,
    pub graph_context: Json,
    pub code_graph: Json,
    pub memory: Json,
    pub lifecycle_hooks: Json,
    pub latest_transition: Json,
    pub output: Json,
    pub output_verbosity: String,
    pub server_identity: Json,
    pub session_id: String,
    pub process_id: u32,
    pub started_at: String,
}

pub open spec fn opt_jview(o: Option<Json>) -> Option<JVal> {
    match o {
        Some(x) => Some(jview(x)),
        None => None,
    }
}

/// The orchestrator's decision: its `decision`, else its `current_decision`.
pub open spec fn spec_status_decision(d: StatusDocuments) -> Option<JVal> {
    match opt_jview(d.orchestrator_state) {
        Some(o) => match jget(o, "decision"@) {
            Some(v) => Some(v),
            None => jget(o, "current_decision"@),
        },
        None => None,
    }
}

/// The run state's next action: its command, else its action, else its
/// type, when that is a string.
pub open spec fn spec_run_state_step(run_state: JVal) -> Option<Seq<char>> {
    match jget(run_state, "next_action"@) {
        Some(a) => match jget(a, "command"@) {
            Some(v) => crate::json::jas_str(v),
            None => match jget(a, "action"@) {
                Some(v) => crate::json::jas_str(v),
                None => crate::json::opt_str(jget(a, "type"@)),
            },
        },
        None => None,
    }
}

/// The next step: the orchestrator decision's, else the run state's, else
/// `advance`.
pub open spec fn spec_status_next_step(d: StatusDocuments) -> Seq<char> {
    match match spec_status_decision(d) {
        Some(dec) => jstr_field(dec, "next_step"@),
        None => None,
    } {
        Some(s) => s,
        None => match spec_run_state_step(jview(d.run_state)) {
            Some(s) => s,
            None => "advance"@,
        },
    }
}

pub open spec fn spec_worker_total(d: StatusDocuments) -> int {
    u64_or_zero(jget(jview(d.worker_visibility), "total_worker_count"@))
}

pub open spec fn spec_worker_active(d: StatusDocuments) -> int {
    u64_or_zero(jget(jview(d.worker_visibility), "active_worker_count"@))
}

pub open spec fn spec_host_total(d: StatusDocuments) -> int {
    u64_or_zero(jget(jview(d.host_subagent_state), "total_subagent_count"@))
}

pub open spec fn spec_host_active(d: StatusDocuments) -> int {
    u64_or_zero(jget(jview(d.host_subagent_state), "active_subagent_count"@))
}

/// Fan-in is ready when the next step awaits it and either every worker
/// has finished or the host subagents report fan-in readiness.
pub open spec fn spec_status_fan_in_ready(d: StatusDocuments) -> bool {
    spec_status_next_step(d) == "await_fan_in"@ && ((spec_worker_total(d) > 0 && spec_worker_active(d) == 0)
        || opt_bool(jget(jview(d.host_subagent_state), "fan_in_ready"@)) == Some(true))
}

/// The run can advance when the orchestrator decision says so, the next
/// step is `advance`, or fan-in is ready.
pub open spec fn spec_status_can_advance(d: StatusDocuments) -> bool {
    (match spec_status_decision(d) {
        Some(dec) => opt_bool(jget(dec, "can_advance"@)) == Some(true),
        None => false,
    }) || spec_status_next_step(d) == "advance"@ || spec_status_fan_in_ready(d)
}

pub open spec fn spec_status_run_truth_surface(d: StatusDocuments) -> JVal {
    JVal::Object(
        seq![
            (
                "resume_action"@,
                JVal::Str(if spec_status_can_advance(d) { "advance"@ } else { spec_status_next_step(d) }),
            ),
            ("fan_in_ready"@, JVal::Bool(spec_status_fan_in_ready(d))),
            ("worker_total"@, JVal::Num(spec_worker_total(d))),
            ("worker_active"@, JVal::Num(spec_worker_active(d))),
            ("host_subagent_total"@, JVal::Num(spec_host_total(d))),
            ("host_subagent_active"@, JVal::Num(spec_host_active(d))),
        ],
    )
}

/// The run's id when the record names one, else the located run's.
pub open spec fn spec_status_run_id_text(d: StatusDocuments) -> Seq<char> {
    match jstr_field(jview(d.run_record), "run_id"@) {
        Some(s) => s,
        None => d.run_id@,
    }
}

pub open spec fn spec_status_post_fan_in(d: StatusDocuments) -> JVal {
    spec_post_fan_in_payload(
        jview(d.run_record),
        jview(d.longway),
        jview(d.current_task_card),
        jview(d.host_subagent_state),
        spec_status_next_step(d),
        spec_status_can_advance(d),
        spec_status_fan_in_ready(d),
        spec_worker_active(d) as u64,
        spec_host_active(d) as u64,
    )
}

pub open spec fn spec_status_action_contract(d: StatusDocuments) -> JVal {
    spec_captain_action_contract(jview(d.current_task_card), spec_status_post_fan_in(d))
}

pub open spec fn spec_status_state_contract(d: StatusDocuments) -> JVal {
    spec_state_contract(
        jview(d.current_task_card),
        spec_status_next_step(d),
        spec_status_can_advance(d),
        spec_status_action_contract(d),
        spec_status_post_fan_in(d),
    )
}

pub open spec fn spec_status_scheduler(d: StatusDocuments) -> JVal {
    spec_scheduler_status_payload(
        jview(d.run_record),
        jview(d.longway),
        jview(d.current_task_card),
        jview(d.host_subagent_state),
        spec_status_action_contract(d),
        spec_status_post_fan_in(d),
        spec_status_next_step(d),
        spec_status_can_advance(d),
        spec_status_fan_in_ready(d),
        jview(d.latest_transition),
    )
}

pub open spec fn spec_status_context_health(d: StatusDocuments) -> JVal {
    spec_context_health(
        spec_status_run_id_text(d),
        spec_status_next_step(d),
        spec_status_can_advance(d),
        jview(d.current_task_card),
        jview(d.longway),
        jview(d.host_subagent_state),
        jview(d.long_session_mitigation),
        spec_status_action_contract(d),
    )
}

pub open spec fn spec_status_restart_handoff(d: StatusDocuments) -> JVal {
    spec_restart_handoff(
        spec_status_run_id_text(d),
        d.run_ref@,
        jview(d.current_task_card),
        jview(d.longway),
        spec_status_context_health(d),
        jview(d.long_session_mitigation),
    )
}

pub open spec fn spec_status_active_checkpoint(d: StatusDocuments) -> JVal {
    spec_active_checkpoint(
        spec_status_run_id_text(d),
        jview(d.run_record),
        jview(d.current_task_card),
        spec_status_run_truth_surface(d),
        jview(d.host_subagent_state),
        spec_status_state_contract(d),
        spec_status_action_contract(d),
        spec_status_next_step(d),
    )
}

pub open spec fn spec_status_task_session_state(d: StatusDocuments) -> JVal {
    spec_task_session_state(
        d.session_id@,
        d.process_id,
        d.started_at@,
        jview(d.current_task_card),
        spec_status_state_contract(d),
        spec_recovery_lane(jview(d.host_subagent_state)),
    )
}

pub open spec fn spec_status_workflow_loop(d: StatusDocuments) -> JVal {
    spec_workflow_loop(
        jview(d.current_task_card),
        jview(d.longway),
        spec_status_task_session_state(d),
        spec_status_state_contract(d),
        spec_status_run_truth_surface(d),
    )
}

/// How specialists execute: the preferred and fallback modes, whether the
/// `codex exec` fallback is allowed (the fallback is `codex_exec` and
/// either subagents are not preferred, the task's plan has no subagent, or
/// a subagent fallback is ready), and the task's delegation plan.
pub open spec fn spec_status_execution_strategy(d: StatusDocuments) -> JVal {
    let rc = jview(d.runtime_config);
    let task = jview(d.current_task_card);
    let plan = jget_or(task, "delegation_plan"@, JVal::Null);
    let preferred = spec_normalize_execution_mode(
        jstr_field(rc, "preferred_specialist_execution_mode"@),
        "codex_subagent"@,
    );
    let fallback = spec_normalize_execution_mode(jstr_field(rc, "fallback_specialist_execution_mode"@), "codex_exec"@);
    let available = opt_bool(jget(plan, "subagent_available"@)) == Some(true);
    JVal::Object(
        seq![
            ("preferred_specialist_execution_mode"@, JVal::Str(preferred)),
            ("fallback_specialist_execution_mode"@, JVal::Str(fallback)),
            ("host_subagent_update_mode"@, JVal::Str("ccc_cli_subcommand"@)),
            ("operator_visible_transport"@, spec_transport_guidance()),
            (
                "codex_exec_fallback_allowed"@,
                JVal::Bool(
                    fallback == "codex_exec"@ && (preferred != "codex_subagent"@ || !available
                        || d.subagent_fallback_ready),
                ),
            ),
            (
                "subagent_fallback_recorded"@,
                JVal::Bool(
                    match jget(task, "subagent_fallback"@) {
                        Some(v) => v is Object,
                        None => false,
                    },
                ),
            ),
            ("subagent_fallback_ready"@, JVal::Bool(d.subagent_fallback_ready)),
            ("current_task_delegation_plan"@, plan),
        ],
    )
}

/// The run's mutation evidence gate, else the orchestrator state's, else
/// `null`.
pub open spec fn spec_mutation_evidence_gate(d: StatusDocuments) -> JVal {
    match jget(jview(d.run_record), "mutation_evidence_gate"@) {
        Some(v) => v,
        None => match opt_jview(d.orchestrator_state) {
            Some(o) => jget_or(o, "mutation_evidence_gate"@, JVal::Null),
            None => JVal::Null,
        },
    }
}

/// The captain's pending follow-up on the task when it is an object.
pub open spec fn spec_pending_follow_up(task: JVal) -> JVal {
    match jget_path(task, seq!["captain_intervention"@, "pending_follow_up"@]) {
        Some(v) => if v is Object { v } else { JVal::Null },
        None => JVal::Null,
    }
}

/// The length of an array value (0 for anything else).
pub open spec fn spec_array_len_or_zero(o: Option<JVal>) -> int {
    match o {
        Some(JVal::Array(items)) => items.len() as int,
        _ => 0,
    }
}

pub open spec fn spec_status_members_a(d: StatusDocuments) -> Seq<(Seq<char>, JVal)> {
    seq![
        ("cwd"@, JVal::Str(d.cwd@)),
        ("run_id"@, jget_or(jview(d.run_record), "run_id"@, JVal::Str(d.run_id@))),
        ("run_file"@, JVal::Str(d.run_file@)),
        ("run_directory"@, JVal::Str(d.run_directory@)),
        ("run_ref"@, JVal::Str(d.run_ref@)),
        ("goal"@, jget_or_null(jview(d.run_record), "goal"@)),
        ("operator_language"@, JVal::Str(spec_operator_language(jview(d.run_record)))),
        ("status"@, jget_or_null(jview(d.run_record), "status"@)),
        ("stage"@, jget_or_null(jview(d.run_record), "stage"@)),
        ("sequence"@, jget_or_null(jview(d.run_record), "sequence"@)),
        ("approval_state"@, jget_or_null(jview(d.run_record), "approval_state"@)),
        ("active_role"@, jget_or_null(jview(d.run_record), "active_role"@)),
        ("active_agent_id"@, jget_or_null(jview(d.run_record), "active_agent_id"@)),
        ("active_task_card_id"@, jget_or_null(jview(d.run_record), "active_task_card_id"@)),
        ("active_thread_id"@, jget_or_null(jview(d.run_record), "active_thread_id"@)),
        ("task_card_count"@, JVal::Num(spec_array_len_or_zero(jget(jview(d.run_record), "task_card_ids"@)))),
        ("latest_handoff_id"@, jget_or_null(jview(d.run_record), "latest_handoff_id"@)),
        ("latest_entry_trace"@, jget_or_null(jview(d.run_record), "latest_entry_trace"@)),
        ("way_clarification_request"@, spec_primary_or_fallback(jview(d.run_record), "way_clarification_request"@, jview(d.longway), "way_clarification_request"@)),
        ("prompt_refinement"@, spec_primary_or_fallback(jview(d.run_record), "prompt_refinement"@, jview(d.longway), "prompt_refinement"@)),
        ("review_policy"@, spec_primary_or_fallback(jview(d.current_task_card), "review_policy"@, jview(d.run_record), "review_policy"@)),
    ]
}

pub open spec fn spec_status_members_b(d: StatusDocuments) -> Seq<(Seq<char>, JVal)> {
    seq![
        ("completion_discipline"@, spec_primary_or_fallback(jview(d.current_task_card), "completion_discipline"@, jview(d.run_record), "completion_discipline"@)),
        ("latest_captain_intervention"@, spec_primary_or_fallback(jview(d.current_task_card), "captain_intervention"@, jview(d.run_record), "latest_captain_intervention"@)),
        ("latest_sentinel_intervention"@, spec_primary_or_fallback(jview(d.current_task_card), "sentinel_intervention"@, jview(d.run_record), "latest_sentinel_intervention"@)),
        ("pending_captain_follow_up"@, spec_pending_follow_up(jview(d.current_task_card))),
        ("child_agent_count"@, JVal::Num(spec_array_len_or_zero(jget(jview(d.run_record), "child_agents"@)))),
        ("specialist_executor_count"@, JVal::Num(spec_array_len_or_zero(jget(jview(d.run_record), "specialist_executors"@)))),
        ("created_at"@, jget_or_null(jview(d.run_record), "created_at"@)),
        ("updated_at"@, jget_or_null(jview(d.run_record), "updated_at"@)),
        ("completed_at"@, jget_or_null(jview(d.run_record), "completed_at"@)),
        ("current_task_card"@, jview(d.current_task_card)),
        ("longway"@, jview(d.longway)),
        ("run_state"@, jview(d.run_state)),
        ("next_step"@, JVal::Str(spec_status_next_step(d))),
        ("can_advance"@, JVal::Bool(spec_status_can_advance(d))),
        ("run_truth_surface"@, spec_status_run_truth_surface(d)),
        ("active_checkpoint"@, spec_status_active_checkpoint(d)),
        ("task_session_state"@, spec_status_task_session_state(d)),
        ("workflow_loop"@, spec_status_workflow_loop(d)),
        ("lifecycle_hooks"@, jview(d.lifecycle_hooks)),
        ("scheduler"@, spec_status_scheduler(d)),
        ("state_contract"@, spec_status_state_contract(d)),
    ]
}

pub open spec fn spec_status_members_c(d: StatusDocuments) -> Seq<(Seq<char>, JVal)> {
    seq![
        ("worker_visibility"@, jview(d.worker_visibility)),
        ("host_subagent_state"@, jview(d.host_subagent_state)),
        ("recovery_lane"@, spec_recovery_lane(jview(d.host_subagent_state))),
        ("reclaim_plan"@, spec_reclaim_plan(jview(d.worker_visibility), jview(d.runtime_config))),
        ("token_usage"@, jview(d.token_usage)),
        ("token_usage_visibility"@, spec_token_usage_visibility(jview(d.token_usage), jview(d.host_subagent_state))),
        ("long_session_mitigation"@, jview(d.long_session_mitigation)),
        ("context_health"@, spec_status_context_health(d)),
        ("restart_handoff"@, spec_status_restart_handoff(d)),
        ("latest_delegate_result"@, jview(d.latest_delegate_result)),
        ("graph_context"@, jview(d.graph_context)),
        ("code_graph"@, jview(d.code_graph)),
        ("memory"@, jview(d.memory)),
        ("registry_evidence"@, spec_registry_evidence_status(jview(d.current_task_card))),
        ("runtime_config"@, jview(d.runtime_config)),
        ("execution_strategy"@, spec_status_execution_strategy(d)),
        ("post_fan_in_captain_decision"@, spec_status_post_fan_in(d)),
        ("captain_action_contract"@, spec_status_action_contract(d)),
        ("captain_direct_mutation_guard"@, jview(d.captain_direct_mutation_guard)),
        ("mutation_evidence_gate"@, spec_mutation_evidence_gate(d)),
        ("output"@, jview(d.output)),
        ("output_verbosity"@, JVal::Str(d.output_verbosity@)),
        ("server_identity"@, jview(d.server_identity)),
    ]
}

fn push_status_members_a(m: &mut Vec<(String, Json)>, d: &StatusDocuments, p: &StatusParts)
    requires
        old(m)@.len() == 0,
        parts_match(*d, *p),
    ensures
        members_view(final(m)@) == spec_status_members_a(*d),
{
    m.push(member("cwd", jstr(d.cwd.as_str())));
    m.push(member("run_id", get_or(&d.run_record, "run_id", jstr(d.run_id.as_str()))));
    m.push(member("run_file", jstr(d.run_file.as_str())));
    m.push(member("run_directory", jstr(d.run_directory.as_str())));
    m.push(member("run_ref", jstr(d.run_ref.as_str())));
    m.push(member("goal", get_or_null(&d.run_record, "goal")));
    m.push(member("operator_language", jstr(operator_language_from_run_record(&d.run_record))));
    m.push(member("status", get_or_null(&d.run_record, "status")));
    m.push(member("stage", get_or_null(&d.run_record, "stage")));
    m.push(member("sequence", get_or_null(&d.run_record, "sequence")));
    m.push(member("approval_state", get_or_null(&d.run_record, "approval_state")));
    m.push(member("active_role", get_or_null(&d.run_record, "active_role")));
    m.push(member("active_agent_id", get_or_null(&d.run_record, "active_agent_id")));
    m.push(member("active_task_card_id", get_or_null(&d.run_record, "active_task_card_id")));
    m.push(member("active_thread_id", get_or_null(&d.run_record, "active_thread_id")));
    m.push(member("task_card_count", juint(array_len_or_zero(d.run_record.get("task_card_ids")))));
    m.push(member("latest_handoff_id", get_or_null(&d.run_record, "latest_handoff_id")));
    m.push(member("latest_entry_trace", get_or_null(&d.run_record, "latest_entry_trace")));
    m.push(member("way_clarification_request", p.truth.way_clarification_request.deep_clone()));
    m.push(member("prompt_refinement", p.truth.prompt_refinement.deep_clone()));
    m.push(member("review_policy", p.truth.review_policy.deep_clone()));
    proof {
        assert(members_view(m@) =~= spec_status_members_a(*d));
    }
}

fn push_status_members_b(m: &mut Vec<(String, Json)>, d: &StatusDocuments, p: &StatusParts)
    requires
        old(m)@.len() == 0,
        parts_match(*d, *p),
    ensures
        members_view(final(m)@) == spec_status_members_b(*d),
{
    m.push(member("completion_discipline", p.truth.completion_discipline.deep_clone()));
    m.push(member("latest_captain_intervention", p.truth.latest_captain_intervention.deep_clone()));
    m.push(member("latest_sentinel_intervention", p.truth.latest_sentinel_intervention.deep_clone()));
    m.push(member("pending_captain_follow_up", pending_follow_up(&d.current_task_card)));
    m.push(member("child_agent_count", juint(array_len_or_zero(d.run_record.get("child_agents")))));
    m.push(member("specialist_executor_count", juint(array_len_or_zero(d.run_record.get("specialist_executors")))));
    m.push(member("created_at", get_or_null(&d.run_record, "created_at")));
    m.push(member("updated_at", get_or_null(&d.run_record, "updated_at")));
    m.push(member("completed_at", get_or_null(&d.run_record, "completed_at")));
    m.push(member("current_task_card", d.current_task_card.deep_clone()));
    m.push(member("longway", d.longway.deep_clone()));
    m.push(member("run_state", d.run_state.deep_clone()));
    m.push(member("next_step", jstr(p.next_step.as_str())));
    m.push(member("can_advance", jbool(p.can_advance)));
    m.push(member("run_truth_surface", p.run_truth_surface.deep_clone()));
    m.push(member("active_checkpoint", p.active_checkpoint.deep_clone()));
    m.push(member("task_session_state", p.task_session_state.deep_clone()));
    m.push(member("workflow_loop", p.workflow_loop.deep_clone()));
    m.push(member("lifecycle_hooks", d.lifecycle_hooks.deep_clone()));
    m.push(member("scheduler", p.scheduler.deep_clone()));
    m.push(member("state_contract", p.state_contract.deep_clone()));
    proof {
        assert(members_view(m@) =~= spec_status_members_b(*d));
    }
}

fn push_status_members_c(m: &mut Vec<(String, Json)>, d: &StatusDocuments, p: &StatusParts)
    requires
        old(m)@.len() == 0,
        parts_match(*d, *p),
    ensures
        members_view(final(m)@) == spec_status_members_c(*d),
{
    m.push(member("worker_visibility", d.worker_visibility.deep_clone()));
    m.push(member("host_subagent_state", d.host_subagent_state.deep_clone()));
    m.push(member("recovery_lane", p.recovery_lane.deep_clone()));
    m.push(member("reclaim_plan", create_reclaim_plan_payload(&d.worker_visibility, &d.runtime_config)));
    m.push(member("token_usage", d.token_usage.deep_clone()));
    m.push(member("token_usage_visibility", create_token_usage_visibility_payload(&d.token_usage, &d.host_subagent_state)));
    m.push(member("long_session_mitigation", d.long_session_mitigation.deep_clone()));
    m.push(member("context_health", p.context_health.deep_clone()));
    m.push(member("restart_handoff", p.restart_handoff.deep_clone()));
    m.push(member("latest_delegate_result", d.latest_delegate_result.deep_clone()));
    m.push(member("graph_context", d.graph_context.deep_clone()));
    m.push(member("code_graph", d.code_graph.deep_clone()));
    m.push(member("memory", d.memory.deep_clone()));
    m.push(member("registry_evidence", create_registry_evidence_status_payload(&d.current_task_card)));
    m.push(member("runtime_config", d.runtime_config.deep_clone()));
    m.push(member("execution_strategy", p.execution_strategy.deep_clone()));
    m.push(member("post_fan_in_captain_decision", p.post_fan_in.deep_clone()));
    m.push(member("captain_action_contract", p.action_contract.deep_clone()));
    m.push(member("captain_direct_mutation_guard", d.captain_direct_mutation_guard.deep_clone()));
    m.push(member("mutation_evidence_gate", mutation_evidence_gate(d)));
    m.push(member("output", d.output.deep_clone()));
    m.push(member("output_verbosity", jstr(d.output_verbosity.as_str())));
    m.push(member("server_identity", d.server_identity.deep_clone()));
    proof {
        assert(members_view(m@) =~= spec_status_members_c(*d));
    }
}
/// The status payload's members, in order.
pub open spec fn spec_status_members(d: StatusDocuments) -> Seq<(Seq<char>, JVal)> {
    spec_status_members_a(d) + spec_status_members_b(d) + spec_status_members_c(d)
}

/// The status payload: its members, then its visibility signature (of its
/// operator text), then its cost routing and app panel, each computed from
/// the payload as it stands before it is added.
pub open spec fn spec_ccc_status_payload(d: StatusDocuments) -> JVal {
    let p0 = JVal::Object(spec_status_members(d));
    let p1 = jinsert(
        p0,
        "visibility_signature"@,
        JVal::Str(spec_visibility_signature(spec_ccc_status_operator_text(p0, jview(d.output)))),
    );
    let p2 = jinsert(p1, "cost_routing"@, spec_cost_routing(jview(d.runtime_config), p1, opt_jview(d.shared_config)));
    jinsert(p2, "app_panel"@, spec_codex_app_panel(p2, opt_jview(d.shared_config)))
}

/// The values derived from the documents on the way to the payload.
pub struct StatusParts {
    pub next_step: String,
    pub can_advance: bool,
    pub run_truth_surface: Json,
    pub post_fan_in: Json,
    pub action_contract: Json,
    pub state_contract: Json,
    pub recovery_lane: Json,
    pub scheduler: Json,
    pub context_health: Json,
    pub restart_handoff: Json,
    pub active_checkpoint: Json,
    pub task_session_state: Json,
    pub workflow_loop: Json,
    pub execution_strategy: Json,
    pub truth: CccStatusTruthFallbackFields,
}

pub open spec fn parts_match(d: StatusDocuments, p: StatusParts) -> bool {
    &&& p.next_step@ == spec_status_next_step(d)
    &&& p.can_advance == spec_status_can_advance(d)
    &&& jview(p.run_truth_surface) == spec_status_run_truth_surface(d)
    &&& jview(p.post_fan_in) == spec_status_post_fan_in(d)
    &&& jview(p.action_contract) == spec_status_action_contract(d)
    &&& jview(p.state_contract) == spec_status_state_contract(d)
    &&& jview(p.recovery_lane) == spec_recovery_lane(jview(d.host_subagent_state))
    &&& jview(p.scheduler) == spec_status_scheduler(d)
    &&& jview(p.context_health) == spec_status_context_health(d)
    &&& jview(p.restart_handoff) == spec_status_restart_handoff(d)
    &&& jview(p.active_checkpoint) == spec_status_active_checkpoint(d)
    &&& jview(p.task_session_state) == spec_status_task_session_state(d)
    &&& jview(p.workflow_loop) == spec_status_workflow_loop(d)
    &&& jview(p.execution_strategy) == spec_status_execution_strategy(d)
    &&& jview(p.truth.way_clarification_request) == spec_primary_or_fallback(
        jview(d.run_record),
        "way_clarification_request"@,
        jview(d.longway),
        "way_clarification_request"@,
    )
    &&& jview(p.truth.prompt_refinement) == spec_primary_or_fallback(
        jview(d.run_record),
        "prompt_refinement"@,
        jview(d.longway),
        "prompt_refinement"@,
    )
    &&& jview(p.truth.review_policy) == spec_primary_or_fallback(
        jview(d.current_task_card),
        "review_policy"@,
        jview(d.run_record),
        "review_policy"@,
    )
    &&& jview(p.truth.completion_discipline) == spec_primary_or_fallback(
        jview(d.current_task_card),
        "completion_discipline"@,
        jview(d.run_record),
        "completion_discipline"@,
    )
    &&& jview(p.truth.latest_captain_intervention) == spec_primary_or_fallback(
        jview(d.current_task_card),
        "captain_intervention"@,
        jview(d.run_record),
        "latest_captain_intervention"@,
    )
    &&& jview(p.truth.latest_sentinel_intervention) == spec_primary_or_fallback(
        jview(d.current_task_card),
        "sentinel_intervention"@,
        jview(d.run_record),
        "latest_sentinel_intervention"@,
    )
}

fn array_len_or_zero(o: Option<&Json>) -> (r: u64)
    ensures
        r as int == spec_array_len_or_zero(opt_jview_ref(o)),
{
    match o {
        Some(Json::Array(items)) => {
            proof {
                crate::json::lemma_array_view(*items);
            }
            items.len() as u64
        },
        _ => 0,
    }
}

fn pending_follow_up(task: &Json) -> (r: Json)
    ensures
        jview(r) == spec_pending_follow_up(jview(*task)),
{
    match at2(task, "captain_intervention", "pending_follow_up") {
        Some(v) => if v.is_object() { v.deep_clone() } else { Json::Null },
        None => Json::Null,
    }
}

fn mutation_evidence_gate(d: &StatusDocuments) -> (r: Json)
    ensures
        jview(r) == spec_mutation_evidence_gate(*d),
{
    match d.run_record.get("mutation_evidence_gate") {
        Some(v) => v.deep_clone(),
        None => match &d.orchestrator_state {
            Some(o) => get_or_null(o, "mutation_evidence_gate"),
            None => Json::Null,
        },
    }
}

fn status_decision(d: &StatusDocuments) -> (r: Option<&Json>)
    ensures
        opt_jview_ref(r) == spec_status_decision(*d),
{
    match &d.orchestrator_state {
        Some(o) => match o.get("decision") {
            Some(v) => Some(v),
            None => o.get("current_decision"),
        },
        None => None,
    }
}

fn run_state_step(run_state: &Json) -> (r: Option<&str>)
    ensures
        crate::strings::opt_view(r) == spec_run_state_step(jview(*run_state)),
{
    match run_state.get("next_action") {
        Some(a) => match a.get("command") {
            Some(v) => v.as_str(),
            None => match a.get("action") {
                Some(v) => v.as_str(),
                None => a.str_field("type"),
            },
        },
        None => None,
    }
}

fn status_next_step(d: &StatusDocuments) -> (r: String)
    ensures
        r@ == spec_status_next_step(*d),
{
    let from_decision = match status_decision(d) {
        Some(dec) => dec.str_field("next_step"),
        None => None,
    };
    proof {
        reveal_strlit("advance");
    }
    match from_decision {
        Some(s) => s.to_string(),
        None => match run_state_step(&d.run_state) {
            Some(s) => s.to_string(),
            None => "advance".to_string(),
        },
    }
}

fn u64_or_zero_of(j: &Json, key: &str) -> (r: u64)
    ensures
        r as int == u64_or_zero(jget(jview(*j), key@)),
{
    match j.u64_field(key) {
        Some(n) => n,
        None => 0,
    }
}

fn status_run_truth(d: &StatusDocuments) -> (r: (String, bool, bool, Json, u64, u64))
    ensures
        r.0@ == spec_status_next_step(*d),
        r.1 == spec_status_can_advance(*d),
        r.2 == spec_status_fan_in_ready(*d),
        jview(r.3) == spec_status_run_truth_surface(*d),
        r.4 as int == spec_worker_active(*d),
        r.5 as int == spec_host_active(*d),
{
    let next_step = status_next_step(d);
    let worker_total = u64_or_zero_of(&d.worker_visibility, "total_worker_count");
    let worker_active = u64_or_zero_of(&d.worker_visibility, "active_worker_count");
    let host_total = u64_or_zero_of(&d.host_subagent_state, "total_subagent_count");
    let host_active = u64_or_zero_of(&d.host_subagent_state, "active_subagent_count");
    let host_ready = match d.host_subagent_state.bool_field("fan_in_ready") {
        Some(b) => b,
        None => false,
    };
    proof {
        reveal_strlit("await_fan_in");
        reveal_strlit("advance");
    }
    let fan_in_ready = str_eq(next_step.as_str(), "await_fan_in") && ((worker_total > 0 && worker_active == 0)
        || host_ready);
    let decision_can_advance = match status_decision(d) {
        Some(dec) => match dec.bool_field("can_advance") {
            Some(b) => b,
            None => false,
        },
        None => false,
    };
    let can_advance = decision_can_advance || str_eq(next_step.as_str(), "advance") || fan_in_ready;
    let resume = if can_advance { jstr("advance") } else { jstr(next_step.as_str()) };
    let mut m: Vec<(String, Json)> = Vec::new();
    m.push(member("resume_action", resume));
    m.push(member("fan_in_ready", jbool(fan_in_ready)));
    m.push(member("worker_total", juint(worker_total)));
    m.push(member("worker_active", juint(worker_active)));
    m.push(member("host_subagent_total", juint(host_total)));
    m.push(member("host_subagent_active", juint(host_active)));
    proof {
        assert(members_view(m@) =~= spec_status_run_truth_surface(*d)->Object_0);
    }
    (next_step, can_advance, fan_in_ready, object_of(m), worker_active, host_active)
}

fn status_execution_strategy(d: &StatusDocuments) -> (r: Json)
    ensures
        jview(r) == spec_status_execution_strategy(*d),
{
    let preferred = preferred_specialist_execution_mode(&d.runtime_config);
    let fallback = fallback_specialist_execution_mode(&d.runtime_config);
    let plan = get_or_null(&d.current_task_card, "delegation_plan");
    let available = match plan.bool_field("subagent_available") {
        Some(b) => b,
        None => false,
    };
    proof {
        reveal_strlit("codex_exec");
        reveal_strlit("codex_subagent");
    }
    let allowed = str_eq(fallback.as_str(), "codex_exec") && (!str_eq(preferred.as_str(), "codex_subagent")
        || !available || d.subagent_fallback_ready);
    let recorded = match d.current_task_card.get("subagent_fallback") {
        Some(v) => v.is_object(),
        None => false,
    };
    let mut m: Vec<(String, Json)> = Vec::new();
    m.push(member("preferred_specialist_execution_mode", crate::json::jstring(preferred)));
    m.push(member("fallback_specialist_execution_mode", crate::json::jstring(fallback)));
    m.push(member("host_subagent_update_mode", jstr("ccc_cli_subcommand")));
    m.push(member("operator_visible_transport", create_operator_visible_transport_guidance()));
    m.push(member("codex_exec_fallback_allowed", jbool(allowed)));
    m.push(member("subagent_fallback_recorded", jbool(recorded)));
    m.push(member("subagent_fallback_ready", jbool(d.subagent_fallback_ready)));
    m.push(member("current_task_delegation_plan", plan));
    proof {
        assert(members_view(m@) =~= spec_status_execution_strategy(*d)->Object_0);
    }
    object_of(m)
}

fn status_run_id_text(d: &StatusDocuments) -> (r: &str)
    ensures
        r@ == spec_status_run_id_text(*d),
{
    match d.run_record.str_field("run_id") {
        Some(s) => s,
        None => d.run_id.as_str(),
    }
}

fn compute_status_parts(d: &StatusDocuments) -> (p: StatusParts)
    requires
        spec_session_evidence_count(jview(d.current_task_card)) <= usize::MAX,
    ensures
        parts_match(*d, p),
{
    let (next_step, can_advance, fan_in_ready, run_truth_surface, worker_active, host_active) = status_run_truth(d);
    let post_fan_in = create_post_fan_in_captain_decision_payload(
        &d.run_record,
        &d.longway,
        &d.current_task_card,
        &d.host_subagent_state,
        next_step.as_str(),
        can_advance,
        fan_in_ready,
        worker_active,
        host_active,
    );
    let action_contract = create_captain_action_contract(&d.current_task_card, &post_fan_in);
    let state_contract = create_state_contract_payload(
        &d.current_task_card,
        next_step.as_str(),
        can_advance,
        &action_contract,
        &post_fan_in,
    );
    let recovery_lane = create_recovery_lane_payload(&d.host_subagent_state);
    let scheduler = create_scheduler_status_payload(
        &d.run_record,
        &d.longway,
        &d.current_task_card,
        &d.host_subagent_state,
        &action_contract,
        &post_fan_in,
        next_step.as_str(),
        can_advance,
        fan_in_ready,
        d.latest_transition.deep_clone(),
    );
    let run_id = status_run_id_text(d);
    let context_health = create_context_health_payload(
        run_id,
        next_step.as_str(),
        can_advance,
        &d.current_task_card,
        &d.longway,
        &d.host_subagent_state,
        &d.long_session_mitigation,
        &action_contract,
    );
    let restart_handoff = create_restart_handoff_payload(
        run_id,
        d.run_ref.as_str(),
        &d.current_task_card,
        &d.longway,
        &context_health,
        &d.long_session_mitigation,
    );
    let active_checkpoint = create_active_checkpoint_payload(
        run_id,
        &d.run_record,
        &d.current_task_card,
        &run_truth_surface,
        &d.host_subagent_state,
        &state_contract,
        &action_contract,
        next_step.as_str(),
    );
    let task_session_state = create_task_session_state_payload(
        d.session_id.as_str(),
        d.process_id,
        d.started_at.as_str(),
        &d.current_task_card,
        &state_contract,
        &recovery_lane,
    );
    let workflow_loop = create_workflow_loop_payload(
        &d.current_task_card,
        &d.longway,
        &task_session_state,
        &state_contract,
        &run_truth_surface,
    );
    let execution_strategy = status_execution_strategy(d);
    let truth = create_ccc_status_truth_fallback_fields(&d.run_record, &d.current_task_card, &d.longway);
    StatusParts {
        next_step,
        can_advance,
        run_truth_surface,
        post_fan_in,
        action_contract,
        state_contract,
        recovery_lane,
        scheduler,
        context_health,
        restart_handoff,
        active_checkpoint,
        task_session_state,
        workflow_loop,
        execution_strategy,
        truth,
    }
}

/// The full status payload of a run from its documents (see
/// `spec_ccc_status_payload`). The task card's evidence count must fit the
/// machine's word.
pub fn create_ccc_status_payload_from_documents(d: &StatusDocuments) -> (r: Json)
    requires
        spec_session_evidence_count(jview(d.current_task_card)) <= usize::MAX,
    ensures
        jview(r) == spec_ccc_status_payload(*d),
{
    let p = compute_status_parts(d);
    let mut a: Vec<(String, Json)> = Vec::new();
    push_status_members_a(&mut a, d, &p);
    let mut b: Vec<(String, Json)> = Vec::new();
    push_status_members_b(&mut b, d, &p);
    let mut c: Vec<(String, Json)> = Vec::new();
    push_status_members_c(&mut c, d, &p);
    let ghost (va, vb, vc) = (a@, b@, c@);
    a.append(&mut b);
    a.append(&mut c);
    proof {
        assert(a@ =~= va + vb + vc);
        assert(members_view(va + vb + vc) =~= members_view(va) + members_view(vb) + members_view(vc));
    }
    let mut payload = object_of(a);
    let signature = create_visibility_signature(&payload, &d.output);
    payload.insert("visibility_signature", crate::json::jstring(signature));
    let shared = match &d.shared_config {
        Some(s) => Some(s),
        None => None,
    };
    let cost_routing = create_cost_routing_payload(&d.runtime_config, &payload, shared);
    payload.insert("cost_routing", cost_routing);
    let app_panel = create_codex_app_panel_payload(&payload, shared);
    payload.insert("app_panel", app_panel);
    payload
}

} // verus!
