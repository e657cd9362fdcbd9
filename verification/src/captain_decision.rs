//! The captain's next decision after fan-in, read from persisted run truth:
//! a fixed precedence of gates (terminal run, operator wait, LongWay
//! approval, review, recovery, mutation evidence, advance, fan-in wait,
//! dispatch) picks what the captain may and must do, and the captain action
//! contract is derived from that decision.

use vstd::prelude::*;
use crate::json::{
    get_or, jas_bool, jbool, jget, jget_or, jget_path, jopt, jopt_str, jstr, jstr_at, jstr_field,
    jstr_array, jview, juint, member, members_view, object_of, opt_bool, JVal, Json,
};
use crate::strings::{opt_str_is, opt_view, str_eq};

verus! {

/// The first of three optional texts that is present.
pub open spec fn first_of3(a: Option<Seq<char>>, b: Option<Seq<char>>, c: Option<Seq<char>>) -> Option<
    Seq<char>,
> {
    if a is Some {
        a
    } else if b is Some {
        b
    } else {
        c
    }
}

/// The text, or empty.
pub open spec fn or_empty(o: Option<Seq<char>>) -> Seq<char> {
    match o {
        Some(s) => s,
        None => ""@,
    }
}

/// The text, or `none`.
pub open spec fn or_none_text(o: Option<Seq<char>>) -> Seq<char> {
    match o {
        Some(s) => s,
        None => "none"@,
    }
}

fn str_or<'a>(o: Option<&'a str>, fallback: &'a str) -> (r: &'a str)
    ensures
        r@ == match opt_view(o) {
            Some(s) => s,
            None => fallback@,
        },
{
    match o {
        Some(s) => s,
        None => fallback,
    }
}

/// The review policy demands a captain decision.
pub open spec fn spec_review_policy_requires_captain_decision(policy: JVal) -> bool {
    jstr_field(policy, "state"@) == Some("captain_decision_required"@)
}

pub fn review_policy_requires_captain_decision(review_policy: &Json) -> (r: bool)
    ensures
        r == spec_review_policy_requires_captain_decision(jview(*review_policy)),
{
    opt_str_is(review_policy.str_field("state"), "captain_decision_required")
}

/// The review policy blocks direct captain action: not when its state says
/// the review is skipped, suppressed, passed, completed or resolved;
/// otherwise when its decision requires or recommends a review, or its state
/// says one is required, recommended, spawned, awaited, running or up to the
/// captain.
pub open spec fn spec_review_policy_blocks(policy: JVal) -> bool {
    let state = or_empty(jstr_field(policy, "state"@));
    let decision = or_empty(jstr_field(policy, "decision"@));
    if state == "skipped"@ || state == "suppressed"@ || state == "passed"@ || state == "completed"@
        || state == "resolved"@ {
        false
    } else {
        decision == "require"@ || decision == "required"@ || decision == "recommend_single"@
            || decision == "recommended"@ || state == "required"@ || state == "recommended"@ || state
            == "review_required"@ || state == "spawn_review"@ || state == "await_review"@ || state
            == "captain_decision_required"@ || state == "running"@
    }
}

pub fn review_policy_blocks_direct_captain_action(review_policy: &Json) -> (r: bool)
    ensures
        r == spec_review_policy_blocks(jview(*review_policy)),
{
    let state = str_or(review_policy.str_field("state"), "");
    if str_eq(state, "skipped") || str_eq(state, "suppressed") || str_eq(state, "passed") || str_eq(
        state,
        "completed",
    ) || str_eq(state, "resolved") {
        return false;
    }
    let decision = str_or(review_policy.str_field("decision"), "");
    str_eq(decision, "require") || str_eq(decision, "required") || str_eq(
        decision,
        "recommend_single",
    ) || str_eq(decision, "recommended") || str_eq(state, "required") || str_eq(state, "recommended")
        || str_eq(state, "review_required") || str_eq(state, "spawn_review") || str_eq(
        state,
        "await_review",
    ) || str_eq(state, "captain_decision_required") || str_eq(state, "running")
}

/// Direct captain output on a specialist-owned route awaits acceptance: the
/// drift record says the captain bypassed the specialist, or its acceptance
/// gate is required.
pub open spec fn spec_drift_requires_acceptance(task: JVal) -> bool {
    opt_bool(jget_path(task, seq!["subagent_policy_drift"@, "direct_captain_bypass"@])) == Some(true)
        || jstr_at(task, seq!["subagent_policy_drift"@, "acceptance_gate"@, "state"@]) == Some(
        "required"@,
    )
}

pub fn subagent_policy_drift_requires_acceptance(current_task_card: &Json) -> (r: bool)
    ensures
        r == spec_drift_requires_acceptance(jview(*current_task_card)),
{
    let bypass_keys: [&str; 2] = ["subagent_policy_drift", "direct_captain_bypass"];
    let gate_keys: [&str; 3] = ["subagent_policy_drift", "acceptance_gate", "state"];
    let bk = bypass_keys.as_slice();
    let gk = gate_keys.as_slice();
    assert(bk@.map_values(|k: &str| k@) =~= seq!["subagent_policy_drift"@, "direct_captain_bypass"@]);
    assert(gk@.map_values(|k: &str| k@) =~= seq![
        "subagent_policy_drift"@,
        "acceptance_gate"@,
        "state"@,
    ]);
    let bypass = match current_task_card.get_path(bk) {
        Some(v) => match v.as_bool() {
            Some(b) => b,
            None => false,
        },
        None => false,
    };
    bypass || opt_str_is(current_task_card.str_at(gk), "required")
}

/// The family of checks that the task's assigned role or agent falls under: planning for the
/// way role or tactician, mutation for code and docs roles or raider and
/// scribe, verification for the verifier role or arbiter and sentinel,
/// evidence otherwise.
pub open spec fn spec_role_gate_family(task: JVal) -> Seq<char> {
    let role = or_empty(jstr_field(task, "assigned_role"@));
    let agent = or_empty(jstr_field(task, "assigned_agent_id"@));
    if role == "way"@ || agent == "tactician"@ || agent == "ccc_tactician"@ {
        "planning"@
    } else if role == "code specialist"@ || role == "documenter"@ || agent == "raider"@ || agent
        == "ccc_raider"@ || agent == "scribe"@ || agent == "ccc_scribe"@ {
        "mutation"@
    } else if role == "verifier"@ || agent == "arbiter"@ || agent == "ccc_arbiter"@ || agent
        == "sentinel"@ || agent == "ccc_sentinel"@ {
        "verification"@
    } else {
        "evidence"@
    }
}

pub fn role_gate_family(current_task_card: &Json) -> (r: &'static str)
    ensures
        r@ == spec_role_gate_family(jview(*current_task_card)),
{
    let role = str_or(current_task_card.str_field("assigned_role"), "");
    let agent = str_or(current_task_card.str_field("assigned_agent_id"), "");
    if str_eq(role, "way") || str_eq(agent, "tactician") || str_eq(agent, "ccc_tactician") {
        "planning"
    } else if str_eq(role, "code specialist") || str_eq(role, "documenter") || str_eq(agent, "raider")
        || str_eq(agent, "ccc_raider") || str_eq(agent, "scribe") || str_eq(agent, "ccc_scribe") {
        "mutation"
    } else if str_eq(role, "verifier") || str_eq(agent, "arbiter") || str_eq(agent, "ccc_arbiter")
        || str_eq(agent, "sentinel") || str_eq(agent, "ccc_sentinel") {
        "verification"
    } else {
        "evidence"
    }
}

/// The run's status: its `status` member, or the record itself when it is a
/// string.
pub open spec fn spec_run_status(run_record: JVal) -> Option<Seq<char>> {
    match jstr_field(run_record, "status"@) {
        Some(s) => Some(s),
        None => match run_record {
            JVal::Str(s) => Some(s),
            _ => None,
        },
    }
}

/// The run is over: its status is completed, failed, cancelled or blocked,
/// or the next step halts it.
pub open spec fn spec_run_is_terminal(run_status: Option<Seq<char>>, next_step: Seq<char>) -> bool {
    run_status == Some("completed"@) || run_status == Some("failed"@) || run_status == Some(
        "cancelled"@,
    ) || run_status == Some("blocked"@) || next_step == "halt_completed"@ || next_step
        == "halt_failed"@ || next_step == "halt_cancelled"@
}

/// The approval state of the LongWay, else of the task card, else empty.
pub open spec fn spec_approval_state(longway: JVal, task: JVal) -> Seq<char> {
    or_empty(
        first_of3(jstr_field(longway, "approval_state"@), jstr_field(task, "approval_state"@), None),
    )
}

/// The review outcome: the fan-in's outcome, else its status, else the
/// review lifecycle's status, else empty.
pub open spec fn spec_review_outcome(task: JVal) -> Seq<char> {
    or_empty(
        first_of3(
            jstr_at(task, seq!["review_fan_in"@, "outcome"@]),
            jstr_at(task, seq!["review_fan_in"@, "status"@]),
            jstr_at(task, seq!["review_lifecycle"@, "status"@]),
        ),
    )
}

/// The review's next action: the captain's next decision, else the fan-in's
/// next action, else empty.
pub open spec fn spec_review_next_action(task: JVal) -> Seq<char> {
    or_empty(
        first_of3(
            jstr_at(task, seq!["review_fan_in"@, "captain_next_decision"@]),
            jstr_at(task, seq!["review_fan_in"@, "next_action"@]),
            None,
        ),
    )
}

/// The recommended recovery action for host subagents, or `none`.
pub open spec fn spec_recovery_action(host: JVal) -> Seq<char> {
    or_none_text(jstr_at(host, seq!["recovery_recommendation"@, "recommended_action"@]))
}

/// The recommended reclaim/replan action for host subagents, or `none`.
pub open spec fn spec_reclaim_action(host: JVal) -> Seq<char> {
    or_none_text(jstr_at(host, seq!["reclaim_replan_recommendation"@, "recommended_action"@]))
}

/// The evidence-before-mutation gate (the run's, else the task card's) is
/// blocked.
pub open spec fn spec_mutation_evidence_blocked(run_record: JVal, task: JVal) -> bool {
    let gate = match jget(run_record, "mutation_evidence_gate"@) {
        Some(g) => Some(g),
        None => jget(task, "mutation_evidence_gate"@),
    };
    match gate {
        Some(g) => opt_bool(jget(g, "blocked"@)) == Some(true),
        None => false,
    }
}

/// Which gate decides the captain's next move.
pub enum CaptainDecisionKind {
    Terminal,
    AwaitOperator,
    LongwayApproval,
    ReviewPassCap,
    ReviewNeedsWork,
    DriftAcceptance,
    ReviewRequired,
    ReclaimStalled,
    RecoverTerminal,
    ReclaimRecommended,
    MutationEvidenceBlocked,
    Advance,
    AwaitFanIn,
    Dispatch,
    Checkpoint,
}

/// The deciding gate, in precedence order: a terminal run; an operator wait;
/// a pending LongWay approval; a review that needs the captain; a review
/// that needs work; unaccepted captain drift; an active review policy; a
/// stalled subagent to reclaim; a failed one to retry or reassign; a visible
/// reclaim/replan recommendation; a blocked mutation evidence gate; a run
/// ready to advance; specialists still at work; a task to dispatch; else a
/// checkpoint.
pub open spec fn spec_decision_kind(
    run_record: JVal,
    longway: JVal,
    task: JVal,
    host: JVal,
    next_step: Seq<char>,
    can_advance: bool,
    fan_in_ready: bool,
    worker_active: u64,
    host_subagent_active: u64,
) -> CaptainDecisionKind {
    let policy = jget(task, "review_policy"@);
    let review_outcome = spec_review_outcome(task);
    let review_next = spec_review_next_action(task);
    let recovery = spec_recovery_action(host);
    let reclaim = spec_reclaim_action(host);
    if spec_run_is_terminal(spec_run_status(run_record), next_step) {
        CaptainDecisionKind::Terminal
    } else if next_step == "await_operator"@ {
        CaptainDecisionKind::AwaitOperator
    } else if next_step == "await_longway_approval"@ || spec_approval_state(longway, task)
        == "pending_longway_approval"@ {
        CaptainDecisionKind::LongwayApproval
    } else if policy matches Some(p) && spec_review_policy_requires_captain_decision(p) {
        CaptainDecisionKind::ReviewPassCap
    } else if review_outcome == "needs_work"@ || review_outcome == "failed"@ || review_outcome
        == "unsatisfactory"@ || review_outcome == "blocked"@ || review_next == "captain_repair"@
        || review_next == "captain_replan"@ || review_next == "captain_request_operator_input"@ {
        CaptainDecisionKind::ReviewNeedsWork
    } else if spec_drift_requires_acceptance(task) {
        CaptainDecisionKind::DriftAcceptance
    } else if policy matches Some(p) && spec_review_policy_blocks(p) {
        CaptainDecisionKind::ReviewRequired
    } else if recovery == "reclaim"@ {
        CaptainDecisionKind::ReclaimStalled
    } else if recovery == "retry"@ || recovery == "reassign"@ {
        CaptainDecisionKind::RecoverTerminal
    } else if reclaim == "reclaim_or_replan"@ || reclaim == "await_fan_in_or_replan"@ {
        CaptainDecisionKind::ReclaimRecommended
    } else if spec_mutation_evidence_blocked(run_record, task) {
        CaptainDecisionKind::MutationEvidenceBlocked
    } else if fan_in_ready || can_advance || next_step == "advance"@ {
        CaptainDecisionKind::Advance
    } else if next_step == "await_fan_in"@ || worker_active > 0 || host_subagent_active > 0 {
        CaptainDecisionKind::AwaitFanIn
    } else if next_step == "execute_task"@ || jget(task, "delegation_plan"@) matches Some(
        JVal::Object(_),
    ) {
        CaptainDecisionKind::Dispatch
    } else {
        CaptainDecisionKind::Checkpoint
    }
}

fn first_str_at<'a>(j: &'a Json, a: &str, b: &str) -> (r: Option<&'a str>)
    ensures
        opt_view(r) == jstr_at(jview(*j), seq![a@, b@]),
{
    let keys: [&str; 2] = [a, b];
    let ks = keys.as_slice();
    assert(ks@.map_values(|k: &str| k@) =~= seq![a@, b@]);
    j.str_at(ks)
}

fn run_status_of(run_record: &Json) -> (r: Option<&str>)
    ensures
        opt_view(r) == spec_run_status(jview(*run_record)),
{
    match run_record.str_field("status") {
        Some(s) => Some(s),
        None => run_record.as_str(),
    }
}

fn approval_state_of<'a>(longway: &'a Json, task: &'a Json) -> (r: &'a str)
    ensures
        r@ == spec_approval_state(jview(*longway), jview(*task)),
{
    match longway.str_field("approval_state") {
        Some(s) => s,
        None => str_or(task.str_field("approval_state"), ""),
    }
}

fn review_outcome_of(task: &Json) -> (r: &str)
    ensures
        r@ == spec_review_outcome(jview(*task)),
{
    match first_str_at(task, "review_fan_in", "outcome") {
        Some(s) => s,
        None => match first_str_at(task, "review_fan_in", "status") {
            Some(s) => s,
            None => str_or(first_str_at(task, "review_lifecycle", "status"), ""),
        },
    }
}

fn review_next_action_of(task: &Json) -> (r: &str)
    ensures
        r@ == spec_review_next_action(jview(*task)),
{
    match first_str_at(task, "review_fan_in", "captain_next_decision") {
        Some(s) => s,
        None => str_or(first_str_at(task, "review_fan_in", "next_action"), ""),
    }
}

fn mutation_evidence_blocked(run_record: &Json, task: &Json) -> (r: bool)
    ensures
        r == spec_mutation_evidence_blocked(jview(*run_record), jview(*task)),
{
    let gate = match run_record.get("mutation_evidence_gate") {
        Some(g) => Some(g),
        None => task.get("mutation_evidence_gate"),
    };
    match gate {
        Some(g) => match g.get("blocked") {
            Some(b) => match b.as_bool() {
                Some(x) => x,
                None => false,
            },
            None => false,
        },
        None => false,
    }
}

/// Which check decides the captain's next move after fan-in.
pub fn post_fan_in_decision_kind(
    run_record: &Json,
    longway: &Json,
    current_task_card: &Json,
    host_subagent_state: &Json,
    next_step: &str,
    can_advance: bool,
    fan_in_ready: bool,
    worker_active: u64,
    host_subagent_active: u64,
) -> (r: CaptainDecisionKind)
    ensures
        r == spec_decision_kind(
            jview(*run_record),
            jview(*longway),
            jview(*current_task_card),
            jview(*host_subagent_state),
            next_step@,
            can_advance,
            fan_in_ready,
            worker_active,
            host_subagent_active,
        ),
{
    let run_status = run_status_of(run_record);
    let terminal = opt_str_is(run_status, "completed") || opt_str_is(run_status, "failed")
        || opt_str_is(run_status, "cancelled") || opt_str_is(run_status, "blocked") || str_eq(
        next_step,
        "halt_completed",
    ) || str_eq(next_step, "halt_failed") || str_eq(next_step, "halt_cancelled");
    if terminal {
        return CaptainDecisionKind::Terminal;
    }
    if str_eq(next_step, "await_operator") {
        return CaptainDecisionKind::AwaitOperator;
    }
    if str_eq(next_step, "await_longway_approval") || str_eq(
        approval_state_of(longway, current_task_card),
        "pending_longway_approval",
    ) {
        return CaptainDecisionKind::LongwayApproval;
    }
    let policy = current_task_card.get("review_policy");
    let needs_captain = match policy {
        Some(p) => review_policy_requires_captain_decision(p),
        None => false,
    };
    if needs_captain {
        return CaptainDecisionKind::ReviewPassCap;
    }
    let outcome = review_outcome_of(current_task_card);
    let next = review_next_action_of(current_task_card);
    if str_eq(outcome, "needs_work") || str_eq(outcome, "failed") || str_eq(outcome, "unsatisfactory")
        || str_eq(outcome, "blocked") || str_eq(next, "captain_repair") || str_eq(
        next,
        "captain_replan",
    ) || str_eq(next, "captain_request_operator_input") {
        return CaptainDecisionKind::ReviewNeedsWork;
    }
    if subagent_policy_drift_requires_acceptance(current_task_card) {
        return CaptainDecisionKind::DriftAcceptance;
    }
    let required = match policy {
        Some(p) => review_policy_blocks_direct_captain_action(p),
        None => false,
    };
    if required {
        return CaptainDecisionKind::ReviewRequired;
    }
    let recovery = str_or(
        first_str_at(host_subagent_state, "recovery_recommendation", "recommended_action"),
        "none",
    );
    let reclaim = str_or(
        first_str_at(host_subagent_state, "reclaim_replan_recommendation", "recommended_action"),
        "none",
    );
    if str_eq(recovery, "reclaim") {
        return CaptainDecisionKind::ReclaimStalled;
    }
    if str_eq(recovery, "retry") || str_eq(recovery, "reassign") {
        return CaptainDecisionKind::RecoverTerminal;
    }
    if str_eq(reclaim, "reclaim_or_replan") || str_eq(reclaim, "await_fan_in_or_replan") {
        return CaptainDecisionKind::ReclaimRecommended;
    }
    if mutation_evidence_blocked(run_record, current_task_card) {
        return CaptainDecisionKind::MutationEvidenceBlocked;
    }
    if fan_in_ready || can_advance || str_eq(next_step, "advance") {
        return CaptainDecisionKind::Advance;
    }
    if str_eq(next_step, "await_fan_in") || worker_active > 0 || host_subagent_active > 0 {
        return CaptainDecisionKind::AwaitFanIn;
    }
    let has_plan = match current_task_card.get("delegation_plan") {
        Some(p) => p.is_object(),
        None => false,
    };
    if str_eq(next_step, "execute_task") || has_plan {
        return CaptainDecisionKind::Dispatch;
    }
    CaptainDecisionKind::Checkpoint
}

/// What a decision says, in this order: precedence, allowed action, required
/// action, denied-action reason, state, active gate, required artifact,
/// scheduler action kind and scheduler action reason. A dispatch takes its
/// state, gate and artifact from the task's role gate family.
pub open spec fn spec_decision_texts(k: CaptainDecisionKind, role_gate: Seq<char>) -> Seq<Seq<char>> {
    match k {
        CaptainDecisionKind::Terminal => seq![
            "terminal"@,
            "finish_allowed"@,
            "report_terminal_status"@,
            "Run is already terminal; no additional captain mutation is allowed without a new run."@,
            "report_ready"@,
            "report"@,
            "final_status_summary"@,
            "terminal"@,
            "scheduler observed a terminal run state"@,
        ],
        CaptainDecisionKind::AwaitOperator => seq![
            "operator"@,
            "blocked"@,
            "await_operator"@,
            "Run is blocked on an operator decision."@,
            "clarification_pending"@,
            "planning_clarification"@,
            "operator_clarification_answer"@,
            "await_operator"@,
            "scheduler is blocked until the operator answers the pending clarification"@,
        ],
        CaptainDecisionKind::LongwayApproval => seq![
            "longway_approval"@,
            "blocked"@,
            "await_longway_approval"@,
            "PLAN_SEQUENCE is waiting for explicit LongWay approval before executable task dispatch."@,
            "longway_pending"@,
            "planning_approval"@,
            "operator_longway_approval"@,
            "await_longway_approval"@,
            "scheduler is blocked until the pending LongWay is approved"@,
        ],
        CaptainDecisionKind::ReviewPassCap => seq![
            "review_pass_cap"@,
            "captain_decision_required"@,
            "ccc_orchestrate"@,
            "Review pass cap reached; captain must decide the next action through CCC orchestration."@,
            "review_decision_pending"@,
            "review_gate"@,
            "captain_review_decision"@,
            "review_captain_decision"@,
            "review pass cap requires an explicit captain decision before merge or close"@,
        ],
        CaptainDecisionKind::ReviewNeedsWork => seq![
            "review_needs_work"@,
            "review_repair_required"@,
            "ccc_orchestrate"@,
            "Review fan-in requires captain repair, replan, reassignment, or operator input before merge."@,
            "review_decision_pending"@,
            "review_gate"@,
            "review_fan_in_repair_decision"@,
            "review_needs_work"@,
            "review fan-in requires a repair or replan decision before recovery fallback"@,
        ],
        CaptainDecisionKind::DriftAcceptance => seq![
            "review_gate"@,
            "captain_drift_acceptance_required"@,
            "spawn_or_merge_review"@,
            "Direct captain output on a specialist-owned route must be reviewed or explicitly accepted before merge or close."@,
            "review_pending"@,
            "review_gate"@,
            "review_or_explicit_acceptance"@,
            "review_required"@,
            "direct captain drift requires review or explicit acceptance before merge"@,
        ],
        CaptainDecisionKind::ReviewRequired => seq![
            "review_gate"@,
            "review_required"@,
            "spawn_or_merge_review"@,
            "Review policy is active; captain must satisfy the review gate before direct finish or mutation."@,
            "review_pending"@,
            "review_gate"@,
            "review_fan_in_or_policy_pass"@,
            "review_required"@,
            "review policy is active before direct finish or mutation"@,
        ],
        CaptainDecisionKind::ReclaimStalled => seq![
            "recovery"@,
            "reclaim_subagent"@,
            "ccc_subagent_update"@,
            "A host subagent appears stalled; wait for fan-in, close completed host agents when available, or record reclaim/replan before degraded fallback."@,
            "recovery_pending"@,
            "recovery"@,
            "reclaim_replan_or_fallback_decision"@,
            "reclaim_subagent"@,
            "host subagent reclaim/replan is required before degraded fallback"@,
        ],
        CaptainDecisionKind::RecoverTerminal => seq![
            "recovery"@,
            "recover_subagent"@,
            "ccc_orchestrate"@,
            "A host subagent ended without clean fan-in; close terminal host agents when available, then retry or reassign before degraded fallback."@,
            "recovery_pending"@,
            "recovery"@,
            "retry_or_reassign_decision"@,
            "recover_subagent"@,
            "terminal host subagent state requires retry or reassign before degraded fallback"@,
        ],
        CaptainDecisionKind::ReclaimRecommended => seq![
            "recovery"@,
            "reclaim_subagent"@,
            "ccc_subagent_update"@,
            "A host subagent reclaim/replan recommendation is visible; captain must merge, wait, or replan before degraded fallback."@,
            "recovery_pending"@,
            "recovery"@,
            "reclaim_replan_or_fallback_decision"@,
            "reclaim_subagent"@,
            "host subagent reclaim/replan recommendation is visible"@,
        ],
        CaptainDecisionKind::MutationEvidenceBlocked => seq![
            "mutation_evidence"@,
            "mutation_evidence_blocked"@,
            "record_fan_in_or_approve_longway"@,
            "Mutation dispatch is blocked until persisted evidence or approved LongWay scope exists."@,
            "blocked"@,
            "mutation_evidence"@,
            "persisted_approved_longway_or_fan_in_evidence"@,
            "blocked"@,
            "mutation dispatch is blocked by the evidence-before-mutation gate"@,
        ],
        CaptainDecisionKind::Advance => seq![
            "advance"@,
            "captain_advance"@,
            "ccc_orchestrate"@,
            "Captain should advance through CCC orchestration before direct finish or mutation."@,
            "decision_pending"@,
            "captain_decision"@,
            "captain_decision_envelope"@,
            "select_next"@,
            "scheduler can advance captain selection to the next bounded action"@,
        ],
        CaptainDecisionKind::AwaitFanIn => seq![
            "await_fan_in"@,
            "await_fan_in"@,
            "ccc_subagent_update"@,
            "Active specialist or pending fan-in must complete; captain should wait or close completed host agents before direct finish or mutation."@,
            "fan_in_pending"@,
            "fan_in"@,
            "specialist_fan_in"@,
            "await_fan_in"@,
            "scheduler is waiting for compact fan-in before selecting the next task"@,
        ],
        CaptainDecisionKind::Dispatch => seq![
            "dispatch"@,
            "spawn_subagent"@,
            "spawn_or_record_specialist"@,
            "Current task requires specialist execution before direct captain finish or mutation."@,
            if role_gate == "planning"@ {
                "planning_pending"@
            } else if role_gate == "mutation"@ {
                "mutation_pending"@
            } else if role_gate == "verification"@ {
                "verification_pending"@
            } else {
                "evidence_pending"@
            },
            role_gate,
            if role_gate == "planning"@ {
                "planning_or_clarification"@
            } else if role_gate == "mutation"@ {
                "mutation_scope_and_evidence"@
            } else if role_gate == "verification"@ {
                "verification_scope"@
            } else {
                "evidence_scope"@
            },
            "dispatch_selected_task"@,
            "scheduler selected the current approved task for specialist dispatch"@,
        ],
        CaptainDecisionKind::Checkpoint => seq![
            "advance"@,
            "captain_advance"@,
            "ccc_orchestrate"@,
            "Captain should use the persisted CCC next step before direct finish or mutation."@,
            "decision_pending"@,
            "captain_decision"@,
            "captain_decision_envelope"@,
            "checkpoint"@,
            "scheduler recorded a non-dispatch checkpoint"@,
        ],
    }
}

/// The texts of a decision (see `spec_decision_texts`).
pub fn decision_texts(k: &CaptainDecisionKind, role_gate: &'static str) -> (r: Vec<&'static str>)
    ensures
        r@.map_values(|s: &str| s@) == spec_decision_texts(*k, role_gate@),
{
    let r: Vec<&'static str> = match k {
        CaptainDecisionKind::Terminal => vec![
            "terminal",
            "finish_allowed",
            "report_terminal_status",
            "Run is already terminal; no additional captain mutation is allowed without a new run.",
            "report_ready",
            "report",
            "final_status_summary",
            "terminal",
            "scheduler observed a terminal run state",
        ],
        CaptainDecisionKind::AwaitOperator => vec![
            "operator",
            "blocked",
            "await_operator",
            "Run is blocked on an operator decision.",
            "clarification_pending",
            "planning_clarification",
            "operator_clarification_answer",
            "await_operator",
            "scheduler is blocked until the operator answers the pending clarification",
        ],
        CaptainDecisionKind::LongwayApproval => vec![
            "longway_approval",
            "blocked",
            "await_longway_approval",
            "PLAN_SEQUENCE is waiting for explicit LongWay approval before executable task dispatch.",
            "longway_pending",
            "planning_approval",
            "operator_longway_approval",
            "await_longway_approval",
            "scheduler is blocked until the pending LongWay is approved",
        ],
        CaptainDecisionKind::ReviewPassCap => vec![
            "review_pass_cap",
            "captain_decision_required",
            "ccc_orchestrate",
            "Review pass cap reached; captain must decide the next action through CCC orchestration.",
            "review_decision_pending",
            "review_gate",
            "captain_review_decision",
            "review_captain_decision",
            "review pass cap requires an explicit captain decision before merge or close",
        ],
        CaptainDecisionKind::ReviewNeedsWork => vec![
            "review_needs_work",
            "review_repair_required",
            "ccc_orchestrate",
            "Review fan-in requires captain repair, replan, reassignment, or operator input before merge.",
            "review_decision_pending",
            "review_gate",
            "review_fan_in_repair_decision",
            "review_needs_work",
            "review fan-in requires a repair or replan decision before recovery fallback",
        ],
        CaptainDecisionKind::DriftAcceptance => vec![
            "review_gate",
            "captain_drift_acceptance_required",
            "spawn_or_merge_review",
            "Direct captain output on a specialist-owned route must be reviewed or explicitly accepted before merge or close.",
            "review_pending",
            "review_gate",
            "review_or_explicit_acceptance",
            "review_required",
            "direct captain drift requires review or explicit acceptance before merge",
        ],
        CaptainDecisionKind::ReviewRequired => vec![
            "review_gate",
            "review_required",
            "spawn_or_merge_review",
            "Review policy is active; captain must satisfy the review gate before direct finish or mutation.",
            "review_pending",
            "review_gate",
            "review_fan_in_or_policy_pass",
            "review_required",
            "review policy is active before direct finish or mutation",
        ],
        CaptainDecisionKind::ReclaimStalled => vec![
            "recovery",
            "reclaim_subagent",
            "ccc_subagent_update",
            "A host subagent appears stalled; wait for fan-in, close completed host agents when available, or record reclaim/replan before degraded fallback.",
            "recovery_pending",
            "recovery",
            "reclaim_replan_or_fallback_decision",
            "reclaim_subagent",
            "host subagent reclaim/replan is required before degraded fallback",
        ],
        CaptainDecisionKind::RecoverTerminal => vec![
            "recovery",
            "recover_subagent",
            "ccc_orchestrate",
            "A host subagent ended without clean fan-in; close terminal host agents when available, then retry or reassign before degraded fallback.",
            "recovery_pending",
            "recovery",
            "retry_or_reassign_decision",
            "recover_subagent",
            "terminal host subagent state requires retry or reassign before degraded fallback",
        ],
        CaptainDecisionKind::ReclaimRecommended => vec![
            "recovery",
            "reclaim_subagent",
            "ccc_subagent_update",
            "A host subagent reclaim/replan recommendation is visible; captain must merge, wait, or replan before degraded fallback.",
            "recovery_pending",
            "recovery",
            "reclaim_replan_or_fallback_decision",
            "reclaim_subagent",
            "host subagent reclaim/replan recommendation is visible",
        ],
        CaptainDecisionKind::MutationEvidenceBlocked => vec![
            "mutation_evidence",
            "mutation_evidence_blocked",
            "record_fan_in_or_approve_longway",
            "Mutation dispatch is blocked until persisted evidence or approved LongWay scope exists.",
            "blocked",
            "mutation_evidence",
            "persisted_approved_longway_or_fan_in_evidence",
            "blocked",
            "mutation dispatch is blocked by the evidence-before-mutation gate",
        ],
        CaptainDecisionKind::Advance => vec![
            "advance",
            "captain_advance",
            "ccc_orchestrate",
            "Captain should advance through CCC orchestration before direct finish or mutation.",
            "decision_pending",
            "captain_decision",
            "captain_decision_envelope",
            "select_next",
            "scheduler can advance captain selection to the next bounded action",
        ],
        CaptainDecisionKind::AwaitFanIn => vec![
            "await_fan_in",
            "await_fan_in",
            "ccc_subagent_update",
            "Active specialist or pending fan-in must complete; captain should wait or close completed host agents before direct finish or mutation.",
            "fan_in_pending",
            "fan_in",
            "specialist_fan_in",
            "await_fan_in",
            "scheduler is waiting for compact fan-in before selecting the next task",
        ],
        CaptainDecisionKind::Dispatch => {
            let (state, artifact): (&'static str, &'static str) = if str_eq(role_gate, "planning") {
                ("planning_pending", "planning_or_clarification")
            } else if str_eq(role_gate, "mutation") {
                ("mutation_pending", "mutation_scope_and_evidence")
            } else if str_eq(role_gate, "verification") {
                ("verification_pending", "verification_scope")
            } else {
                ("evidence_pending", "evidence_scope")
            };
            vec![
                "dispatch",
                "spawn_subagent",
                "spawn_or_record_specialist",
                "Current task requires specialist execution before direct captain finish or mutation.",
                state,
                role_gate,
                artifact,
                "dispatch_selected_task",
                "scheduler selected the current approved task for specialist dispatch",
            ]
        },
        CaptainDecisionKind::Checkpoint => vec![
            "advance",
            "captain_advance",
            "ccc_orchestrate",
            "Captain should use the persisted CCC next step before direct finish or mutation.",
            "decision_pending",
            "captain_decision",
            "captain_decision_envelope",
            "checkpoint",
            "scheduler recorded a non-dispatch checkpoint",
        ],
    };
    assert(r@.map_values(|s: &str| s@) =~= spec_decision_texts(*k, role_gate@));
    r
}

/// The post-fan-in captain decision of a run: the deciding gate's texts, the
/// scheduler action, the inputs it was read from and the task's identity.
pub open spec fn spec_post_fan_in_payload(
    run_record: JVal,
    longway: JVal,
    task: JVal,
    host: JVal,
    next_step: Seq<char>,
    can_advance: bool,
    fan_in_ready: bool,
    worker_active: u64,
    host_subagent_active: u64,
) -> JVal {
    let t = spec_decision_texts(
        spec_decision_kind(
            run_record,
            longway,
            task,
            host,
            next_step,
            can_advance,
            fan_in_ready,
            worker_active,
            host_subagent_active,
        ),
        spec_role_gate_family(task),
    );
    JVal::Object(
        seq![
            ("schema"@, JVal::Str("ccc.post_fan_in_captain_decision.v1"@)),
            ("source"@, JVal::Str("persisted_ccc_truth"@)),
            ("precedence"@, JVal::Str(t[0])),
            ("state"@, JVal::Str(t[4])),
            ("active_gate"@, JVal::Str(t[5])),
            ("required_artifact"@, JVal::Str(t[6])),
            ("allowed_action"@, JVal::Str(t[1])),
            ("required_action"@, JVal::Str(t[2])),
            ("denied_action_reason"@, JVal::Str(t[3])),
            (
                "scheduler_action"@,
                JVal::Object(
                    seq![
                        ("kind"@, JVal::Str(t[7])),
                        ("reason"@, JVal::Str(t[8])),
                        ("next_step"@, JVal::Str(next_step)),
                        ("can_advance"@, JVal::Bool(can_advance)),
                    ],
                ),
            ),
            (
                "inputs"@,
                JVal::Object(
                    seq![
                        ("run_status"@, jopt_str(spec_run_status(run_record))),
                        ("next_step"@, JVal::Str(next_step)),
                        ("can_advance"@, JVal::Bool(can_advance)),
                        ("fan_in_ready"@, JVal::Bool(fan_in_ready)),
                        ("worker_active"@, JVal::Num(worker_active as int)),
                        ("host_subagent_active"@, JVal::Num(host_subagent_active as int)),
                        ("review_outcome"@, JVal::Str(spec_review_outcome(task))),
                        ("review_next_action"@, JVal::Str(spec_review_next_action(task))),
                        ("recovery_action"@, JVal::Str(spec_recovery_action(host))),
                        ("reclaim_replan_action"@, JVal::Str(spec_reclaim_action(host))),
                        ("approval_state"@, JVal::Str(spec_approval_state(longway, task))),
                    ],
                ),
            ),
            ("task_card_id"@, jget_or(task, "task_card_id"@, JVal::Null)),
            ("assigned_role"@, jget_or(task, "assigned_role"@, JVal::Null)),
            ("assigned_agent_id"@, jget_or(task, "assigned_agent_id"@, JVal::Null)),
        ],
    )
}

pub fn create_post_fan_in_captain_decision_payload(
    run_record: &Json,
    longway: &Json,
    current_task_card: &Json,
    host_subagent_state: &Json,
    next_step: &str,
    can_advance: bool,
    fan_in_ready: bool,
    worker_active: u64,
    host_subagent_active: u64,
) -> (r: Json)
    ensures
        jview(r) == spec_post_fan_in_payload(
            jview(*run_record),
            jview(*longway),
            jview(*current_task_card),
            jview(*host_subagent_state),
            next_step@,
            can_advance,
            fan_in_ready,
            worker_active,
            host_subagent_active,
        ),
{
    let kind = post_fan_in_decision_kind(
        run_record,
        longway,
        current_task_card,
        host_subagent_state,
        next_step,
        can_advance,
        fan_in_ready,
        worker_active,
        host_subagent_active,
    );
    let gate = role_gate_family(current_task_card);
    let t = decision_texts(&kind, gate);
    let ghost tv = t@.map_values(|s: &str| s@);
    assert(t@.len() == 9) by {
        assert(tv.len() == t@.len());
    }
    assert(forall|i: int| 0 <= i < 9 ==> #[trigger] t@[i]@ == tv[i]);
    let mut sa: Vec<(String, Json)> = Vec::new();
    sa.push(member("kind", jstr(t[7])));
    sa.push(member("reason", jstr(t[8])));
    sa.push(member("next_step", jstr(next_step)));
    sa.push(member("can_advance", jbool(can_advance)));
    let scheduler_action = object_of(sa);
    let mut inp: Vec<(String, Json)> = Vec::new();
    inp.push(member("run_status", jopt(run_status_of(run_record))));
    inp.push(member("next_step", jstr(next_step)));
    inp.push(member("can_advance", jbool(can_advance)));
    inp.push(member("fan_in_ready", jbool(fan_in_ready)));
    inp.push(member("worker_active", juint(worker_active)));
    inp.push(member("host_subagent_active", juint(host_subagent_active)));
    inp.push(member("review_outcome", jstr(review_outcome_of(current_task_card))));
    inp.push(member("review_next_action", jstr(review_next_action_of(current_task_card))));
    inp.push(
        member(
            "recovery_action",
            jstr(
                str_or(
                    first_str_at(host_subagent_state, "recovery_recommendation", "recommended_action"),
                    "none",
                ),
            ),
        ),
    );
    inp.push(
        member(
            "reclaim_replan_action",
            jstr(
                str_or(
                    first_str_at(
                        host_subagent_state,
                        "reclaim_replan_recommendation",
                        "recommended_action",
                    ),
                    "none",
                ),
            ),
        ),
    );
    inp.push(member("approval_state", jstr(approval_state_of(longway, current_task_card))));
    let inputs = object_of(inp);
    let mut m: Vec<(String, Json)> = Vec::new();
    m.push(member("schema", jstr("ccc.post_fan_in_captain_decision.v1")));
    m.push(member("source", jstr("persisted_ccc_truth")));
    m.push(member("precedence", jstr(t[0])));
    m.push(member("state", jstr(t[4])));
    m.push(member("active_gate", jstr(t[5])));
    m.push(member("required_artifact", jstr(t[6])));
    m.push(member("allowed_action", jstr(t[1])));
    m.push(member("required_action", jstr(t[2])));
    m.push(member("denied_action_reason", jstr(t[3])));
    m.push(member("scheduler_action", scheduler_action));
    m.push(member("inputs", inputs));
    m.push(member("task_card_id", get_or(current_task_card, "task_card_id", Json::Null)));
    m.push(member("assigned_role", get_or(current_task_card, "assigned_role", Json::Null)));
    m.push(member("assigned_agent_id", get_or(current_task_card, "assigned_agent_id", Json::Null)));
    let r = object_of(m);
    proof {
        let s = spec_post_fan_in_payload(
            jview(*run_record),
            jview(*longway),
            jview(*current_task_card),
            jview(*host_subagent_state),
            next_step@,
            can_advance,
            fan_in_ready,
            worker_active,
            host_subagent_active,
        );
        assert(members_view(sa@) =~= s->Object_0[9].1->Object_0);
        assert(members_view(inp@) =~= s->Object_0[10].1->Object_0);
        assert(members_view(m@) =~= s->Object_0);
    }
    r
}

/// What the captain must do when host subagent capacity is exhausted.
pub open spec fn spec_subagent_capacity_policy() -> JVal {
    JVal::Object(
        seq![
            ("on_capacity_exhausted"@, JVal::Str("wait_or_cleanup_before_direct_work"@)),
            ("direct_specialist_takeover_allowed"@, JVal::Bool(false)),
            (
                "required_order"@,
                JVal::Array(
                    seq![
                        JVal::Str("wait_for_active_fan_in"@),
                        JVal::Str("close_completed_host_agent_threads"@),
                        JVal::Str("record_reclaim_reassign_or_terminal_fallback"@),
                        JVal::Str("retry_specialist_dispatch"@),
                    ],
                ),
            ),
            ("fallback_reason"@, JVal::Str("host_subagent_thread_limit"@)),
            (
                "summary"@,
                JVal::Str(
                    "When host subagent capacity is exhausted, captain must wait, close terminal host agents, or record reclaim/reassign/terminal fallback before retrying specialist dispatch; direct specialist-owned mutation remains blocked."@,
                ),
            ),
        ],
    )
}

pub fn create_subagent_capacity_policy() -> (r: Json)
    ensures
        jview(r) == spec_subagent_capacity_policy(),
{
    let order = jstr_array(
        &vec![
            "wait_for_active_fan_in",
            "close_completed_host_agent_threads",
            "record_reclaim_reassign_or_terminal_fallback",
            "retry_specialist_dispatch",
        ],
    );
    let mut m: Vec<(String, Json)> = Vec::new();
    m.push(member("on_capacity_exhausted", jstr("wait_or_cleanup_before_direct_work")));
    m.push(member("direct_specialist_takeover_allowed", jbool(false)));
    m.push(member("required_order", order));
    m.push(member("fallback_reason", jstr("host_subagent_thread_limit")));
    m.push(
        member(
            "summary",
            jstr(
                "When host subagent capacity is exhausted, captain must wait, close terminal host agents, or record reclaim/reassign/terminal fallback before retrying specialist dispatch; direct specialist-owned mutation remains blocked.",
            ),
        ),
    );
    let r = object_of(m);
    proof {
        let s = spec_subagent_capacity_policy();
        assert(jview(order)->Array_0 =~= s->Object_0[2].1->Array_0);
        assert(members_view(m@) =~= s->Object_0);
    }
    r
}

/// The direct file mutation policy of an action contract: never allowed,
/// routed through specialist fan-in and captain review, with the decision's
/// required action and reason.
pub open spec fn spec_direct_file_mutation_policy(required_action: Seq<char>, reason: Seq<char>) -> JVal {
    JVal::Object(
        seq![
            ("allowed"@, JVal::Bool(false)),
            (
                "applies_to"@,
                JVal::Array(
                    seq![
                        JVal::Str("apply_patch"@),
                        JVal::Str("direct_shell_file_mutation"@),
                        JVal::Str("file_edits"@),
                        JVal::Str("mutation_commands"@),
                    ],
                ),
            ),
            ("required_route"@, JVal::Str("specialist_fan_in_then_captain_review_merge"@)),
            ("required_action"@, JVal::Str(required_action)),
            (
                "requires_recorded_exception"@,
                JVal::Str("explicit_terminal_fallback_or_operator_override"@),
            ),
            ("merge_gate"@, JVal::Str("specialist_fan_in_or_explicit_operator_override"@)),
            ("operator_override_required"@, JVal::Bool(true)),
            ("reason"@, JVal::Str(reason)),
        ],
    )
}

pub fn create_direct_file_mutation_policy(required_action: &str, denied_action_reason: &str) -> (r:
    Json)
    ensures
        jview(r) == spec_direct_file_mutation_policy(required_action@, denied_action_reason@),
{
    let applies = jstr_array(
        &vec!["apply_patch", "direct_shell_file_mutation", "file_edits", "mutation_commands"],
    );
    let mut m: Vec<(String, Json)> = Vec::new();
    m.push(member("allowed", jbool(false)));
    m.push(member("applies_to", applies));
    m.push(member("required_route", jstr("specialist_fan_in_then_captain_review_merge")));
    m.push(member("required_action", jstr(required_action)));
    m.push(
        member("requires_recorded_exception", jstr("explicit_terminal_fallback_or_operator_override")),
    );
    m.push(member("merge_gate", jstr("specialist_fan_in_or_explicit_operator_override")));
    m.push(member("operator_override_required", jbool(true)));
    m.push(member("reason", jstr(denied_action_reason)));
    let r = object_of(m);
    proof {
        let s = spec_direct_file_mutation_policy(required_action@, denied_action_reason@);
        assert(jview(applies)->Array_0 =~= s->Object_0[1].1->Array_0);
        assert(members_view(m@) =~= s->Object_0);
    }
    r
}

/// Whether documented completion was requested for the task.
pub open spec fn spec_completion_required(task: JVal) -> bool {
    opt_bool(jget_path(task, seq!["completion_discipline"@, "documented_completion_requested"@]))
        == Some(true)
}

/// The action a decision allows, else `captain_advance`.
pub open spec fn spec_contract_allowed_action(decision: JVal) -> Seq<char> {
    match jstr_field(decision, "allowed_action"@) {
        Some(s) => s,
        None => "captain_advance"@,
    }
}

/// The action a decision requires, else `ccc_orchestrate`.
pub open spec fn spec_contract_required_action(decision: JVal) -> Seq<char> {
    match jstr_field(decision, "required_action"@) {
        Some(s) => s,
        None => "ccc_orchestrate"@,
    }
}

/// The reason a decision gives for denying direct action, else the default
/// reason.
pub open spec fn spec_contract_denied_reason(decision: JVal) -> Seq<char> {
    match jstr_field(decision, "denied_action_reason"@) {
        Some(s) => s,
        None => "Captain should use the persisted CCC next step before direct finish or mutation."@,
    }
}

/// The captain action contract: the decision's allowed and required actions,
/// direct finish only when the decision allows finishing and no documented
/// completion is pending, never direct mutation, the mutation and capacity
/// policies, and the decision itself.
pub open spec fn spec_captain_action_contract(task: JVal, decision: JVal) -> JVal {
    let allowed = spec_contract_allowed_action(decision);
    let required = spec_contract_required_action(decision);
    let denied = spec_contract_denied_reason(decision);
    let completion_required = spec_completion_required(task);
    JVal::Object(
        seq![
            ("source"@, JVal::Str("ccc_status"@)),
            ("preflight_guard"@, JVal::Str("ccc_recommend_entry"@)),
            ("preferred_operator_transport"@, JVal::Str("ccc_cli_quiet_subcommand"@)),
            (
                "preferred_operator_transport_reason"@,
                JVal::Str(
                    "Keeps repeated CCC lifecycle mutations visible as compact command runs instead of verbose MCP tool-call payloads."@,
                ),
            ),
            (
                "mcp_tool_call_policy"@,
                JVal::Str("reserve_for_app_or_structured_inspection_or_cli_unavailable"@),
            ),
            ("allowed_action"@, JVal::Str(allowed)),
            ("required_action"@, JVal::Str(required)),
            (
                "direct_finish_allowed"@,
                JVal::Bool(allowed == "finish_allowed"@ && !completion_required),
            ),
            ("direct_mutation_allowed"@, JVal::Bool(false)),
            ("direct_file_mutation_policy"@, spec_direct_file_mutation_policy(required, denied)),
            ("subagent_capacity_policy"@, spec_subagent_capacity_policy()),
            ("denied_action_reason"@, JVal::Str(denied)),
            ("completion_required"@, JVal::Bool(completion_required)),
            ("post_fan_in_captain_decision"@, decision),
        ],
    )
}

pub fn create_captain_action_contract(current_task_card: &Json, post_fan_in_captain_decision: &Json) -> (r:
    Json)
    ensures
        jview(r) == spec_captain_action_contract(
            jview(*current_task_card),
            jview(*post_fan_in_captain_decision),
        ),
{
    let allowed = str_or(post_fan_in_captain_decision.str_field("allowed_action"), "captain_advance");
    let required = str_or(post_fan_in_captain_decision.str_field("required_action"), "ccc_orchestrate");
    let denied = str_or(
        post_fan_in_captain_decision.str_field("denied_action_reason"),
        "Captain should use the persisted CCC next step before direct finish or mutation.",
    );
    let keys: [&str; 2] = ["completion_discipline", "documented_completion_requested"];
    let ks = keys.as_slice();
    assert(ks@.map_values(|k: &str| k@) =~= seq![
        "completion_discipline"@,
        "documented_completion_requested"@,
    ]);
    let completion_required = match current_task_card.get_path(ks) {
        Some(v) => match v.as_bool() {
            Some(b) => b,
            None => false,
        },
        None => false,
    };
    let direct_finish_allowed = str_eq(allowed, "finish_allowed") && !completion_required;
    let mut m: Vec<(String, Json)> = Vec::new();
    m.push(member("source", jstr("ccc_status")));
    m.push(member("preflight_guard", jstr("ccc_recommend_entry")));
    m.push(member("preferred_operator_transport", jstr("ccc_cli_quiet_subcommand")));
    m.push(
        member(
            "preferred_operator_transport_reason",
            jstr(
                "Keeps repeated CCC lifecycle mutations visible as compact command runs instead of verbose MCP tool-call payloads.",
            ),
        ),
    );
    m.push(
        member("mcp_tool_call_policy", jstr("reserve_for_app_or_structured_inspection_or_cli_unavailable")),
    );
    m.push(member("allowed_action", jstr(allowed)));
    m.push(member("required_action", jstr(required)));
    m.push(member("direct_finish_allowed", jbool(direct_finish_allowed)));
    m.push(member("direct_mutation_allowed", jbool(false)));
    m.push(member("direct_file_mutation_policy", create_direct_file_mutation_policy(required, denied)));
    m.push(member("subagent_capacity_policy", create_subagent_capacity_policy()));
    m.push(member("denied_action_reason", jstr(denied)));
    m.push(member("completion_required", jbool(completion_required)));
    m.push(member("post_fan_in_captain_decision", post_fan_in_captain_decision.deep_clone()));
    let r = object_of(m);
    assert(members_view(m@) =~= spec_captain_action_contract(
        jview(*current_task_card),
        jview(*post_fan_in_captain_decision),
    )->Object_0);
    r
}

/// The action allowed by a decision's texts is `finish_allowed` exactly when
/// the run is terminal.
proof fn lemma_finish_allowed_only_terminal(k: CaptainDecisionKind, role_gate: Seq<char>)
    ensures
        (spec_decision_texts(k, role_gate)[1] == "finish_allowed"@) <==> (k
            == CaptainDecisionKind::Terminal),
{
    reveal_strlit("finish_allowed");
    reveal_strlit("blocked");
    reveal_strlit("captain_decision_required");
    reveal_strlit("review_repair_required");
    reveal_strlit("captain_drift_acceptance_required");
    reveal_strlit("review_required");
    reveal_strlit("reclaim_subagent");
    reveal_strlit("recover_subagent");
    reveal_strlit("mutation_evidence_blocked");
    reveal_strlit("captain_advance");
    reveal_strlit("await_fan_in");
    reveal_strlit("spawn_subagent");
    let t = spec_decision_texts(k, role_gate);
    match k {
        CaptainDecisionKind::Terminal => {},
        CaptainDecisionKind::Dispatch => {
            assert(t[1][0] != "finish_allowed"@[0]);
        },
        _ => {
            assert(t[1].len() != "finish_allowed"@.len() || t[1][0] != "finish_allowed"@[0]);
        },
    }
}

/// After any fan-in state, the captain action contract built from the
/// post-fan-in decision allows a direct finish exactly when the run is
/// terminal and no documented completion is pending for the task, and it
/// never allows direct mutation.
pub proof fn lemma_direct_finish_only_for_terminal_runs(
    run_record: JVal,
    longway: JVal,
    task: JVal,
    host: JVal,
    next_step: Seq<char>,
    can_advance: bool,
    fan_in_ready: bool,
    worker_active: u64,
    host_subagent_active: u64,
)
    ensures
        ({
            let d = spec_post_fan_in_payload(
                run_record,
                longway,
                task,
                host,
                next_step,
                can_advance,
                fan_in_ready,
                worker_active,
                host_subagent_active,
            );
            let c = spec_captain_action_contract(task, d);
            &&& jget(c, "direct_finish_allowed"@) == Some(
                JVal::Bool(
                    spec_decision_kind(
                        run_record,
                        longway,
                        task,
                        host,
                        next_step,
                        can_advance,
                        fan_in_ready,
                        worker_active,
                        host_subagent_active,
                    ) == CaptainDecisionKind::Terminal && !spec_completion_required(task),
                ),
            )
            &&& jget(c, "direct_mutation_allowed"@) == Some(JVal::Bool(false))
        }),
{
    let k = spec_decision_kind(
        run_record,
        longway,
        task,
        host,
        next_step,
        can_advance,
        fan_in_ready,
        worker_active,
        host_subagent_active,
    );
    let t = spec_decision_texts(k, spec_role_gate_family(task));
    let d = spec_post_fan_in_payload(
        run_record,
        longway,
        task,
        host,
        next_step,
        can_advance,
        fan_in_ready,
        worker_active,
        host_subagent_active,
    );
    let c = spec_captain_action_contract(task, d);
    reveal_strlit("schema");
    reveal_strlit("source");
    reveal_strlit("precedence");
    reveal_strlit("state");
    reveal_strlit("active_gate");
    reveal_strlit("required_artifact");
    reveal_strlit("allowed_action");
    let dm = d->Object_0;
    assert forall|i: int| 0 <= i < 6 implies dm[i].0 != "allowed_action"@ by {
        assert(dm[i].0.len() != "allowed_action"@.len());
    }
    crate::json::lemma_jmember_index_scan(dm, "allowed_action"@, 6);
    assert(jstr_field(d, "allowed_action"@) == Some(t[1]));
    lemma_finish_allowed_only_terminal(k, spec_role_gate_family(task));
    reveal_strlit("preflight_guard");
    reveal_strlit("preferred_operator_transport");
    reveal_strlit("preferred_operator_transport_reason");
    reveal_strlit("mcp_tool_call_policy");
    reveal_strlit("required_action");
    reveal_strlit("direct_finish_allowed");
    reveal_strlit("direct_mutation_allowed");
    let cm = c->Object_0;
    assert forall|i: int| 0 <= i < 7 implies cm[i].0 != "direct_finish_allowed"@ by {
        assert(cm[i].0.len() != "direct_finish_allowed"@.len());
    }
    assert forall|i: int| 0 <= i < 8 implies cm[i].0 != "direct_mutation_allowed"@ by {
        assert(cm[i].0.len() != "direct_mutation_allowed"@.len());
    }
    crate::json::lemma_jmember_index_scan(cm, "direct_finish_allowed"@, 7);
    crate::json::lemma_jmember_index_scan(cm, "direct_mutation_allowed"@, 8);
}

} // verus!
