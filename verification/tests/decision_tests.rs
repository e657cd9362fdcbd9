use ccc_mcp::captain_decision::{
    create_captain_action_contract, create_post_fan_in_captain_decision_payload,
    review_policy_blocks_direct_captain_action, review_policy_requires_captain_decision,
    role_gate_family, subagent_policy_drift_requires_acceptance,
};
use ccc_mcp::json::{jstr, new_object, Json};
use ccc_mcp::scheduler_status::{
    count_materialized_or_completed_planned_rows, count_planned_rows_with_status,
    create_scheduler_status_payload, create_state_contract_payload, next_pending_planned_row,
    sanitize_scheduler_selected_planned_row, scheduler_decision_source, scheduler_state,
    scheduler_status_action,
};

fn obj(members: Vec<(&str, Json)>) -> Json {
    let mut o = new_object();
    for (k, v) in members {
        o.insert(k, v);
    }
    o
}

fn decide(
    run: &Json,
    longway: &Json,
    task: &Json,
    host: &Json,
    next_step: &str,
    can_advance: bool,
    fan_in_ready: bool,
    worker_active: u64,
) -> Json {
    create_post_fan_in_captain_decision_payload(
        run,
        longway,
        task,
        host,
        next_step,
        can_advance,
        fan_in_ready,
        worker_active,
        0,
    )
}

fn running() -> Json {
    obj(vec![("status", jstr("running"))])
}

#[test]
fn terminal_run_allows_finish_and_reports() {
    let run = obj(vec![("status", jstr("completed"))]);
    let empty = new_object();
    let d = decide(&run, &empty, &empty, &empty, "advance", true, true, 2);
    assert_eq!(d.str_field("precedence"), Some("terminal"));
    assert_eq!(d.str_field("allowed_action"), Some("finish_allowed"));
    assert_eq!(d.str_field("required_action"), Some("report_terminal_status"));
    assert_eq!(d.str_at(&["scheduler_action", "kind"]), Some("terminal"));
    assert_eq!(d.str_at(&["inputs", "run_status"]), Some("completed"));
    assert_eq!(d.get_path(&["inputs", "worker_active"]).and_then(|v| v.as_u64()), Some(2));
    assert_eq!(d.str_field("schema"), Some("ccc.post_fan_in_captain_decision.v1"));
}

#[test]
fn halting_next_step_is_terminal_even_for_running_status() {
    let empty = new_object();
    let d = decide(&running(), &empty, &empty, &empty, "halt_failed", false, false, 0);
    assert_eq!(d.str_field("precedence"), Some("terminal"));
}

#[test]
fn operator_wait_blocks_the_captain() {
    let empty = new_object();
    let d = decide(&running(), &empty, &empty, &empty, "await_operator", true, true, 0);
    assert_eq!(d.str_field("precedence"), Some("operator"));
    assert_eq!(d.str_field("allowed_action"), Some("blocked"));
    assert_eq!(d.str_field("state"), Some("clarification_pending"));
}

#[test]
fn pending_longway_approval_blocks_dispatch() {
    let empty = new_object();
    let longway = obj(vec![("approval_state", jstr("pending_longway_approval"))]);
    let d = decide(&running(), &longway, &empty, &empty, "execute_task", false, false, 0);
    assert_eq!(d.str_field("precedence"), Some("longway_approval"));
    assert_eq!(d.str_at(&["inputs", "approval_state"]), Some("pending_longway_approval"));
}

#[test]
fn review_gates_come_in_precedence_order() {
    let empty = new_object();
    let cap = obj(vec![("review_policy", obj(vec![("state", jstr("captain_decision_required"))]))]);
    let d = decide(&running(), &empty, &cap, &empty, "advance", true, false, 0);
    assert_eq!(d.str_field("precedence"), Some("review_pass_cap"));

    let needs_work = obj(vec![(
        "review_fan_in",
        obj(vec![("outcome", jstr("needs_work"))]),
    )]);
    let d = decide(&running(), &empty, &needs_work, &empty, "advance", true, false, 0);
    assert_eq!(d.str_field("precedence"), Some("review_needs_work"));
    assert_eq!(d.str_at(&["inputs", "review_outcome"]), Some("needs_work"));

    let drift = obj(vec![(
        "subagent_policy_drift",
        obj(vec![("direct_captain_bypass", Json::Bool(true))]),
    )]);
    let d = decide(&running(), &empty, &drift, &empty, "advance", true, false, 0);
    assert_eq!(d.str_field("allowed_action"), Some("captain_drift_acceptance_required"));

    let required = obj(vec![(
        "review_policy",
        obj(vec![("decision", jstr("required")), ("state", jstr("pending"))]),
    )]);
    let d = decide(&running(), &empty, &required, &empty, "advance", true, false, 0);
    assert_eq!(d.str_field("allowed_action"), Some("review_required"));

    let passed = obj(vec![(
        "review_policy",
        obj(vec![("decision", jstr("required")), ("state", jstr("passed"))]),
    )]);
    let d = decide(&running(), &empty, &passed, &empty, "advance", true, false, 0);
    assert_eq!(d.str_field("precedence"), Some("advance"));
}

#[test]
fn recovery_and_mutation_evidence_gates() {
    let empty = new_object();
    let host = obj(vec![(
        "recovery_recommendation",
        obj(vec![("recommended_action", jstr("reclaim"))]),
    )]);
    let d = decide(&running(), &empty, &empty, &host, "advance", true, false, 0);
    assert_eq!(d.str_field("allowed_action"), Some("reclaim_subagent"));
    assert_eq!(d.str_field("required_action"), Some("ccc_subagent_update"));
    assert_eq!(d.str_at(&["inputs", "recovery_action"]), Some("reclaim"));
    assert_eq!(d.str_at(&["inputs", "reclaim_replan_action"]), Some("none"));

    let host = obj(vec![(
        "recovery_recommendation",
        obj(vec![("recommended_action", jstr("retry"))]),
    )]);
    let d = decide(&running(), &empty, &empty, &host, "advance", true, false, 0);
    assert_eq!(d.str_field("allowed_action"), Some("recover_subagent"));

    let run = obj(vec![
        ("status", jstr("running")),
        ("mutation_evidence_gate", obj(vec![("blocked", Json::Bool(true))])),
    ]);
    let d = decide(&run, &empty, &empty, &empty, "advance", true, false, 0);
    assert_eq!(d.str_field("allowed_action"), Some("mutation_evidence_blocked"));
}

#[test]
fn advance_fan_in_dispatch_and_checkpoint() {
    let empty = new_object();
    let d = decide(&running(), &empty, &empty, &empty, "", false, true, 0);
    assert_eq!(d.str_at(&["scheduler_action", "kind"]), Some("select_next"));
    let d = decide(&running(), &empty, &empty, &empty, "", false, false, 1);
    assert_eq!(d.str_field("precedence"), Some("await_fan_in"));
    let task = obj(vec![("assigned_role", jstr("code specialist"))]);
    let d = decide(&running(), &empty, &task, &empty, "execute_task", false, false, 0);
    assert_eq!(d.str_field("precedence"), Some("dispatch"));
    assert_eq!(d.str_field("state"), Some("mutation_pending"));
    assert_eq!(d.str_field("active_gate"), Some("mutation"));
    assert_eq!(d.str_field("required_artifact"), Some("mutation_scope_and_evidence"));
    let d = decide(&running(), &empty, &empty, &empty, "", false, false, 0);
    assert_eq!(d.str_at(&["scheduler_action", "kind"]), Some("checkpoint"));
}

#[test]
fn role_gate_families() {
    assert_eq!(role_gate_family(&obj(vec![("assigned_role", jstr("way"))])), "planning");
    assert_eq!(role_gate_family(&obj(vec![("assigned_agent_id", jstr("ccc_scribe"))])), "mutation");
    assert_eq!(role_gate_family(&obj(vec![("assigned_agent_id", jstr("sentinel"))])), "verification");
    assert_eq!(role_gate_family(&new_object()), "evidence");
}

#[test]
fn review_policy_predicates() {
    let p = obj(vec![("state", jstr("captain_decision_required"))]);
    assert!(review_policy_requires_captain_decision(&p));
    assert!(review_policy_blocks_direct_captain_action(&p));
    let skipped = obj(vec![("state", jstr("skipped")), ("decision", jstr("require"))]);
    assert!(!review_policy_blocks_direct_captain_action(&skipped));
    assert!(!review_policy_requires_captain_decision(&skipped));
    let gate = obj(vec![(
        "subagent_policy_drift",
        obj(vec![("acceptance_gate", obj(vec![("state", jstr("required"))]))]),
    )]);
    assert!(subagent_policy_drift_requires_acceptance(&gate));
    assert!(!subagent_policy_drift_requires_acceptance(&new_object()));
}

#[test]
fn direct_finish_only_for_terminal_without_pending_completion() {
    let empty = new_object();
    let run = obj(vec![("status", jstr("completed"))]);
    let d = decide(&run, &empty, &empty, &empty, "advance", false, false, 0);
    let c = create_captain_action_contract(&empty, &d);
    assert_eq!(c.bool_field("direct_finish_allowed"), Some(true));
    assert_eq!(c.bool_field("direct_mutation_allowed"), Some(false));
    assert_eq!(c.str_at(&["direct_file_mutation_policy", "required_action"]), Some("report_terminal_status"));
    let task = obj(vec![(
        "completion_discipline",
        obj(vec![("documented_completion_requested", Json::Bool(true))]),
    )]);
    let c = create_captain_action_contract(&task, &d);
    assert_eq!(c.bool_field("direct_finish_allowed"), Some(false));
    assert_eq!(c.bool_field("completion_required"), Some(true));
    let d = decide(&running(), &empty, &empty, &empty, "advance", true, false, 0);
    let c = create_captain_action_contract(&empty, &d);
    assert_eq!(c.bool_field("direct_finish_allowed"), Some(false));
    let c = create_captain_action_contract(&empty, &new_object());
    assert_eq!(c.str_field("allowed_action"), Some("captain_advance"));
    assert_eq!(c.str_field("required_action"), Some("ccc_orchestrate"));
}

#[test]
fn state_contract_transitions_follow_precedence() {
    let empty = new_object();
    let run = obj(vec![("status", jstr("failed"))]);
    let d = decide(&run, &empty, &empty, &empty, "advance", false, false, 0);
    let c = create_captain_action_contract(&empty, &d);
    let s = create_state_contract_payload(&empty, "advance", false, &c, &d);
    match s.get("allowed_next_transitions") {
        Some(Json::Array(items)) => {
            assert_eq!(items.len(), 1);
            assert_eq!(items[0].as_str(), Some("report_terminal_status"));
        },
        _ => panic!("transitions missing"),
    }
    assert_eq!(s.str_field("captain_allowed_action"), Some("finish_allowed"));
    let s = create_state_contract_payload(&empty, "x", false, &empty, &new_object());
    assert_eq!(s.str_field("state"), Some("decision_pending"));
    match s.get("allowed_next_transitions") {
        Some(Json::Array(items)) => assert_eq!(items.len(), 5),
        _ => panic!("transitions missing"),
    }
}

fn rows() -> Json {
    Json::Array(vec![
        obj(vec![("status", jstr("planned")), ("task_card_id", jstr("  "))]),
        obj(vec![("status", jstr("planned")), ("task_card_id", jstr("tc-2"))]),
        obj(vec![("status", jstr("merged"))]),
        obj(vec![("status", jstr("planned")), ("title", jstr("third"))]),
    ])
}

#[test]
fn planned_row_counts_and_next_pending() {
    let longway = obj(vec![("planned_rows", rows())]);
    assert_eq!(count_planned_rows_with_status(&longway, "planned"), 3);
    assert_eq!(count_materialized_or_completed_planned_rows(&longway), 2);
    let next = next_pending_planned_row(&longway);
    assert_eq!(next.str_field("task_card_id"), Some("  "));
    assert_eq!(count_planned_rows_with_status(&new_object(), "planned"), 0);
    assert!(next_pending_planned_row(&new_object()).is_null());
}

#[test]
fn scheduler_source_state_and_action() {
    let fanout = obj(vec![("parallel_fanout", obj(vec![]))]);
    assert_eq!(scheduler_decision_source(&fanout, "advance", false), "bounded_parallel_fanout");
    assert_eq!(scheduler_decision_source(&new_object(), "await_fan_in", false), "fan_in_barrier");
    assert_eq!(
        scheduler_decision_source(&new_object(), "advance", false),
        "approved_longway_task_cards"
    );
    assert_eq!(scheduler_state(&jstr("failed"), "advance", true, true, &fanout), "terminal");
    assert_eq!(scheduler_state(&Json::Null, "advance", false, false, &fanout), "parallel");
    assert_eq!(scheduler_state(&Json::Null, "zzz", false, false, &new_object()), "checkpoint");

    let empty = new_object();
    let run = obj(vec![("status", jstr("completed"))]);
    let d = decide(&run, &empty, &empty, &empty, "advance", false, false, 0);
    let a = scheduler_status_action("terminal", "approved_longway_task_cards", "advance", false, false, &empty, &d);
    assert_eq!(a.str_field("kind"), Some("terminal"));
    assert_eq!(a.str_field("captain_decision_precedence"), Some("terminal"));
    let a = scheduler_status_action("parallel", "bounded_parallel_fanout", "advance", false, true, &empty, &d);
    assert_eq!(a.str_field("kind"), Some("parallel_fan_in_ready"));
}

#[test]
fn selected_row_is_sanitized() {
    let row = obj(vec![
        ("routing_summary", jstr("  short   summary  ")),
        (
            "routing_trace",
            obj(vec![("category", jstr("docs")), ("agent", jstr(" scribe "))]),
        ),
    ]);
    let s = sanitize_scheduler_selected_planned_row(&row);
    assert_eq!(s.str_field("routing_summary"), Some("short summary"));
    assert_eq!(s.str_at(&["routing_trace", "selected_category"]), Some("docs"));
    assert_eq!(s.str_at(&["routing_trace", "selected_agent_id"]), Some("scribe"));
    let bare = obj(vec![("routing_trace", obj(vec![("unused", jstr("x"))])), ("id", jstr("r"))]);
    let s = sanitize_scheduler_selected_planned_row(&bare);
    assert!(s.get("routing_trace").is_none());
    assert_eq!(s.str_field("id"), Some("r"));
    assert_eq!(sanitize_scheduler_selected_planned_row(&jstr("x")).as_str(), Some("x"));
}

#[test]
fn scheduler_status_payload_summarizes_rows_and_blocking() {
    let empty = new_object();
    let run = obj(vec![("status", jstr("running")), ("active_task_card_id", jstr("tc-9"))]);
    let longway = obj(vec![("planned_rows", rows())]);
    let d = decide(&run, &longway, &empty, &empty, "await_longway_approval", false, false, 0);
    let c = create_captain_action_contract(&empty, &d);
    let s = create_scheduler_status_payload(
        &run,
        &longway,
        &empty,
        &empty,
        &c,
        &d,
        "await_longway_approval",
        false,
        false,
        Json::Null,
    );
    assert_eq!(s.str_field("state"), Some("blocked"));
    assert_eq!(s.str_field("decision_source"), Some("pending_longway_approval"));
    assert_eq!(s.str_field("selected_task_card_id"), Some("tc-9"));
    assert_eq!(s.get_path(&["planned_rows", "total"]).and_then(|v| v.as_u64()), Some(4));
    assert_eq!(s.get_path(&["planned_rows", "planned"]).and_then(|v| v.as_u64()), Some(3));
    assert_eq!(s.get_path(&["blocked", "blocked"]).and_then(|v| v.as_bool()), Some(true));
    assert_eq!(
        s.str_at(&["blocked", "reason"]),
        Some("PLAN_SEQUENCE is waiting for explicit LongWay approval before executable task dispatch.")
    );
    assert_eq!(s.str_at(&["action", "kind"]), Some("await_longway_approval"));
    assert!(s.get("latest_transition").map(|v| v.is_null()).unwrap_or(false));
    assert_eq!(s.get_path(&["parallel", "candidate_count"]).and_then(|v| v.as_u64()), Some(0));
}
