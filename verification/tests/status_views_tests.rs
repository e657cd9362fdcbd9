use ccc_mcp::app_panel_html::create_codex_app_panel_resource_html;
use ccc_mcp::json::{jstr, new_object, Json};
use ccc_mcp::routing_trace::{
    bounded_planned_row_planning_detail, bounded_status_routing_summary,
    bounded_status_routing_trace, sanitize_longway_planned_row,
};
use ccc_mcp::run_checkpoint::{
    append_bounded_strings, checkpoint_late_output_payload, create_active_checkpoint_payload,
    create_context_health_payload, create_delegated_ownership_payload,
    create_registry_evidence_status_payload, create_restart_handoff_payload,
    create_verification_capsule_payload, summarize_checkpoint_text,
};
use ccc_mcp::run_health::{
    active_conflict_state, bounded_string_array, count_string_array, create_recovery_lane_payload,
};
use ccc_mcp::status_truth::{
    create_ccc_status_truth_fallback_fields, create_graph_context_status_payload,
    create_operator_visible_transport_guidance, normalize_graph_context_status_fallback,
    operator_language_from_run_record, primary_non_null_or_fallback_payload,
};
use ccc_mcp::task_lifecycle::{
    first_non_empty_string, phase_row_lifecycle_unit_labels, phase_row_task_item_unit_labels,
    task_card_lifecycle_details, task_card_lifecycle_owner, task_card_lifecycle_unit_labels,
};
use ccc_mcp::workflow_loop::{create_workflow_loop_payload, workflow_current_stage};

fn obj(members: Vec<(&str, Json)>) -> Json {
    let mut o = new_object();
    for (k, v) in members {
        o.insert(k, v);
    }
    o
}

fn strs(items: Vec<&str>) -> Json {
    Json::Array(items.into_iter().map(jstr).collect())
}

fn array_len(j: Option<&Json>) -> Option<usize> {
    match j {
        Some(Json::Array(items)) => Some(items.len()),
        _ => None,
    }
}

#[test]
fn conflicts_block_on_attention_or_drift() {
    let host = obj(vec![
        ("active_subagent_count", Json::Int(2)),
        ("recovery_recommendation", obj(vec![("needs_operator_attention", Json::Bool(true))])),
    ]);
    let c = active_conflict_state(&host, &new_object());
    assert_eq!(c.bool_field("blocked"), Some(true));
    assert_eq!(c.i64_field("active_subagent_count"), Some(2));
    assert_eq!(c.str_field("assignment_drift_severity"), Some("none"));
    let task = obj(vec![(
        "assignment_quality",
        obj(vec![("state", jstr("mismatch")), ("drift_severity", jstr("info"))]),
    )]);
    let c = active_conflict_state(&new_object(), &task);
    assert_eq!(c.bool_field("assignment_drift"), Some(true));
    assert_eq!(c.bool_field("blocked"), Some(false));
    let task = obj(vec![("assignment_quality", obj(vec![("state", jstr("mismatch"))]))]);
    assert_eq!(active_conflict_state(&new_object(), &task).str_field("assignment_drift_severity"), Some("blocking"));
    assert_eq!(active_conflict_state(&new_object(), &task).bool_field("blocked"), Some(true));
}

#[test]
fn recovery_lane_statuses() {
    let lane = create_recovery_lane_payload(&new_object());
    assert_eq!(lane.str_field("status"), Some("clear"));
    assert_eq!(lane.str_field("summary"), Some("No host subagent recovery action is currently needed."));
    let host = obj(vec![
        (
            "recovery_recommendation",
            obj(vec![
                ("recommended_action", jstr("reclaim")),
                ("targets", strs(vec!["a", "b", "c", "d", "e"])),
                ("summary", jstr("  lane stalled  ")),
            ]),
        ),
        ("reclaim_replan_recommendation", obj(vec![("recommended_action", jstr("await_fan_in_or_replan"))])),
    ]);
    let lane = create_recovery_lane_payload(&host);
    assert_eq!(lane.str_field("status"), Some("reclaim_pending"));
    assert_eq!(lane.i64_field("target_count"), Some(5));
    assert_eq!(array_len(lane.get("targets")), Some(4));
    assert_eq!(lane.str_field("summary"), Some("lane stalled"));
    let watching = obj(vec![(
        "reclaim_replan_recommendation",
        obj(vec![("recommended_action", jstr("await_fan_in_or_replan"))]),
    )]);
    assert_eq!(create_recovery_lane_payload(&watching).str_field("status"), Some("watching"));
}

#[test]
fn bounded_strings_are_trimmed_and_limited() {
    let v = strs(vec![" a ", "", "b", "c"]);
    let out = bounded_string_array(Some(&v), 2, 10);
    assert_eq!(out.len(), 2);
    assert_eq!(out[0].as_str(), Some("a"));
    assert_eq!(out[1].as_str(), Some("b"));
    assert_eq!(bounded_string_array(Some(&jstr("  x ")), 5, 10)[0].as_str(), Some("x"));
    assert!(bounded_string_array(Some(&Json::Int(1)), 5, 10).is_empty());
    assert_eq!(count_string_array(Some(&v)), 3);
    assert_eq!(count_string_array(None), 0);
    let mut output = vec![jstr("a")];
    append_bounded_strings(&mut output, Some(&v), 6, 10);
    assert_eq!(output.len(), 3);
}

#[test]
fn verification_capsule_collects_unique_evidence() {
    let task = obj(vec![
        ("acceptance", jstr("  tests pass ")),
        ("evidence_links", strs(vec!["src/a.rs:1"])),
        ("subagent_fan_in", obj(vec![
            ("evidence_paths", strs(vec!["src/a.rs:1", "src/b.rs:2"])),
            ("open_questions", strs(vec!["why?"])),
        ])),
        ("review_fan_in", obj(vec![("status", jstr("passed")), ("checks", strs(vec!["cargo test"]))])),
    ]);
    let c = create_verification_capsule_payload(&task);
    assert_eq!(c.str_field("acceptance"), Some("tests pass"));
    assert_eq!(c.get_path(&["evidence", "count"]).and_then(|v| v.as_u64()), Some(2));
    assert_eq!(c.str_field("reviewer_verdict"), Some("passed"));
    assert_eq!(c.get_path(&["validation", "count"]).and_then(|v| v.as_u64()), Some(1));
    assert_eq!(c.get_path(&["unresolved_risk", "count"]).and_then(|v| v.as_u64()), Some(1));
    assert!(create_verification_capsule_payload(&jstr("x")).is_null());
    assert!(summarize_checkpoint_text(Some(&jstr("  ")), 10).is_null());
}

#[test]
fn delegated_ownership_and_repeat_guard() {
    let task = obj(vec![
        ("routing_trace", obj(vec![("mutation_intent", jstr("code_write")), ("paths", strs(vec!["src"]))])),
        ("subagent_lifecycle", obj(vec![("status", jstr("running")), ("child_agent_id", jstr("c1"))])),
        ("captain_intervention", obj(vec![("chosen_next_action", jstr("reclaim"))])),
    ]);
    let o = create_delegated_ownership_payload(&task);
    assert_eq!(o.get_path(&["mutation_ownership", "active"]).and_then(|v| v.as_bool()), Some(true));
    assert_eq!(o.str_at(&["owner", "child_agent_id"]), Some("c1"));
    assert_eq!(o.str_at(&["owner", "status"]), Some("running"));
    assert_eq!(o.get_path(&["repeat_guard", "reclaim_recorded"]).and_then(|v| v.as_bool()), Some(true));
    assert_eq!(o.get_path(&["repeat_guard", "stale_output_recorded"]).and_then(|v| v.as_bool()), Some(false));
}

#[test]
fn late_output_uses_the_last_entry() {
    let task = obj(vec![(
        "late_subagent_output",
        Json::Array(vec![obj(vec![("status", jstr("old"))]), obj(vec![("summary", jstr(" late "))])]),
    )]);
    let l = checkpoint_late_output_payload(&task);
    assert_eq!(l.i64_field("count"), Some(2));
    assert_eq!(l.str_field("state"), Some("recorded"));
    assert_eq!(l.str_field("summary"), Some("late"));
    let none = checkpoint_late_output_payload(&new_object());
    assert_eq!(none.str_field("state"), Some("none"));
    assert_eq!(none.i64_field("count"), Some(0));
}

#[test]
fn registry_evidence_falls_back_to_runtime_dispatch() {
    let task = obj(vec![
        ("assigned_agent_id", jstr("scout")),
        (
            "delegation_plan",
            obj(vec![(
                "runtime_dispatch",
                obj(vec![("skill_registry", obj(vec![("status", jstr("available"))]))]),
            )]),
        ),
    ]);
    let r = create_registry_evidence_status_payload(&task);
    assert_eq!(r.str_field("agent_name"), Some("scout"));
    assert_eq!(r.str_field("status"), Some("available"));
    assert_eq!(r.bool_field("advisory_only"), Some(true));
    assert!(create_registry_evidence_status_payload(&new_object()).is_null());
}

#[test]
fn restart_is_needed_exactly_when_rollover_is_recommended() {
    let empty = new_object();
    for recommended in [true, false] {
        let mitigation = obj(vec![("recommended", Json::Bool(recommended))]);
        let health = create_context_health_payload("run-1", "advance", true, &empty, &empty, &empty, &mitigation, &empty);
        let handoff = create_restart_handoff_payload("run-1", "ref", &empty, &empty, &health, &mitigation);
        assert_eq!(handoff.bool_field("restart_needed"), Some(recommended));
        assert_eq!(handoff.bool_field("automatic_restart"), Some(false));
        assert_eq!(handoff.str_field("resume_command"), Some("$cap continue run-1"));
    }
    let mitigation = new_object();
    let health = create_context_health_payload("r", "advance", true, &empty, &empty, &empty, &mitigation, &empty);
    assert_eq!(health.str_field("status"), Some("ok"));
    assert_eq!(health.str_field("safe_action"), Some("captain_advance"));
    assert_eq!(health.str_field("recommended_rollover_action"), Some("continue"));
}

#[test]
fn active_checkpoint_summarizes_delegated_work() {
    let run = obj(vec![("status", jstr("active")), ("approval_state", jstr("pending_x"))]);
    let task = obj(vec![("task_card_id", jstr("tc")), ("title", jstr(" T "))]);
    let truth = obj(vec![("worker_total", Json::Int(3)), ("worker_active", Json::Int(1))]);
    let empty = new_object();
    let c = create_active_checkpoint_payload("run-1", &run, &task, &truth, &empty, &empty, &empty, "advance");
    assert_eq!(c.str_at(&["delegated_work", "summary"]), Some("workers=1/3 host_subagents=0/0"));
    assert_eq!(c.get_path(&["pending_approval", "pending"]).and_then(|v| v.as_bool()), Some(true));
    assert_eq!(c.str_field("title"), Some("T"));
    assert_eq!(c.str_field("continuation_command"), Some("$cap continue run-1"));
    assert_eq!(c.str_field("resume_action"), Some("advance"));
    let idle = obj(vec![("status", jstr("completed"))]);
    assert!(create_active_checkpoint_payload("r", &idle, &task, &truth, &empty, &empty, &empty, "x").is_null());
}

#[test]
fn task_routing_traces_are_bounded() {
    let task = obj(vec![
        ("routing_summary", jstr("  summary  ")),
        (
            "routing_trace",
            obj(vec![
                ("kind", jstr("search")),
                ("path", jstr("src/lib.rs")),
                ("companion_route_enforced", Json::Bool(true)),
            ]),
        ),
    ]);
    assert_eq!(bounded_status_routing_summary(&task).and_then(|v| v.as_str().map(|s| s.to_string())), Some("summary".to_string()));
    let t = bounded_status_routing_trace(&task, "task_card").unwrap();
    assert_eq!(t.str_field("source"), Some("task_card"));
    assert_eq!(t.str_field("query"), Some("search"));
    assert_eq!(array_len(t.get("paths")), Some(1));
    assert_eq!(t.bool_field("companion_route_enforced"), Some(true));
    let only_source = obj(vec![("routing_trace", obj(vec![("source", jstr("router"))]))]);
    assert!(bounded_status_routing_trace(&only_source, "x").is_none());
}

#[test]
fn longway_rows_get_planning_detail() {
    let row = obj(vec![
        ("status", jstr("materialized")),
        ("scope", jstr(" docs ")),
        ("evidence_links", strs(vec!["a", "b"])),
        ("routing_trace", obj(vec![("nothing", jstr("x"))])),
    ]);
    let d = bounded_planned_row_planning_detail(&row);
    assert_eq!(d.str_field("lifecycle"), Some("materialized"));
    assert_eq!(d.str_field("scope"), Some("docs"));
    assert_eq!(d.i64_field("evidence_count"), Some(2));
    let s = sanitize_longway_planned_row(&row);
    assert!(s.get("routing_trace").is_none());
    assert_eq!(s.str_at(&["planning_detail", "lifecycle"]), Some("materialized"));
    let planned = bounded_planned_row_planning_detail(&new_object());
    assert_eq!(planned.str_field("lifecycle"), Some("planned"));
}

#[test]
fn truth_fallbacks_and_graph_context() {
    let run = obj(vec![("prompt_refinement", Json::Null), ("review_policy", jstr("run"))]);
    let longway = obj(vec![("prompt_refinement", jstr("longway"))]);
    let task = obj(vec![("review_policy", Json::Null)]);
    let f = create_ccc_status_truth_fallback_fields(&run, &task, &longway);
    assert_eq!(f.prompt_refinement.as_str(), Some("longway"));
    assert_eq!(f.review_policy.as_str(), Some("run"));
    assert!(f.way_clarification_request.is_null());
    assert!(primary_non_null_or_fallback_payload(&new_object(), "a", &new_object(), "b").is_null());
    let g = normalize_graph_context_status_fallback(obj(vec![
        ("readiness", jstr("partial")),
        ("artifacts", obj(vec![("graph", obj(vec![("available", Json::Bool(true))]))])),
    ]));
    assert_eq!(g.str_field("artifact_state"), Some("partial"));
    assert_eq!(g.str_field("fallback"), Some("scout_source_evidence"));
    let ready = normalize_graph_context_status_fallback(obj(vec![("readiness", jstr("available"))]));
    assert!(ready.get("fallback").is_none());
    assert_eq!(ready.str_field("artifact_state"), Some("missing"));
    let err = create_graph_context_status_payload(Err("disk".to_string()));
    assert_eq!(err.str_field("summary"), Some("Graphify graph_context readiness could not be inspected: disk."));
    assert_eq!(operator_language_from_run_record(&obj(vec![("title", jstr("작업"))])), "ko");
    assert_eq!(operator_language_from_run_record(&obj(vec![("title", jstr("task"))])), "en");
    let t = create_operator_visible_transport_guidance();
    assert_eq!(t.str_field("preferred_transport"), Some("ccc_cli_quiet_subcommand"));
}

#[test]
fn lifecycle_details_prefer_lanes() {
    let task = obj(vec![
        ("subagent_lifecycle", obj(vec![("status", jstr(" running ")), ("child_agent_id", jstr("owner-1"))])),
        (
            "parallel_fanout",
            obj(vec![(
                "lanes",
                Json::Array(vec![
                    obj(vec![("lane_id", jstr("raider-a")), ("lifecycle", obj(vec![("status", jstr("completed"))])), ("fan_in", obj(vec![("evidence_paths", strs(vec!["x"])), ("confidence", jstr(" high "))]))]),
                    obj(vec![("lane_id", jstr("raider-b"))]),
                ]),
            )]),
        ),
    ]);
    let d = task_card_lifecycle_details(&task);
    assert_eq!(d.len(), 1);
    assert_eq!(d[0].str_field("label"), Some("raider-a"));
    assert_eq!(d[0].str_field("child_agent_id"), Some("owner-1"));
    assert_eq!(d[0].i64_field("evidence_count"), Some(1));
    assert_eq!(d[0].str_field("confidence"), Some("high"));
    assert_eq!(task_card_lifecycle_owner(&task), Some("owner-1".to_string()));
    let labels = task_card_lifecycle_unit_labels(&task);
    assert_eq!(labels, vec!["raider-a:owner-1".to_string(), "raider-b:owner-1".to_string()]);
    let plain = obj(vec![
        ("task_card_id", jstr("tc 1")),
        ("review_lifecycle", obj(vec![("status", jstr("passed"))])),
    ]);
    let d = task_card_lifecycle_details(&plain);
    assert_eq!(d.len(), 1);
    assert_eq!(d[0].str_field("label"), Some("review"));
    assert!(task_card_lifecycle_unit_labels(&plain).is_empty());
}

#[test]
fn unit_labels_of_phases() {
    let phase = obj(vec![(
        "task_items",
        Json::Array(vec![
            obj(vec![("title", jstr("fix bug")), ("owner", jstr("raider"))]),
            obj(vec![("title", jstr("fix bug")), ("agent_id", jstr("raider"))]),
            obj(vec![("title", jstr("no owner"))]),
        ]),
    )]);
    assert_eq!(phase_row_task_item_unit_labels(&phase), vec!["fix_bug:raider".to_string()]);
    let sync = obj(vec![("task_unit_labels", strs(vec![" a:b ", "", "c:d"]))]);
    assert_eq!(phase_row_lifecycle_unit_labels(&sync), vec!["a:b".to_string(), "c:d".to_string()]);
    assert_eq!(first_non_empty_string(&obj(vec![("a", jstr(" ")), ("b", jstr(" x "))]), &["a", "b"]), Some("x".to_string()));
}

#[test]
fn workflow_loop_marks_stages() {
    let task = obj(vec![
        ("assigned_role", jstr("Explorer")),
        ("subagent_lifecycle", obj(vec![("status", jstr("running"))])),
    ]);
    let empty = new_object();
    assert_eq!(workflow_current_stage(&task, &empty, &empty, &empty, &empty), "exploration");
    let w = create_workflow_loop_payload(&task, &empty, &empty, &empty, &empty);
    assert_eq!(w.str_field("current_stage"), Some("exploration"));
    match w.get("stages") {
        Some(Json::Array(stages)) => {
            assert_eq!(stages.len(), 6);
            assert_eq!(stages[1].str_field("status"), Some("completed"));
            assert_eq!(stages[2].str_field("status"), Some("active"));
            assert_eq!(stages[3].str_field("status"), Some("pending"));
        },
        _ => panic!("stages missing"),
    }
    let verified = obj(vec![("verification_state", jstr("passed"))]);
    assert_eq!(workflow_current_stage(&verified, &empty, &empty, &empty, &empty), "verification");
    assert_eq!(create_workflow_loop_payload(&verified, &empty, &empty, &empty, &empty).str_field("status"), Some("completed"));
    assert!(create_workflow_loop_payload(&jstr("x"), &Json::Null, &empty, &empty, &empty).is_null());
    assert_eq!(workflow_current_stage(&empty, &empty, &Json::Null, &empty, &empty), "requirements_understanding");
    assert_eq!(workflow_current_stage(&empty, &empty, &empty, &empty, &empty), "planning");
}

#[test]
fn app_panel_page_is_html() {
    let html = create_codex_app_panel_resource_html();
    assert!(html.starts_with("<!doctype html>"));
    assert!(html.contains("CCC LongWay Panel"));
}
