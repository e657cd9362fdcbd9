use ccc_mcp::config_apply::{unavailable_entry_policy_mode_visibility, CccConfigApplyReport};
use ccc_mcp::json::{jstr, new_object, Json};
use ccc_mcp::status_templates::{
    compact_captain_action_contract, compact_graph_context_readiness, compact_routing_trace,
    create_status_command_templates_payload, default_direct_file_mutation_policy,
};

fn obj(members: Vec<(&str, Json)>) -> Json {
    let mut o = new_object();
    for (k, v) in members {
        o.insert(k, v);
    }
    o
}

fn templates(payload: &Json) -> Json {
    create_status_command_templates_payload(
        payload,
        &obj(vec![("task_card_id", jstr("tc-1"))]),
        obj(vec![("transport", jstr("cli"))]),
        "run-7",
        &jstr("child-1"),
        jstr("raider-a"),
        Json::Array(vec![jstr("raider-a"), jstr("raider-b")]),
    )
}

#[test]
fn status_and_checklist_commands_name_the_run() {
    let payload = obj(vec![("run_id", jstr("run-7")), ("cwd", jstr("/w"))]);
    let t = templates(&payload);
    assert_eq!(
        t.str_at(&["status", "command"]),
        Some("ccc status --quiet --json '{\"run_id\":\"run-7\"}'")
    );
    assert_eq!(
        t.str_at(&["checklist", "longway_text_command"]),
        Some("ccc checklist --projection --json '{\"run_id\":\"run-7\"}'")
    );
    assert_eq!(t.str_at(&["checklist", "payload", "run_id"]), Some("run-7"));
    assert_eq!(t.str_at(&["graph", "payload", "cwd"]), Some("/w"));
    assert_eq!(t.str_at(&["operator_transport", "transport"]), Some("cli"));
}

#[test]
fn subagent_update_template_carries_lane_and_task() {
    let t = templates(&obj(vec![("run_id", jstr("run-7"))]));
    assert_eq!(t.str_at(&["subagent_update", "payload", "task_card_id"]), Some("tc-1"));
    assert_eq!(t.str_at(&["subagent_update", "payload", "child_agent_id"]), Some("child-1"));
    assert_eq!(t.str_at(&["subagent_update", "payload", "lane_id"]), Some("raider-a"));
    assert_eq!(
        t.get_path(&["subagent_update", "payload", "intervention_fields_when_unsatisfactory", "budget_snapshot", "retry", "remaining"])
            .and_then(|v| v.as_u64()),
        Some(1)
    );
    assert_eq!(
        t.str_at(&["subagent_update", "payload", "lane_payload_template", "confidence"]),
        Some("<low|medium|high>")
    );
}

#[test]
fn session_rollover_defaults() {
    let t = templates(&new_object());
    assert_eq!(t.str_at(&["session_rollover", "recommended_action"]), Some("continue"));
    assert!(t.get_path(&["session_rollover", "checkpoint_command"]).map(|v| v.is_null()).unwrap_or(false));
    assert!(t.get_path(&["session_rollover", "operator_choices"]).map(|v| v.is_array()).unwrap_or(false));
    assert!(t.get_path(&["orchestrate", "payload", "run_id"]).map(|v| v.is_null()).unwrap_or(false));
    let payload = obj(vec![(
        "long_session_mitigation",
        obj(vec![("recommended_action", jstr("rollover")), ("resume_command", jstr("ccc resume"))]),
    )]);
    let t = templates(&payload);
    assert_eq!(t.str_at(&["session_rollover", "recommended_action"]), Some("rollover"));
    assert_eq!(t.str_at(&["session_rollover", "resume_command"]), Some("ccc resume"));
}

#[test]
fn captain_contract_gets_default_mutation_policy() {
    let payload = obj(vec![("captain_action_contract", obj(vec![("allowed_action", jstr("x"))]))]);
    let c = compact_captain_action_contract(&payload);
    assert_eq!(c.str_field("allowed_action"), Some("x"));
    assert_eq!(
        c.str_at(&["direct_file_mutation_policy", "required_action"]),
        Some("spawn_or_record_specialist")
    );
    let kept = obj(vec![(
        "captain_action_contract",
        obj(vec![("direct_file_mutation_policy", jstr("custom"))]),
    )]);
    assert_eq!(
        compact_captain_action_contract(&kept).str_field("direct_file_mutation_policy"),
        Some("custom")
    );
    assert!(compact_captain_action_contract(&new_object()).is_null());
    let p = default_direct_file_mutation_policy();
    assert_eq!(p.bool_field("allowed"), Some(false));
    assert_eq!(p.bool_field("operator_override_required"), Some(true));
}

#[test]
fn routing_trace_is_bounded() {
    let long_reason = "word ".repeat(100);
    let trace = obj(vec![
        ("source", jstr("  router ")),
        ("risk", jstr("   ")),
        ("rationale", jstr(&long_reason)),
    ]);
    let c = compact_routing_trace(&trace);
    assert_eq!(c.str_field("source"), Some("router"));
    assert!(c.get("risk").is_none());
    let reason = c.str_field("reason").unwrap();
    assert_eq!(reason.chars().count(), 240);
    assert!(reason.ends_with("..."));
    assert!(compact_routing_trace(&obj(vec![("other", jstr("x"))])).is_null());
    assert!(compact_routing_trace(&jstr("x")).is_null());
}

#[test]
fn graph_context_readiness_defaults() {
    assert!(compact_graph_context_readiness(&new_object()).is_null());
    let payload = obj(vec![(
        "graph_context",
        obj(vec![
            ("provider", jstr("graphify")),
            ("artifacts", obj(vec![("report", obj(vec![("available", Json::Bool(true))]))])),
        ]),
    )]);
    let r = compact_graph_context_readiness(&payload);
    assert_eq!(r.str_field("schema"), Some("ccc.graph_context_readiness.status.v1"));
    assert_eq!(r.str_field("provider"), Some("graphify"));
    assert_eq!(r.get_path(&["artifacts", "report"]).and_then(|v| v.as_bool()), Some(true));
    assert_eq!(r.get_path(&["artifacts", "graph"]).and_then(|v| v.as_bool()), Some(false));
    assert_eq!(r.bool_field("stale"), Some(false));
}

#[test]
fn config_apply_report_records_backup() {
    let mut report = CccConfigApplyReport::not_required();
    assert_eq!(report.backup_status, "not-required");
    assert!(report.backup_path.is_none());
    report.record_backup("/c/ccc-config.toml", "/c/ccc-config.toml.bak".to_string());
    assert_eq!(report.backup_status, "created");
    assert_eq!(report.backup_source_path.as_deref(), Some("/c/ccc-config.toml"));
    assert_eq!(report.backup_path.as_deref(), Some("/c/ccc-config.toml.bak"));
    let v = unavailable_entry_policy_mode_visibility();
    assert_eq!(v.status, "unavailable");
    assert!(v.raw_mode.is_none());
}
