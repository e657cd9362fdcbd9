use ccc_mcp::json::{jbool, jint, jstr, new_object, Json};
use ccc_mcp::status_payload::{create_ccc_status_payload_from_documents, StatusDocuments};

fn obj(members: Vec<(&str, Json)>) -> Json {
    let mut o = new_object();
    for (k, v) in members {
        o.insert(k, v);
    }
    o
}

fn documents() -> StatusDocuments {
    StatusDocuments {
        cwd: "/work".to_string(),
        run_id: "located-run".to_string(),
        run_file: "/work/.ccc/runs/r/run.json".to_string(),
        run_directory: "/work/.ccc/runs/r".to_string(),
        run_ref: "ccc-run:r".to_string(),
        run_record: obj(vec![
            ("run_id", jstr("run-1")),
            ("goal", jstr("Ship it")),
            ("status", jstr("active")),
            ("task_card_ids", Json::Array(vec![jstr("a"), jstr("b")])),
        ]),
        orchestrator_state: None,
        shared_config: None,
        runtime_config: new_object(),
        current_task_card: Json::Null,
        longway: Json::Null,
        run_state: Json::Null,
        worker_visibility: Json::Null,
        token_usage: Json::Null,
        latest_delegate_result: Json::Null,
        host_subagent_state: Json::Null,
        long_session_mitigation: Json::Null,
        subagent_fallback_ready: false,
        captain_direct_mutation_guard: Json::Null,
        graph_context: Json::Null,
        code_graph: Json::Null,
        memory: Json::Null,
        lifecycle_hooks: Json::Null,
        latest_transition: Json::Null,
        output: Json::Null,
        output_verbosity: "default".to_string(),
        server_identity: Json::Null,
        session_id: "s-1".to_string(),
        process_id: 7,
        started_at: "t0".to_string(),
    }
}

#[test]
fn status_payload_copies_the_run_record_and_defaults_to_advance() {
    let p = create_ccc_status_payload_from_documents(&documents());
    assert_eq!(p.str_field("cwd"), Some("/work"));
    assert_eq!(p.str_field("run_id"), Some("run-1"));
    assert_eq!(p.str_field("goal"), Some("Ship it"));
    assert_eq!(p.str_field("operator_language"), Some("en"));
    assert_eq!(p.get("task_card_count").unwrap().as_u64(), Some(2));
    assert_eq!(p.get("child_agent_count").unwrap().as_u64(), Some(0));
    assert!(p.get("stage").unwrap().is_null());
    assert_eq!(p.str_field("next_step"), Some("advance"));
    assert_eq!(p.get("can_advance").unwrap().as_bool(), Some(true));
    assert_eq!(p.str_at(&["run_truth_surface", "resume_action"]), Some("advance"));
    assert_eq!(p.str_field("output_verbosity"), Some("default"));
    assert!(p.get("task_session_state").unwrap().is_null());
    assert_eq!(p.str_field("visibility_signature").map(|s| s.len()), Some(16));
    assert!(p.get("cost_routing").is_some());
    assert!(p.get("app_panel").is_some());
}

#[test]
fn status_payload_uses_the_run_state_step_when_no_decision() {
    let mut d = documents();
    d.run_state = obj(vec![("next_action", obj(vec![("command", jstr("plan"))]))]);
    let p = create_ccc_status_payload_from_documents(&d);
    assert_eq!(p.str_field("next_step"), Some("plan"));
    assert_eq!(p.get("can_advance").unwrap().as_bool(), Some(false));
    assert_eq!(p.str_at(&["run_truth_surface", "resume_action"]), Some("plan"));
    assert_eq!(p.get_path(&["run_truth_surface", "fan_in_ready"]).unwrap().as_bool(), Some(false));
}

#[test]
fn status_payload_reports_fan_in_ready_when_workers_finish() {
    let mut d = documents();
    d.orchestrator_state = Some(obj(vec![
        ("decision", obj(vec![("next_step", jstr("await_fan_in"))])),
        ("mutation_evidence_gate", jstr("required")),
    ]));
    d.worker_visibility = obj(vec![("total_worker_count", jint(2)), ("active_worker_count", jint(0))]);
    let p = create_ccc_status_payload_from_documents(&d);
    assert_eq!(p.str_field("next_step"), Some("await_fan_in"));
    assert_eq!(p.get_path(&["run_truth_surface", "fan_in_ready"]).unwrap().as_bool(), Some(true));
    assert_eq!(p.get("can_advance").unwrap().as_bool(), Some(true));
    assert_eq!(p.str_at(&["run_truth_surface", "resume_action"]), Some("advance"));
    assert_eq!(p.get_path(&["run_truth_surface", "worker_total"]).unwrap().as_u64(), Some(2));
    assert_eq!(p.str_field("mutation_evidence_gate"), Some("required"));
}

#[test]
fn status_payload_waits_while_workers_are_active() {
    let mut d = documents();
    d.orchestrator_state = Some(obj(vec![("current_decision", obj(vec![("next_step", jstr("await_fan_in"))]))]));
    d.worker_visibility = obj(vec![("total_worker_count", jint(2)), ("active_worker_count", jint(1))]);
    let p = create_ccc_status_payload_from_documents(&d);
    assert_eq!(p.get("can_advance").unwrap().as_bool(), Some(false));
    assert_eq!(p.str_at(&["run_truth_surface", "resume_action"]), Some("await_fan_in"));
}

#[test]
fn status_payload_execution_strategy_blocks_exec_fallback_while_subagents_are_available() {
    let mut d = documents();
    d.current_task_card = obj(vec![
        ("task_card_id", jstr("card-1")),
        ("delegation_plan", obj(vec![("subagent_available", jbool(true))])),
    ]);
    d.run_record.insert("active_task_card_id", jstr("card-1"));
    let p = create_ccc_status_payload_from_documents(&d);
    let s = p.get("execution_strategy").unwrap();
    assert_eq!(s.str_field("preferred_specialist_execution_mode"), Some("codex_subagent"));
    assert_eq!(s.str_field("fallback_specialist_execution_mode"), Some("codex_exec"));
    assert_eq!(s.get("codex_exec_fallback_allowed").unwrap().as_bool(), Some(false));
    assert_eq!(s.get("subagent_fallback_recorded").unwrap().as_bool(), Some(false));
    d.subagent_fallback_ready = true;
    let q = create_ccc_status_payload_from_documents(&d);
    assert_eq!(q.get_path(&["execution_strategy", "codex_exec_fallback_allowed"]).unwrap().as_bool(), Some(true));
    assert_eq!(q.str_at(&["task_session_state", "internal_session", "session_id"]), Some("s-1"));
}
