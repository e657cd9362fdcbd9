use ccc_mcp::current_task_card::create_current_task_card_payload;
use ccc_mcp::json::{jstr, new_object, Json};
use ccc_mcp::task_card::build_task_card_payload_with_role;
use ccc_mcp::task_session::create_task_session_state_payload;

fn obj(members: Vec<(&str, Json)>) -> Json {
    let mut o = new_object();
    for (k, v) in members {
        o.insert(k, v);
    }
    o
}

fn verifier_card() -> Json {
    build_task_card_payload_with_role(
        "run-7",
        "card-1",
        "Check the fix",
        "verify",
        "crate",
        "Run the tests",
        "all green",
        "verifier",
        "2024-05-01T00:00:00.000Z",
        &obj(vec![("role", jstr("verifier"))]),
        &Json::Null,
        &Json::Null,
        &Json::Null,
    )
}

#[test]
fn task_card_with_role_carries_inputs_and_fixed_members() {
    let c = verifier_card();
    assert_eq!(c.str_field("task_card_id"), Some("card-1"));
    assert_eq!(c.str_field("run_id"), Some("run-7"));
    assert_eq!(c.str_field("title"), Some("Check the fix"));
    assert_eq!(c.str_field("execution_prompt"), Some("Run the tests"));
    assert_eq!(c.str_field("acceptance"), Some("all green"));
    assert_eq!(c.str_field("assigned_role"), Some("verifier"));
    assert_eq!(c.str_field("status"), Some("active"));
    assert_eq!(c.str_field("node_kind"), Some("execution"));
    assert_eq!(c.str_field("owner_role"), Some("orchestrator"));
    assert_eq!(c.str_field("verification_state"), Some("pending"));
    assert_eq!(c.str_field("child_aggregation_contract"), Some("explicit_fan_in_summary"));
    assert_eq!(c.str_field("created_at"), Some("2024-05-01T00:00:00.000Z"));
    assert_eq!(c.str_field("updated_at"), Some("2024-05-01T00:00:00.000Z"));
    assert_eq!(c.get("review_pass_count").unwrap().as_u64(), Some(0));
    assert!(c.get("completed_at").unwrap().is_null());
    assert!(c.get("way_attempt_id").unwrap().is_null());
    assert_eq!(c.get("role_config_snapshot").unwrap().str_field("role"), Some("verifier"));
}

#[test]
fn task_card_sandbox_follows_the_role() {
    let c = verifier_card();
    assert_eq!(c.str_field("sandbox_mode"), Some("read-only"));
    let w = build_task_card_payload_with_role(
        "run-7",
        "card-2",
        "Fix",
        "repair",
        "crate",
        "Patch it",
        "tests pass",
        "code specialist",
        "t",
        &Json::Null,
        &Json::Null,
        &Json::Null,
        &Json::Null,
    );
    assert_eq!(w.str_field("sandbox_mode"), Some("workspace-write"));
    assert_eq!(
        w.str_field("sandbox_rationale"),
        Some("Raider work may change code or config and needs workspace-write.")
    );
}

#[test]
fn current_task_card_is_null_without_an_active_id_or_card() {
    let card = obj(vec![("title", jstr("x"))]);
    let q = Json::Null;
    assert!(create_current_task_card_payload(Some(&card), None, "f.json", &q, &q).is_null());
    assert!(create_current_task_card_payload(Some(&card), Some("  "), "f.json", &q, &q).is_null());
    assert!(create_current_task_card_payload(None, Some("card-1"), "f.json", &q, &q).is_null());
}

#[test]
fn current_task_card_copies_members_and_defaults_the_id() {
    let card = obj(vec![
        ("run_id", jstr("run-7")),
        ("title", jstr("Check")),
        ("status", jstr("active")),
        ("subagent_fan_in", obj(vec![("status", jstr("completed"))])),
    ]);
    let route = jstr("host_subagent_spawn_required");
    let quality = obj(vec![("score", jstr("good"))]);
    let p = create_current_task_card_payload(Some(&card), Some("card-1"), "/runs/r/task-cards/card-1.json", &route, &quality)
        ;
    assert_eq!(p.str_field("file"), Some("/runs/r/task-cards/card-1.json"));
    assert_eq!(p.str_field("run_id"), Some("run-7"));
    assert_eq!(p.str_field("task_card_id"), Some("card-1"));
    assert_eq!(p.str_field("title"), Some("Check"));
    assert!(p.get("intent").unwrap().is_null());
    assert_eq!(p.str_field("route_enforcement_state"), Some("host_subagent_spawn_required"));
    assert_eq!(p.get("assignment_quality").unwrap().str_field("score"), Some("good"));
    assert_eq!(p.get("worker_result_envelope").unwrap().str_field("status"), Some("completed"));
    match p.get("review_of_task_card_ids").unwrap() {
        Json::Array(items) => assert!(items.is_empty()),
        _ => panic!("review ids"),
    }
}

#[test]
fn task_session_state_is_null_without_a_task_card() {
    let q = Json::Null;
    assert!(create_task_session_state_payload("s-1", 42, "t0", &q, &q, &q).is_null());
}

#[test]
fn task_session_state_joins_task_gate_fallback_and_evidence() {
    let card = obj(vec![
        ("task_card_id", jstr("card-1")),
        ("title", jstr("  Check the fix  ")),
        ("status", jstr("active")),
        ("assigned_role", jstr("verifier")),
        ("verification_state", jstr("pending")),
        ("subagent_fallback", obj(vec![("reason", jstr("host unavailable"))])),
        ("review_lifecycle", obj(vec![("child_agent_id", jstr("child-9")), ("status", jstr("running"))])),
        (
            "subagent_fan_in",
            obj(vec![
                ("evidence_paths", Json::Array(vec![jstr("a.log"), jstr(" "), jstr("b.log")])),
                ("summary", jstr("done")),
                ("open_questions", Json::Array(vec![jstr("why?")])),
            ]),
        ),
        ("review_fan_in", obj(vec![("evidence_paths", Json::Array(vec![jstr("c.log")])), ("outcome", jstr("approved"))])),
        ("delegation_plan", obj(vec![("model", jstr("gpt-x"))])),
    ]);
    let gate = obj(vec![("state", jstr("verifying")), ("active_gate", jstr("review"))]);
    let lane = obj(vec![("status", jstr("clear"))]);
    let s = create_task_session_state_payload("s-1", 42, "t0", &card, &gate, &lane);
    assert_eq!(s.str_field("schema"), Some("ccc.task_session_state.v1"));
    assert_eq!(s.get("internal_plumbing").unwrap().as_bool(), Some(true));
    assert_eq!(s.str_at(&["active_task", "title"]), Some("Check the fix"));
    assert_eq!(s.str_at(&["active_task", "task_card_id"]), Some("card-1"));
    assert_eq!(s.str_at(&["current_gate", "state"]), Some("verifying"));
    assert!(s.get_path(&["current_gate", "required_artifact"]).unwrap().is_null());
    assert_eq!(s.str_at(&["delegated_agent", "child_agent_id"]), Some("child-9"));
    assert_eq!(s.str_at(&["delegated_agent", "model"]), Some("gpt-x"));
    assert_eq!(s.str_at(&["fallback_state", "status"]), Some("recorded"));
    assert_eq!(s.get_path(&["fallback_state", "recorded"]).unwrap().as_bool(), Some(true));
    assert_eq!(s.str_at(&["fallback_state", "recommended_action"]), Some("none"));
    assert_eq!(s.get_path(&["evidence", "count"]).unwrap().as_u64(), Some(3));
    assert_eq!(s.str_at(&["evidence", "latest_summary"]), Some("done"));
    assert_eq!(s.str_at(&["verification", "review_outcome"]), Some("approved"));
    assert_eq!(s.get_path(&["verification", "unresolved_risk_count"]).unwrap().as_u64(), Some(1));
    assert_eq!(s.get_path(&["internal_session", "process_id"]).unwrap().as_u64(), Some(42));
    assert_eq!(s.str_at(&["internal_session", "session_id"]), Some("s-1"));
    assert_eq!(s.str_at(&["verification_capsule", "schema"]), Some("ccc.verification_capsule.v1"));
}

#[test]
fn task_session_state_reads_the_recovery_lane_without_a_fallback() {
    let card = obj(vec![("task_card_id", jstr("card-2"))]);
    let lane = obj(vec![("status", jstr("stalled")), ("recommended_action", jstr("reclaim"))]);
    let s = create_task_session_state_payload("s", 1, "t", &card, &Json::Null, &lane);
    assert_eq!(s.str_at(&["fallback_state", "status"]), Some("stalled"));
    assert_eq!(s.get_path(&["fallback_state", "recorded"]).unwrap().as_bool(), Some(false));
    assert_eq!(s.str_at(&["fallback_state", "recommended_action"]), Some("reclaim"));
    assert_eq!(s.get_path(&["evidence", "count"]).unwrap().as_u64(), Some(0));
    assert!(s.get_path(&["delegated_agent", "child_agent_id"]).unwrap().is_null());
}
