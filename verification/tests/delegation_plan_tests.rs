use ccc_mcp::delegation_plan::{
    create_specialist_delegation_plan_with_runtime, preferred_custom_agent_name_for_role,
};
use ccc_mcp::json::{jstr, new_object, Json};

fn obj(members: Vec<(&str, Json)>) -> Json {
    let mut o = new_object();
    for (k, v) in members {
        o.insert(k, v);
    }
    o
}

fn strings(j: Option<&Json>) -> Vec<String> {
    match j {
        Some(Json::Array(items)) => items
            .iter()
            .map(|x| x.as_str().unwrap_or("").to_string())
            .collect(),
        _ => Vec::new(),
    }
}

#[test]
fn plan_for_a_specialist_prefers_its_custom_agent() {
    let snapshot = obj(vec![
        ("summary", jstr("  Reads the code.  ")),
        ("model", jstr("gpt-5")),
    ]);
    let runtime = obj(vec![
        ("preferred_specialist_execution_mode", jstr("codex_subagent")),
        ("fallback_specialist_execution_mode", jstr("codex_exec")),
    ]);
    let registry = obj(vec![
        ("status", jstr("available")),
        ("skill_ssl_manifest", obj(vec![("status", jstr("valid"))])),
    ]);
    let contract = obj(vec![("role", jstr("explorer"))]);
    let plan = create_specialist_delegation_plan_with_runtime(
        "explorer",
        &snapshot,
        &runtime,
        "read-only",
        "scouting reads only",
        &registry,
        &contract,
    );
    assert_eq!(plan.str_field("routing_source"), Some("ccc_config_custom_agent_sync"));
    assert_eq!(plan.str_field("preferred_custom_agent_name"), Some("ccc_scout"));
    assert_eq!(plan.str_field("preferred_custom_agent_file"), Some("ccc-scout.toml"));
    assert_eq!(plan.str_field("assigned_agent_id"), Some("scout"));
    assert_eq!(plan.str_field("summary"), Some("Reads the code."));
    assert_eq!(plan.str_field("model"), Some("gpt-5"));
    assert!(plan.get("variant").map(|v| v.is_null()).unwrap_or(false));
    assert_eq!(plan.bool_field("fast_mode"), Some(false));
    assert_eq!(plan.str_at(&["skill_ssl_manifest", "status"]), Some("valid"));
    assert_eq!(plan.str_at(&["skill_registry", "status"]), Some("available"));
    assert_eq!(plan.str_at(&["execution_contract", "role"]), Some("explorer"));
    assert_eq!(
        strings(plan.get("supported_execution_modes")),
        vec!["codex_subagent", "codex_exec"]
    );
    assert_eq!(plan.bool_field("subagent_available"), Some(true));
    assert_eq!(
        plan.get_path(&["fallback_gate", "host_subagent_spawn_required"])
            .and_then(|v| v.as_bool()),
        Some(true)
    );
    assert_eq!(plan.str_at(&["runtime_dispatch", "source"]), Some("config_backed"));
    assert_eq!(
        plan.str_at(&["runtime_dispatch", "preferred_custom_agent_name"]),
        Some("ccc_scout")
    );
    assert_eq!(
        strings(plan.get_path(&["fan_in_contract", "required_fields"])),
        vec!["summary", "status", "evidence_paths", "next_action", "open_questions", "confidence"]
    );
    assert_eq!(strings(plan.get("fallback_reason_codes")).len(), 7);
    assert_eq!(plan.str_field("sandbox_mode"), Some("read-only"));
    assert_eq!(
        plan.str_at(&["subagent_spawn_contract", "custom_agent_name"]),
        Some("ccc_scout")
    );
}

#[test]
fn plan_for_the_captain_has_no_custom_agent() {
    let runtime = obj(vec![
        ("preferred_specialist_execution_mode", jstr("codex_exec")),
        ("fallback_specialist_execution_mode", jstr("bogus")),
    ]);
    let plan = create_specialist_delegation_plan_with_runtime(
        "orchestrator",
        &Json::Null,
        &runtime,
        "workspace-write",
        "captain",
        &obj(vec![("status", jstr("ignored"))]),
        &Json::Null,
    );
    assert!(plan.get("preferred_custom_agent_name").map(|v| v.is_null()).unwrap_or(false));
    assert_eq!(plan.str_field("assigned_agent_id"), Some("captain"));
    assert_eq!(plan.str_at(&["skill_registry", "status"]), Some("not_applicable"));
    assert_eq!(plan.str_at(&["skill_ssl_manifest", "status"]), Some("not_applicable"));
    assert_eq!(strings(plan.get("supported_execution_modes")), vec!["codex_exec"]);
    assert_eq!(plan.bool_field("subagent_available"), Some(false));
    assert_eq!(
        plan.get_path(&["fallback_gate", "block_direct_execution_until_spawn_recorded"])
            .and_then(|v| v.as_bool()),
        Some(false)
    );
    assert!(plan.get("fast_mode").is_some());
}

#[test]
fn preferred_agent_names() {
    assert_eq!(preferred_custom_agent_name_for_role("verifier").as_deref(), Some("ccc_arbiter"));
    assert_eq!(preferred_custom_agent_name_for_role("orchestrator"), None);
    assert_eq!(preferred_custom_agent_name_for_role("unknown"), None);
}
