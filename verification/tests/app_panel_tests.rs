use ccc_mcp::app_panel::{
    compact_blockers, compact_current_task, compact_subagent_activity, compact_target_workspace,
    compact_warnings, create_codex_app_panel_payload, planned_row_display_routing,
    planned_row_fallback_routing, target_root_retry_command_from_payload,
};
use ccc_mcp::json::{jbool, jint, jstr, new_object, Json};

fn obj(members: Vec<(&str, Json)>) -> Json {
    let mut o = new_object();
    for (k, v) in members {
        o.insert(k, v);
    }
    o
}

fn items(j: &Json) -> Vec<Json> {
    match j {
        Json::Array(v) => v.iter().map(|x| x.deep_clone()).collect(),
        _ => panic!("not a list"),
    }
}

fn workspace_payload(confirm: bool, candidates: Vec<&str>) -> Json {
    obj(vec![(
        "longway",
        obj(vec![(
            "planning_context",
            obj(vec![(
                "workspace_root",
                obj(vec![
                    ("root", jstr("/repo")),
                    ("confirmation_required", jbool(confirm)),
                    ("candidates", Json::Array(candidates.into_iter().map(jstr).collect())),
                ]),
            )]),
        )]),
    )])
}

#[test]
fn current_task_reads_dispatch_settings_in_order() {
    let payload = obj(vec![
        ("active_task_card_id", jstr("tc-9")),
        (
            "current_task_card",
            obj(vec![
                ("title", jstr("Fix")),
                (
                    "delegation_plan",
                    obj(vec![
                        ("model", jstr("plan-model")),
                        ("runtime_dispatch", obj(vec![("variant", jstr("high"))])),
                    ]),
                ),
                ("role_config_snapshot", obj(vec![("model", jstr("snap")), ("fast_mode", jbool(true))])),
                ("review_lifecycle", jstr("review")),
            ]),
        ),
    ]);
    let t = compact_current_task(&payload);
    assert_eq!(t.str_field("task_card_id"), Some("tc-9"));
    assert_eq!(t.str_field("model"), Some("plan-model"));
    assert_eq!(t.str_field("variant"), Some("high"));
    assert_eq!(t.bool_field("fast_mode"), Some(true));
    assert_eq!(t.str_field("lifecycle"), Some("review"));
    assert!(compact_current_task(&Json::Null).is_null());
}

#[test]
fn activity_of_the_task_role_gains_its_settings() {
    let payload = obj(vec![
        (
            "current_task_card",
            obj(vec![
                ("assigned_role", jstr("explorer")),
                ("runtime_dispatch", obj(vec![("model", jstr("m1"))])),
            ]),
        ),
        (
            "host_subagent_state",
            obj(vec![(
                "subagent_activity",
                Json::Array(vec![
                    obj(vec![("assigned_role", jstr("explorer"))]),
                    obj(vec![("assigned_role", jstr("explorer")), ("model", jstr("own"))]),
                    obj(vec![("assigned_role", jstr("verifier"))]),
                    jstr("not an object"),
                ]),
            )]),
        ),
    ]);
    let a = items(&compact_subagent_activity(&payload));
    assert_eq!(a.len(), 4);
    assert_eq!(a[0].str_field("model"), Some("m1"));
    assert_eq!(a[1].str_field("model"), Some("own"));
    assert!(a[2].get("model").is_none());
    assert_eq!(a[3].as_str(), Some("not an object"));
}

#[test]
fn blockers_list_reclaim_follow_up_and_intervention() {
    let payload = obj(vec![
        ("reclaim_plan", obj(vec![("reclaim_needed_worker_count", jint(2))])),
        ("pending_captain_follow_up", obj(vec![("action", jstr("retry"))])),
        (
            "latest_captain_intervention",
            obj(vec![("chosen_next_action", jstr("no_action"))]),
        ),
    ]);
    let b = items(&compact_blockers(&payload));
    assert_eq!(b.len(), 2);
    assert_eq!(b[0].str_field("summary"), Some("worker reclaim is needed"));
    assert_eq!(b[1].str_field("status"), Some("queued"));
    assert_eq!(b[1].str_field("action"), Some("retry"));
}

#[test]
fn warnings_and_retry_command() {
    let payload = workspace_payload(true, vec![" /work/app "]);
    assert_eq!(
        target_root_retry_command_from_payload(&payload).as_deref(),
        Some("$cap Use target_paths=[\" /work/app \"] and continue this LongWay.")
    );
    let w = items(&compact_warnings(&payload));
    assert_eq!(w.len(), 1);
    assert_eq!(w[0].str_field("kind"), Some("target_root_confirmation_required"));
    assert_eq!(w[0].str_field("root"), Some("/repo"));
    assert_eq!(
        target_root_retry_command_from_payload(&workspace_payload(true, vec!["  "])),
        None
    );
    let ws = compact_target_workspace(&payload);
    assert_eq!(ws.u64_field("candidate_count"), Some(1));

    let other = obj(vec![
        ("long_session_mitigation", obj(vec![("recommended_action", jstr("checkpoint"))])),
        ("token_usage_visibility", obj(vec![("status", jstr("unavailable"))])),
        ("code_graph", obj(vec![("diagnostic_severity", jstr("warning"))])),
    ]);
    let kinds: Vec<String> = items(&compact_warnings(&other))
        .iter()
        .map(|x| x.str_field("kind").unwrap().to_string())
        .collect();
    assert_eq!(
        kinds,
        vec!["long_session_mitigation", "token_usage_unavailable", "code_graph_warning"]
    );
}

#[test]
fn planned_row_routing_prefers_row_then_config_then_task() {
    let payload = obj(vec![(
        "current_task_card",
        obj(vec![
            ("task_card_id", jstr("tc-1")),
            ("assigned_role", jstr("verifier")),
            ("assigned_agent_id", jstr("arbiter")),
            ("runtime_dispatch", obj(vec![("model", jstr("task-model"))])),
        ]),
    )]);
    let fallback = planned_row_fallback_routing(&payload).unwrap();
    let row = obj(vec![("task_card_id", jstr("tc-1"))]);
    let r = planned_row_display_routing(&row, Some(&fallback), None);
    assert_eq!(r.agent.as_str(), Some("ccc_arbiter"));
    assert_eq!(r.role.as_str(), Some("verifier"));
    assert_eq!(r.model.as_str(), Some("task-model"));
    assert_eq!(r.model_source.as_str(), Some("current_task_matching_task_card"));

    let own = obj(vec![
        ("planned_role", jstr("explorer")),
        ("model", jstr("row-model")),
        ("reasoning", jstr("low")),
    ]);
    let r = planned_row_display_routing(&own, Some(&fallback), None);
    assert_eq!(r.agent.as_str(), Some("ccc_scout"));
    assert_eq!(r.agent_source.as_str(), Some("role_mapping"));
    assert_eq!(r.model_source.as_str(), Some("planned_row_input"));
    assert_eq!(r.variant.as_str(), Some("low"));

    let unknown = obj(vec![("task_card_id", jstr("other"))]);
    let r = planned_row_display_routing(&unknown, Some(&fallback), None);
    assert!(r.agent.is_null());
    assert_eq!(r.agent_source.as_str(), Some("unassigned"));
    assert_eq!(r.model_source.as_str(), Some("unassigned"));
}

#[test]
fn panel_collects_status_parts() {
    let payload = obj(vec![
        ("run_id", jstr("run-1")),
        ("run_truth_surface", obj(vec![("fan_in_ready", jbool(true)), ("worker_total", jint(3))])),
        (
            "longway",
            obj(vec![
                ("phase_count", jint(2)),
                (
                    "phase_rows",
                    Json::Array(vec![obj(vec![("phase_id", jstr("p1")), ("label", jstr("Plan"))])]),
                ),
                ("planned_rows", Json::Array(vec![obj(vec![("title", jstr("Row"))])])),
            ]),
        ),
    ]);
    let p = create_codex_app_panel_payload(&payload, None);
    assert_eq!(p.str_field("schema"), Some("ccc.codex_app_panel.v1"));
    assert_eq!(p.str_at(&["run", "run_id"]), Some("run-1"));
    assert_eq!(p.str_at(&["render_strategy", "resource_uri"]), Some("ui://ccc/app-panel.html"));
    assert_eq!(p.get_path(&["fan_in", "ready"]).and_then(|v| v.as_bool()), Some(true));
    assert_eq!(p.get_path(&["fan_in", "worker_total"]).and_then(|v| v.as_u64()), Some(3));
    let rows = items(p.get_path(&["longway_progress", "rows"]).unwrap());
    assert_eq!(rows[0].str_field("id"), Some("p1"));
    assert_eq!(rows[0].str_field("title"), Some("Plan"));
    let planned = items(p.get_path(&["longway_progress", "planned_rows"]).unwrap());
    assert_eq!(planned[0].str_field("status"), Some("planned"));
    assert_eq!(
        p.get_path(&["next_captain_action", "direct_file_mutation_policy", "allowed"])
            .and_then(|v| v.as_bool()),
        Some(false)
    );
    assert!(p.get("current_task").map(|v| v.is_null()).unwrap_or(false));
}
