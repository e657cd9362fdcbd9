use ccc_mcp::checklist_text::{build_longway_checklist_block, compact_row_task_unit_labels, render_lifecycle_detail_line};
use ccc_mcp::json::{jbool, jint, jstr, new_object, Json};
use ccc_mcp::operator_status::{
    create_ccc_status_operator_text, create_visibility_signature, lines_of, output_config_from_config,
};
use ccc_mcp::operator_text::{
    build_active_checkpoint_line, build_captain_intervention_line, build_lifecycle_hooks_line,
    build_operator_projection_status_block, build_registry_evidence_line, build_sentinel_intervention_line,
    build_workflow_loop_line,
};

fn obj(members: Vec<(&str, Json)>) -> Json {
    let mut o = new_object();
    for (k, v) in members {
        o.insert(k, v);
    }
    o
}

fn strs(items: Vec<&str>) -> Json {
    Json::Array(items.into_iter().map(jstr).collect())
}

#[test]
fn lines_follow_str_lines() {
    assert_eq!(lines_of("a\r\nb\n\nc\r"), vec!["a", "b", "", "c\r"]);
    assert!(lines_of("").is_empty());
    assert_eq!(lines_of("x\n"), vec!["x"]);
    assert_eq!(lines_of("\n"), vec![""]);
}

#[test]
fn task_unit_labels_are_trimmed_and_capped() {
    let row = obj(vec![("task_unit_labels", strs(vec![" a ", "", "b", "c", "d", "e"]))]);
    assert_eq!(compact_row_task_unit_labels(&row, 4, 64), vec!["a", "b", "c", "d"]);
}

#[test]
fn lifecycle_detail_line_skips_the_child_named_like_its_label() {
    let d = obj(vec![
        ("label", jstr("lane-1")),
        ("status", jstr("in_progress")),
        ("child_agent_id", jstr("lane-1")),
        ("evidence_count", jint(2)),
        ("confidence", jstr(" high ")),
    ]);
    assert_eq!(render_lifecycle_detail_line(&d), Some("- lane-1 in-progress evidence=2 confidence=high".to_string()));
    assert_eq!(render_lifecycle_detail_line(&obj(vec![("label", jstr("x"))])), None);
}

#[test]
fn checklist_renders_rows_details_and_nested_plans() {
    let payload = obj(vec![(
        "longway",
        obj(vec![
            ("current_item", jstr("item-2")),
            (
                "phase_rows",
                Json::Array(vec![
                    obj(vec![
                        ("title", jstr("Plan")),
                        ("status", jstr("completed")),
                        ("task_unit_labels", strs(vec![" a ", "", "b"])),
                        (
                            "lifecycle_sync",
                            obj(vec![
                                ("status", jstr("running")),
                                ("details", Json::Array(vec![obj(vec![("label", jstr("lane-1")), ("status", jstr("done"))])])),
                            ]),
                        ),
                        ("planned_rows", Json::Array(vec![obj(vec![("title", jstr("Sub")), ("status", jstr("ready"))])])),
                    ]),
                    obj(vec![("label", jstr("Two")), ("status", jstr("pending"))]),
                ]),
            ),
            ("planned_rows", Json::Array(vec![obj(vec![("title", jstr("Top"))])])),
        ]),
    )]);
    let block = build_longway_checklist_block(&payload).unwrap();
    let lines: Vec<&str> = block.split('\n').collect();
    assert_eq!(lines[0], "LongWay");
    assert_eq!(lines[1], "[x] Plan units=a,b lifecycle=running");
    assert_eq!(lines[2], "- lane-1 done");
    assert!(lines[3].starts_with("  plan: Sub ["));
    assert!(lines[3].ends_with(" original_status=ready"));
    assert_eq!(lines[4], "[>] Two");
    assert_eq!(lines.len(), 5);
}

#[test]
fn checklist_stands_in_rows_from_the_phase_count() {
    let payload = obj(vec![
        (
            "longway",
            obj(vec![("phase_count", jint(2)), ("active_phase_name", jstr("Build")), ("current_item", jstr("item-2"))]),
        ),
        ("current_task_card", obj(vec![("title", jstr("Fix bug"))])),
    ]);
    assert_eq!(build_longway_checklist_block(&payload), Some("LongWay\n[ ] Build\n[>] Fix bug".to_string()));
    let planned_only = obj(vec![(
        "longway",
        obj(vec![("planned_rows", Json::Array(vec![obj(vec![("title", jstr("X")), ("status", jstr("blocked"))])]))]),
    )]);
    let block = build_longway_checklist_block(&planned_only).unwrap();
    assert!(block.starts_with("LongWay\n[!] Planned: X ["));
    assert_eq!(build_longway_checklist_block(&new_object()), None);
}

#[test]
fn projection_block_names_the_file_and_refresh_command() {
    let payload = obj(vec![
        ("run_id", jstr("run-7")),
        (
            "operator_longway_projection",
            obj(vec![
                ("path", jstr("/runs/run-7/CCC_LONGWAY_PROJECTION.md")),
                ("diff_visibility", obj(vec![("diff_command", jstr("git diff"))])),
            ]),
        ),
    ]);
    assert_eq!(
        build_operator_projection_status_block(&payload),
        Some(
            "LongWay Projection: CCC_LONGWAY_PROJECTION.md\nProgress: view CCC_LONGWAY_PROJECTION.md or refresh with ccc status --projection --json '{\"run_id\":\"run-7\"}'\nDiff: git diff"
                .to_string()
        )
    );
    let removed = obj(vec![("longway_projection", obj(vec![("status", jstr("removed"))]))]);
    assert_eq!(build_operator_projection_status_block(&removed), None);
}

#[test]
fn operator_text_of_an_empty_payload() {
    let text = create_ccc_status_operator_text(&new_object(), &new_object());
    assert_eq!(text, "LongWay\nNext: see structuredContent.run_state");
    assert_eq!(create_visibility_signature(&new_object(), &new_object()).len(), 16);
}

#[test]
fn operator_text_lists_state_lines_and_what_changed() {
    let payload = obj(vec![
        ("next_step", jstr("advance")),
        ("sequence", jstr("seq-1")),
        ("lifecycle_hooks", obj(vec![("status", jstr("ok"))])),
        ("latest_delegate_result", obj(vec![("result_summary", jstr("Fixed the parser"))])),
        ("output", obj(vec![("changed_max_chars", jint(5))])),
    ]);
    let text = create_ccc_status_operator_text(&payload, &new_object());
    let lines: Vec<&str> = text.split('\n').collect();
    assert_eq!(lines[0], "LongWay");
    assert_eq!(lines[1], "Sequence: seq-1 stage=unknown approval=unknown");
    assert_eq!(lines[2], "Lifecycle Hooks: status=ok active=none skipped=0 failures=0 internal=true");
    assert!(lines[3].starts_with("Changed: "));
    assert_eq!(lines[4], "Next: captain");
}

#[test]
fn output_config_keeps_only_known_values() {
    let config = obj(vec![(
        "output",
        obj(vec![("verbosity", jstr("loud")), ("changed_max_chars", jint(-3)), ("include_agent_loop_when_idle", jbool(true))]),
    )]);
    let out = output_config_from_config(&config);
    assert_eq!(out.str_field("verbosity"), Some("default"));
    assert_eq!(out.get("changed_max_chars").unwrap().as_i64(), Some(160));
    assert_eq!(out.get("include_agent_loop_when_idle").unwrap().as_bool(), Some(true));
}

#[test]
fn checkpoint_and_workflow_lines() {
    let payload = obj(vec![
        (
            "active_checkpoint",
            obj(vec![("current_gate", jstr("fan_in")), ("late_output", obj(vec![("count", jint(2)), ("authority", jstr("captain_only"))]))]),
        ),
        (
            "workflow_loop",
            obj(vec![
                ("current_stage", jstr(" plan ")),
                ("stages", Json::Array(vec![obj(vec![("label", jstr("Deep Plan")), ("status", jstr("in_progress"))]), obj(vec![])])),
            ]),
        ),
    ]);
    let cp = build_active_checkpoint_line(&payload).unwrap();
    assert!(cp.starts_with("Checkpoint: gate=fan-in task=unknown role="));
    assert!(cp.ends_with(" late=none(2) authority=captain-only"));
    assert_eq!(
        build_workflow_loop_line(&payload),
        Some("Workflow Loop: status=active current=plan stages=Deep-Plan:in-progress".to_string())
    );
    let hooks = obj(vec![("lifecycle_hooks", obj(vec![("status", jstr("degraded")), ("active_tiers", strs(vec!["a", "b"])), ("skipped_tiers", strs(vec!["c"]))]))]);
    assert_eq!(
        build_lifecycle_hooks_line(&hooks),
        Some("Lifecycle Hooks: status=degraded active=a,b skipped=1 failures=0 internal=true".to_string())
    );
}

#[test]
fn intervention_lines_join_their_parts() {
    let payload = obj(vec![
        (
            "latest_captain_intervention",
            obj(vec![
                ("classification", jstr("scope_drift")),
                ("next_action_blocked", jbool(true)),
                ("pending_follow_up", obj(vec![("action", jstr("re_plan")), ("status", jstr("in_progress"))])),
            ]),
        ),
        ("current_task_card", obj(vec![("sentinel_intervention", obj(vec![("source", jstr("lint_gate"))]))])),
    ]);
    assert_eq!(
        build_captain_intervention_line(&payload),
        Some("Intervention: class=scope-drift blocked=blocked follow_up=re-plan:in-progress".to_string())
    );
    assert_eq!(build_sentinel_intervention_line(&payload), Some("Sentinel: source=lint-gate".to_string()));
    assert_eq!(build_captain_intervention_line(&obj(vec![("latest_captain_intervention", obj(vec![]))])), None);
}

#[test]
fn registry_line_defaults_to_advisory() {
    let payload = obj(vec![("registry_evidence", obj(vec![("skill_ssl_manifest", obj(vec![("status", jstr("valid"))]))]))]);
    assert_eq!(build_registry_evidence_line(&payload), Some("Registry: agent status=missing ssl=valid advisory=true".to_string()));
    assert_eq!(build_registry_evidence_line(&obj(vec![("registry_evidence", Json::Null)])), None);
}
