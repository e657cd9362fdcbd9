use ccc_mcp::app_panel_text::{
    create_codex_app_panel_markdown, create_codex_app_panel_text, markdown_checklist_rows,
    markdown_warning_rows, markdown_workspace_state, panel_gauge_fits,
    planned_row_recovery_summary, planned_row_source_summary, summarize_active_checkpoint,
    summarize_graph_context_state, summarize_graph_state, summarize_items,
    summarize_lifecycle_hooks, summarize_longway_rows, summarize_memory_state,
    summarize_mutation_guard, summarize_planned_rows, summarize_recovery_lane,
    summarize_registry_state, summarize_state_contract, summarize_subagent_activity,
    summarize_target_root_candidates, summarize_target_root_confirmation,
    summarize_workflow_loop, target_root_follow_up_hint,
};
use ccc_mcp::json::{jbool, jint, jstr, new_object, Json};

fn obj(members: Vec<(&str, Json)>) -> Json {
    let mut o = new_object();
    for (k, v) in members {
        o.insert(k, v);
    }
    o
}

fn strs(items: Vec<&str>) -> Json {
    Json::Array(items.into_iter().map(jstr).collect())
}

#[test]
fn state_contract_line() {
    let panel = obj(vec![(
        "state_contract",
        obj(vec![
            ("state", jstr("await_fan_in")),
            ("active_gate", jstr("fan_in_gate")),
            (
                "allowed_next_transitions",
                Json::Array(vec![jstr("a_b"), jint(3), jstr("c"), jstr("d"), jstr("e"), jstr("f")]),
            ),
        ]),
    )]);
    assert_eq!(
        summarize_state_contract(&panel).as_deref(),
        Some("state=await-fan-in gate=fan-in-gate requires=unspecified next=unknown allowed=a_b,c,d,e")
    );
    assert_eq!(summarize_state_contract(&Json::Null), None);
}

#[test]
fn checkpoint_recovery_hooks_workflow_and_guard_lines() {
    let panel = obj(vec![
        (
            "active_checkpoint",
            obj(vec![
                ("current_gate", jstr("review_gate")),
                ("task_card_id", jstr("tc-1")),
                ("late_output", obj(vec![("state", jstr("late_seen")), ("count", jint(2))])),
            ]),
        ),
        (
            "recovery_lane",
            obj(vec![
                ("status", jstr("needs_recovery")),
                ("needs_operator_attention", jbool(true)),
                ("target_count", jint(1)),
                ("summary", jstr("  stalled   worker  ")),
            ]),
        ),
        (
            "lifecycle_hooks",
            obj(vec![("status", jstr("ok")), ("active_tiers", strs(vec!["pre", "post"]))]),
        ),
        (
            "workflow_loop",
            obj(vec![
                ("current_stage", jstr("plan_work")),
                (
                    "stages",
                    Json::Array(vec![
                        obj(vec![("label", jstr("Scout code")), ("status", jstr("in_progress"))]),
                        obj(vec![("status", jstr("pending"))]),
                    ]),
                ),
            ]),
        ),
        (
            "captain_direct_mutation_guard",
            obj(vec![
                ("state", jstr("changes_detected")),
                ("changed_path_count", jint(4)),
                ("changed_paths", strs(vec!["a", "b", "c", "d"])),
            ]),
        ),
    ]);
    let cp = summarize_active_checkpoint(&panel).unwrap();
    assert!(cp.starts_with("gate=review-gate task=tc-1 role="));
    assert!(cp.ends_with(
        " delegated=0 resume=unknown continue=\"$cap continue <run_id>\" late=late-seen(2)"
    ));
    assert_eq!(
        summarize_recovery_lane(&panel).as_deref(),
        Some("status=needs-recovery action=none reclaim=none attention=true targets=1 summary=\"stalled worker\"")
    );
    assert_eq!(
        summarize_lifecycle_hooks(&panel).as_deref(),
        Some("status=ok active=pre,post failures=0 internal=true")
    );
    assert_eq!(
        summarize_workflow_loop(&panel).as_deref(),
        Some("status=active current=plan-work stages=Scout-code:in-progress")
    );
    assert_eq!(
        summarize_mutation_guard(&panel).as_deref(),
        Some("- state=changes-detected changed_paths=4 paths=a,b,c")
    );
}

#[test]
fn workspace_lines() {
    let panel = obj(vec![
        (
            "workspace_state",
            obj(vec![
                (
                    "graph",
                    obj(vec![
                        ("available", jbool(true)),
                        ("file_count", jint(12)),
                        (
                            "tolaria",
                            obj(vec![
                                ("enabled", jbool(true)),
                                ("state", jstr("synced")),
                                ("relative_note_path", jstr("notes/g.md")),
                            ]),
                        ),
                    ]),
                ),
                ("graph_context", obj(vec![("readiness", jstr("available"))])),
                ("memory", obj(vec![("enabled", jbool(true)), ("entry_count", jint(3))])),
            ]),
        ),
        ("registry_evidence", obj(vec![("status", jstr("ok"))])),
    ]);
    assert_eq!(
        summarize_graph_state(&panel).as_deref(),
        Some("Graph: available=true files=12 mirror=synced notes/g.md")
    );
    assert_eq!(
        summarize_graph_context_state(&panel).as_deref(),
        Some("Graph Context: provider=graphify readiness=available fallback=none artifacts=unknown")
    );
    assert_eq!(
        summarize_memory_state(&panel).as_deref(),
        Some("Memory: enabled=true entries=3")
    );
    let registry = summarize_registry_state(&panel).unwrap();
    assert!(registry.starts_with("Registry: "));
    assert!(registry.ends_with(" status=ok ssl=missing"));
    let md = markdown_workspace_state(&panel);
    assert_eq!(md.lines().count(), 4);
    assert!(md.starts_with("- Graph: available=true"));
    assert_eq!(
        markdown_workspace_state(&Json::Null),
        "- _No graph or memory state available._"
    );
}

#[test]
fn target_root_lines() {
    let panel = obj(vec![(
        "target_workspace",
        obj(vec![
            ("confirmation_required", jbool(true)),
            ("root_kind", jstr("repo")),
            ("candidates", Json::Array(vec![jstr("/work/app"), jint(1), jstr("/work/lib")])),
        ]),
    )]);
    assert_eq!(
        summarize_target_root_confirmation(&panel).as_deref(),
        Some("[!] Confirm target path (repo, confidence=unknown, candidates=3)")
    );
    assert_eq!(
        summarize_target_root_candidates(&panel, 3),
        vec!["    1. app -> /work/app".to_string(), "    3. lib -> /work/lib".to_string()]
    );
    assert_eq!(
        target_root_follow_up_hint(&panel).as_deref(),
        Some("Retry: $cap Use target_paths=[\"/work/app\"] and continue this LongWay.")
    );
    assert_eq!(summarize_target_root_confirmation(&Json::Null), None);
}

#[test]
fn rows_subagents_and_items() {
    let panel = obj(vec![
        (
            "longway_progress",
            obj(vec![
                (
                    "rows",
                    Json::Array(vec![
                        obj(vec![("title", jstr("Plan")), ("status", jstr("completed"))]),
                        obj(vec![("status", jstr("active"))]),
                    ]),
                ),
                (
                    "planned_rows",
                    Json::Array(vec![obj(vec![
                        ("title", jstr("Fix")),
                        ("display_agent_id", jstr("unassigned")),
                        ("model", jstr("m")),
                        ("variant", jstr("high")),
                        ("recovery", obj(vec![("reason", jstr("spawn_failed"))])),
                    ])]),
                ),
            ]),
        ),
        (
            "specialist_lanes",
            obj(vec![(
                "subagent_activity",
                Json::Array(vec![obj(vec![
                    ("child_agent_id", jstr("scout")),
                    ("status", jstr("running")),
                    ("lane_id", jstr("L1")),
                ])]),
            )]),
        ),
        (
            "warnings",
            Json::Array(vec![
                obj(vec![("kind", jstr("code_graph_warning")), ("status", jstr("warn"))]),
                obj(vec![("reason", jstr("no label"))]),
            ]),
        ),
    ]);
    assert_eq!(summarize_longway_rows(&panel, 5), vec!["[x] Plan (completed)".to_string()]);
    assert_eq!(
        summarize_planned_rows(&panel, 8),
        vec!["[ ] Fix -> model=m reasoning=high recovered=fallback reason=spawn-failed sources=agent:unknown,model:unknown,reasoning:unknown".to_string()]
    );
    let activity = summarize_subagent_activity(&panel, 4);
    assert_eq!(activity.len(), 1);
    assert!(activity[0].contains(" running role="));
    assert!(activity[0].ends_with(" model=unknown variant=unknown lane=L1 task=\"task\""));
    assert_eq!(
        summarize_items(&panel, "warnings", "kind", 8),
        vec!["code_graph_warning (warn)".to_string()]
    );
    assert_eq!(markdown_warning_rows(&panel, 8), "- code_graph_warning (warn)");
    assert_eq!(
        markdown_checklist_rows(&panel, 12).lines().collect::<Vec<_>>()[1],
        "- _Planned rows_"
    );
    assert_eq!(markdown_warning_rows(&Json::Null, 8), "- _No warnings._");
}

#[test]
fn recovery_and_source_summaries() {
    let item = obj(vec![
        ("agent_source", jstr("role_mapping")),
        ("recovery", obj(vec![("mode", jstr("retry")), ("primary_status", jstr("timed_out"))])),
    ]);
    assert_eq!(planned_row_recovery_summary(&item), " recovered=retry primary=timed-out");
    assert_eq!(
        planned_row_source_summary(&item),
        "sources=agent:role_mapping,model:unknown,reasoning:unknown"
    );
    assert_eq!(planned_row_recovery_summary(&Json::Null), "");
}

#[test]
fn boxed_panel_text_and_markdown() {
    let panel = obj(vec![
        ("run", obj(vec![("run_id", jstr("run-7"))])),
        (
            "longway_progress",
            obj(vec![("completed_phase_count", jint(1)), ("phase_count", jint(4))]),
        ),
    ]);
    assert!(panel_gauge_fits(&panel));
    let text = create_codex_app_panel_text(&panel);
    let lines: Vec<&str> = text.lines().collect();
    assert_eq!(lines.len(), 5);
    assert!(lines[0].starts_with("+--"));
    assert!(lines[1].starts_with("| CCC LongWay "));
    assert!(lines[2].starts_with("| Progress: 1/4 completed "));
    assert!(lines[3].starts_with("| Gauge: [######------------------] 25% "));
    let md = create_codex_app_panel_markdown(&panel, "{}");
    assert!(md.starts_with("# CCC LongWay Panel\n\n## Run\n\n- Run: `run-7`\n- Status: `unknown` / `unknown`"));
    assert!(md.contains("- Progress: `1/4`"));
    assert!(md.ends_with("## JSON Payload\n\n```json\n{}\n```\n"));
    let huge = obj(vec![(
        "longway_progress",
        obj(vec![
            ("completed_phase_count", Json::UInt(u64::MAX)),
            ("phase_count", Json::UInt(u64::MAX)),
        ]),
    )]);
    assert!(!panel_gauge_fits(&huge));
}
