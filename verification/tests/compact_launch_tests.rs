use ccc_mcp::compact_status::create_ccc_status_compact_payload;
use ccc_mcp::json::{jbool, jint, jstr, new_object, Json};
use ccc_mcp::worker_launch::{
    check_supervisor_spec, codex_exec_arguments, create_launch_result, create_spawn_delegation_payload,
    create_supervisor_result, launch_settled, mark_worker_launched, record_supervisor_launch, spawn_agent,
    spawn_role, spawn_sandbox_mode,
};

fn obj(members: Vec<(&str, Json)>) -> Json {
    let mut o = new_object();
    for (k, v) in members {
        o.insert(k, v);
    }
    o
}

fn strs(items: Vec<&str>) -> Json {
    Json::Array(items.into_iter().map(jstr).collect())
}

#[test]
fn compact_payload_copies_run_members_and_defaults_contracts() {
    let payload = obj(vec![
        ("run_id", jstr("run-1")),
        ("status", jstr("active")),
        ("app_panel", obj(vec![("title", jstr("panel"))])),
        (
            "current_task_card",
            obj(vec![
                ("title", jstr("Fix")),
                ("subagent_lifecycle", obj(vec![("child_agent_id", jstr("child-1"))])),
                (
                    "parallel_fanout",
                    obj(vec![
                        ("mode", jstr("parallel")),
                        ("required_lane_ids", strs(vec!["a", "b"])),
                        ("lanes", Json::Array(vec![obj(vec![("lane_id", jstr("a"))])])),
                    ]),
                ),
            ]),
        ),
    ]);
    let fan_ins = vec![obj(vec![("status", jstr("ok"))])];
    let c = create_ccc_status_compact_payload(&payload, None, None, &fan_ins);
    assert_eq!(c.get("compact").unwrap().as_bool(), Some(true));
    assert_eq!(c.str_field("run_id"), Some("run-1"));
    assert_eq!(c.str_field("status"), Some("active"));
    assert!(c.get("stage").unwrap().is_null());
    assert_eq!(c.get("app_panel").unwrap().str_field("title"), Some("panel"));
    let task = c.get("current_task_card").unwrap();
    assert_eq!(task.str_field("title"), Some("Fix"));
    let launch = task.get("launch_visibility").unwrap();
    assert_eq!(launch.str_field("lane"), Some("a"));
    let fan_in = task.get("subagent_fan_in").unwrap();
    assert_eq!(fan_in.str_field("schema"), Some("ccc.worker_result_envelope.v1"));
    let lanes = match task.get("parallel_fanout").unwrap().get("lanes").unwrap() {
        Json::Array(l) => l.iter().map(|x| x.deep_clone()).collect::<Vec<_>>(),
        _ => panic!("lanes"),
    };
    assert_eq!(lanes[0].get("fan_in").unwrap().str_field("status"), Some("ok"));
    assert_eq!(lanes[0].get("required").unwrap().as_bool(), Some(false));
    let contract = task.get("subagent_contract").unwrap();
    assert_eq!(contract.get("omit_overrides").unwrap().as_bool(), Some(true));
    assert_eq!(contract.str_field("update_via"), Some("ccc_cli_subcommand"));
    assert_eq!(c.get("operator_transport_contract").unwrap().str_field("preferred"), Some("ccc_cli_quiet_subcommand"));
    assert!(c.get("command_templates").unwrap().is_object());
}

#[test]
fn compact_payload_of_an_empty_payload() {
    let c = create_ccc_status_compact_payload(&new_object(), None, Some("helper"), &Vec::new());
    let task = c.get("current_task_card").unwrap();
    assert!(task.get("task_card_id").unwrap().is_null());
    assert!(task.get("parallel_fanout").unwrap().is_null());
    assert_eq!(task.get("launch_visibility").unwrap().get("lane").unwrap().is_null(), true);
    assert!(c.get("app_panel").unwrap().is_object());
}

#[test]
fn spawn_role_agent_and_sandbox() {
    let task = obj(vec![("sandbox_mode", jstr("danger"))]);
    assert_eq!(spawn_role(&task), "code specialist");
    let own = obj(vec![("assigned_agent_id", jstr("me")), ("sandbox_mode", jstr("read-only"))]);
    assert_eq!(spawn_agent(&own, "code specialist"), "me");
    assert_eq!(spawn_sandbox_mode(&own, "code specialist"), "read-only");
    assert_eq!(spawn_sandbox_mode(&task, "code specialist"), "workspace-write");
}

#[test]
fn spawn_delegation_record() {
    let task = obj(vec![("task_card_id", jstr("tc-1")), ("title", jstr("Fix bug")), ("run_id", jstr("run-1"))]);
    let d = create_spawn_delegation_payload(
        &task, "d-1", "2024-01-01T00:00:00.000Z", "codex", "/home", "/raw.jsonl", &new_object(), &new_object(), None,
    )
    .unwrap();
    assert_eq!(d.str_field("delegation_id"), Some("d-1"));
    assert_eq!(d.str_field("run_id"), Some("run-1"));
    assert!(d.str_field("summary").unwrap().starts_with("Primary worker "));
    assert!(d.str_field("summary").unwrap().ends_with(" launched for task \"Fix bug\"."));
    assert_eq!(d.get("child_agent").unwrap().str_field("status"), Some("running"));
    assert_eq!(d.get("worker_launch_evidence").unwrap().str_field("sandbox_mode"), Some("workspace-write"));
    assert!(d.get("worker_request").unwrap().str_field("prompt").is_some());
    assert_eq!(d.str_field("created_at"), Some("2024-01-01T00:00:00.000Z"));
    let missing = create_spawn_delegation_payload(&new_object(), "d", "t", "c", "h", "r", &new_object(), &new_object(), None);
    assert_eq!(missing.err(), Some("task card is missing task_card_id.".to_string()));
}

#[test]
fn launch_and_completion_updates() {
    let mut d = obj(vec![
        ("worker_lifecycle", obj(vec![("state", jstr("launching"))])),
        ("worker_launch_evidence", new_object()),
        ("child_agent", obj(vec![("status", jstr("running"))])),
    ]);
    assert!(!launch_settled(&d));
    record_supervisor_launch(&mut d, 42, "/spec.json");
    assert_eq!(d.get("worker_launch_evidence").unwrap().get("supervisor_process_id").unwrap().as_u64(), Some(42));
    mark_worker_launched(&mut d, "T", 7);
    let l = d.get("worker_lifecycle").unwrap();
    assert_eq!(l.str_field("state"), Some("running_quiet"));
    assert_eq!(l.get("process_id").unwrap().as_u64(), Some(7));
    assert_eq!(d.str_field("updated_at"), Some("T"));
    let r = create_launch_result(&d, "d-1", "/raw", "me", "code specialist", "T");
    assert_eq!(r.str_field("worker_state"), Some("running_quiet"));
    assert!(r.get("terminal_status").unwrap().is_null());
    let done = obj(vec![("child_agent", obj(vec![("status", jstr("failed"))]))]);
    assert!(launch_settled(&done));
    assert_eq!(create_launch_result(&done, "d", "r", "a", "b", "t").str_field("terminal_status"), Some("failed"));
}

#[test]
fn exec_arguments_and_supervisor_spec() {
    let snapshot = obj(vec![("profile", jstr(" fast ")), ("model", jstr("  "))]);
    let args = codex_exec_arguments("read-only", &snapshot);
    assert_eq!(
        args,
        vec!["exec", "--ignore-user-config", "--ephemeral", "--json", "--sandbox", "read-only", "--skip-git-repo-check", "--profile", "fast", "-"]
    );
    let spec = obj(vec![("workspace_dir", jstr("/w")), ("codex_bin", jstr("codex"))]);
    assert_eq!(check_supervisor_spec(&spec).err(), Some("worker-supervise requires delegation_file.".to_string()));
    let full = obj(vec![
        ("workspace_dir", jstr("/w")),
        ("codex_bin", jstr("codex")),
        ("delegation_file", jstr("/d.json")),
        ("raw_events_file", jstr("/r.jsonl")),
        ("worker_codex_home", jstr("/h")),
        ("delegation_id", jstr("d-1")),
    ]);
    let f = check_supervisor_spec(&full).ok().unwrap();
    assert_eq!(f.sandbox_mode, "workspace-write");
    assert_eq!(f.prompt, "Implement the bounded task.");
    assert!(f.role_config_snapshot.is_null());
    let r = create_supervisor_result(&full, 9, "completed", "T", "done");
    assert_eq!(r.str_field("delegation_id"), Some("d-1"));
    assert_eq!(r.get("process_id").unwrap().as_u64(), Some(9));
    let _ = (jbool(true), jint(0));
}
