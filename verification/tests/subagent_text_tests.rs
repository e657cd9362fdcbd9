use ccc_mcp::json::{jstr, new_object, Json};
use ccc_mcp::subagent_text::{
    compact_task_label, create_operator_longway_projection_text, create_subagents_text,
    create_subagents_text_with_labels_limit, payload_appears_korean, render_host_subagent_activity_row,
};

fn obj(members: Vec<(&str, Json)>) -> Json {
    let mut o = new_object();
    for (k, v) in members {
        o.insert(k, v);
    }
    o
}

fn lane(id: &str, status: &str) -> Json {
    obj(vec![("lane_id", jstr(id)), ("fan_in", obj(vec![("status", jstr(status)), ("child_agent_id", jstr("w-1"))]))])
}

#[test]
fn subagents_text_without_activity() {
    assert_eq!(create_subagents_text(&new_object()), "Subagents\n[ ] no subagent lane activity");
}

#[test]
fn lane_rows_use_the_task_title() {
    let payload = obj(vec![(
        "current_task_card",
        obj(vec![
            ("title", jstr("Fix parser")),
            ("parallel_fanout", obj(vec![("lanes", Json::Array(vec![lane("lane-a", "in_progress"), obj(vec![])]))])),
        ]),
    )]);
    let text = create_subagents_text(&payload);
    let lines: Vec<&str> = text.split('\n').collect();
    assert_eq!(lines.len(), 2);
    assert!(lines[1].starts_with("[>] lane-a in-progress child=w-1 role="));
    assert!(lines[1].ends_with(" task=\"Fix parser\""));
}

#[test]
fn rows_beyond_the_limit_are_counted() {
    let lanes: Vec<Json> = (0..4).map(|i| lane(&format!("l{i}"), "completed")).collect();
    let payload = obj(vec![("parallel_fanout", obj(vec![("lanes", Json::Array(lanes))]))]);
    let text = create_subagents_text_with_labels_limit(&payload, false, Some(2));
    let lines: Vec<&str> = text.split('\n').collect();
    assert_eq!(lines.len(), 4);
    assert!(lines[1].starts_with("[x] l0 completed"));
    assert_eq!(lines[3], "[ ] ... 2 more rows omitted");
}

#[test]
fn host_rows_need_a_child_agent() {
    let item = obj(vec![("child_agent_id", jstr("helper")), ("task_card_id", jstr("tc-3"))]);
    let row = render_host_subagent_activity_row(&item, false).unwrap();
    assert!(row.starts_with("[ ] subagent unknown child=helper role="));
    assert!(row.ends_with(" task_card=tc-3"));
    assert_eq!(render_host_subagent_activity_row(&new_object(), false), None);
}

#[test]
fn task_label_prefers_the_title() {
    let t = obj(vec![("title", jstr(" T ")), ("task_card_id", jstr("tc"))]);
    assert_eq!(compact_task_label(&t, false), Some("task=\"T\"".to_string()));
    assert_eq!(compact_task_label(&obj(vec![("task_card_id", jstr("tc"))]), false), Some("task_card=tc".to_string()));
    assert_eq!(compact_task_label(&new_object(), false), None);
}

#[test]
fn korean_requests_switch_the_language() {
    assert!(payload_appears_korean(&obj(vec![("goal", jstr("버그 수정"))])));
    assert!(payload_appears_korean(&obj(vec![("operator_language", jstr(" ko "))])));
    assert!(!payload_appears_korean(&obj(vec![("goal", jstr("fix the bug"))])));
}

#[test]
fn projection_text_with_pending_approval() {
    let payload = obj(vec![
        ("run_id", jstr("run-1")),
        ("next_step", jstr("await_operator")),
        ("approval_state", jstr("pending_longway_approval")),
    ]);
    let text = create_operator_longway_projection_text(&payload);
    assert_eq!(
        text,
        "LongWay Projection\nRun: run-1\nNext: await_operator\n\nApproval\n[ ] Confirm whether to execute this LongWay plan\nApprove: ccc orchestrate --quiet --json '{\"approve_longway\":true,...}'\n\nSubagents\n[ ] no subagent lane activity"
    );
    let korean = create_operator_longway_projection_text(&obj(vec![("goal", jstr("계획"))]));
    assert!(korean.starts_with("LongWay 투영\n\n서브에이전트"));
}
