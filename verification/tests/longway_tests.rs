use ccc_mcp::delegate_result::{create_latest_delegate_result_payload_at, DelegationRecord};
use ccc_mcp::json::{jstr, new_object, Json};
use ccc_mcp::longway::{
    attach_planned_rows_to_phase_rows, create_longway_payload_at, create_longway_phase_rows,
    sync_planned_row_projection_status, TaskCardFile,
};

fn obj(members: Vec<(&str, Json)>) -> Json {
    let mut o = new_object();
    for (k, v) in members {
        o.insert(k, v);
    }
    o
}

fn items(j: &Json) -> Vec<Json> {
    match j {
        Json::Array(v) => v.iter().map(|x| x.deep_clone()).collect(),
        _ => panic!("not a list"),
    }
}

fn planned_ids(row: &Json) -> Vec<String> {
    match row.get("planned_rows") {
        Some(list) => items(list)
            .iter()
            .map(|r| r.str_field("title").unwrap_or("").to_string())
            .collect(),
        None => Vec::new(),
    }
}

fn delegation(task: &str, status: &str, updated: &str, id: &str) -> DelegationRecord {
    DelegationRecord {
        delegation: obj(vec![
            ("delegation_id", jstr(id)),
            ("task_card_id", jstr(task)),
            ("updated_at", jstr(updated)),
            ("result_summary", jstr("done")),
            ("child_agent", obj(vec![("status", jstr(status)), ("agent_id", jstr("agent-1")), ("role", jstr("code specialist"))])),
        ]),
        raw_events: None,
    }
}

#[test]
fn planned_rows_go_under_the_phase_with_their_task_card() {
    let mut phase_rows = vec![
        obj(vec![("task_card_id", jstr("tc-1"))]),
        obj(vec![("task_card_id", jstr("tc-2"))]),
    ];
    let planned = vec![
        obj(vec![("title", jstr("a")), ("task_card_id", jstr(" tc-2 "))]),
        obj(vec![("title", jstr("b"))]),
        obj(vec![("title", jstr("c")), ("task_card_id", jstr("tc-9"))]),
    ];
    attach_planned_rows_to_phase_rows(&mut phase_rows, &planned, Some(0));
    assert_eq!(planned_ids(&phase_rows[0]), vec!["b".to_string(), "c".to_string()]);
    assert_eq!(planned_ids(&phase_rows[1]), vec!["a".to_string()]);
}

#[test]
fn planned_rows_fall_back_to_the_last_phase_when_the_active_one_is_out_of_range() {
    let mut phase_rows = vec![obj(vec![("title", jstr("x"))]), obj(vec![("title", jstr("y"))])];
    let planned = vec![obj(vec![("title", jstr("a"))])];
    attach_planned_rows_to_phase_rows(&mut phase_rows, &planned, Some(7));
    assert!(phase_rows[0].get("planned_rows").is_none());
    assert_eq!(planned_ids(&phase_rows[1]), vec!["a".to_string()]);
    let mut untouched = vec![obj(vec![("title", jstr("x"))])];
    attach_planned_rows_to_phase_rows(&mut untouched, &Vec::new(), None);
    assert!(untouched[0].get("planned_rows").is_none());
}

#[test]
fn latest_delegate_result_picks_the_latest_finished_delegation_of_the_task() {
    let ds = vec![
        delegation("tc-1", "completed", "2024-01-02", "d1"),
        delegation("tc-1", "failed", "2024-01-03", "d2"),
        delegation("tc-1", "running", "2024-01-05", "d3"),
        delegation("tc-2", "completed", "2024-01-09", "d4"),
        delegation("tc-1", "cancelled", "2024-01-01", "d5"),
    ];
    let r = create_latest_delegate_result_payload_at(&ds, Some("tc-1"), &new_object(), 0);
    assert_eq!(r.str_field("delegation_id"), Some("d2"));
    assert_eq!(r.str_field("status"), Some("failed"));
    assert_eq!(r.str_field("updated_at"), Some("2024-01-03"));
    assert_eq!(r.str_field("agent_id"), Some("agent-1"));
    assert_eq!(r.str_field("role"), Some("code specialist"));
    assert!(r.get("assistant_message_preview").unwrap().is_null());
    assert!(create_latest_delegate_result_payload_at(&ds, Some("  "), &new_object(), 0).is_null());
    assert!(create_latest_delegate_result_payload_at(&ds, None, &new_object(), 0).is_null());
    assert!(create_latest_delegate_result_payload_at(&ds, Some("tc-3"), &new_object(), 0).is_null());
}

#[test]
fn planned_row_status_follows_its_task_card() {
    let card = obj(vec![
        ("review_lifecycle", obj(vec![("status", jstr("merged"))])),
        ("subagent_fallback", obj(vec![("reason", jstr("no host"))])),
    ]);
    let latest = obj(vec![("status", jstr("completed"))]);
    let row = obj(vec![("task_card_id", jstr("tc-1")), ("status", jstr("pending"))]);
    let synced = sync_planned_row_projection_status(row.deep_clone(), Some(&card), Some(&latest));
    assert_eq!(synced.str_field("status"), Some("completed"));
    assert_eq!(synced.str_field("status_source"), Some("task_card_lifecycle_projection"));
    let recovery = synced.get("recovery").unwrap();
    assert_eq!(recovery.str_field("mode"), Some("codex_exec"));
    assert_eq!(recovery.str_field("reason"), Some("no host"));
    assert_eq!(recovery.str_field("primary_status"), Some("merged"));
    let no_card = sync_planned_row_projection_status(row.deep_clone(), None, None);
    assert_eq!(no_card.str_field("status"), Some("pending"));
    assert!(no_card.get("status_source").is_none());
}

#[test]
fn phase_rows_need_an_owner_or_a_title() {
    let phases = vec![
        obj(vec![("phase_name", jstr("Plan")), ("title", jstr("Plan it")), ("task_card_id", jstr("tc-1"))]),
        obj(vec![("status", jstr("pending"))]),
        obj(vec![("task_items", Json::Array(vec![obj(vec![("owner", jstr("way"))])]))]),
    ];
    let cards = vec![TaskCardFile { task_card_id: "tc-1".to_string(), file: "/run/task-cards/tc-1.json".to_string(), task_card: None }];
    let rows = create_longway_phase_rows(&phases, &cards);
    assert_eq!(rows.len(), 2);
    assert_eq!(rows[0].str_field("item"), Some("item-1"));
    assert_eq!(rows[0].str_field("label"), Some("Plan"));
    let sync = rows[0].get("lifecycle_sync").unwrap();
    assert_eq!(sync.str_field("reason"), Some("task card not found"));
    assert_eq!(rows[1].str_field("item"), Some("item-3"));
    assert_eq!(rows[1].str_field("label"), Some("item-3"));
    assert_eq!(rows[1].str_field("owner_agent"), Some("way"));
    assert_eq!(rows[1].get("lifecycle_sync").unwrap().str_field("reason"), Some("phase row has no task_card_id"));
}

#[test]
fn longway_payload_counts_phases_and_names_the_current_item() {
    let longway = obj(vec![
        ("lifecycle_state", jstr("executing")),
        (
            "phases",
            Json::Array(vec![
                obj(vec![("title", jstr("One")), ("status", jstr("completed")), ("task_card_id", jstr("tc-1"))]),
                obj(vec![("title", jstr("Two")), ("status", jstr("in_progress"))]),
                obj(vec![("title", jstr("Three")), ("status", jstr("pending"))]),
            ]),
        ),
        (
            "planned_rows",
            Json::Array(vec![obj(vec![("title", jstr("row")), ("task_card_id", jstr("tc-1")), ("status", jstr("pending"))])]),
        ),
    ]);
    let cards = vec![TaskCardFile {
        task_card_id: "tc-1".to_string(),
        file: "/run/task-cards/tc-1.json".to_string(),
        task_card: Some(obj(vec![("status", jstr("passed"))])),
    }];
    let p = create_longway_payload_at(&longway, "/run/longway.json", &cards, &Vec::new(), &new_object(), 0);
    assert_eq!(p.str_field("file"), Some("/run/longway.json"));
    assert_eq!(p.str_field("lifecycle_state"), Some("executing"));
    assert_eq!(p.get("phase_count").unwrap().as_u64(), Some(3));
    assert_eq!(p.get("completed_phase_count").unwrap().as_u64(), Some(1));
    assert_eq!(p.get("planned_row_count").unwrap().as_u64(), Some(1));
    assert_eq!(p.str_field("current_item"), Some("item-2"));
    assert!(p.get("planning_context").unwrap().is_null());
    let planned = items(p.get("planned_rows").unwrap());
    assert_eq!(planned[0].str_field("status"), Some("completed"));
    let phase_rows = items(p.get("phase_rows").unwrap());
    assert_eq!(phase_rows.len(), 3);
    assert_eq!(planned_ids(&phase_rows[0]), vec!["row".to_string()]);
    assert_eq!(phase_rows[0].get("lifecycle_sync").unwrap().str_field("status"), Some("not_started"));
}

#[test]
fn longway_payload_without_open_phases_has_no_current_item() {
    let longway = obj(vec![(
        "phases",
        Json::Array(vec![obj(vec![("title", jstr("One")), ("status", jstr("completed"))])]),
    )]);
    let p = create_longway_payload_at(&longway, "f", &Vec::new(), &Vec::new(), &new_object(), 0);
    assert_eq!(p.str_field("current_item"), Some("none"));
    assert_eq!(p.get("completed_phase_count").unwrap().as_u64(), Some(1));
    assert_eq!(items(p.get("planned_rows").unwrap()).len(), 0);
}
