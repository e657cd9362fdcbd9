use ccc_mcp::clock::parse_rfc3339_millis;
use ccc_mcp::json::{jstr, new_object, Json};
use ccc_mcp::signature::visibility_signature;
use ccc_mcp::worker_events::{
    extract_latest_agent_message_text_from_raw_events, extract_total_token_usage_from_raw_events,
    extract_worker_artifacts, extract_worker_terminal_event, RawEventLine,
};
use ccc_mcp::worker_fleet::{create_reclaim_plan_payload, create_worker_visibility_payload_at};
use ccc_mcp::worker_lifecycle::{create_worker_lifecycle_view_at, parse_timestamp_millis};

fn obj(members: Vec<(&str, Json)>) -> Json {
    let mut o = new_object();
    for (k, v) in members {
        o.insert(k, v);
    }
    o
}

fn line(text: &str, event: Option<Json>) -> RawEventLine {
    RawEventLine { text: text.to_string(), event }
}

const PROGRESS_AT: &str = "2024-01-01T00:00:00Z";
const PROGRESS_MS: i64 = 1_704_067_200_000;

fn running_delegation() -> Json {
    obj(vec![
        ("child_agent", obj(vec![("status", jstr("running"))])),
        (
            "worker_lifecycle",
            obj(vec![("state", jstr("running_active")), ("last_progress_at", jstr(PROGRESS_AT))]),
        ),
    ])
}

#[test]
fn chrono_reads_rfc3339_timestamps() {
    assert_eq!(parse_rfc3339_millis(PROGRESS_AT), Some(PROGRESS_MS));
    assert_eq!(parse_rfc3339_millis("2024-01-01T09:00:00+09:00"), Some(PROGRESS_MS));
    assert_eq!(parse_rfc3339_millis("yesterday"), None);
    assert_eq!(parse_timestamp_millis(Some(&jstr(PROGRESS_AT))), Some(PROGRESS_MS));
    assert_eq!(parse_timestamp_millis(Some(&Json::Int(5))), None);
    assert_eq!(parse_timestamp_millis(None), None);
}

#[test]
fn running_worker_turns_stale_then_timed_out() {
    let d = running_delegation();
    let runtime = new_object();
    let v = create_worker_lifecycle_view_at(&d, &runtime, PROGRESS_MS + 10_000);
    assert_eq!(v.str_field("state"), Some("running_active"));
    assert_eq!(v.i64_field("elapsed_since_progress_ms"), Some(10_000));
    assert_eq!(v.i64_field("stale_after_ms"), Some(45_000));
    let v = create_worker_lifecycle_view_at(&d, &runtime, PROGRESS_MS + 50_000);
    assert_eq!(v.str_field("state"), Some("timed_out"));
    assert_eq!(v.str_field("reclaim_state"), Some("reclaim_needed"));
    assert_eq!(v.str_field("timed_out_at"), Some(PROGRESS_AT));
    let strict = obj(vec![("worker_stuck_after_ms", Json::Int(5_000))]);
    let v = create_worker_lifecycle_view_at(&d, &strict, PROGRESS_MS + 6_000);
    assert_eq!(v.str_field("state"), Some("timed_out"));
    assert_eq!(v.i64_field("timeout_after_ms"), Some(5_000));
    let v = create_worker_lifecycle_view_at(&d, &runtime, PROGRESS_MS - 1_000);
    assert_eq!(v.i64_field("elapsed_since_progress_ms"), Some(0));
}

#[test]
fn finished_workers_and_missing_lifecycle() {
    let completed = obj(vec![
        ("child_agent", obj(vec![("status", jstr("completed"))])),
        ("worker_lifecycle", obj(vec![("state", jstr("running"))])),
    ]);
    let v = create_worker_lifecycle_view_at(&completed, &new_object(), 0);
    assert_eq!(v.str_field("state"), Some("returned"));
    assert_eq!(v.str_field("reclaim_state"), Some("resumable"));
    assert_eq!(
        v.str_field("summary"),
        Some("returned to captain and ready for explicit fan-in")
    );
    assert!(create_worker_lifecycle_view_at(&new_object(), &new_object(), 0).is_null());
}

#[test]
fn visibility_and_reclaim_plan_count_workers() {
    let mut running = running_delegation();
    running.insert("task_card_id", jstr("tc-1"));
    let delegations = vec![
        running,
        obj(vec![
            ("task_card_id", jstr("tc-1")),
            ("child_agent", obj(vec![("status", jstr("completed"))])),
            ("worker_lifecycle", obj(vec![("state", jstr("returned"))])),
        ]),
        obj(vec![("task_card_id", jstr("tc-2"))]),
    ];
    let visibility = create_worker_visibility_payload_at(
        Some("tc-1"),
        Some(delegations.as_slice()),
        &new_object(),
        PROGRESS_MS + 50_000,
    );
    assert_eq!(visibility.str_field("task_card_id"), Some("tc-1"));
    assert_eq!(visibility.i64_field("total_worker_count"), Some(2));
    let plan = create_reclaim_plan_payload(&visibility, &new_object());
    assert!(plan.is_object());
    assert!(create_worker_visibility_payload_at(Some("  "), Some(delegations.as_slice()), &new_object(), 0).is_null());
    assert!(create_reclaim_plan_payload(&Json::Null, &new_object()).is_null());
}

#[test]
fn raw_events_yield_thread_message_usage_and_terminal_event() {
    let lines = vec![
        line(
            "{}",
            Some(obj(vec![("type", jstr("thread.started")), ("thread_id", jstr(" th-1 "))])),
        ),
        line("not json", None),
        line(
            "{}",
            Some(obj(vec![(
                "item",
                obj(vec![("type", jstr("agent_message")), ("text", jstr("  done  "))]),
            )])),
        ),
        line(
            "{}",
            Some(obj(vec![
                ("type", jstr("turn.completed")),
                ("usage", obj(vec![("input_tokens", Json::Int(10))])),
            ])),
        ),
    ];
    let (thread, message, usage) = extract_worker_artifacts(&lines);
    assert_eq!(thread.as_deref(), Some("th-1"));
    assert_eq!(message.as_deref(), Some("done"));
    assert_eq!(usage.and_then(|u| u.i64_field("input_tokens")), Some(10));
    assert_eq!(extract_latest_agent_message_text_from_raw_events(&lines).as_deref(), Some("done"));
    assert!(extract_total_token_usage_from_raw_events(&lines).is_some());
    assert_eq!(extract_worker_terminal_event(&lines).as_deref(), Some("turn.completed"));
    assert_eq!(extract_worker_terminal_event(&[]), None);
}

#[test]
fn visibility_signature_is_sha256_prefix() {
    assert_eq!(visibility_signature("abc"), "ba7816bf8f01cfea");
    assert_eq!(visibility_signature(""), "e3b0c44298fc1c14");
    assert_ne!(visibility_signature("abc"), visibility_signature("abd"));
}
