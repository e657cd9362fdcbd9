use ccc_mcp::format::{i64_to_string, u64_to_string};
use ccc_mcp::roles::{
    agent_id_for_role, generated_custom_agent_name, role_for_agent_id, status_display_agent,
    status_display_role, task_kind_for_role,
};
use ccc_mcp::sorted_set::insert_sorted;
use ccc_mcp::status_text::{
    compact_task_unit_label, operator_command_label, progress_gauge, push_unique_label,
    registry_status_from_manifest, summarize_visible_worker_lifecycle_state, text_appears_korean,
};
use ccc_mcp::strings::{split_once, trim_string};
use ccc_mcp::subagent_validation::{
    canonical_subagent_review_outcome, validate_sentinel_intervention_classification,
    validate_subagent_chosen_next_action, validate_subagent_fallback_reason_for_status,
    validate_subagent_intervention_classification, UpdateFieldError,
};
use ccc_mcp::text_utils::{prompt_fields_match, summarize_text_for_visibility};

fn message(e: UpdateFieldError) -> String {
    match e {
        UpdateFieldError::InvalidInput(m) => m,
    }
}

#[test]
fn role_and_agent_ids_round_trip() {
    for role in ["orchestrator", "way", "explorer", "code specialist", "documenter", "verifier", "sentinel"] {
        let agent = agent_id_for_role(role).unwrap();
        assert_eq!(role_for_agent_id(agent), Some(role));
    }
    assert_eq!(role_for_agent_id("  scout "), Some("explorer"));
    assert_eq!(agent_id_for_role("planner"), None);
    assert_eq!(task_kind_for_role("verifier"), "review");
    assert_eq!(generated_custom_agent_name("raider"), "ccc_raider");
}

#[test]
fn display_names_use_callsigns() {
    assert_eq!(status_display_role("code specialist"), "Marauder(ccc_raider)/code specialist");
    assert_eq!(status_display_role("mystery"), "mystery");
    assert_eq!(status_display_agent("raider"), "Marauder(ccc_raider)");
    assert_eq!(status_display_agent("ccc_raider"), "Marauder(ccc_raider)");
    assert_eq!(status_display_agent("scout-a"), "scout-a");
    assert_eq!(status_display_agent(" unassigned "), "unassigned");
}

#[test]
fn operator_labels_and_gauges() {
    assert_eq!(operator_command_label("ccc_orchestrate"), "ccc orchestrate");
    assert_eq!(operator_command_label("record_fan_in"), "record-fan-in");
    assert_eq!(progress_gauge(1, 2, 4), "[##--] 50%");
    assert_eq!(progress_gauge(5, 2, 4), "[####] 100%");
    assert_eq!(progress_gauge(0, 0, 3), "[---] --%");
    assert_eq!(summarize_visible_worker_lifecycle_state("stale"), "stale and needs bounded reclaim");
    assert_eq!(summarize_visible_worker_lifecycle_state("?"), "worker lifecycle is unavailable");
    assert_eq!(registry_status_from_manifest("stale"), "stale");
    assert_eq!(registry_status_from_manifest("other"), "missing");
}

#[test]
fn korean_text_is_detected() {
    assert!(text_appears_korean("상태 보고"));
    assert!(!text_appears_korean("status report"));
}

#[test]
fn unique_labels_and_sorted_sets() {
    let mut labels = vec!["a".to_string()];
    push_unique_label(&mut labels, "b".to_string());
    push_unique_label(&mut labels, "a".to_string());
    assert_eq!(labels, vec!["a".to_string(), "b".to_string()]);
    let mut set: Vec<String> = Vec::new();
    for x in ["m", "a", "z", "a"] {
        insert_sorted(&mut set, x.to_string());
    }
    assert_eq!(set, vec!["a".to_string(), "m".to_string(), "z".to_string()]);
    assert_eq!(compact_task_unit_label("task one", "raider"), "task_one:raider");
}

#[test]
fn update_field_errors_name_the_allowed_values() {
    assert_eq!(canonical_subagent_review_outcome("needs_work").ok(), Some("needs_work"));
    let e = canonical_subagent_review_outcome("nope").err().unwrap();
    assert_eq!(
        message(e),
        "ccc_subagent_update review_outcome must be one of: passed, needs_work, unsatisfactory, blocked, stalled, reclaimed."
    );
    assert!(validate_subagent_intervention_classification("clarification_only").is_ok());
    let e = validate_subagent_intervention_classification("x").err().unwrap();
    assert!(message(e).starts_with("ccc_subagent_update intervention_classification"));
    assert!(validate_subagent_chosen_next_action("reclaim").is_ok());
    assert!(validate_subagent_chosen_next_action("retry").is_err());
    assert!(validate_sentinel_intervention_classification("warn").is_ok());
    assert!(validate_sentinel_intervention_classification("block").is_err());
    assert!(validate_subagent_fallback_reason_for_status("child_timeout", "failed").is_ok());
    let e = validate_subagent_fallback_reason_for_status("child_timeout", "running").err().unwrap();
    assert_eq!(
        message(e),
        "ccc_subagent_update fallback_reason requires terminal specialist status: completed, failed, stalled, merged, or reclaimed."
    );
    let e = validate_subagent_fallback_reason_for_status("bad", "failed").err().unwrap();
    assert!(message(e).starts_with("ccc_subagent_update fallback_reason must be one of"));
}

#[test]
fn text_summaries_and_numbers() {
    assert_eq!(summarize_text_for_visibility("  a \n b  ", 10), "a b");
    assert_eq!(summarize_text_for_visibility("abcdefghij", 5), "ab...");
    assert_eq!(summarize_text_for_visibility("abcdef", 2), "...");
    assert!(prompt_fields_match("fix  the bug", "fix the bug"));
    assert!(!prompt_fields_match("  ", "  "));
    assert_eq!(u64_to_string(1234567890), "1234567890");
    assert_eq!(i64_to_string(-42), "-42");
    assert_eq!(trim_string("  x y  "), "x y");
    assert_eq!(split_once("a.b.c", '.'), Some(("a".to_string(), "b.c".to_string())));
}
