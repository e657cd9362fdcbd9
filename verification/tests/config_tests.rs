use ccc_mcp::config_defaults::{
    default_ccc_config, default_generated_defaults_policy, role_metadata_for_config_key,
    CURRENT_GENERATED_DEFAULTS_VERSION,
};
use ccc_mcp::config_merge::merge_missing_config_fields;
use ccc_mcp::config_upgrade::{
    apply_generated_default_drift_upgrades, generated_defaults_version,
    upgrade_role_generated_defaults, uses_medium_mini_generated_default,
};
use ccc_mcp::json::{jstr, new_object, Json};

fn obj(members: Vec<(&str, Json)>) -> Json {
    let mut o = new_object();
    for (k, v) in members {
        o.insert(k, v);
    }
    o
}

#[test]
fn merge_adds_missing_and_replaces_null_fields() {
    let mut target = obj(vec![("a", Json::Null), ("b", jstr("keep"))]);
    let defaults = obj(vec![("a", jstr("x")), ("b", jstr("y")), ("c", Json::Int(3))]);
    assert!(merge_missing_config_fields(&mut target, &defaults));
    assert_eq!(target.str_field("a"), Some("x"));
    assert_eq!(target.str_field("b"), Some("keep"));
    assert_eq!(target.i64_field("c"), Some(3));
    assert!(!merge_missing_config_fields(&mut target, &defaults));
}

#[test]
fn new_config_carries_current_generated_defaults_version() {
    let config = default_ccc_config();
    assert_eq!(generated_defaults_version(&config), CURRENT_GENERATED_DEFAULTS_VERSION);
    assert_eq!(CURRENT_GENERATED_DEFAULTS_VERSION, 16);
    assert_eq!(
        config.str_at(&["agents", "sentinel", "callsign"]),
        Some("Overseer")
    );
    let policy = default_generated_defaults_policy();
    assert_eq!(policy.str_field("policy"), Some("ccc-managed-defaults"));
}

#[test]
fn role_metadata_is_known_for_managed_keys_only() {
    assert!(role_metadata_for_config_key("planner").is_some());
    assert!(role_metadata_for_config_key("orchestrator").is_none());
    let scv = role_metadata_for_config_key("companion_operator").unwrap();
    assert_eq!(scv.str_field("display_name"), Some("SCV"));
}

#[test]
fn stale_mini_variant_is_upgraded() {
    assert!(uses_medium_mini_generated_default(&["agents", "documenter"]));
    assert!(!uses_medium_mini_generated_default(&["agents", "explorer"]));
    let explorer = obj(vec![
        ("model", jstr("gpt-5.4-mini")),
        ("variant", jstr("medium")),
        ("fast_mode", Json::Bool(false)),
    ]);
    let mut config = obj(vec![("agents", obj(vec![("explorer", explorer)]))]);
    assert!(upgrade_role_generated_defaults(&mut config, &["agents", "explorer"]));
    assert_eq!(config.str_at(&["agents", "explorer", "variant"]), Some("high"));
    assert_eq!(
        config.get_path(&["agents", "explorer", "fast_mode"]).and_then(|v| v.as_bool()),
        Some(true)
    );
    assert!(!upgrade_role_generated_defaults(&mut config, &["agents", "explorer"]));
}

#[test]
fn drift_upgrade_is_idempotent() {
    let orchestrator = obj(vec![("model", jstr("gpt-5.5")), ("variant", jstr("high"))]);
    let mut config = obj(vec![("agents", obj(vec![("orchestrator", orchestrator)]))]);
    assert!(apply_generated_default_drift_upgrades(&mut config));
    assert_eq!(config.str_at(&["agents", "orchestrator", "variant"]), Some("medium"));
    assert_eq!(generated_defaults_version(&config), 16);
    assert!(config.get("features").is_some());
    assert!(!apply_generated_default_drift_upgrades(&mut config));
}
