use ccc_mcp::config_backfill::{backfill_generated_defaults, entry_policy_mode_backfill_reason, entry_policy_mode_visibility};
use ccc_mcp::json::{jint, jstr, new_object, Json};

fn obj(members: Vec<(&str, Json)>) -> Json {
    let mut o = new_object();
    for (k, v) in members {
        o.insert(k, v);
    }
    o
}

#[test]
fn backfill_leaves_a_non_object_alone() {
    let mut config = jstr("not a table");
    assert!(!backfill_generated_defaults(&mut config, None, &Json::Null, &Json::Null));
    assert_eq!(config.as_str(), Some("not a table"));
}

#[test]
fn backfill_resets_a_malformed_entry_policy() {
    let mut config = obj(vec![("entry_policy", jstr("loose"))]);
    assert!(backfill_generated_defaults(&mut config, None, &Json::Null, &Json::Null));
    assert_eq!(config.get("entry_policy").unwrap().str_field("mode"), Some("guided_explicit"));
}

#[test]
fn backfill_normalizes_the_entry_policy_mode() {
    let mut config = obj(vec![("entry_policy", obj(vec![("mode", jstr("Guided"))]))]);
    assert!(backfill_generated_defaults(&mut config, Some("guided_explicit"), &Json::Null, &Json::Null));
    assert_eq!(config.get("entry_policy").unwrap().str_field("mode"), Some("guided_explicit"));
    let mut unknown = obj(vec![("entry_policy", obj(vec![("mode", jstr("whatever"))]))]);
    backfill_generated_defaults(&mut unknown, None, &Json::Null, &Json::Null);
    assert_eq!(unknown.get("entry_policy").unwrap().str_field("mode"), Some("guided_explicit"));
}

#[test]
fn backfill_fills_null_sections_and_keeps_omitted_ones_omitted() {
    let routing = obj(vec![("mode", jstr("auto"))]);
    let mut config = obj(vec![("routing", Json::Null), ("features", Json::Null)]);
    assert!(backfill_generated_defaults(&mut config, None, &routing, &Json::Null));
    assert_eq!(config.get("routing").unwrap().str_field("mode"), Some("auto"));
    assert!(config.get("features").unwrap().is_object());
    assert!(config.get("lsp").is_none());
    assert!(config.get("tool_routing").is_none());
    assert!(config.get("agents").is_none());
}

#[test]
fn backfill_merges_missing_fields_into_present_sections() {
    let routing = obj(vec![("mode", jstr("auto")), ("limit", jint(3))]);
    let mut config = obj(vec![("routing", obj(vec![("mode", jstr("manual"))]))]);
    assert!(backfill_generated_defaults(&mut config, None, &routing, &Json::Null));
    let r = config.get("routing").unwrap();
    assert_eq!(r.str_field("mode"), Some("manual"));
    assert_eq!(r.get("limit").unwrap().as_i64(), Some(3));
}

#[test]
fn backfill_gives_agent_sections_their_defaults() {
    let mut config = obj(vec![("agents", Json::Null), ("companion_agents", new_object())]);
    assert!(backfill_generated_defaults(&mut config, None, &Json::Null, &Json::Null));
    let agents = config.get("agents").unwrap();
    assert!(agents.get("way").unwrap().is_object());
    assert!(config.get("companion_agents").unwrap().get("companion_reader").unwrap().is_object());
}

#[test]
fn entry_policy_visibility_reports_each_state() {
    let missing = entry_policy_mode_visibility(&new_object(), None);
    assert_eq!(missing.0, "missing/backfill-needed");
    assert_eq!(missing.2.as_deref(), Some("guided_explicit"));
    let bad = entry_policy_mode_visibility(&obj(vec![("entry_policy", jint(1))]), None);
    assert_eq!(bad.0, "invalid/backfill-needed");
    let not_string = entry_policy_mode_visibility(&obj(vec![("entry_policy", obj(vec![("mode", jint(1))]))]), None);
    assert_eq!(not_string.0, "invalid/backfill-needed");
    assert_eq!(not_string.3, "Entry policy mode must be a string; run setup to backfill `guided_explicit`.");
    let config = obj(vec![("entry_policy", obj(vec![("mode", jstr("guided_explicit"))]))]);
    let canonical = entry_policy_mode_visibility(&config, Some("guided_explicit"));
    assert_eq!(canonical.0, "canonical");
    assert_eq!(canonical.3, "Entry policy mode `guided_explicit` is canonical and supported.");
    let legacy_config = obj(vec![("entry_policy", obj(vec![("mode", jstr("guided"))]))]);
    let legacy = entry_policy_mode_visibility(&legacy_config, Some("guided_explicit"));
    assert_eq!(legacy.0, "legacy/backfill-needed");
    assert_eq!(legacy.1.as_deref(), Some("guided"));
    assert_eq!(
        legacy.3,
        "Entry policy mode `guided` is runtime-compatible as `guided_explicit`, but setup should backfill the canonical value."
    );
    let unsupported = entry_policy_mode_visibility(&legacy_config, None);
    assert_eq!(unsupported.0, "invalid/unsupported");
    assert_eq!(unsupported.2.as_deref(), Some("guided_explicit"));
}

#[test]
fn entry_policy_backfill_reason_names_what_is_wrong() {
    assert_eq!(entry_policy_mode_backfill_reason(&new_object(), None), None);
    let legacy = obj(vec![("entry_policy", obj(vec![("mode", jstr("guided"))]))]);
    assert_eq!(
        entry_policy_mode_backfill_reason(&legacy, Some("guided_explicit")).as_deref(),
        Some("Entry policy mode `guided` is a legacy alias for `guided_explicit`; run setup to backfill the canonical value.")
    );
    assert_eq!(
        entry_policy_mode_backfill_reason(&legacy, None).as_deref(),
        Some("Entry policy mode `guided` is not supported; run setup to backfill `guided_explicit`.")
    );
    let canonical = obj(vec![("entry_policy", obj(vec![("mode", jstr("guided_explicit"))]))]);
    assert_eq!(entry_policy_mode_backfill_reason(&canonical, Some("guided_explicit")), None);
    let no_mode = obj(vec![("entry_policy", new_object())]);
    assert_eq!(
        entry_policy_mode_backfill_reason(&no_mode, None).as_deref(),
        Some("Entry policy config is missing `mode`; run setup to backfill `guided_explicit`.")
    );
}
