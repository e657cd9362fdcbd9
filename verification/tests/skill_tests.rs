use ccc_mcp::json::{jstr, new_object, Json};
use ccc_mcp::skill_manifest::{
    invalid_manifest, manifest_field, missing_manifest, missing_required_manifest_fields,
    validate_skill_ssl_manifest,
};
use ccc_mcp::skill_registry::{
    build_skill_registry_payload, evidence_sources_for_status, registry_role_config_evidence,
};

fn obj(members: Vec<(&str, Json)>) -> Json {
    let mut o = new_object();
    for (k, v) in members {
        o.insert(k, v);
    }
    o
}

fn arr(items: Vec<&str>) -> Json {
    Json::Array(items.into_iter().map(jstr).collect())
}

fn complete_manifest(skill_id: &str) -> Json {
    obj(vec![
        ("version", jstr(" 0.1 ")),
        ("skill_id", jstr(skill_id)),
        ("display_name", jstr("Scout")),
        ("callsign", jstr("Recon")),
        ("theme", jstr("starcraft")),
        ("inspired_by", arr(vec!["x"])),
        ("recommended_workflows", arr(vec![])),
        ("lsp_capabilities", arr(vec![])),
        (
            "scheduling",
            obj(vec![
                ("role_family", jstr("evidence")),
                ("display_agent_id", jstr("scout")),
                ("intent_signatures", arr(vec![])),
                ("expected_inputs", arr(vec![])),
                ("expected_outputs", arr(vec![])),
                ("mutation_allowed", Json::Bool(false)),
            ]),
        ),
        ("structural", obj(vec![("scenes", arr(vec![]))])),
        (
            "logical",
            obj(vec![
                ("actions", arr(vec![])),
                ("requires_operator_approval", Json::Bool(false)),
                ("external_side_effects", Json::Bool(false)),
            ]),
        ),
    ])
}

#[test]
fn complete_manifest_is_available() {
    let r = validate_skill_ssl_manifest("scout", Some("/m/scout.skill.ssl.json"), complete_manifest("scout"));
    assert_eq!(r.str_field("status"), Some("available"));
    assert_eq!(r.str_field("manifest_version"), Some("0.1"));
    assert_eq!(r.str_field("path"), Some("/m/scout.skill.ssl.json"));
    assert_eq!(r.str_field("display_name"), Some("Scout"));
    assert_eq!(r.str_at(&["structural", "scenes"]), None);
    assert!(r.get_path(&["structural", "scenes"]).map(|v| v.is_array()).unwrap_or(false));
    assert_eq!(r.str_field("schema"), Some("ccc.skill_ssl_manifest.v1"));
    assert_eq!(r.bool_field("advisory_only"), Some(true));
}

#[test]
fn manifest_without_version_is_invalid() {
    let r = validate_skill_ssl_manifest("scout", None, obj(vec![("version", jstr("  "))]));
    assert_eq!(r.str_field("status"), Some("invalid"));
    assert_eq!(
        r.str_field("reason"),
        Some("Skill SSL manifest is missing required string field: version")
    );
    assert_eq!(r.str_field("path"), Some(""));
}

#[test]
fn other_version_is_stale() {
    let r = validate_skill_ssl_manifest("scout", None, obj(vec![("version", jstr("0.2"))]));
    assert_eq!(r.str_field("status"), Some("stale"));
    assert_eq!(
        r.str_field("reason"),
        Some("Skill SSL manifest version 0.2 is not the supported version 0.1.")
    );
}

#[test]
fn other_skill_id_is_drift() {
    let r = validate_skill_ssl_manifest("scout", None, complete_manifest(" raider "));
    assert_eq!(r.str_field("status"), Some("drift_detected"));
    assert_eq!(
        r.str_field("reason"),
        Some("Skill SSL manifest skill_id \"raider\" does not match requested agent scout.")
    );
    let r = validate_skill_ssl_manifest("scout", None, obj(vec![("version", jstr("0.1"))]));
    assert_eq!(
        r.str_field("reason"),
        Some("Skill SSL manifest skill_id \"\" does not match requested agent scout.")
    );
}

#[test]
fn missing_sections_and_fields_are_named() {
    let m = obj(vec![
        ("version", jstr("0.1")),
        ("skill_id", jstr("scout")),
        ("scheduling", obj(vec![])),
    ]);
    let r = validate_skill_ssl_manifest("scout", None, m);
    assert_eq!(
        r.str_field("reason"),
        Some("Skill SSL manifest is missing object section(s): structural, logical")
    );
    let mut m = complete_manifest("scout");
    m.insert("theme", jstr(" "));
    m.insert("logical", obj(vec![("actions", jstr("not an array"))]));
    let r = validate_skill_ssl_manifest("scout", None, m);
    assert_eq!(
        r.str_field("reason"),
        Some("Skill SSL manifest is missing required field(s): theme, logical.actions, logical.requires_operator_approval, logical.external_side_effects")
    );
}

#[test]
fn dotted_fields_and_required_lists() {
    let m = complete_manifest("scout");
    assert_eq!(manifest_field(&m, "scheduling.role_family").and_then(|v| v.as_str()), Some("evidence"));
    assert!(manifest_field(&m, "scheduling.nope").is_none());
    assert!(manifest_field(&m, "theme.inner").is_none());
    assert!(missing_required_manifest_fields(&m).is_empty());
    assert_eq!(missing_required_manifest_fields(&new_object()).len(), 17);
}

#[test]
fn missing_and_invalid_reports() {
    let r = missing_manifest("scout");
    assert_eq!(r.str_field("status"), Some("missing"));
    assert!(r.get("path").is_none());
    let r = invalid_manifest("scout", Some("/x"), "Unable to read".to_string());
    assert_eq!(r.str_field("status"), Some("invalid"));
    assert_eq!(r.str_field("reason"), Some("Unable to read"));
}

#[test]
fn registry_maps_manifest_status() {
    let snapshot = obj(vec![("model", jstr("gpt-5.5")), ("summary", jstr("s"))]);
    let r = build_skill_registry_payload("scout", missing_manifest("scout"), &snapshot);
    assert_eq!(r.str_field("status"), Some("missing"));
    assert_eq!(r.str_field("manifest_status"), Some("missing"));
    assert_eq!(r.str_at(&["role_config", "model"]), Some("gpt-5.5"));
    assert_eq!(r.get_path(&["role_config", "fast_mode"]).and_then(|v| v.as_bool()), Some(false));
    assert!(r.get_path(&["role_config", "variant"]).map(|v| v.is_null()).unwrap_or(false));
    let r = build_skill_registry_payload("scout", obj(vec![("status", jstr("weird"))]), &snapshot);
    assert_eq!(r.str_field("status"), Some("missing"));
    assert_eq!(r.str_field("manifest_status"), Some("weird"));
    let r = build_skill_registry_payload("scout", new_object(), &snapshot);
    assert_eq!(r.str_field("manifest_status"), Some("missing"));
    let available = validate_skill_ssl_manifest("scout", None, complete_manifest("scout"));
    let r = build_skill_registry_payload("scout", available, &snapshot);
    assert_eq!(r.str_field("status"), Some("available"));
}

#[test]
fn ssl_evidence_only_when_available() {
    let sources = evidence_sources_for_status("available");
    assert_eq!(sources.len(), 3);
    assert_eq!(sources[2].str_field("source"), Some("skill_ssl_json"));
    assert_eq!(sources[2].bool_field("available"), Some(true));
    assert_eq!(sources[0].bool_field("available"), Some(true));
    let sources = evidence_sources_for_status("stale");
    assert_eq!(sources[2].bool_field("available"), Some(false));
    let e = registry_role_config_evidence(&obj(vec![("fast_mode", Json::Bool(true))]));
    assert_eq!(e.bool_field("fast_mode"), Some(true));
    assert_eq!(e.str_field("source"), Some("role_config_snapshot"));
}
