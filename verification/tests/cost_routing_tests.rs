use ccc_mcp::cost_routing::{create_cost_routing_payload, role_model_entry, roles_low_cost};
use ccc_mcp::json::{jbool, jstr, new_object, Json};

fn obj(members: Vec<(&str, Json)>) -> Json {
    let mut o = new_object();
    for (k, v) in members {
        o.insert(k, v);
    }
    o
}

fn mini_config() -> Json {
    obj(vec![(
        "agents",
        obj(vec![
            ("explorer", obj(vec![("model", jstr("gpt-5.4-mini")), ("fast_mode", jbool(true))])),
            ("documenter", obj(vec![("model", jstr("gpt-5-mini"))])),
            ("verifier", obj(vec![("model", jstr("gpt-5"))])),
        ]),
    )])
}

#[test]
fn role_entries_read_the_shared_config() {
    let config = mini_config();
    let e = role_model_entry("explorer", Some(&config));
    assert_eq!(e.str_field("agent_id"), Some("scout"));
    assert_eq!(e.str_field("model"), Some("gpt-5.4-mini"));
    assert_eq!(e.bool_field("fast_mode"), Some(true));
    assert_eq!(e.str_field("source"), Some("shared_role_config"));
    assert_eq!(e.bool_field("uses_low_cost_model"), Some(true));
    let unread = role_model_entry("custom", None);
    assert_eq!(unread.str_field("agent_id"), Some("custom"));
    assert_eq!(unread.bool_field("uses_low_cost_model"), Some(false));
    assert!(roles_low_cost(&["explorer", "companion_reader"], Some(&config)));
    assert!(!roles_low_cost(&["explorer", "verifier"], Some(&config)));
}

#[test]
fn configured_when_subagents_and_mini_models() {
    let config = mini_config();
    let runtime = obj(vec![("preferred_specialist_execution_mode", jstr("codex_subagent"))]);
    let payload = obj(vec![
        ("current_task_card", obj(vec![("assigned_role", jstr("verifier"))])),
        ("token_usage_visibility", obj(vec![("status", jstr("available"))])),
    ]);
    let r = create_cost_routing_payload(&runtime, &payload, Some(&config));
    assert_eq!(r.str_field("status"), Some("configured"));
    assert_eq!(r.bool_field("simple_routes_use_low_cost_models"), Some(true));
    assert_eq!(r.str_at(&["subagents", "current_task_role"]), Some("verifier"));
    assert_eq!(r.str_at(&["subagents", "current_task_model", "model"]), Some("gpt-5"));
    assert_eq!(r.str_at(&["subagents", "fallback_execution_mode"]), Some("codex_exec"));
    assert_eq!(r.str_at(&["token_usage_observation", "status"]), Some("available"));
    match r.get("simple_task_routes") {
        Some(Json::Array(routes)) => {
            assert_eq!(routes.len(), 4);
            assert_eq!(routes[0].str_field("task"), Some("simple_search_and_collection"));
        },
        _ => panic!("routes missing"),
    }
}

#[test]
fn needs_attention_otherwise() {
    let runtime = obj(vec![("preferred_specialist_execution_mode", jstr("codex_exec"))]);
    let r = create_cost_routing_payload(&runtime, &Json::Null, Some(&mini_config()));
    assert_eq!(r.str_field("status"), Some("needs_attention"));
    assert_eq!(r.str_at(&["subagents", "current_task_role"]), Some("unassigned"));
    assert!(r.get_path(&["subagents", "current_task_model"]).unwrap().is_null());
    assert_eq!(r.str_at(&["token_usage_observation", "status"]), Some("unknown"));
    let unread = create_cost_routing_payload(&Json::Null, &Json::Null, None);
    assert_eq!(unread.str_field("status"), Some("needs_attention"));
    assert_eq!(unread.bool_field("simple_routes_use_low_cost_models"), Some(false));
}
