use ccc_mcp::json::{jbool, jint, jstr, new_object, Json};
use ccc_mcp::operator_text::{
    build_captain_direct_mutation_guard_line, build_prompt_refinement_line, build_routing_trace_line,
    build_state_contract_line, compact_text_field, next_actor_label,
};

fn obj(members: Vec<(&str, Json)>) -> Json {
    let mut o = new_object();
    for (k, v) in members {
        o.insert(k, v);
    }
    o
}

#[test]
fn compact_text_field_trims_and_drops_blank_text() {
    let v = obj(vec![("a", jstr("  x  ")), ("b", jstr("   "))]);
    assert_eq!(compact_text_field(&v, "a"), Some("x".to_string()));
    assert_eq!(compact_text_field(&v, "b"), None);
    assert_eq!(compact_text_field(&v, "c"), None);
}

#[test]
fn prompt_refinement_line_uses_defaults() {
    let payload = obj(vec![("prompt_refinement", obj(vec![("state", jstr("accepted")), ("enabled", jbool(true))]))]);
    assert_eq!(
        build_prompt_refinement_line(&payload),
        Some(
            "Prompt Refinement: state=accepted enabled=true mode=internal owner=captain gate=accept_adjust_reject longway=false task_cards=false source=internal"
                .to_string()
        )
    );
    assert_eq!(build_prompt_refinement_line(&new_object()), None);
}

#[test]
fn next_actor_follows_the_next_step() {
    let payload = obj(vec![("current_task_card", obj(vec![("assigned_agent_id", jstr("raider"))]))]);
    assert_eq!(next_actor_label(&payload, "anything", true), "captain");
    assert_eq!(next_actor_label(&payload, "advance", false), "captain");
    assert_eq!(next_actor_label(&payload, "halt_failed", false), "completed");
    assert_eq!(next_actor_label(&payload, "await_operator", false), "operator");
    assert_eq!(next_actor_label(&payload, "dispatch", false), "dispatch");
    assert!(!next_actor_label(&payload, "execute_task", false).is_empty());
}

#[test]
fn routing_line_reports_risk_and_reason() {
    let payload = obj(vec![(
        "current_task_card",
        obj(vec![(
            "routing_trace",
            obj(vec![("selected_category", jstr("code")), ("risk", jstr("low")), ("summary", jstr("small fix"))]),
        )]),
    )]);
    let line = build_routing_trace_line(&payload).unwrap();
    assert!(line.starts_with("Routing: category=code skill="));
    assert!(line.ends_with(" risk=low reason=\"small fix\""));
    assert_eq!(build_routing_trace_line(&new_object()), None);
}

#[test]
fn mutation_guard_line_lists_three_paths() {
    let payload = obj(vec![(
        "captain_direct_mutation_guard",
        obj(vec![
            ("state", jstr("blocked_direct_edit")),
            ("changed_path_count", jint(4)),
            ("changed_paths", Json::Array(vec![jstr("a"), jstr("b"), jstr("c"), jstr("d")])),
            ("required_action", jstr("delegate_to_worker")),
        ]),
    )]);
    assert_eq!(
        build_captain_direct_mutation_guard_line(&payload),
        Some(
            "Captain Direct Mutation Guard: state=blocked-direct-edit changed_paths=4 paths=a,b,c required=delegate-to-worker"
                .to_string()
        )
    );
}

#[test]
fn state_contract_line_adds_decision_and_captain_actions() {
    let payload = obj(vec![
        (
            "state_contract",
            obj(vec![
                ("state", jstr("awaiting_fan_in")),
                ("allowed_next_transitions", Json::Array(vec![jstr("advance"), jstr("retry")])),
                ("captain_required_action", jstr("merge_fan_in")),
            ]),
        ),
        ("post_fan_in_captain_decision", obj(vec![("precedence", jstr("review_first"))])),
    ]);
    assert_eq!(
        build_state_contract_line(&payload),
        Some(
            "Active Gate: state=awaiting-fan-in gate=unknown requires=unspecified next=unknown decision=review-first allowed=advance,retry captain_required=merge-fan-in"
                .to_string()
        )
    );
    assert_eq!(build_state_contract_line(&obj(vec![("state_contract", obj(vec![]))])), None);
}
