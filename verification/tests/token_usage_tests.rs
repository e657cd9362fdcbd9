use ccc_mcp::json::{jint, jstr, new_object, Json};
use ccc_mcp::token_usage::{
    create_token_usage_payload, create_token_usage_visibility_payload,
    is_delegation_record_file_name, tally_by_agent, token_usage_counts_fit,
    token_usage_total_count, TokenTally,
};

fn obj(members: Vec<(&str, Json)>) -> Json {
    let mut o = new_object();
    for (k, v) in members {
        o.insert(k, v);
    }
    o
}

fn usage(input: i64, cached: i64, output: i64, reasoning: i64) -> Json {
    obj(vec![
        ("input_tokens", jint(input)),
        ("cached_input_tokens", jint(cached)),
        ("output_tokens", jint(output)),
        ("reasoning_output_tokens", jint(reasoning)),
    ])
}

fn delegation_for(agent: &str) -> Json {
    obj(vec![("child_agent", obj(vec![("agent_id", jstr(agent))]))])
}

fn u64_of(j: &Json, key: &str) -> Option<u64> {
    j.get(key).and_then(|v| v.as_u64())
}

fn entries(j: &Json, key: &str) -> Vec<Json> {
    match j.get(key) {
        Some(Json::Array(items)) => items.iter().map(|x| x.deep_clone()).collect(),
        _ => panic!("missing list {key}"),
    }
}

#[test]
fn total_count_prefers_recorded_total() {
    let mut u = usage(10, 5, 7, 3);
    assert_eq!(token_usage_total_count(&u), 25);
    u.insert("total_tokens", jint(99));
    assert_eq!(token_usage_total_count(&u), 99);
    assert_eq!(token_usage_total_count(&Json::Null), 0);
}

#[test]
fn no_contributions_give_null_payload() {
    let delegations: Vec<(Json, Option<Json>)> = vec![(delegation_for("a"), None)];
    let run = obj(vec![(
        "child_agents",
        Json::Array(vec![obj(vec![("agent_id", jstr("h")), ("context_tokens", jint(0))])]),
    )]);
    assert!(token_usage_counts_fit(&delegations, &run));
    assert!(matches!(create_token_usage_payload(&delegations, &run), Json::Null));
}

#[test]
fn usage_is_summed_per_agent_in_id_order() {
    let delegations: Vec<(Json, Option<Json>)> = vec![
        (delegation_for("zeta"), Some(usage(10, 0, 5, 1))),
        (obj(vec![]), Some(usage(1, 1, 1, 1))),
        (delegation_for("alpha"), Some(usage(2, 0, 2, 0))),
        (delegation_for("zeta"), Some(usage(3, 1, 1, 0))),
    ];
    let run = obj(vec![(
        "child_agents",
        Json::Array(vec![
            obj(vec![
                ("agent_id", jstr("alpha")),
                ("total_token_usage", obj(vec![("total_tokens", jint(50))])),
                ("estimated_context_tokens", jint(7)),
            ]),
            obj(vec![("agent_id", jstr("host")), ("context_tokens", jint(11))]),
            obj(vec![("context_tokens", jint(0))]),
        ]),
    )]);
    assert!(token_usage_counts_fit(&delegations, &run));
    let p = create_token_usage_payload(&delegations, &run);
    assert_eq!(
        p.str_field("source"),
        Some("delegation_and_host_subagent_usage_best_effort")
    );
    assert_eq!(p.bool_field("captain_tokens_available"), Some(false));
    assert_eq!(u64_of(&p, "input_tokens"), Some(16));
    assert_eq!(u64_of(&p, "cached_input_tokens"), Some(2));
    assert_eq!(u64_of(&p, "output_tokens"), Some(9));
    assert_eq!(u64_of(&p, "reasoning_output_tokens"), Some(2));
    // 16 + 4 + 4 + 5 from the delegations, 50 recorded by the host subagent.
    assert_eq!(u64_of(&p, "total_tokens"), Some(79));
    assert_eq!(u64_of(&p, "total_context_tokens"), Some(18));

    let by_agent = entries(&p, "by_agent");
    let ids: Vec<&str> = by_agent.iter().map(|e| e.str_field("agent_id").unwrap()).collect();
    assert_eq!(ids, vec!["alpha", "host", "worker", "zeta"]);
    assert_eq!(u64_of(&by_agent[0], "total_tokens"), Some(54));
    assert_eq!(u64_of(&by_agent[0], "context_tokens"), Some(7));
    assert_eq!(u64_of(&by_agent[0], "input_tokens"), Some(2));
    assert_eq!(u64_of(&by_agent[1], "total_tokens"), Some(0));
    assert_eq!(u64_of(&by_agent[1], "context_tokens"), Some(11));
    assert_eq!(u64_of(&by_agent[2], "total_tokens"), Some(4));
    assert_eq!(u64_of(&by_agent[3], "input_tokens"), Some(13));
    assert_eq!(u64_of(&by_agent[3], "cached_input_tokens"), Some(1));
    assert_eq!(u64_of(&by_agent[3], "total_tokens"), Some(21));

    let by_subagent = entries(&p, "by_subagent");
    assert_eq!(by_subagent.len(), 4);
    assert_eq!(by_subagent[3].str_field("agent_id"), Some("zeta"));
    assert_eq!(u64_of(&by_subagent[3], "total_tokens"), Some(21));
    assert_eq!(by_subagent[3].get("input_tokens").is_none(), true);

    let total: u64 = by_agent.iter().map(|e| u64_of(e, "total_tokens").unwrap()).sum();
    assert_eq!(total, 79);
}

#[test]
fn overflowing_counts_do_not_fit() {
    let big = obj(vec![("input_tokens", Json::UInt(u64::MAX))]);
    let delegations: Vec<(Json, Option<Json>)> = vec![
        (delegation_for("a"), Some(big.deep_clone())),
        (delegation_for("b"), Some(usage(1, 0, 0, 0))),
    ];
    assert!(!token_usage_counts_fit(&delegations, &Json::Null));
    let one: Vec<(Json, Option<Json>)> = vec![(delegation_for("a"), Some(big))];
    assert!(token_usage_counts_fit(&one, &Json::Null));
}

#[test]
fn tallies_are_merged_by_agent() {
    let t = |total: u64| TokenTally {
        input_tokens: 1,
        cached_input_tokens: 0,
        output_tokens: 0,
        reasoning_output_tokens: 0,
        total_tokens: total,
        context_tokens: 2,
    };
    let cs = vec![
        ("b".to_string(), t(5)),
        ("a".to_string(), t(1)),
        ("b".to_string(), t(7)),
        ("ab".to_string(), t(3)),
    ];
    let r = tally_by_agent(&cs);
    let ids: Vec<&str> = r.iter().map(|(k, _)| k.as_str()).collect();
    assert_eq!(ids, vec!["a", "ab", "b"]);
    assert_eq!(r[2].1.total_tokens, 12);
    assert_eq!(r[2].1.input_tokens, 2);
    assert_eq!(r[2].1.context_tokens, 4);
}

#[test]
fn visibility_follows_usage_context_and_host_counts() {
    let available = obj(vec![("total_tokens", jint(3)), ("source", jstr("s"))]);
    let v = create_token_usage_visibility_payload(&available, &Json::Null);
    assert_eq!(v.str_field("status"), Some("available"));
    assert_eq!(v.str_field("source"), Some("s"));
    assert_eq!(v.bool_field("captain_tokens_available"), Some(false));

    let per_agent = obj(vec![(
        "by_agent",
        Json::Array(vec![obj(vec![("total_tokens", jint(2))])]),
    )]);
    let v = create_token_usage_visibility_payload(&per_agent, &Json::Null);
    assert_eq!(v.str_field("status"), Some("available"));
    assert_eq!(v.str_field("source"), Some("delegation_raw_events_best_effort"));

    let context = obj(vec![("total_context_tokens", jint(9))]);
    let v = create_token_usage_visibility_payload(&context, &Json::Null);
    assert_eq!(v.str_field("status"), Some("context_available"));
    assert_eq!(v.str_field("source"), Some("host_subagent_context_best_effort"));
    assert_eq!(v.bool_field("context_tokens_available"), Some(true));

    let host = obj(vec![("total_subagent_count", jint(2))]);
    let v = create_token_usage_visibility_payload(&Json::Null, &host);
    assert_eq!(v.str_field("status"), Some("unavailable"));
    assert_eq!(
        v.str_field("unavailable_reason_code"),
        Some("host_custom_subagents_no_raw_usage_events")
    );
    let v = create_token_usage_visibility_payload(&Json::Null, &Json::Null);
    assert_eq!(v.str_field("unavailable_reason_code"), Some("no_raw_usage_events"));
    assert_eq!(v.str_field("source"), Some("none"));
}

#[test]
fn delegation_record_names() {
    assert!(is_delegation_record_file_name("d-1.json"));
    assert!(!is_delegation_record_file_name("d-1.result.json"));
    assert!(!is_delegation_record_file_name(".json"));
    assert!(!is_delegation_record_file_name("notes.txt"));
    assert!(is_delegation_record_file_name("..json"));
}
