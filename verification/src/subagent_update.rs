//! Recording a host subagent's update: who the child agent is, whether its
//! configuration drifted from the delegation plan, the sentinel guardrail,
//! the compact fan-in, its lifecycle, and the run's child and executor
//! entries.

use vstd::prelude::*;
use crate::custom_agent::{spec_trimmed_nonblank, trimmed_nonblank};
use crate::json::{
    get_or, get_or_null, jbool, jempty_array, jget, jget_or, jget_or_null, jget_path, jinsert,
    jopt, jopt_str, jstr, jstr_at, jstr_field, jview, member, members_view, object_of, opt_bool,
    JVal, Json,
};
use crate::roles::{
    generated_custom_agent_name, is_managed_custom_agent_name, role_for_agent_id,
    spec_is_managed_custom_agent_name, spec_role_for_agent_id,
};
use crate::strings::{has_prefix, opt_str_is, opt_string_view, opt_view, starts_with, str_eq, to_owned, trim};

verus! {

/// The child agent a task card expects: the delegation plan's preferred
/// custom agent, else its assigned agent as a generated custom agent name.
pub open spec fn spec_preferred_subagent_child_agent_id(tc: JVal) -> Option<Seq<char>> {
    match spec_trimmed_nonblank(
        jstr_at(tc, seq!["delegation_plan"@, "preferred_custom_agent_name"@]),
    ) {
        Some(name) => Some(name),
        None => match spec_trimmed_nonblank(jstr_field(tc, "assigned_agent_id"@)) {
            Some(a) => Some(
                if has_prefix(a, "ccc_"@) {
                    a
                } else {
                    "ccc_"@ + a
                },
            ),
            None => None,
        },
    }
}

pub fn preferred_subagent_child_agent_id(task_card: &Json) -> (r: Option<String>)
    ensures
        opt_string_view(r) == spec_preferred_subagent_child_agent_id(jview(*task_card)),
{
    let path: Vec<&str> = vec!["delegation_plan", "preferred_custom_agent_name"];
    assert(path@.map_values(|k: &str| k@) =~= seq![
        "delegation_plan"@,
        "preferred_custom_agent_name"@,
    ]);
    match trimmed_nonblank(task_card.str_at(path.as_slice())) {
        Some(name) => Some(name),
        None => match trimmed_nonblank(task_card.str_field("assigned_agent_id")) {
            Some(a) => {
                if starts_with(a.as_str(), "ccc_") {
                    Some(a)
                } else {
                    Some(generated_custom_agent_name(a.as_str()))
                }
            },
            None => None,
        },
    }
}

/// The child agent id and thread id recorded for an update. An incoming id
/// that names the task's own agent (preferred, assigned, or its generated
/// name) is recorded as the preferred agent; a managed custom agent name or
/// a role's agent id is kept; any other id is taken for a thread id (when
/// none was given) and the task's agent is recorded instead.
pub open spec fn spec_normalize_subagent_update_agent_identity(
    tc: JVal,
    parsed_child_agent_id: Option<Seq<char>>,
    parsed_thread_id: Option<Seq<char>>,
) -> (Seq<char>, Option<Seq<char>>) {
    let assigned = spec_trimmed_nonblank(jstr_field(tc, "assigned_agent_id"@));
    let generated = match assigned {
        Some(a) => Some("ccc_"@ + a),
        None => None,
    };
    let preferred = spec_preferred_subagent_child_agent_id(tc);
    let fallback = match preferred {
        Some(p) => p,
        None => match generated {
            Some(g) => g,
            None => match assigned {
                Some(a) => a,
                None => "unknown"@,
            },
        },
    };
    match parsed_child_agent_id {
        Some(incoming) => if preferred == Some(incoming) || assigned == Some(incoming) || generated
            == Some(incoming) {
            (
                match preferred {
                    Some(p) => p,
                    None => match generated {
                        Some(g) => g,
                        None => incoming,
                    },
                },
                parsed_thread_id,
            )
        } else if spec_is_managed_custom_agent_name(incoming) {
            (incoming, parsed_thread_id)
        } else if spec_role_for_agent_id(incoming) is Some {
            (incoming, parsed_thread_id)
        } else {
            (
                fallback,
                if parsed_thread_id is None {
                    Some(incoming)
                } else {
                    parsed_thread_id
                },
            )
        },
        None => (fallback, parsed_thread_id),
    }
}

fn opt_string_is(o: &Option<String>, s: &str) -> (r: bool)
    ensures
        r == (opt_string_view(*o) == Some(s@)),
{
    match o {
        Some(x) => str_eq(x.as_str(), s),
        None => false,
    }
}

fn clone_opt_string(o: &Option<String>) -> (r: Option<String>)
    ensures
        opt_string_view(r) == opt_string_view(*o),
{
    match o {
        Some(x) => Some(x.clone()),
        None => None,
    }
}

pub fn normalize_subagent_update_agent_identity(
    task_card: &Json,
    parsed_child_agent_id: Option<&str>,
    parsed_thread_id: Option<&str>,
) -> (r: (String, Option<String>))
    ensures
        (r.0@, opt_string_view(r.1)) == spec_normalize_subagent_update_agent_identity(
            jview(*task_card),
            opt_view(parsed_child_agent_id),
            opt_view(parsed_thread_id),
        ),
{
    let assigned = trimmed_nonblank(task_card.str_field("assigned_agent_id"));
    let generated: Option<String> = match &assigned {
        Some(a) => Some(generated_custom_agent_name(a.as_str())),
        None => None,
    };
    let preferred = preferred_subagent_child_agent_id(task_card);
    let fallback: String = match &preferred {
        Some(p) => p.clone(),
        None => match &generated {
            Some(g) => g.clone(),
            None => match &assigned {
                Some(a) => a.clone(),
                None => to_owned("unknown"),
            },
        },
    };
    let thread: Option<String> = match parsed_thread_id {
        Some(t) => Some(to_owned(t)),
        None => None,
    };
    match parsed_child_agent_id {
        Some(incoming) => {
            if opt_string_is(&preferred, incoming) || opt_string_is(&assigned, incoming)
                || opt_string_is(&generated, incoming) {
                let id = match &preferred {
                    Some(p) => p.clone(),
                    None => match &generated {
                        Some(g) => g.clone(),
                        None => to_owned(incoming),
                    },
                };
                (id, thread)
            } else if is_managed_custom_agent_name(incoming) {
                (to_owned(incoming), thread)
            } else if role_for_agent_id(incoming).is_some() {
                (to_owned(incoming), thread)
            } else {
                let t = match thread {
                    Some(t) => Some(t),
                    None => Some(to_owned(incoming)),
                };
                (fallback, t)
            }
        },
        None => (fallback, thread),
    }
}

/// Whether a fan-in value carries nothing: `null`, a blank string or an
/// empty array.
pub open spec fn fan_in_blank(v: JVal) -> bool {
    match v {
        JVal::Null => true,
        JVal::Str(t) => trim(t).len() == 0,
        JVal::Array(items) => items.len() == 0,
        _ => false,
    }
}

pub fn is_blank_fan_in_value(value: &Json) -> (r: bool)
    ensures
        r == fan_in_blank(jview(*value)),
{
    match value {
        Json::Null => true,
        Json::Str(text) => crate::strings::is_blank(text.as_str()),
        Json::Array(items) => items.len() == 0,
        _ => false,
    }
}

/// Whether an entry is on the given lane (or, without one, on no lane).
pub open spec fn spec_entry_matches_lane(entry: JVal, lane_id: Option<Seq<char>>) -> bool {
    match lane_id {
        Some(l) => jstr_field(entry, "lane_id"@) == Some(l),
        None => jget_or_null(entry, "lane_id"@) is Null,
    }
}

pub fn entry_matches_lane(entry: &Json, lane_id: Option<&str>) -> (r: bool)
    ensures
        r == spec_entry_matches_lane(jview(*entry), opt_view(lane_id)),
{
    match lane_id {
        Some(l) => opt_str_is(entry.str_field("lane_id"), l),
        None => match entry.get("lane_id") {
            Some(v) => v.is_null(),
            None => true,
        },
    }
}

/// One field of a compact fan-in: the prior non-blank value where a merged
/// report keeps the completed fan-in and nothing new came in, else the
/// incoming value unless it is blank, else the default.
pub open spec fn spec_merge_fan_in_field(
    prior: JVal,
    preserve: bool,
    field: Seq<char>,
    incoming: JVal,
    default: JVal,
) -> JVal {
    if preserve && fan_in_blank(incoming) && (jget(prior, field) matches Some(p) && !fan_in_blank(
        p,
    )) {
        jget(prior, field)->0
    } else if fan_in_blank(incoming) {
        default
    } else {
        incoming
    }
}

pub fn merge_fan_in_field(
    prior_fan_in: &Json,
    preserve_prior_completed_fan_in: bool,
    field: &str,
    incoming: Json,
    default: Json,
) -> (r: Json)
    ensures
        jview(r) == spec_merge_fan_in_field(
            jview(*prior_fan_in),
            preserve_prior_completed_fan_in,
            field@,
            jview(incoming),
            jview(default),
        ),
{
    if preserve_prior_completed_fan_in && is_blank_fan_in_value(&incoming) {
        match prior_fan_in.get(field) {
            Some(p) => {
                if !is_blank_fan_in_value(p) {
                    return p.deep_clone();
                }
            },
            None => {},
        }
    }
    if is_blank_fan_in_value(&incoming) {
        default
    } else {
        incoming
    }
}

/// A string field, else a fallback lookup.
pub open spec fn str_or(first: Option<Seq<char>>, second: Option<Seq<char>>) -> Option<Seq<char>> {
    match first {
        Some(x) => Some(x),
        None => second,
    }
}

/// A policy mismatch entry.
pub open spec fn spec_mismatch(field: Seq<char>, expected: Seq<char>, observed: Seq<char>) -> JVal {
    JVal::Object(
        seq![
            ("field"@, JVal::Str(field)),
            ("expected"@, JVal::Str(expected)),
            ("observed"@, JVal::Str(observed)),
        ],
    )
}

/// The mismatches so far, with one more where both values are known and
/// differ.
pub open spec fn with_mismatch(
    acc: Seq<JVal>,
    field: Seq<char>,
    expected: Option<Seq<char>>,
    observed: Option<Seq<char>>,
) -> Seq<JVal> {
    match (expected, observed) {
        (Some(e), Some(o)) => if e != o {
            acc.push(spec_mismatch(field, e, o))
        } else {
            acc
        },
        _ => acc,
    }
}

/// The model, variant and sandbox the delegation plan expects (falling
/// back to the role snapshot, or the task card's sandbox).
pub open spec fn spec_expected_model(tc: JVal) -> Option<Seq<char>> {
    str_or(
        jstr_field(jget_or_null(tc, "delegation_plan"@), "model"@),
        jstr_at(tc, seq!["role_config_snapshot"@, "model"@]),
    )
}

pub open spec fn spec_expected_variant(tc: JVal) -> Option<Seq<char>> {
    str_or(
        jstr_field(jget_or_null(tc, "delegation_plan"@), "variant"@),
        jstr_at(tc, seq!["role_config_snapshot"@, "variant"@]),
    )
}

pub open spec fn spec_expected_sandbox_mode(tc: JVal) -> Option<Seq<char>> {
    str_or(
        jstr_field(jget_or_null(tc, "delegation_plan"@), "sandbox_mode"@),
        jstr_field(tc, "sandbox_mode"@),
    )
}

/// The mismatches between the expected and the observed configuration.
pub open spec fn spec_policy_mismatches(
    tc: JVal,
    observed_child_agent_id: Option<Seq<char>>,
    observed_model: Option<Seq<char>>,
    observed_variant: Option<Seq<char>>,
    observed_sandbox_mode: Option<Seq<char>>,
) -> Seq<JVal> {
    let m1 = with_mismatch(
        Seq::empty(),
        "child_agent_id"@,
        spec_preferred_subagent_child_agent_id(tc),
        observed_child_agent_id,
    );
    let m2 = with_mismatch(m1, "model"@, spec_expected_model(tc), observed_model);
    let m3 = with_mismatch(m2, "variant"@, spec_expected_variant(tc), observed_variant);
    with_mismatch(m3, "sandbox_mode"@, spec_expected_sandbox_mode(tc), observed_sandbox_mode)
}

/// Whether the captain itself reported on a task owned by another role.
pub open spec fn spec_direct_captain_bypass(tc: JVal, observed_child_agent_id: Option<Seq<char>>) -> bool {
    observed_child_agent_id == Some("captain"@) && (jstr_field(tc, "assigned_role"@) matches Some(
        r,
    ) && r != "orchestrator"@)
}

/// The acceptance gate a direct captain bypass requires.
pub open spec fn spec_bypass_acceptance_gate() -> JVal {
    JVal::Object(
        seq![
            ("state"@, JVal::Str("required"@)),
            ("required_action"@, JVal::Str("spawn_or_merge_review"@)),
            (
                "summary"@,
                JVal::Str(
                    "Direct captain output for a specialist-owned task requires review or explicit acceptance before merge or close."@,
                ),
            ),
            ("authority"@, JVal::Str("routing_drift_acceptance"@)),
        ],
    )
}

/// The policy drift record of an update: what the delegation plan expected,
/// what was observed, their mismatches, whether the captain bypassed the
/// owner (which then needs an acceptance gate), and whether all matched.
pub open spec fn spec_subagent_policy_drift(
    tc: JVal,
    observed_child_agent_id: Option<Seq<char>>,
    observed_model: Option<Seq<char>>,
    observed_variant: Option<Seq<char>>,
    observed_sandbox_mode: Option<Seq<char>>,
    observed_approval_policy: Option<Seq<char>>,
    timestamp: Seq<char>,
) -> JVal {
    let mismatches = spec_policy_mismatches(
        tc,
        observed_child_agent_id,
        observed_model,
        observed_variant,
        observed_sandbox_mode,
    );
    let bypass = spec_direct_captain_bypass(tc, observed_child_agent_id);
    let observed_role = match observed_child_agent_id {
        Some(c) => spec_role_for_agent_id(c),
        None => None,
    };
    JVal::Object(
        seq![
            (
                "required"@,
                JVal::Bool(
                    opt_bool(jget_path(tc, seq!["delegation_plan"@, "policy_drift_check_required"@]))
                        == Some(true),
                ),
            ),
            ("checked_at"@, JVal::Str(timestamp)),
            (
                "expected"@,
                JVal::Object(
                    seq![
                        ("model"@, jopt_str(spec_expected_model(tc))),
                        ("variant"@, jopt_str(spec_expected_variant(tc))),
                        ("sandbox_mode"@, jopt_str(spec_expected_sandbox_mode(tc))),
                        ("child_agent_id"@, jopt_str(spec_preferred_subagent_child_agent_id(tc))),
                        ("role"@, jopt_str(jstr_field(tc, "assigned_role"@))),
                        ("approval_policy"@, JVal::Null),
                    ],
                ),
            ),
            (
                "observed"@,
                JVal::Object(
                    seq![
                        ("model"@, jopt_str(observed_model)),
                        ("variant"@, jopt_str(observed_variant)),
                        ("sandbox_mode"@, jopt_str(observed_sandbox_mode)),
                        ("child_agent_id"@, jopt_str(observed_child_agent_id)),
                        ("role"@, jopt_str(observed_role)),
                        ("approval_policy"@, jopt_str(observed_approval_policy)),
                    ],
                ),
            ),
            ("mismatches"@, JVal::Array(mismatches)),
            ("direct_captain_bypass"@, JVal::Bool(bypass)),
            (
                "acceptance_gate"@,
                if bypass {
                    spec_bypass_acceptance_gate()
                } else {
                    JVal::Null
                },
            ),
            ("ok"@, JVal::Bool(mismatches.len() == 0)),
        ],
    )
}

fn push_mismatch(acc: &mut Vec<Json>, field: &str, expected: Option<&str>, observed: Option<&str>)
    ensures
        crate::worker_fleet::jviews(final(acc)@) == with_mismatch(
            crate::worker_fleet::jviews(old(acc)@),
            field@,
            opt_view(expected),
            opt_view(observed),
        ),
{
    match (expected, observed) {
        (Some(e), Some(o)) => {
            if !str_eq(e, o) {
                let ghost before = crate::worker_fleet::jviews(acc@);
                let mut m: Vec<(String, Json)> = Vec::new();
                m.push(member("field", jstr(field)));
                m.push(member("expected", jstr(e)));
                m.push(member("observed", jstr(o)));
                let entry = object_of(m);
                assert(members_view(m@) =~= spec_mismatch(field@, e@, o@)->Object_0);
                acc.push(entry);
                assert(crate::worker_fleet::jviews(acc@) =~= before.push(jview(entry)));
            }
        },
        _ => {},
    }
}

fn first_str<'a>(first: Option<&'a str>, second: Option<&'a str>) -> (r: Option<&'a str>)
    ensures
        opt_view(r) == str_or(opt_view(first), opt_view(second)),
{
    match first {
        Some(x) => Some(x),
        None => second,
    }
}

fn bypass_acceptance_gate() -> (r: Json)
    ensures
        jview(r) == spec_bypass_acceptance_gate(),
{
    let mut m: Vec<(String, Json)> = Vec::new();
    m.push(member("state", jstr("required")));
    m.push(member("required_action", jstr("spawn_or_merge_review")));
    m.push(
        member(
            "summary",
            jstr(
                "Direct captain output for a specialist-owned task requires review or explicit acceptance before merge or close.",
            ),
        ),
    );
    m.push(member("authority", jstr("routing_drift_acceptance")));
    let r = object_of(m);
    assert(members_view(m@) =~= spec_bypass_acceptance_gate()->Object_0);
    r
}

pub fn create_subagent_policy_drift_payload(
    task_card: &Json,
    observed_child_agent_id: Option<&str>,
    observed_model: Option<&str>,
    observed_variant: Option<&str>,
    observed_sandbox_mode: Option<&str>,
    observed_approval_policy: Option<&str>,
    timestamp: &str,
) -> (r: Json)
    ensures
        jview(r) == spec_subagent_policy_drift(
            jview(*task_card),
            opt_view(observed_child_agent_id),
            opt_view(observed_model),
            opt_view(observed_variant),
            opt_view(observed_sandbox_mode),
            opt_view(observed_approval_policy),
            timestamp@,
        ),
{
    let ghost tc = jview(*task_card);
    let plan = get_or_null(task_card, "delegation_plan");
    let model_path: Vec<&str> = vec!["role_config_snapshot", "model"];
    assert(model_path@.map_values(|k: &str| k@) =~= seq!["role_config_snapshot"@, "model"@]);
    let variant_path: Vec<&str> = vec!["role_config_snapshot", "variant"];
    assert(variant_path@.map_values(|k: &str| k@) =~= seq!["role_config_snapshot"@, "variant"@]);
    let expected_model = first_str(plan.str_field("model"), task_card.str_at(model_path.as_slice()));
    let expected_variant = first_str(
        plan.str_field("variant"),
        task_card.str_at(variant_path.as_slice()),
    );
    let expected_sandbox_mode = first_str(
        plan.str_field("sandbox_mode"),
        task_card.str_field("sandbox_mode"),
    );
    let expected_child_agent_id = preferred_subagent_child_agent_id(task_card);
    let expected_role = task_card.str_field("assigned_role");
    let observed_role: Option<&str> = match observed_child_agent_id {
        Some(c) => role_for_agent_id(c),
        None => None,
    };
    let bypass = opt_str_is(observed_child_agent_id, "captain") && match expected_role {
        Some(role) => !str_eq(role, "orchestrator"),
        None => false,
    };
    let mut mismatches: Vec<Json> = Vec::new();
    assert(crate::worker_fleet::jviews(mismatches@) =~= Seq::<JVal>::empty());
    let expected_child: Option<&str> = match &expected_child_agent_id {
        Some(c) => Some(c.as_str()),
        None => None,
    };
    push_mismatch(&mut mismatches, "child_agent_id", expected_child, observed_child_agent_id);
    push_mismatch(&mut mismatches, "model", expected_model, observed_model);
    push_mismatch(&mut mismatches, "variant", expected_variant, observed_variant);
    push_mismatch(&mut mismatches, "sandbox_mode", expected_sandbox_mode, observed_sandbox_mode);
    let ok = mismatches.len() == 0;
    let required_path: Vec<&str> = vec!["delegation_plan", "policy_drift_check_required"];
    assert(required_path@.map_values(|k: &str| k@) =~= seq![
        "delegation_plan"@,
        "policy_drift_check_required"@,
    ]);
    let required = match task_card.get_path(required_path.as_slice()) {
        Some(v) => match v.as_bool() {
            Some(b) => b,
            None => false,
        },
        None => false,
    };
    let mut expected: Vec<(String, Json)> = Vec::new();
    expected.push(member("model", jopt(expected_model)));
    expected.push(member("variant", jopt(expected_variant)));
    expected.push(member("sandbox_mode", jopt(expected_sandbox_mode)));
    expected.push(member("child_agent_id", jopt(expected_child)));
    expected.push(member("role", jopt(expected_role)));
    expected.push(member("approval_policy", Json::Null));
    let expected_obj = object_of(expected);
    assert(members_view(expected@) =~= seq![
        ("model"@, jopt_str(spec_expected_model(tc))),
        ("variant"@, jopt_str(spec_expected_variant(tc))),
        ("sandbox_mode"@, jopt_str(spec_expected_sandbox_mode(tc))),
        ("child_agent_id"@, jopt_str(spec_preferred_subagent_child_agent_id(tc))),
        ("role"@, jopt_str(jstr_field(tc, "assigned_role"@))),
        ("approval_policy"@, JVal::Null),
    ]);
    let mut observed: Vec<(String, Json)> = Vec::new();
    observed.push(member("model", jopt(observed_model)));
    observed.push(member("variant", jopt(observed_variant)));
    observed.push(member("sandbox_mode", jopt(observed_sandbox_mode)));
    observed.push(member("child_agent_id", jopt(observed_child_agent_id)));
    observed.push(member("role", jopt(observed_role)));
    observed.push(member("approval_policy", jopt(observed_approval_policy)));
    let observed_obj = object_of(observed);
    let ghost observed_role_view = match opt_view(observed_child_agent_id) {
        Some(c) => spec_role_for_agent_id(c),
        None => None,
    };
    assert(opt_view(observed_role) == observed_role_view);
    assert(members_view(observed@) =~= seq![
        ("model"@, jopt_str(opt_view(observed_model))),
        ("variant"@, jopt_str(opt_view(observed_variant))),
        ("sandbox_mode"@, jopt_str(opt_view(observed_sandbox_mode))),
        ("child_agent_id"@, jopt_str(opt_view(observed_child_agent_id))),
        ("role"@, jopt_str(observed_role_view)),
        ("approval_policy"@, jopt_str(opt_view(observed_approval_policy))),
    ]);
    let ghost mv = spec_policy_mismatches(
        tc,
        opt_view(observed_child_agent_id),
        opt_view(observed_model),
        opt_view(observed_variant),
        opt_view(observed_sandbox_mode),
    );
    assert(crate::worker_fleet::jviews(mismatches@) == mv);
    assert(ok == (mv.len() == 0));
    assert(bypass == spec_direct_captain_bypass(tc, opt_view(observed_child_agent_id)));
    assert(required == (opt_bool(
        jget_path(tc, seq!["delegation_plan"@, "policy_drift_check_required"@]),
    ) == Some(true)));
    let gate = if bypass {
        bypass_acceptance_gate()
    } else {
        Json::Null
    };
    let mut m: Vec<(String, Json)> = Vec::new();
    m.push(member("required", jbool(required)));
    m.push(member("checked_at", jstr(timestamp)));
    m.push(member("expected", expected_obj));
    m.push(member("observed", observed_obj));
    m.push(member("mismatches", crate::worker_fleet::array_of(mismatches)));
    m.push(member("direct_captain_bypass", jbool(bypass)));
    m.push(member("acceptance_gate", gate));
    m.push(member("ok", jbool(ok)));
    let r = object_of(m);
    assert(members_view(m@) =~= spec_subagent_policy_drift(
        tc,
        opt_view(observed_child_agent_id),
        opt_view(observed_model),
        opt_view(observed_variant),
        opt_view(observed_sandbox_mode),
        opt_view(observed_approval_policy),
        timestamp@,
    )->Object_0);
    r
}

/// The sentinel's classification of an update: the one it gave, else
/// `enforce` on a direct captain bypass, `warn` on policy drift, `observe`
/// when the sentinel itself reported; none otherwise.
pub open spec fn spec_sentinel_classification(
    parsed: JVal,
    child_agent_id: Seq<char>,
    drift: JVal,
) -> Option<Seq<char>> {
    let explicit = spec_trimmed_nonblank(jstr_field(parsed, "sentinel_classification"@));
    let bypass = opt_bool(jget(drift, "direct_captain_bypass"@)) == Some(true);
    let drift_ok = opt_bool(jget(drift, "ok"@)) != Some(false);
    match explicit {
        Some(c) => Some(c),
        None => if bypass {
            Some("enforce"@)
        } else if !drift_ok {
            Some("warn"@)
        } else if spec_reported_by_sentinel(child_agent_id) {
            Some("observe"@)
        } else {
            None
        },
    }
}

/// Whether the update came from the sentinel.
pub open spec fn spec_reported_by_sentinel(child_agent_id: Seq<char>) -> bool {
    spec_role_for_agent_id(child_agent_id) == Some("sentinel"@) || child_agent_id == "ccc_sentinel"@
}

/// The sentinel intervention of an update, when there is a classification.
pub open spec fn spec_sentinel_intervention(
    parsed: JVal,
    child_agent_id: Seq<char>,
    drift: JVal,
    fan_in: JVal,
    timestamp: Seq<char>,
) -> Option<JVal> {
    match spec_sentinel_classification(parsed, child_agent_id, drift) {
        None => None,
        Some(c) => {
            let bypass = opt_bool(jget(drift, "direct_captain_bypass"@)) == Some(true);
            let drift_ok = opt_bool(jget(drift, "ok"@)) != Some(false);
            let default_next: Seq<char> = if c == "enforce"@ {
                "require_acceptance_gate"@
            } else if c == "warn"@ {
                "review_policy_drift"@
            } else {
                "record_observation"@
            };
            let rationale = match spec_trimmed_nonblank(jstr_field(parsed, "sentinel_rationale"@)) {
                Some(r) => r,
                None => if bypass {
                    "Sentinel guardrail detected direct captain output on a specialist-owned task."@
                } else if !drift_ok {
                    "Sentinel guardrail detected host subagent policy drift."@
                } else {
                    "Sentinel recorded an ownership or execution-boundary observation."@
                },
            };
            let summary = match spec_trimmed_nonblank(jstr_field(parsed, "sentinel_summary"@)) {
                Some(x) => x,
                None => match jstr_field(fan_in, "summary"@) {
                    Some(x) => x,
                    None => rationale,
                },
            };
            let next_action = match spec_trimmed_nonblank(
                jstr_field(parsed, "sentinel_next_action"@),
            ) {
                Some(x) => x,
                None => default_next,
            };
            Some(
                JVal::Object(
                    seq![
                        ("classification"@, JVal::Str(c)),
                        ("rationale"@, JVal::Str(rationale)),
                        ("next_action"@, JVal::Str(next_action)),
                        ("summary"@, JVal::Str(summary)),
                        (
                            "source"@,
                            JVal::Str(
                                if spec_reported_by_sentinel(child_agent_id) {
                                    "sentinel_subagent"@
                                } else {
                                    "policy_drift_guardrail"@
                                },
                            ),
                        ),
                        ("child_agent_id"@, JVal::Str(child_agent_id)),
                        ("subagent_status"@, jget_or_null(fan_in, "status"@)),
                        (
                            "evidence_paths"@,
                            jget_or(fan_in, "evidence_paths"@, JVal::Array(Seq::empty())),
                        ),
                        (
                            "open_questions"@,
                            jget_or(fan_in, "open_questions"@, JVal::Array(Seq::empty())),
                        ),
                        ("policy_drift"@, drift),
                        ("authority"@, JVal::Str("sentinel_guardrail"@)),
                        ("recorded_at"@, JVal::Str(timestamp)),
                    ],
                ),
            )
        },
    }
}

fn bool_field_or(j: &Json, key: &str, default: bool) -> (r: bool)
    ensures
        r == match opt_bool(jget(jview(*j), key@)) {
            Some(b) => b,
            None => default,
        },
{
    match j.bool_field(key) {
        Some(b) => b,
        None => default,
    }
}

pub fn create_sentinel_intervention_payload(
    parsed: &Json,
    child_agent_id: &str,
    drift_payload: &Json,
    fan_in_compact: &Json,
    timestamp: &str,
) -> (r: Option<Json>)
    ensures
        crate::worker_fleet::opt_jview(r) == spec_sentinel_intervention(
            jview(*parsed),
            child_agent_id@,
            jview(*drift_payload),
            jview(*fan_in_compact),
            timestamp@,
        ),
{
    let ghost pv = jview(*parsed);
    let ghost dv = jview(*drift_payload);
    let ghost fv = jview(*fan_in_compact);
    let explicit = trimmed_nonblank(parsed.str_field("sentinel_classification"));
    let sentinel_name = generated_custom_agent_name("sentinel");
    let reported = opt_str_is(role_for_agent_id(child_agent_id), "sentinel") || str_eq(
        child_agent_id,
        sentinel_name.as_str(),
    );
    proof {
        reveal_strlit("ccc_");
        reveal_strlit("sentinel");
        reveal_strlit("ccc_sentinel");
        assert("ccc_"@ + "sentinel"@ =~= "ccc_sentinel"@);
    }
    assert(reported == spec_reported_by_sentinel(child_agent_id@));
    let bypass = bool_field_or(drift_payload, "direct_captain_bypass", false);
    let drift_ok = bool_field_or(drift_payload, "ok", true);
    let classification: String = match explicit {
        Some(c) => c,
        None => if bypass {
            to_owned("enforce")
        } else if !drift_ok {
            to_owned("warn")
        } else if reported {
            to_owned("observe")
        } else {
            return None;
        },
    };
    assert(spec_sentinel_classification(pv, child_agent_id@, dv) == Some(classification@));
    let default_next: &str = if str_eq(classification.as_str(), "enforce") {
        "require_acceptance_gate"
    } else if str_eq(classification.as_str(), "warn") {
        "review_policy_drift"
    } else {
        "record_observation"
    };
    let rationale: String = match trimmed_nonblank(parsed.str_field("sentinel_rationale")) {
        Some(r) => r,
        None => if bypass {
            to_owned("Sentinel guardrail detected direct captain output on a specialist-owned task.")
        } else if !drift_ok {
            to_owned("Sentinel guardrail detected host subagent policy drift.")
        } else {
            to_owned("Sentinel recorded an ownership or execution-boundary observation.")
        },
    };
    let summary: String = match trimmed_nonblank(parsed.str_field("sentinel_summary")) {
        Some(x) => x,
        None => match fan_in_compact.str_field("summary") {
            Some(x) => to_owned(x),
            None => rationale.clone(),
        },
    };
    let next_action: String = match trimmed_nonblank(parsed.str_field("sentinel_next_action")) {
        Some(x) => x,
        None => to_owned(default_next),
    };
    let source = if reported {
        "sentinel_subagent"
    } else {
        "policy_drift_guardrail"
    };
    let mut m: Vec<(String, Json)> = Vec::new();
    m.push(member("classification", Json::Str(classification)));
    m.push(member("rationale", Json::Str(rationale)));
    m.push(member("next_action", Json::Str(next_action)));
    m.push(member("summary", Json::Str(summary)));
    m.push(member("source", jstr(source)));
    m.push(member("child_agent_id", jstr(child_agent_id)));
    m.push(member("subagent_status", get_or_null(fan_in_compact, "status")));
    m.push(member("evidence_paths", get_or(fan_in_compact, "evidence_paths", jempty_array())));
    m.push(member("open_questions", get_or(fan_in_compact, "open_questions", jempty_array())));
    m.push(member("policy_drift", drift_payload.deep_clone()));
    m.push(member("authority", jstr("sentinel_guardrail")));
    m.push(member("recorded_at", jstr(timestamp)));
    let r = object_of(m);
    assert(members_view(m@) =~= spec_sentinel_intervention(
        pv,
        child_agent_id@,
        dv,
        fv,
        timestamp@,
    )->0->Object_0);
    Some(r)
}

/// What an update brings to the compact fan-in.
pub struct SubagentFanInCompactInput<'a> {
    pub prior_fan_in: &'a Json,
    pub status: &'a str,
    pub summary: Option<&'a str>,
    pub incoming_fan_in_status: Json,
    pub incoming_evidence_paths: Json,
    pub incoming_next_action: Json,
    pub incoming_open_questions: Json,
    pub incoming_confidence: Json,
    pub incoming_risk: Json,
    pub incoming_checks: Json,
}

/// Whether a merged report keeps the prior completed fan-in.
pub open spec fn spec_preserve_completed_fan_in(prior: JVal, status: Seq<char>) -> bool {
    status == "merged"@ && jstr_field(prior, "status"@) == Some("completed"@)
}

/// The fields every compact fan-in carries.
pub open spec fn spec_fan_in_required_fields() -> Seq<Seq<char>> {
    seq![
        "summary"@,
        "status"@,
        "evidence_paths"@,
        "next_action"@,
        "open_questions"@,
        "confidence"@,
        "risk"@,
        "checks"@,
    ]
}

/// The compact fan-in of an update: each field merged with the prior
/// fan-in (which a merged report of a completed fan-in keeps).
pub open spec fn spec_subagent_fan_in_compact(
    prior: JVal,
    status: Seq<char>,
    summary: Option<Seq<char>>,
    incoming_status: JVal,
    incoming_evidence_paths: JVal,
    incoming_next_action: JVal,
    incoming_open_questions: JVal,
    incoming_confidence: JVal,
    incoming_risk: JVal,
    incoming_checks: JVal,
) -> JVal {
    let preserve = spec_preserve_completed_fan_in(prior, status);
    let incoming_summary = jopt_str(summary);
    let fan_in_summary = if preserve && (jget(prior, "summary"@) matches Some(p) && !fan_in_blank(
        p,
    )) {
        jget(prior, "summary"@)->0
    } else {
        incoming_summary
    };
    JVal::Object(
        seq![
            ("schema"@, JVal::Str("ccc.worker_result_envelope.v1"@)),
            ("source"@, JVal::Str("subagent_update"@)),
            ("summary"@, fan_in_summary),
            (
                "status"@,
                spec_merge_fan_in_field(prior, preserve, "status"@, incoming_status, JVal::Str(status)),
            ),
            (
                "evidence_paths"@,
                spec_merge_fan_in_field(
                    prior,
                    preserve,
                    "evidence_paths"@,
                    incoming_evidence_paths,
                    JVal::Array(Seq::empty()),
                ),
            ),
            (
                "next_action"@,
                spec_merge_fan_in_field(prior, preserve, "next_action"@, incoming_next_action, JVal::Null),
            ),
            (
                "open_questions"@,
                spec_merge_fan_in_field(
                    prior,
                    preserve,
                    "open_questions"@,
                    incoming_open_questions,
                    JVal::Array(Seq::empty()),
                ),
            ),
            (
                "confidence"@,
                spec_merge_fan_in_field(prior, preserve, "confidence"@, incoming_confidence, JVal::Null),
            ),
            ("risk"@, spec_merge_fan_in_field(prior, preserve, "risk"@, incoming_risk, JVal::Null)),
            (
                "checks"@,
                spec_merge_fan_in_field(
                    prior,
                    preserve,
                    "checks"@,
                    incoming_checks,
                    JVal::Array(Seq::empty()),
                ),
            ),
            (
                "contract"@,
                JVal::Object(
                    seq![
                        (
                            "required_fields"@,
                            crate::config_defaults::jstrs(spec_fan_in_required_fields()),
                        ),
                        ("captain_consumes_compact_fan_in"@, JVal::Bool(true)),
                    ],
                ),
            ),
        ],
    )
}

pub fn create_subagent_fan_in_compact(input: SubagentFanInCompactInput) -> (r: Json)
    ensures
        jview(r) == spec_subagent_fan_in_compact(
            jview(*input.prior_fan_in),
            input.status@,
            opt_view(input.summary),
            jview(input.incoming_fan_in_status),
            jview(input.incoming_evidence_paths),
            jview(input.incoming_next_action),
            jview(input.incoming_open_questions),
            jview(input.incoming_confidence),
            jview(input.incoming_risk),
            jview(input.incoming_checks),
        ),
{
    let ghost spec_r = spec_subagent_fan_in_compact(
        jview(*input.prior_fan_in),
        input.status@,
        opt_view(input.summary),
        jview(input.incoming_fan_in_status),
        jview(input.incoming_evidence_paths),
        jview(input.incoming_next_action),
        jview(input.incoming_open_questions),
        jview(input.incoming_confidence),
        jview(input.incoming_risk),
        jview(input.incoming_checks),
    );
    let prior = input.prior_fan_in;
    let preserve = str_eq(input.status, "merged") && opt_str_is(prior.str_field("status"), "completed");
    let incoming_summary = jopt(input.summary);
    let fan_in_summary = if preserve {
        match prior.get("summary") {
            Some(p) => if !is_blank_fan_in_value(p) {
                p.deep_clone()
            } else {
                incoming_summary
            },
            None => incoming_summary,
        }
    } else {
        incoming_summary
    };
    let status_value = merge_fan_in_field(
        prior,
        preserve,
        "status",
        input.incoming_fan_in_status,
        jstr(input.status),
    );
    let evidence_paths = merge_fan_in_field(
        prior,
        preserve,
        "evidence_paths",
        input.incoming_evidence_paths,
        jempty_array(),
    );
    let next_action = merge_fan_in_field(
        prior,
        preserve,
        "next_action",
        input.incoming_next_action,
        Json::Null,
    );
    let open_questions = merge_fan_in_field(
        prior,
        preserve,
        "open_questions",
        input.incoming_open_questions,
        jempty_array(),
    );
    let confidence = merge_fan_in_field(
        prior,
        preserve,
        "confidence",
        input.incoming_confidence,
        Json::Null,
    );
    let risk = merge_fan_in_field(prior, preserve, "risk", input.incoming_risk, Json::Null);
    let checks = merge_fan_in_field(prior, preserve, "checks", input.incoming_checks, jempty_array());
    let fields: Vec<&str> = vec![
        "summary",
        "status",
        "evidence_paths",
        "next_action",
        "open_questions",
        "confidence",
        "risk",
        "checks",
    ];
    assert(fields@.map_values(|s: &str| JVal::Str(s@)) =~= spec_fan_in_required_fields().map_values(
        |s: Seq<char>| JVal::Str(s),
    ));
    let mut contract: Vec<(String, Json)> = Vec::new();
    contract.push(member("required_fields", crate::json::jstr_array(&fields)));
    contract.push(member("captain_consumes_compact_fan_in", jbool(true)));
    let contract_obj = object_of(contract);
    assert(members_view(contract@) =~= seq![
        ("required_fields"@, crate::config_defaults::jstrs(spec_fan_in_required_fields())),
        ("captain_consumes_compact_fan_in"@, JVal::Bool(true)),
    ]);
    let mut m: Vec<(String, Json)> = Vec::new();
    m.push(member("schema", jstr("ccc.worker_result_envelope.v1")));
    m.push(member("source", jstr("subagent_update")));
    m.push(member("summary", fan_in_summary));
    m.push(member("status", status_value));
    m.push(member("evidence_paths", evidence_paths));
    m.push(member("next_action", next_action));
    m.push(member("open_questions", open_questions));
    m.push(member("confidence", confidence));
    m.push(member("risk", risk));
    m.push(member("checks", checks));
    m.push(member("contract", contract_obj));
    let r = object_of(m);
    assert(members_view(m@) =~= spec_r->Object_0);
    r
}

/// What an update brings to the child's lifecycle.
pub struct SubagentLifecyclePayloadInput<'a> {
    pub prior_lifecycle: Json,
    pub status: &'a str,
    pub child_agent_id: &'a str,
    pub primary_thread_id: Option<&'a str>,
    pub summary: Option<&'a str>,
    pub stale_output_after_reclaim: bool,
    pub active_reclaim_intervention: bool,
    pub reported_status: &'a str,
    pub timestamp: &'a str,
}

/// The lifecycle field that records when a status was first reached.
pub open spec fn spec_lifecycle_timestamp_key(status: Seq<char>) -> Option<Seq<char>> {
    if status == "spawned"@ {
        Some("spawned_at"@)
    } else if status == "acknowledged"@ {
        Some("acknowledged_at"@)
    } else if status == "running"@ {
        Some("running_at"@)
    } else if status == "stalled"@ {
        Some("stalled_at"@)
    } else if status == "completed"@ {
        Some("completed_at"@)
    } else if status == "failed"@ {
        Some("failed_at"@)
    } else if status == "merged"@ {
        Some("merged_at"@)
    } else if status == "reclaimed"@ {
        Some("reclaimed_at"@)
    } else {
        None
    }
}

fn lifecycle_timestamp_key(status: &str) -> (r: Option<&'static str>)
    ensures
        opt_view(r) == spec_lifecycle_timestamp_key(status@),
{
    if str_eq(status, "spawned") {
        Some("spawned_at")
    } else if str_eq(status, "acknowledged") {
        Some("acknowledged_at")
    } else if str_eq(status, "running") {
        Some("running_at")
    } else if str_eq(status, "stalled") {
        Some("stalled_at")
    } else if str_eq(status, "completed") {
        Some("completed_at")
    } else if str_eq(status, "failed") {
        Some("failed_at")
    } else if str_eq(status, "merged") {
        Some("merged_at")
    } else if str_eq(status, "reclaimed") {
        Some("reclaimed_at")
    } else {
        None
    }
}

/// The child's lifecycle after an update: its status, agent and update
/// time; the thread when known; the first time of this status (kept if
/// already recorded); the summary, unless the output is stale after a
/// reclaim (which is stamped instead); and, during an active reclaim, the
/// reported status and that the host worker may still run.
pub open spec fn spec_subagent_lifecycle(
    prior: JVal,
    status: Seq<char>,
    child_agent_id: Seq<char>,
    thread_id: Option<Seq<char>>,
    summary: Option<Seq<char>>,
    stale_output_after_reclaim: bool,
    active_reclaim_intervention: bool,
    reported_status: Seq<char>,
    timestamp: Seq<char>,
) -> JVal {
    let ts = JVal::Str(timestamp);
    let l1 = jinsert(
        jinsert(jinsert(prior, "status"@, JVal::Str(status)), "child_agent_id"@, JVal::Str(child_agent_id)),
        "updated_at"@,
        ts,
    );
    let l2 = match thread_id {
        Some(t) => jinsert(l1, "thread_id"@, JVal::Str(t)),
        None => l1,
    };
    let l3 = match spec_lifecycle_timestamp_key(status) {
        Some(k) => if jget(l2, k) is None {
            jinsert(l2, k, ts)
        } else {
            l2
        },
        None => l2,
    };
    let l4 = if stale_output_after_reclaim {
        jinsert(l3, "late_stale_output_at"@, ts)
    } else {
        match summary {
            Some(x) => jinsert(l3, "summary"@, JVal::Str(x)),
            None => l3,
        }
    };
    if active_reclaim_intervention {
        jinsert(
            jinsert(
                jinsert(
                    jinsert(l4, "reported_status"@, JVal::Str(reported_status)),
                    "host_cancellation_supported"@,
                    JVal::Bool(false),
                ),
                "host_worker_may_still_be_running"@,
                JVal::Bool(true),
            ),
            "active_reclaim_intervention_at"@,
            ts,
        )
    } else {
        l4
    }
}

pub fn create_subagent_lifecycle_payload(input: SubagentLifecyclePayloadInput) -> (r: Json)
    ensures
        jview(r) == spec_subagent_lifecycle(
            jview(input.prior_lifecycle),
            input.status@,
            input.child_agent_id@,
            opt_view(input.primary_thread_id),
            opt_view(input.summary),
            input.stale_output_after_reclaim,
            input.active_reclaim_intervention,
            input.reported_status@,
            input.timestamp@,
        ),
{
    let mut lifecycle = input.prior_lifecycle;
    lifecycle.insert("status", jstr(input.status));
    lifecycle.insert("child_agent_id", jstr(input.child_agent_id));
    lifecycle.insert("updated_at", jstr(input.timestamp));
    match input.primary_thread_id {
        Some(t) => lifecycle.insert("thread_id", jstr(t)),
        None => {},
    }
    match lifecycle_timestamp_key(input.status) {
        Some(k) => {
            if lifecycle.get(k).is_none() {
                lifecycle.insert(k, jstr(input.timestamp));
            }
        },
        None => {},
    }
    if input.stale_output_after_reclaim {
        lifecycle.insert("late_stale_output_at", jstr(input.timestamp));
    } else {
        match input.summary {
            Some(x) => lifecycle.insert("summary", jstr(x)),
            None => {},
        }
    }
    if input.active_reclaim_intervention {
        lifecycle.insert("reported_status", jstr(input.reported_status));
        lifecycle.insert("host_cancellation_supported", jbool(false));
        lifecycle.insert("host_worker_may_still_be_running", jbool(true));
        lifecycle.insert("active_reclaim_intervention_at", jstr(input.timestamp));
    }
    lifecycle
}

/// What an update writes into the run state.
pub struct SubagentRunStateUpdateInput<'a> {
    pub timestamp: &'a str,
    pub next_action: &'a str,
    pub current_phase_name: String,
}

/// A run record that is not a JSON object.
pub enum SubagentRecordError {
    RunStateNotObject,
}

impl SubagentRecordError {
    /// The message reported for the error.
    pub fn message(&self) -> (r: &'static str)
        ensures
            r@ == "run-state.json must be an object."@,
    {
        "run-state.json must be an object."
    }
}

/// The run state after an update: its update time, the next action as a
/// command, and the current phase name.
pub open spec fn spec_run_state_update(
    record: JVal,
    timestamp: Seq<char>,
    next_action: Seq<char>,
    current_phase_name: Seq<char>,
) -> JVal {
    jinsert(
        jinsert(
            jinsert(record, "updated_at"@, JVal::Str(timestamp)),
            "next_action"@,
            JVal::Object(seq![("command"@, JVal::Str(next_action))]),
        ),
        "current_phase_name"@,
        JVal::Str(current_phase_name),
    )
}

/// Records an update in the run state; a run state that is not an object
/// is refused and left as it is.
pub fn apply_subagent_run_state_update(
    run_state_record: &mut Json,
    input: SubagentRunStateUpdateInput,
) -> (r: Result<(), SubagentRecordError>)
    ensures
        jview(*old(run_state_record)) is Object ==> r is Ok && jview(*final(run_state_record))
            == spec_run_state_update(
            jview(*old(run_state_record)),
            input.timestamp@,
            input.next_action@,
            input.current_phase_name@,
        ),
        !(jview(*old(run_state_record)) is Object) ==> r is Err && *final(run_state_record)
            == *old(run_state_record),
{
    if !run_state_record.is_object() {
        return Err(SubagentRecordError::RunStateNotObject);
    }
    run_state_record.insert("updated_at", jstr(input.timestamp));
    let mut command: Vec<(String, Json)> = Vec::new();
    command.push(member("command", jstr(input.next_action)));
    let command_obj = object_of(command);
    assert(members_view(command@) =~= seq![("command"@, JVal::Str(input.next_action@))]);
    run_state_record.insert("next_action", command_obj);
    run_state_record.insert("current_phase_name", Json::Str(input.current_phase_name));
    Ok(())
}

/// What an update writes into the orchestrator state.
pub struct SubagentOrchestratorStateUpdateInput<'a> {
    pub next_action: &'a str,
    pub can_advance: bool,
    pub summary: &'a str,
    pub child_agent_id: &'a str,
    pub lane_id: Option<&'a str>,
    pub thread_id: Option<&'a str>,
    pub status: &'a str,
    pub review_outcome: Option<&'a str>,
    pub captain_intervention: Option<&'a Json>,
    pub fallback_reason: Option<&'a str>,
    pub active_handle_cleanup: &'a Json,
    pub timestamp: &'a str,
}

/// An optional value, `null` when absent.
pub open spec fn opt_or_null(o: Option<JVal>) -> JVal {
    match o {
        Some(v) => v,
        None => JVal::Null,
    }
}

/// The orchestrator's decision and the execution request of an update.
pub open spec fn spec_orchestrator_state_update(
    record: JVal,
    next_action: Seq<char>,
    can_advance: bool,
    summary: Seq<char>,
    child_agent_id: Seq<char>,
    lane_id: Option<Seq<char>>,
    thread_id: Option<Seq<char>>,
    status: Seq<char>,
    review_outcome: Option<Seq<char>>,
    captain_intervention: Option<JVal>,
    fallback_reason: Option<Seq<char>>,
    active_handle_cleanup: JVal,
    timestamp: Seq<char>,
) -> JVal {
    jinsert(
        jinsert(
            record,
            "decision"@,
            JVal::Object(
                seq![
                    ("next_step"@, JVal::Str(next_action)),
                    ("can_advance"@, JVal::Bool(can_advance)),
                    ("summary"@, JVal::Str(summary)),
                ],
            ),
        ),
        "execution_request"@,
        JVal::Object(
            seq![
                ("entrypoint"@, JVal::Str("ccc_subagent_update"@)),
                ("child_agent_id"@, JVal::Str(child_agent_id)),
                ("lane_id"@, jopt_str(lane_id)),
                ("thread_id"@, jopt_str(thread_id)),
                ("status"@, JVal::Str(status)),
                ("review_outcome"@, jopt_str(review_outcome)),
                ("captain_intervention"@, opt_or_null(captain_intervention)),
                ("fallback_reason"@, jopt_str(fallback_reason)),
                ("active_handle_cleanup"@, active_handle_cleanup),
                ("recorded_at"@, JVal::Str(timestamp)),
            ],
        ),
    )
}

/// Records the orchestrator's decision and execution request; reports
/// whether the state was an object (any other state is left as it is).
pub fn apply_subagent_orchestrator_state_update(
    orchestrator_state_record: &mut Json,
    input: SubagentOrchestratorStateUpdateInput,
) -> (r: bool)
    ensures
        r == (jview(*old(orchestrator_state_record)) is Object),
        r ==> jview(*final(orchestrator_state_record)) == spec_orchestrator_state_update(
            jview(*old(orchestrator_state_record)),
            input.next_action@,
            input.can_advance,
            input.summary@,
            input.child_agent_id@,
            opt_view(input.lane_id),
            opt_view(input.thread_id),
            input.status@,
            opt_view(input.review_outcome),
            match input.captain_intervention {
                Some(v) => Some(jview(*v)),
                None => None,
            },
            opt_view(input.fallback_reason),
            jview(*input.active_handle_cleanup),
            input.timestamp@,
        ),
        !r ==> *final(orchestrator_state_record) == *old(orchestrator_state_record),
{
    if !orchestrator_state_record.is_object() {
        return false;
    }
    let mut decision: Vec<(String, Json)> = Vec::new();
    decision.push(member("next_step", jstr(input.next_action)));
    decision.push(member("can_advance", jbool(input.can_advance)));
    decision.push(member("summary", jstr(input.summary)));
    let decision_obj = object_of(decision);
    assert(members_view(decision@) =~= seq![
        ("next_step"@, JVal::Str(input.next_action@)),
        ("can_advance"@, JVal::Bool(input.can_advance)),
        ("summary"@, JVal::Str(input.summary@)),
    ]);
    let ghost intervention_view: Option<JVal> = match input.captain_intervention {
        Some(v) => Some(jview(*v)),
        None => None,
    };
    let intervention = match input.captain_intervention {
        Some(v) => v.deep_clone(),
        None => Json::Null,
    };
    assert(jview(intervention) == opt_or_null(intervention_view));
    let mut request: Vec<(String, Json)> = Vec::new();
    request.push(member("entrypoint", jstr("ccc_subagent_update")));
    request.push(member("child_agent_id", jstr(input.child_agent_id)));
    request.push(member("lane_id", jopt(input.lane_id)));
    request.push(member("thread_id", jopt(input.thread_id)));
    request.push(member("status", jstr(input.status)));
    request.push(member("review_outcome", jopt(input.review_outcome)));
    request.push(member("captain_intervention", intervention));
    request.push(member("fallback_reason", jopt(input.fallback_reason)));
    request.push(member("active_handle_cleanup", input.active_handle_cleanup.deep_clone()));
    request.push(member("recorded_at", jstr(input.timestamp)));
    let request_obj = object_of(request);
    assert(members_view(request@) =~= seq![
        ("entrypoint"@, JVal::Str("ccc_subagent_update"@)),
        ("child_agent_id"@, JVal::Str(input.child_agent_id@)),
        ("lane_id"@, jopt_str(opt_view(input.lane_id))),
        ("thread_id"@, jopt_str(opt_view(input.thread_id))),
        ("status"@, JVal::Str(input.status@)),
        ("review_outcome"@, jopt_str(opt_view(input.review_outcome))),
        ("captain_intervention"@, opt_or_null(intervention_view)),
        ("fallback_reason"@, jopt_str(opt_view(input.fallback_reason))),
        ("active_handle_cleanup"@, jview(*input.active_handle_cleanup)),
        ("recorded_at"@, JVal::Str(input.timestamp@)),
    ]);
    let ghost old_view = jview(*orchestrator_state_record);
    let ghost dv = jview(decision_obj);
    let ghost rv = jview(request_obj);
    assert(dv == JVal::Object(
        seq![
            ("next_step"@, JVal::Str(input.next_action@)),
            ("can_advance"@, JVal::Bool(input.can_advance)),
            ("summary"@, JVal::Str(input.summary@)),
        ],
    ));
    assert(rv == JVal::Object(
        seq![
            ("entrypoint"@, JVal::Str("ccc_subagent_update"@)),
            ("child_agent_id"@, JVal::Str(input.child_agent_id@)),
            ("lane_id"@, jopt_str(opt_view(input.lane_id))),
            ("thread_id"@, jopt_str(opt_view(input.thread_id))),
            ("status"@, JVal::Str(input.status@)),
            ("review_outcome"@, jopt_str(opt_view(input.review_outcome))),
            ("captain_intervention"@, opt_or_null(intervention_view)),
            ("fallback_reason"@, jopt_str(opt_view(input.fallback_reason))),
            ("active_handle_cleanup"@, jview(*input.active_handle_cleanup)),
            ("recorded_at"@, JVal::Str(input.timestamp@)),
        ],
    ));
    orchestrator_state_record.insert("decision", decision_obj);
    assert(jview(*orchestrator_state_record) == jinsert(old_view, "decision"@, dv));
    orchestrator_state_record.insert("execution_request", request_obj);
    assert(jview(*orchestrator_state_record) == jinsert(jinsert(old_view, "decision"@, dv), "execution_request"@, rv));
    assert(jview(*orchestrator_state_record) == spec_orchestrator_state_update(
        old_view,
        input.next_action@,
        input.can_advance,
        input.summary@,
        input.child_agent_id@,
        opt_view(input.lane_id),
        opt_view(input.thread_id),
        input.status@,
        opt_view(input.review_outcome),
        intervention_view,
        opt_view(input.fallback_reason),
        jview(*input.active_handle_cleanup),
        input.timestamp@,
    ));
    true
}

/// What an update records in the run's entry for the child agent.
pub struct SubagentRunRecordChildInput<'a> {
    pub active_task_card_id: &'a str,
    pub child_agent_id: &'a str,
    pub lane_id: Option<&'a str>,
    pub assigned_role: &'a str,
    pub status: &'a str,
    pub primary_thread_id: Option<&'a str>,
    pub stale_output_after_reclaim: bool,
    pub summary: Option<&'a str>,
    pub review_outcome: Option<&'a str>,
    pub observed_model: Option<&'a str>,
    pub total_token_usage: Option<&'a Json>,
    pub context_tokens: Option<u64>,
    pub timestamp: &'a str,
}

/// The position of the first entry satisfying `f`, or -1.
pub open spec fn first_index_where(es: Seq<JVal>, f: spec_fn(JVal) -> bool) -> int
    decreases es.len(),
{
    if es.len() == 0 {
        -1
    } else if f(es[0]) {
        0
    } else {
        let r = first_index_where(es.drop_first(), f);
        if r < 0 {
            -1
        } else {
            r + 1
        }
    }
}

/// The entries of an array member (none when it is absent or not an array).
pub open spec fn array_member(j: JVal, key: Seq<char>) -> Seq<JVal> {
    match jget(j, key) {
        Some(JVal::Array(items)) => items,
        _ => Seq::empty(),
    }
}

/// Whether a run entry is the child agent's entry for the task card and lane.
pub open spec fn spec_child_entry_matches(
    e: JVal,
    task: Seq<char>,
    agent: Seq<char>,
    lane: Option<Seq<char>>,
) -> bool {
    jstr_field(e, "task_card_id"@) == Some(task) && jstr_field(e, "agent_id"@) == Some(agent)
        && spec_entry_matches_lane(e, lane)
}

/// A set of optional fields recorded on an entry.
pub open spec fn with_opt_str(e: JVal, key: Seq<char>, v: Option<Seq<char>>) -> JVal {
    match v {
        Some(x) => jinsert(e, key, JVal::Str(x)),
        None => e,
    }
}

/// The usage fields recorded on an entry.
pub open spec fn with_usage(e: JVal, usage: Option<JVal>, context_tokens: Option<u64>) -> JVal {
    let e1 = match usage {
        Some(u) => jinsert(e, "total_token_usage"@, u),
        None => e,
    };
    match context_tokens {
        Some(n) => jinsert(e1, "context_tokens"@, JVal::Num(n as int)),
        None => e1,
    }
}

/// A new child entry.
pub open spec fn spec_new_child_entry(
    task: Seq<char>,
    agent: Seq<char>,
    lane: Option<Seq<char>>,
    role: Seq<char>,
    status: Seq<char>,
    ts: Seq<char>,
) -> JVal {
    JVal::Object(
        seq![
            ("agent_id"@, JVal::Str(agent)),
            ("parent_agent_id"@, JVal::Str("captain"@)),
            ("role"@, JVal::Str(role)),
            ("status"@, JVal::Str(status)),
            ("task_card_id"@, JVal::Str(task)),
            ("lane_id"@, jopt_str(lane)),
            ("execution_mode"@, JVal::Str("codex_subagent"@)),
            ("created_at"@, JVal::Str(ts)),
        ],
    )
}

/// A child entry after an update.
pub open spec fn spec_updated_child_entry(
    e: JVal,
    task: Seq<char>,
    lane: Option<Seq<char>>,
    status: Seq<char>,
    thread: Option<Seq<char>>,
    stale: bool,
    summary: Option<Seq<char>>,
    review_outcome: Option<Seq<char>>,
    observed_model: Option<Seq<char>>,
    usage: Option<JVal>,
    context_tokens: Option<u64>,
    ts: Seq<char>,
) -> JVal {
    let e1 = jinsert(jinsert(e, "status"@, JVal::Str(status)), "task_card_id"@, JVal::Str(task));
    let e2 = with_opt_str(e1, "lane_id"@, lane);
    let e3 = jinsert(
        jinsert(e2, "updated_at"@, JVal::Str(ts)),
        "execution_mode"@,
        JVal::Str("codex_subagent"@),
    );
    let e4 = with_opt_str(e3, "thread_id"@, thread);
    let e5 = if stale {
        e4
    } else {
        with_opt_str(e4, "summary"@, summary)
    };
    let e6 = with_opt_str(with_opt_str(e5, "review_outcome"@, review_outcome), "observed_model"@, observed_model);
    with_usage(e6, usage, context_tokens)
}

/// The view of an optional value reference.
pub open spec fn opt_ref_view(o: Option<&Json>) -> Option<JVal> {
    match o {
        Some(v) => Some(jview(*v)),
        None => None,
    }
}

/// The run after recording a child's update: the child's entry for the task
/// card and lane (the first one, or a new one appended) is updated.
pub open spec fn spec_update_child_agent_entry(
    run: JVal,
    task: Seq<char>,
    agent: Seq<char>,
    lane: Option<Seq<char>>,
    role: Seq<char>,
    status: Seq<char>,
    thread: Option<Seq<char>>,
    stale: bool,
    summary: Option<Seq<char>>,
    review_outcome: Option<Seq<char>>,
    observed_model: Option<Seq<char>>,
    usage: Option<JVal>,
    context_tokens: Option<u64>,
    ts: Seq<char>,
) -> JVal {
    let entries = array_member(run, "child_agents"@);
    let i = first_index_where(entries, |e: JVal| spec_child_entry_matches(e, task, agent, lane));
    let base = if i >= 0 {
        entries[i]
    } else {
        spec_new_child_entry(task, agent, lane, role, status, ts)
    };
    let updated = spec_updated_child_entry(
        base,
        task,
        lane,
        status,
        thread,
        stale,
        summary,
        review_outcome,
        observed_model,
        usage,
        context_tokens,
        ts,
    );
    jinsert(
        run,
        "child_agents"@,
        JVal::Array(
            if i >= 0 {
                entries.update(i, updated)
            } else {
                entries.push(updated)
            },
        ),
    )
}

fn insert_opt_str(e: &mut Json, key: &str, v: Option<&str>)
    ensures
        jview(*final(e)) == with_opt_str(jview(*old(e)), key@, opt_view(v)),
{
    match v {
        Some(x) => e.insert(key, jstr(x)),
        None => {},
    }
}

fn insert_usage(e: &mut Json, usage: Option<&Json>, context_tokens: Option<u64>)
    ensures
        jview(*final(e)) == with_usage(jview(*old(e)), opt_ref_view(usage), context_tokens),
{
    match usage {
        Some(u) => e.insert("total_token_usage", u.deep_clone()),
        None => {},
    }
    match context_tokens {
        Some(n) => e.insert("context_tokens", crate::json::juint(n)),
        None => {},
    }
}

fn cloned_array_member(j: &Json, key: &str) -> (r: Vec<Json>)
    ensures
        crate::worker_fleet::jviews(r@) == array_member(jview(*j), key@),
{
    match j.get(key) {
        Some(Json::Array(items)) => {
            proof {
                crate::json::lemma_array_view(*items);
            }
            let mut out: Vec<Json> = Vec::new();
            let mut i: usize = 0;
            while i < items.len()
                invariant
                    i <= items.len(),
                    crate::worker_fleet::jviews(out@) == crate::worker_fleet::jviews(items@).take(
                        i as int,
                    ),
                decreases items.len() - i,
            {
                let ghost before = crate::worker_fleet::jviews(out@);
                let c = items[i].deep_clone();
                out.push(c);
                assert(crate::worker_fleet::jviews(out@) =~= before.push(jview(c)));
                assert(crate::worker_fleet::jviews(items@).take(i + 1) =~= crate::worker_fleet::jviews(
                    items@,
                ).take(i as int).push(jview(items@[i as int])));
                i = i + 1;
            }
            assert(crate::worker_fleet::jviews(items@).take(items.len() as int)
                =~= crate::worker_fleet::jviews(items@));
            out
        },
        _ => {
            let out: Vec<Json> = Vec::new();
            assert(crate::worker_fleet::jviews(out@) =~= Seq::<JVal>::empty());
            out
        },
    }
}

fn child_entry_matches(e: &Json, task: &str, agent: &str, lane: Option<&str>) -> (r: bool)
    ensures
        r == spec_child_entry_matches(jview(*e), task@, agent@, opt_view(lane)),
{
    opt_str_is(e.str_field("task_card_id"), task) && opt_str_is(e.str_field("agent_id"), agent)
        && entry_matches_lane(e, lane)
}

fn find_child_entry(es: &Vec<Json>, task: &str, agent: &str, lane: Option<&str>) -> (r: Option<usize>)
    ensures
        match r {
            Some(i) => i < es.len() && first_index_where(
                crate::worker_fleet::jviews(es@),
                |e: JVal| spec_child_entry_matches(e, task@, agent@, opt_view(lane)),
            ) == i,
            None => first_index_where(
                crate::worker_fleet::jviews(es@),
                |e: JVal| spec_child_entry_matches(e, task@, agent@, opt_view(lane)),
            ) == -1,
        },
{
    let ghost ev = crate::worker_fleet::jviews(es@);
    let ghost f = |e: JVal| spec_child_entry_matches(e, task@, agent@, opt_view(lane));
    let mut i: usize = 0;
    while i < es.len()
        invariant
            i <= es.len(),
            ev == crate::worker_fleet::jviews(es@),
            f == (|e: JVal| spec_child_entry_matches(e, task@, agent@, opt_view(lane))),
            forall|k: int| 0 <= k < i ==> !f(#[trigger] ev[k]),
        decreases es.len() - i,
    {
        if child_entry_matches(&es[i], task, agent, lane) {
            proof {
                lemma_first_index_at(ev, f, i as int);
            }
            return Some(i);
        }
        i = i + 1;
    }
    proof {
        lemma_first_index_at(ev, f, ev.len() as int);
    }
    None
}

/// The first position satisfying `f` is `i` when nothing before it does and
/// it does (or -1 when `i` is the end).
pub proof fn lemma_first_index_at(es: Seq<JVal>, f: spec_fn(JVal) -> bool, i: int)
    requires
        0 <= i <= es.len(),
        forall|k: int| 0 <= k < i ==> !f(#[trigger] es[k]),
        i < es.len() ==> f(es[i]),
    ensures
        first_index_where(es, f) == if i < es.len() {
            i
        } else {
            -1
        },
    decreases i,
{
    if i > 0 {
        assert forall|k: int| 0 <= k < i - 1 implies !f(#[trigger] es.drop_first()[k]) by {
            assert(es.drop_first()[k] == es[k + 1]);
            assert(!f(es[k + 1]));
        }
        if i < es.len() {
            assert(es.drop_first()[i - 1] == es[i]);
        }
        lemma_first_index_at(es.drop_first(), f, i - 1);
        assert(!f(es[0]));
    } else if es.len() > 0 {
    }
}

/// Records a child's update in the run object.
pub fn update_subagent_run_child_agent_entry(run_object: &mut Json, input: SubagentRunRecordChildInput)
    ensures
        jview(*final(run_object)) == spec_update_child_agent_entry(
            jview(*old(run_object)),
            input.active_task_card_id@,
            input.child_agent_id@,
            opt_view(input.lane_id),
            input.assigned_role@,
            input.status@,
            opt_view(input.primary_thread_id),
            input.stale_output_after_reclaim,
            opt_view(input.summary),
            opt_view(input.review_outcome),
            opt_view(input.observed_model),
            opt_ref_view(input.total_token_usage),
            input.context_tokens,
            input.timestamp@,
        ),
{
    let mut entries = cloned_array_member(run_object, "child_agents");
    let ghost ev = crate::worker_fleet::jviews(entries@);
    let index = find_child_entry(&entries, input.active_task_card_id, input.child_agent_id, input.lane_id);
    let mut entry = match index {
        Some(i) => entries[i].deep_clone(),
        None => {
            let mut m: Vec<(String, Json)> = Vec::new();
            m.push(member("agent_id", jstr(input.child_agent_id)));
            m.push(member("parent_agent_id", jstr("captain")));
            m.push(member("role", jstr(input.assigned_role)));
            m.push(member("status", jstr(input.status)));
            m.push(member("task_card_id", jstr(input.active_task_card_id)));
            m.push(member("lane_id", jopt(input.lane_id)));
            m.push(member("execution_mode", jstr("codex_subagent")));
            m.push(member("created_at", jstr(input.timestamp)));
            let e = object_of(m);
            assert(members_view(m@) =~= spec_new_child_entry(
                input.active_task_card_id@,
                input.child_agent_id@,
                opt_view(input.lane_id),
                input.assigned_role@,
                input.status@,
                input.timestamp@,
            )->Object_0);
            e
        },
    };
    entry.insert("status", jstr(input.status));
    entry.insert("task_card_id", jstr(input.active_task_card_id));
    insert_opt_str(&mut entry, "lane_id", input.lane_id);
    entry.insert("updated_at", jstr(input.timestamp));
    entry.insert("execution_mode", jstr("codex_subagent"));
    insert_opt_str(&mut entry, "thread_id", input.primary_thread_id);
    if !input.stale_output_after_reclaim {
        insert_opt_str(&mut entry, "summary", input.summary);
    }
    insert_opt_str(&mut entry, "review_outcome", input.review_outcome);
    insert_opt_str(&mut entry, "observed_model", input.observed_model);
    insert_usage(&mut entry, input.total_token_usage, input.context_tokens);
    let ghost uv = jview(entry);
    match index {
        Some(i) => {
            let mut slot = entry;
            entries.set_and_swap(i, &mut slot);
            assert(crate::worker_fleet::jviews(entries@) =~= ev.update(i as int, uv));
        },
        None => {
            entries.push(entry);
            assert(crate::worker_fleet::jviews(entries@) =~= ev.push(uv));
        },
    }
    run_object.insert("child_agents", crate::worker_fleet::array_of(entries));
}

/// What an update records in the run's entry for the specialist executor.
pub struct SubagentRunRecordExecutorInput<'a> {
    pub active_task_card_id: &'a str,
    pub child_agent_id: &'a str,
    pub lane_id: Option<&'a str>,
    pub status: &'a str,
    pub primary_thread_id: Option<&'a str>,
    pub fallback_reason: Option<&'a str>,
    pub review_outcome: Option<&'a str>,
    pub observed_model: Option<&'a str>,
    pub total_token_usage: Option<&'a Json>,
    pub context_tokens: Option<u64>,
    pub timestamp: &'a str,
}

/// The id of the executor of a child agent (per lane when on one).
pub open spec fn spec_executor_id(agent: Seq<char>, lane: Option<Seq<char>>) -> Seq<char> {
    match lane {
        Some(l) => "specialist-executor:"@ + agent + ":"@ + l,
        None => "specialist-executor:"@ + agent,
    }
}

/// Whether a run entry is the executor's entry for the task card and lane.
pub open spec fn spec_executor_entry_matches(
    e: JVal,
    executor_id: Seq<char>,
    task: Seq<char>,
    lane: Option<Seq<char>>,
) -> bool {
    jstr_field(e, "executor_id"@) == Some(executor_id) && jstr_field(e, "task_card_id"@) == Some(task)
        && spec_entry_matches_lane(e, lane)
}

/// A new executor entry.
pub open spec fn spec_new_executor_entry(
    executor_id: Seq<char>,
    task: Seq<char>,
    agent: Seq<char>,
    lane: Option<Seq<char>>,
    status: Seq<char>,
    ts: Seq<char>,
) -> JVal {
    JVal::Object(
        seq![
            ("executor_id"@, JVal::Str(executor_id)),
            ("status"@, JVal::Str(status)),
            ("task_card_id"@, JVal::Str(task)),
            ("lane_id"@, jopt_str(lane)),
            ("child_agent_id"@, JVal::Str(agent)),
            ("execution_mode"@, JVal::Str("codex_subagent"@)),
            ("created_at"@, JVal::Str(ts)),
        ],
    )
}

/// An executor entry after an update.
pub open spec fn spec_updated_executor_entry(
    e: JVal,
    lane: Option<Seq<char>>,
    status: Seq<char>,
    thread: Option<Seq<char>>,
    fallback_reason: Option<Seq<char>>,
    review_outcome: Option<Seq<char>>,
    observed_model: Option<Seq<char>>,
    usage: Option<JVal>,
    context_tokens: Option<u64>,
    ts: Seq<char>,
) -> JVal {
    let e1 = jinsert(jinsert(e, "status"@, JVal::Str(status)), "updated_at"@, JVal::Str(ts));
    let e2 = jinsert(
        with_opt_str(e1, "lane_id"@, lane),
        "execution_mode"@,
        JVal::Str("codex_subagent"@),
    );
    let e3 = with_opt_str(with_opt_str(e2, "thread_id"@, thread), "fallback_reason"@, fallback_reason);
    let e4 = with_opt_str(with_opt_str(e3, "review_outcome"@, review_outcome), "observed_model"@, observed_model);
    with_usage(e4, usage, context_tokens)
}

/// The run after recording an executor's update: the executor's entry for
/// the task card and lane (the first one, or a new one appended) is
/// updated.
pub open spec fn spec_update_executor_entry(
    run: JVal,
    task: Seq<char>,
    agent: Seq<char>,
    lane: Option<Seq<char>>,
    status: Seq<char>,
    thread: Option<Seq<char>>,
    fallback_reason: Option<Seq<char>>,
    review_outcome: Option<Seq<char>>,
    observed_model: Option<Seq<char>>,
    usage: Option<JVal>,
    context_tokens: Option<u64>,
    ts: Seq<char>,
) -> JVal {
    let id = spec_executor_id(agent, lane);
    let entries = array_member(run, "specialist_executors"@);
    let i = first_index_where(entries, |e: JVal| spec_executor_entry_matches(e, id, task, lane));
    let base = if i >= 0 {
        entries[i]
    } else {
        spec_new_executor_entry(id, task, agent, lane, status, ts)
    };
    let updated = spec_updated_executor_entry(
        base,
        lane,
        status,
        thread,
        fallback_reason,
        review_outcome,
        observed_model,
        usage,
        context_tokens,
        ts,
    );
    jinsert(
        run,
        "specialist_executors"@,
        JVal::Array(
            if i >= 0 {
                entries.update(i, updated)
            } else {
                entries.push(updated)
            },
        ),
    )
}

fn executor_id_for(agent: &str, lane: Option<&str>) -> (r: String)
    ensures
        r@ == spec_executor_id(agent@, opt_view(lane)),
{
    let mut id = crate::strings::concat2("specialist-executor:", agent);
    match lane {
        Some(l) => {
            crate::strings::push_str(&mut id, ":");
            crate::strings::push_str(&mut id, l);
        },
        None => {},
    }
    id
}

fn find_executor_entry(es: &Vec<Json>, id: &str, task: &str, lane: Option<&str>) -> (r: Option<
    usize,
>)
    ensures
        match r {
            Some(i) => i < es.len() && first_index_where(
                crate::worker_fleet::jviews(es@),
                |e: JVal| spec_executor_entry_matches(e, id@, task@, opt_view(lane)),
            ) == i,
            None => first_index_where(
                crate::worker_fleet::jviews(es@),
                |e: JVal| spec_executor_entry_matches(e, id@, task@, opt_view(lane)),
            ) == -1,
        },
{
    let ghost ev = crate::worker_fleet::jviews(es@);
    let ghost f = |e: JVal| spec_executor_entry_matches(e, id@, task@, opt_view(lane));
    let mut i: usize = 0;
    while i < es.len()
        invariant
            i <= es.len(),
            ev == crate::worker_fleet::jviews(es@),
            f == (|e: JVal| spec_executor_entry_matches(e, id@, task@, opt_view(lane))),
            forall|k: int| 0 <= k < i ==> !f(#[trigger] ev[k]),
        decreases es.len() - i,
    {
        let e = &es[i];
        if opt_str_is(e.str_field("executor_id"), id) && opt_str_is(e.str_field("task_card_id"), task)
            && entry_matches_lane(e, lane) {
            proof {
                lemma_first_index_at(ev, f, i as int);
            }
            return Some(i);
        }
        i = i + 1;
    }
    proof {
        lemma_first_index_at(ev, f, ev.len() as int);
    }
    None
}

/// Records an executor's update in the run object.
pub fn update_subagent_run_specialist_executor_entry(
    run_object: &mut Json,
    input: SubagentRunRecordExecutorInput,
)
    ensures
        jview(*final(run_object)) == spec_update_executor_entry(
            jview(*old(run_object)),
            input.active_task_card_id@,
            input.child_agent_id@,
            opt_view(input.lane_id),
            input.status@,
            opt_view(input.primary_thread_id),
            opt_view(input.fallback_reason),
            opt_view(input.review_outcome),
            opt_view(input.observed_model),
            opt_ref_view(input.total_token_usage),
            input.context_tokens,
            input.timestamp@,
        ),
{
    let mut entries = cloned_array_member(run_object, "specialist_executors");
    let ghost ev = crate::worker_fleet::jviews(entries@);
    let id = executor_id_for(input.child_agent_id, input.lane_id);
    let index = find_executor_entry(&entries, id.as_str(), input.active_task_card_id, input.lane_id);
    let mut entry = match index {
        Some(i) => entries[i].deep_clone(),
        None => {
            let mut m: Vec<(String, Json)> = Vec::new();
            m.push(member("executor_id", jstr(id.as_str())));
            m.push(member("status", jstr(input.status)));
            m.push(member("task_card_id", jstr(input.active_task_card_id)));
            m.push(member("lane_id", jopt(input.lane_id)));
            m.push(member("child_agent_id", jstr(input.child_agent_id)));
            m.push(member("execution_mode", jstr("codex_subagent")));
            m.push(member("created_at", jstr(input.timestamp)));
            let e = object_of(m);
            assert(members_view(m@) =~= spec_new_executor_entry(
                id@,
                input.active_task_card_id@,
                input.child_agent_id@,
                opt_view(input.lane_id),
                input.status@,
                input.timestamp@,
            )->Object_0);
            e
        },
    };
    entry.insert("status", jstr(input.status));
    entry.insert("updated_at", jstr(input.timestamp));
    insert_opt_str(&mut entry, "lane_id", input.lane_id);
    entry.insert("execution_mode", jstr("codex_subagent"));
    insert_opt_str(&mut entry, "thread_id", input.primary_thread_id);
    insert_opt_str(&mut entry, "fallback_reason", input.fallback_reason);
    insert_opt_str(&mut entry, "review_outcome", input.review_outcome);
    insert_opt_str(&mut entry, "observed_model", input.observed_model);
    insert_usage(&mut entry, input.total_token_usage, input.context_tokens);
    let ghost uv = jview(entry);
    match index {
        Some(i) => {
            let mut slot = entry;
            entries.set_and_swap(i, &mut slot);
            assert(crate::worker_fleet::jviews(entries@) =~= ev.update(i as int, uv));
        },
        None => {
            entries.push(entry);
            assert(crate::worker_fleet::jviews(entries@) =~= ev.push(uv));
        },
    }
    run_object.insert("specialist_executors", crate::worker_fleet::array_of(entries));
}

proof fn lemma_entry_field_names()
    ensures
        "task_card_id"@ != "status"@,
        "lane_id"@ != "status"@,
        "updated_at"@ != "status"@,
        "execution_mode"@ != "status"@,
        "thread_id"@ != "status"@,
        "summary"@ != "status"@,
        "review_outcome"@ != "status"@,
        "observed_model"@ != "status"@,
        "total_token_usage"@ != "status"@,
        "context_tokens"@ != "status"@,
        "status"@ != "task_card_id"@,
        "lane_id"@ != "task_card_id"@,
        "updated_at"@ != "task_card_id"@,
        "execution_mode"@ != "task_card_id"@,
        "thread_id"@ != "task_card_id"@,
        "summary"@ != "task_card_id"@,
        "review_outcome"@ != "task_card_id"@,
        "observed_model"@ != "task_card_id"@,
        "total_token_usage"@ != "task_card_id"@,
        "context_tokens"@ != "task_card_id"@,
        "status"@ != "agent_id"@,
        "task_card_id"@ != "agent_id"@,
        "lane_id"@ != "agent_id"@,
        "updated_at"@ != "agent_id"@,
        "execution_mode"@ != "agent_id"@,
        "thread_id"@ != "agent_id"@,
        "summary"@ != "agent_id"@,
        "review_outcome"@ != "agent_id"@,
        "observed_model"@ != "agent_id"@,
        "total_token_usage"@ != "agent_id"@,
        "context_tokens"@ != "agent_id"@,
        "status"@ != "lane_id"@,
        "task_card_id"@ != "lane_id"@,
        "updated_at"@ != "lane_id"@,
        "execution_mode"@ != "lane_id"@,
        "thread_id"@ != "lane_id"@,
        "summary"@ != "lane_id"@,
        "review_outcome"@ != "lane_id"@,
        "observed_model"@ != "lane_id"@,
        "total_token_usage"@ != "lane_id"@,
        "context_tokens"@ != "lane_id"@,
{
    reveal_strlit("status");
    reveal_strlit("task_card_id");
    reveal_strlit("lane_id");
    reveal_strlit("updated_at");
    reveal_strlit("execution_mode");
    reveal_strlit("thread_id");
    reveal_strlit("summary");
    reveal_strlit("review_outcome");
    reveal_strlit("observed_model");
    reveal_strlit("total_token_usage");
    reveal_strlit("context_tokens");
    reveal_strlit("agent_id");
    reveal_strlit("child_agents");
    assert("status"@.len() == 6);
    assert("task_card_id"@.len() == 12);
    assert("lane_id"@.len() == 7);
    assert("updated_at"@.len() == 10);
    assert("execution_mode"@.len() == 14);
    assert("thread_id"@.len() == 9);
    assert("summary"@.len() == 7);
    assert("review_outcome"@.len() == 14);
    assert("observed_model"@.len() == 14);
    assert("total_token_usage"@.len() == 17);
    assert("context_tokens"@.len() == 14);
    assert("agent_id"@.len() == 8);
    assert("child_agents"@.len() == 12);
    assert("lane_id"@[0] != "summary"@[0]);
}

proof fn lemma_get_past_opt(e: JVal, k: Seq<char>, v: Option<Seq<char>>, key: Seq<char>)
    requires
        k != key,
    ensures
        jget(with_opt_str(e, k, v), key) == jget(e, key),
        (e is Object) == (with_opt_str(e, k, v) is Object),
{
    if let Some(x) = v {
        crate::json::lemma_jget_jinsert_other(e, k, JVal::Str(x), key);
    }
}

proof fn lemma_get_past_insert(e: JVal, k: Seq<char>, v: JVal, key: Seq<char>)
    requires
        k != key,
    ensures
        jget(jinsert(e, k, v), key) == jget(e, key),
        (e is Object) == (jinsert(e, k, v) is Object),
{
    crate::json::lemma_jget_jinsert_other(e, k, v, key);
}

proof fn lemma_get_past_usage(e: JVal, u: Option<JVal>, n: Option<u64>, key: Seq<char>)
    requires
        key != "total_token_usage"@,
        key != "context_tokens"@,
    ensures
        jget(with_usage(e, u, n), key) == jget(e, key),
{
    let e1 = match u {
        Some(x) => jinsert(e, "total_token_usage"@, x),
        None => e,
    };
    if let Some(x) = u {
        crate::json::lemma_jget_jinsert_other(e, "total_token_usage"@, x, key);
    }
    if let Some(c) = n {
        crate::json::lemma_jget_jinsert_other(e1, "context_tokens"@, JVal::Num(c as int), key);
    }
}

/// The fields of an updated child entry that identify it and give its
/// status.
proof fn lemma_updated_child_entry_fields(
    e: JVal,
    task: Seq<char>,
    lane: Option<Seq<char>>,
    status: Seq<char>,
    thread: Option<Seq<char>>,
    stale: bool,
    summary: Option<Seq<char>>,
    review_outcome: Option<Seq<char>>,
    observed_model: Option<Seq<char>>,
    usage: Option<JVal>,
    context_tokens: Option<u64>,
    ts: Seq<char>,
)
    requires
        e is Object,
    ensures
        ({
            let u = spec_updated_child_entry(
                e,
                task,
                lane,
                status,
                thread,
                stale,
                summary,
                review_outcome,
                observed_model,
                usage,
                context_tokens,
                ts,
            );
            &&& jstr_field(u, "status"@) == Some(status)
            &&& jstr_field(u, "task_card_id"@) == Some(task)
            &&& jget(u, "agent_id"@) == jget(e, "agent_id"@)
            &&& jget(u, "lane_id"@) == match lane {
                Some(l) => Some(JVal::Str(l)),
                None => jget(e, "lane_id"@),
            }
        }),
{
    lemma_entry_field_names();
    let e0 = jinsert(e, "status"@, JVal::Str(status));
    let e1 = jinsert(e0, "task_card_id"@, JVal::Str(task));
    let e2 = with_opt_str(e1, "lane_id"@, lane);
    let e3a = jinsert(e2, "updated_at"@, JVal::Str(ts));
    let e3 = jinsert(e3a, "execution_mode"@, JVal::Str("codex_subagent"@));
    let e4 = with_opt_str(e3, "thread_id"@, thread);
    let e5 = if stale {
        e4
    } else {
        with_opt_str(e4, "summary"@, summary)
    };
    let e6a = with_opt_str(e5, "review_outcome"@, review_outcome);
    let e6 = with_opt_str(e6a, "observed_model"@, observed_model);
    let keys = seq!["status"@, "task_card_id"@, "agent_id"@, "lane_id"@];
    crate::json::lemma_jget_jinsert_same(e, "status"@, JVal::Str(status));
    assert forall|i: int| 0 <= i < 4 implies {
        let key = #[trigger] keys[i];
        &&& (key != "status"@ ==> jget(e0, key) == jget(e, key))
        &&& (key != "task_card_id"@ ==> jget(e1, key) == jget(e0, key))
        &&& (key != "lane_id"@ ==> jget(e2, key) == jget(e1, key))
        &&& jget(e6, key) == jget(e2, key)
        &&& jget(spec_updated_child_entry(
            e,
            task,
            lane,
            status,
            thread,
            stale,
            summary,
            review_outcome,
            observed_model,
            usage,
            context_tokens,
            ts,
        ), key) == jget(e6, key)
    } by {
        let key = keys[i];
        if key != "status"@ {
            lemma_get_past_insert(e, "status"@, JVal::Str(status), key);
        }
        if key != "task_card_id"@ {
            lemma_get_past_insert(e0, "task_card_id"@, JVal::Str(task), key);
        }
        if key != "lane_id"@ {
            lemma_get_past_opt(e1, "lane_id"@, lane, key);
        }
        lemma_get_past_insert(e2, "updated_at"@, JVal::Str(ts), key);
        lemma_get_past_insert(e3a, "execution_mode"@, JVal::Str("codex_subagent"@), key);
        lemma_get_past_opt(e3, "thread_id"@, thread, key);
        if !stale {
            lemma_get_past_opt(e4, "summary"@, summary, key);
        }
        lemma_get_past_opt(e5, "review_outcome"@, review_outcome, key);
        lemma_get_past_opt(e6a, "observed_model"@, observed_model, key);
        lemma_get_past_usage(e6, usage, context_tokens, key);
    }
    assert(keys[0] == "status"@);
    assert(keys[1] == "task_card_id"@);
    assert(keys[2] == "agent_id"@);
    assert(keys[3] == "lane_id"@);
    lemma_get_past_insert(e, "status"@, JVal::Str(status), "task_card_id"@);
    crate::json::lemma_jget_jinsert_same(e0, "task_card_id"@, JVal::Str(task));
    if let Some(l) = lane {
        crate::json::lemma_jget_jinsert_same(e1, "lane_id"@, JVal::Str(l));
    }
}

proof fn lemma_first_index_props(es: Seq<JVal>, f: spec_fn(JVal) -> bool)
    ensures
        -1 <= first_index_where(es, f) < es.len(),
        first_index_where(es, f) >= 0 ==> f(es[first_index_where(es, f)]),
        forall|k: int|
            0 <= k < es.len() && (first_index_where(es, f) < 0 || k < first_index_where(es, f))
                ==> !f(#[trigger] es[k]),
    decreases es.len(),
{
    if es.len() > 0 && !f(es[0]) {
        lemma_first_index_props(es.drop_first(), f);
        assert forall|k: int|
            0 <= k < es.len() && (first_index_where(es, f) < 0 || k < first_index_where(es, f))
                implies !f(#[trigger] es[k]) by {
            if k > 0 {
                assert(es[k] == es.drop_first()[k - 1]);
            }
        }
    }
}

/// After a child's update is recorded, looking the child up by task card,
/// agent and lane finds an entry that carries the new status.
pub proof fn lemma_recorded_child_entry_is_found(
    run: JVal,
    task: Seq<char>,
    agent: Seq<char>,
    lane: Option<Seq<char>>,
    role: Seq<char>,
    status: Seq<char>,
    thread: Option<Seq<char>>,
    stale: bool,
    summary: Option<Seq<char>>,
    review_outcome: Option<Seq<char>>,
    observed_model: Option<Seq<char>>,
    usage: Option<JVal>,
    context_tokens: Option<u64>,
    ts: Seq<char>,
)
    requires
        run is Object,
    ensures
        ({
            let after = spec_update_child_agent_entry(
                run,
                task,
                agent,
                lane,
                role,
                status,
                thread,
                stale,
                summary,
                review_outcome,
                observed_model,
                usage,
                context_tokens,
                ts,
            );
            let entries = array_member(after, "child_agents"@);
            let i = first_index_where(
                entries,
                |e: JVal| spec_child_entry_matches(e, task, agent, lane),
            );
            i >= 0 && jstr_field(entries[i], "status"@) == Some(status)
        }),
{
    let f = |e: JVal| spec_child_entry_matches(e, task, agent, lane);
    let entries = array_member(run, "child_agents"@);
    let i = first_index_where(entries, f);
    lemma_first_index_props(entries, f);
    let base = if i >= 0 {
        entries[i]
    } else {
        spec_new_child_entry(task, agent, lane, role, status, ts)
    };
    lemma_entry_field_names();
    if i < 0 {
        reveal_strlit("agent_id");
        reveal_strlit("lane_id");
        assert("agent_id"@.len() != "lane_id"@.len());
        crate::json::lemma_jmember_index_scan(base->Object_0, "agent_id"@, 0);
        assert forall|k: int| 0 <= k < 5 implies (#[trigger] base->Object_0[k]).0 != "lane_id"@ by {
            reveal_strlit("parent_agent_id");
            reveal_strlit("role");
            reveal_strlit("status");
            reveal_strlit("task_card_id");
            assert("parent_agent_id"@.len() == 15);
            assert("role"@.len() == 4);
        }
        crate::json::lemma_jmember_index_scan(base->Object_0, "lane_id"@, 5);
    }
    lemma_updated_child_entry_fields(
        base,
        task,
        lane,
        status,
        thread,
        stale,
        summary,
        review_outcome,
        observed_model,
        usage,
        context_tokens,
        ts,
    );
    let updated = spec_updated_child_entry(
        base,
        task,
        lane,
        status,
        thread,
        stale,
        summary,
        review_outcome,
        observed_model,
        usage,
        context_tokens,
        ts,
    );
    assert(f(updated));
    let list = if i >= 0 {
        entries.update(i, updated)
    } else {
        entries.push(updated)
    };
    let after = jinsert(run, "child_agents"@, JVal::Array(list));
    crate::json::lemma_jget_jinsert_same(run, "child_agents"@, JVal::Array(list));
    assert(array_member(after, "child_agents"@) == list);
    let at: int = if i >= 0 {
        i
    } else {
        entries.len() as int
    };
    assert forall|k: int| 0 <= k < at implies !f(#[trigger] list[k]) by {
        assert(list[k] == entries[k]);
    }
    lemma_first_index_at(list, f, at);
}

/// Whether an observed value agrees with the expected one (or either is
/// unknown).
pub open spec fn agrees(expected: Option<Seq<char>>, observed: Option<Seq<char>>) -> bool {
    match (expected, observed) {
        (Some(e), Some(o)) => e == o,
        _ => true,
    }
}

/// When every observed value agrees with what the delegation plan expects,
/// the drift record lists no mismatch and is ok.
pub proof fn lemma_agreeing_configuration_is_ok(
    tc: JVal,
    observed_child_agent_id: Option<Seq<char>>,
    observed_model: Option<Seq<char>>,
    observed_variant: Option<Seq<char>>,
    observed_sandbox_mode: Option<Seq<char>>,
    observed_approval_policy: Option<Seq<char>>,
    timestamp: Seq<char>,
)
    requires
        agrees(spec_preferred_subagent_child_agent_id(tc), observed_child_agent_id),
        agrees(spec_expected_model(tc), observed_model),
        agrees(spec_expected_variant(tc), observed_variant),
        agrees(spec_expected_sandbox_mode(tc), observed_sandbox_mode),
    ensures
        spec_policy_mismatches(
            tc,
            observed_child_agent_id,
            observed_model,
            observed_variant,
            observed_sandbox_mode,
        ).len() == 0,
        spec_subagent_policy_drift(
            tc,
            observed_child_agent_id,
            observed_model,
            observed_variant,
            observed_sandbox_mode,
            observed_approval_policy,
            timestamp,
        )->Object_0[7] == ("ok"@, JVal::Bool(true)),
{
}

/// A merged report of a completed fan-in that brings no status of its own
/// keeps the fan-in completed.
pub proof fn lemma_merged_report_keeps_completed_fan_in(
    prior: JVal,
    summary: Option<Seq<char>>,
    incoming_status: JVal,
    incoming_evidence_paths: JVal,
    incoming_next_action: JVal,
    incoming_open_questions: JVal,
    incoming_confidence: JVal,
    incoming_risk: JVal,
    incoming_checks: JVal,
)
    requires
        jstr_field(prior, "status"@) == Some("completed"@),
        fan_in_blank(incoming_status),
    ensures
        spec_subagent_fan_in_compact(
            prior,
            "merged"@,
            summary,
            incoming_status,
            incoming_evidence_paths,
            incoming_next_action,
            incoming_open_questions,
            incoming_confidence,
            incoming_risk,
            incoming_checks,
        )->Object_0[3] == ("status"@, JVal::Str("completed"@)),
{
    reveal_strlit("completed");
    assert("completed"@.len() == 9);
    assert(!crate::strings::is_ws("completed"@[0]));
    assert(!fan_in_blank(JVal::Str("completed"@)));
}

/// A thread id given with an update is always the one recorded.
pub proof fn lemma_given_thread_id_is_kept(
    tc: JVal,
    parsed_child_agent_id: Option<Seq<char>>,
    thread_id: Seq<char>,
)
    ensures
        spec_normalize_subagent_update_agent_identity(tc, parsed_child_agent_id, Some(thread_id)).1
            == Some(thread_id),
{
}

} // verus!
