//! Cost routing of a status: whether host custom subagents are preferred
//! and the roles of simple tasks (search, docs, git lookups and narrow
//! mutations) run on mini-class models.

use vstd::prelude::*;
use crate::app_panel::{
    at2, clone_or, get_ref, loaded_role_config_snapshot, or_else, or_null, spec_loaded_role_snapshot,
};
use crate::delegation_plan::{spec_fallback_mode, spec_preferred_mode};
use crate::json::{
    jbool, jget, jget_path, jstr, jstr_field, jview, lemma_array_view, member, members_view,
    object_of, opt_bool, JVal, Json,
};
use crate::roles::{agent_id_for_role, spec_agent_id_for_role};
use crate::roles_config::{fallback_specialist_execution_mode, preferred_specialist_execution_mode};
use crate::strings::{contains, contains_seq, str_eq};
use crate::worker_events::opt_jview_ref;

verus! {

/// A role snapshot names a mini-class model.
pub open spec fn spec_uses_low_cost_model(snapshot: JVal) -> bool {
    match jstr_field(snapshot, "model"@) {
        Some(m) => contains_seq(m, "mini"@),
        None => false,
    }
}

/// A role's model settings and whether its model is mini-class.
pub open spec fn spec_role_model_entry(role: Seq<char>, shared_config: Option<JVal>) -> JVal {
    let snapshot = spec_loaded_role_snapshot(shared_config, role);
    JVal::Object(
        seq![
            ("role"@, JVal::Str(role)),
            (
                "agent_id"@,
                JVal::Str(
                    match spec_agent_id_for_role(role) {
                        Some(a) => a,
                        None => role,
                    },
                ),
            ),
            ("model"@, or_null(jget(snapshot, "model"@))),
            ("variant"@, or_null(jget(snapshot, "variant"@))),
            ("fast_mode"@, JVal::Bool(opt_bool(jget(snapshot, "fast_mode"@)) == Some(true))),
            ("source"@, or_null(jget(snapshot, "source"@))),
            ("uses_low_cost_model"@, JVal::Bool(spec_uses_low_cost_model(snapshot))),
        ],
    )
}

pub fn role_model_entry(role: &str, shared_config: Option<&Json>) -> (r: Json)
    ensures
        jview(r) == spec_role_model_entry(role@, opt_jview_ref(shared_config)),
{
    let snapshot = loaded_role_config_snapshot(shared_config, role);
    let low_cost = match snapshot.str_field("model") {
        Some(m) => contains(m, "mini"),
        None => false,
    };
    let fast_mode = match snapshot.get("fast_mode") {
        Some(v) => match v.as_bool() {
            Some(b) => b,
            None => false,
        },
        None => false,
    };
    let agent_id: &str = match agent_id_for_role(role) {
        Some(a) => a,
        None => role,
    };
    let mut m: Vec<(String, Json)> = Vec::new();
    m.push(member("role", jstr(role)));
    m.push(member("agent_id", jstr(agent_id)));
    m.push(member("model", clone_or(get_ref(&snapshot, "model"), Json::Null)));
    m.push(member("variant", clone_or(get_ref(&snapshot, "variant"), Json::Null)));
    m.push(member("fast_mode", jbool(fast_mode)));
    m.push(member("source", clone_or(get_ref(&snapshot, "source"), Json::Null)));
    m.push(member("uses_low_cost_model", jbool(low_cost)));
    let r = object_of(m);
    assert(members_view(m@) =~= spec_role_model_entry(role@, opt_jview_ref(shared_config))->Object_0);
    r
}

/// Every role's model is mini-class.
pub open spec fn spec_roles_low_cost(roles: Seq<Seq<char>>, shared_config: Option<JVal>) -> bool {
    forall|i: int|
        0 <= i < roles.len() ==> spec_uses_low_cost_model(
            #[trigger] spec_loaded_role_snapshot(shared_config, roles[i]),
        )
}

pub fn roles_low_cost(roles: &[&str], shared_config: Option<&Json>) -> (r: bool)
    ensures
        r == spec_roles_low_cost(roles@.map_values(|s: &str| s@), opt_jview_ref(shared_config)),
{
    let ghost rs = roles@.map_values(|s: &str| s@);
    let ghost cfg = opt_jview_ref(shared_config);
    let mut i: usize = 0;
    while i < roles.len()
        invariant
            i <= roles.len(),
            rs == roles@.map_values(|s: &str| s@),
            cfg == opt_jview_ref(shared_config),
            forall|k: int|
                0 <= k < i ==> spec_uses_low_cost_model(#[trigger] spec_loaded_role_snapshot(cfg, rs[k])),
        decreases roles.len() - i,
    {
        let snapshot = loaded_role_config_snapshot(shared_config, roles[i]);
        assert(rs[i as int] == roles@[i as int]@);
        let low = match snapshot.str_field("model") {
            Some(m) => contains(m, "mini"),
            None => false,
        };
        if !low {
            return false;
        }
        i = i + 1;
    }
    true
}

/// A simple task's route: its roles' model entries and whether all are
/// mini-class.
pub open spec fn spec_simple_task_route(label: Seq<char>, roles: Seq<Seq<char>>, shared_config: Option<JVal>) -> JVal {
    JVal::Object(
        seq![
            ("task"@, JVal::Str(label)),
            (
                "roles"@,
                JVal::Array(roles.map_values(|r: Seq<char>| spec_role_model_entry(r, shared_config))),
            ),
            ("uses_low_cost_model"@, JVal::Bool(spec_roles_low_cost(roles, shared_config))),
        ],
    )
}

pub fn create_simple_task_route(label: &str, roles: &[&str], shared_config: Option<&Json>) -> (r: Json)
    ensures
        jview(r) == spec_simple_task_route(
            label@,
            roles@.map_values(|s: &str| s@),
            opt_jview_ref(shared_config),
        ),
{
    let ghost rs = roles@.map_values(|s: &str| s@);
    let ghost cfg = opt_jview_ref(shared_config);
    let mut entries: Vec<Json> = Vec::new();
    let mut i: usize = 0;
    while i < roles.len()
        invariant
            i <= roles.len(),
            rs == roles@.map_values(|s: &str| s@),
            cfg == opt_jview_ref(shared_config),
            entries@.len() == i,
            forall|k: int| 0 <= k < i ==> jview(#[trigger] entries@[k]) == spec_role_model_entry(rs[k], cfg),
        decreases roles.len() - i,
    {
        assert(rs[i as int] == roles@[i as int]@);
        entries.push(role_model_entry(roles[i], shared_config));
        i = i + 1;
    }
    proof {
        lemma_array_view(entries);
        assert(entries@.map_values(|x: Json| jview(x)) =~= rs.map_values(
            |r: Seq<char>| spec_role_model_entry(r, cfg),
        ));
    }
    let mut m: Vec<(String, Json)> = Vec::new();
    m.push(member("task", jstr(label)));
    m.push(member("roles", Json::Array(entries)));
    m.push(member("uses_low_cost_model", jbool(roles_low_cost(roles, shared_config))));
    let r = object_of(m);
    assert(members_view(m@) =~= spec_simple_task_route(label@, rs, cfg)->Object_0);
    r
}

/// The simple tasks and the roles they route to.
pub open spec fn simple_task_routes() -> Seq<(Seq<char>, Seq<Seq<char>>)> {
    seq![
        ("simple_search_and_collection"@, seq!["explorer"@, "companion_reader"@]),
        ("documentation_update"@, seq!["documenter"@]),
        ("git_or_filesystem_lookup"@, seq!["companion_reader"@]),
        ("narrow_git_or_release_mutation"@, seq!["companion_operator"@]),
    ]
}

/// Every simple task route is mini-class.
pub open spec fn spec_simple_routes_low_cost(shared_config: Option<JVal>) -> bool {
    forall|i: int|
        0 <= i < simple_task_routes().len() ==> spec_roles_low_cost(
            #[trigger] simple_task_routes()[i].1,
            shared_config,
        )
}

/// The cost routing of a status: `configured` when subagents are preferred
/// and every simple route is mini-class, `needs_attention` otherwise; the
/// current task's role, agent and model; the simple routes; and what token
/// usage shows.
pub open spec fn spec_cost_routing(runtime_config: JVal, payload: JVal, shared_config: Option<JVal>) -> JVal {
    let preferred = spec_preferred_mode(runtime_config);
    let enabled = preferred == "codex_subagent"@;
    let low = spec_simple_routes_low_cost(shared_config);
    let configured = enabled && low;
    let task = or_null(jget(payload, "current_task_card"@));
    let role = match jstr_field(task, "assigned_role"@) {
        Some(r) => r,
        None => "unassigned"@,
    };
    let routes = simple_task_routes();
    JVal::Object(
        seq![
            ("status"@, JVal::Str(if configured { "configured"@ } else { "needs_attention"@ })),
            (
                "summary"@,
                JVal::Str(
                    if configured {
                        "CCC is configured to prefer host custom subagents, and simple search/collection/docs companion routes use mini-class models."@
                    } else {
                        "CCC cost routing needs attention; inspect preferred execution mode and simple task role models."@
                    },
                ),
            ),
            (
                "subagents"@,
                JVal::Object(
                    seq![
                        ("preferred_execution_mode"@, JVal::Str(preferred)),
                        ("fallback_execution_mode"@, JVal::Str(spec_fallback_mode(runtime_config))),
                        ("enabled"@, JVal::Bool(enabled)),
                        ("host_update_mode"@, JVal::Str("ccc_cli_subcommand"@)),
                        ("current_task_role"@, JVal::Str(role)),
                        ("current_task_agent_id"@, or_null(jget(task, "assigned_agent_id"@))),
                        (
                            "current_task_preferred_custom_agent"@,
                            or_null(jget_path(task, seq!["delegation_plan"@, "preferred_custom_agent_name"@])),
                        ),
                        (
                            "current_task_model"@,
                            if role == "unassigned"@ {
                                JVal::Null
                            } else {
                                spec_role_model_entry(role, shared_config)
                            },
                        ),
                    ],
                ),
            ),
            (
                "simple_task_routes"@,
                JVal::Array(
                    routes.map_values(
                        |r: (Seq<char>, Seq<Seq<char>>)| spec_simple_task_route(r.0, r.1, shared_config),
                    ),
                ),
            ),
            ("simple_routes_use_low_cost_models"@, JVal::Bool(low)),
            (
                "token_usage_observation"@,
                JVal::Object(
                    seq![
                        (
                            "status"@,
                            or_else(
                                jget_path(payload, seq!["token_usage_visibility"@, "status"@]),
                                JVal::Str("unknown"@),
                            ),
                        ),
                        (
                            "reason"@,
                            or_null(jget_path(payload, seq!["token_usage_visibility"@, "unavailable_reason"@])),
                        ),
                        (
                            "note"@,
                            JVal::Str(
                                "Host custom subagent token usage is visible only when the host supplies raw usage events; launch routing is still recorded in CCC status."@,
                            ),
                        ),
                    ],
                ),
            ),
        ],
    )
}

fn simple_routes(shared_config: Option<&Json>) -> (r: (Json, bool))
    ensures
        jview(r.0) == JVal::Array(
            simple_task_routes().map_values(
                |rt: (Seq<char>, Seq<Seq<char>>)| spec_simple_task_route(rt.0, rt.1, opt_jview_ref(shared_config)),
            ),
        ),
        r.1 == spec_simple_routes_low_cost(opt_jview_ref(shared_config)),
{
    let ghost cfg = opt_jview_ref(shared_config);
    let r1: [&str; 2] = ["explorer", "companion_reader"];
    let r2: [&str; 1] = ["documenter"];
    let r3: [&str; 1] = ["companion_reader"];
    let r4: [&str; 1] = ["companion_operator"];
    assert(r1@.map_values(|s: &str| s@) =~= seq!["explorer"@, "companion_reader"@]);
    assert(r2@.map_values(|s: &str| s@) =~= seq!["documenter"@]);
    assert(r3@.map_values(|s: &str| s@) =~= seq!["companion_reader"@]);
    assert(r4@.map_values(|s: &str| s@) =~= seq!["companion_operator"@]);
    let a = create_simple_task_route("simple_search_and_collection", r1.as_slice(), shared_config);
    let b = create_simple_task_route("documentation_update", r2.as_slice(), shared_config);
    let c = create_simple_task_route("git_or_filesystem_lookup", r3.as_slice(), shared_config);
    let d = create_simple_task_route("narrow_git_or_release_mutation", r4.as_slice(), shared_config);
    let low = roles_low_cost(r1.as_slice(), shared_config) && roles_low_cost(r2.as_slice(), shared_config)
        && roles_low_cost(r3.as_slice(), shared_config) && roles_low_cost(r4.as_slice(), shared_config);
    let mut v: Vec<Json> = Vec::new();
    v.push(a);
    v.push(b);
    v.push(c);
    v.push(d);
    proof {
        lemma_array_view(v);
        let routes = simple_task_routes();
        assert(v@.map_values(|x: Json| jview(x)) =~= routes.map_values(
            |rt: (Seq<char>, Seq<Seq<char>>)| spec_simple_task_route(rt.0, rt.1, cfg),
        ));
        if low {
            assert forall|i: int| 0 <= i < routes.len() implies spec_roles_low_cost(#[trigger] routes[i].1, cfg) by {
                if i == 0 {
                } else if i == 1 {
                } else if i == 2 {
                } else {
                }
            }
        } else {
            if !spec_roles_low_cost(routes[0].1, cfg) {
            } else if !spec_roles_low_cost(routes[1].1, cfg) {
            } else if !spec_roles_low_cost(routes[2].1, cfg) {
            } else {
                assert(!spec_roles_low_cost(routes[3].1, cfg));
            }
        }
    }
    (Json::Array(v), low)
}

pub fn create_cost_routing_payload(runtime_config: &Json, payload: &Json, shared_config: Option<&Json>) -> (r:
    Json)
    ensures
        jview(r) == spec_cost_routing(jview(*runtime_config), jview(*payload), opt_jview_ref(shared_config)),
{
    let preferred = preferred_specialist_execution_mode(runtime_config);
    let fallback = fallback_specialist_execution_mode(runtime_config);
    let enabled = str_eq(preferred.as_str(), "codex_subagent");
    let (routes, low) = simple_routes(shared_config);
    let configured = enabled && low;
    let task = clone_or(get_ref(payload, "current_task_card"), Json::Null);
    let role: &str = match task.str_field("assigned_role") {
        Some(r) => r,
        None => "unassigned",
    };
    let model = if str_eq(role, "unassigned") {
        Json::Null
    } else {
        role_model_entry(role, shared_config)
    };
    let mut s: Vec<(String, Json)> = Vec::new();
    s.push(member("preferred_execution_mode", jstr(preferred.as_str())));
    s.push(member("fallback_execution_mode", jstr(fallback.as_str())));
    s.push(member("enabled", jbool(enabled)));
    s.push(member("host_update_mode", jstr("ccc_cli_subcommand")));
    s.push(member("current_task_role", jstr(role)));
    s.push(member("current_task_agent_id", clone_or(get_ref(&task, "assigned_agent_id"), Json::Null)));
    s.push(
        member(
            "current_task_preferred_custom_agent",
            clone_or(at2(&task, "delegation_plan", "preferred_custom_agent_name"), Json::Null),
        ),
    );
    s.push(member("current_task_model", model));
    let ghost sv = members_view(s@);
    let mut t: Vec<(String, Json)> = Vec::new();
    t.push(member("status", clone_or(at2(payload, "token_usage_visibility", "status"), jstr("unknown"))));
    t.push(member("reason", clone_or(at2(payload, "token_usage_visibility", "unavailable_reason"), Json::Null)));
    t.push(
        member(
            "note",
            jstr(
                "Host custom subagent token usage is visible only when the host supplies raw usage events; launch routing is still recorded in CCC status.",
            ),
        ),
    );
    let ghost tv = members_view(t@);
    let mut m: Vec<(String, Json)> = Vec::new();
    m.push(member("status", jstr(if configured { "configured" } else { "needs_attention" })));
    m.push(
        member(
            "summary",
            jstr(
                if configured {
                    "CCC is configured to prefer host custom subagents, and simple search/collection/docs companion routes use mini-class models."
                } else {
                    "CCC cost routing needs attention; inspect preferred execution mode and simple task role models."
                },
            ),
        ),
    );
    m.push(member("subagents", object_of(s)));
    m.push(member("simple_task_routes", routes));
    m.push(member("simple_routes_use_low_cost_models", jbool(low)));
    m.push(member("token_usage_observation", object_of(t)));
    let r = object_of(m);
    proof {
        let spec = spec_cost_routing(jview(*runtime_config), jview(*payload), opt_jview_ref(shared_config))->Object_0;
        assert(sv =~= spec[2].1->Object_0);
        assert(tv =~= spec[5].1->Object_0);
        assert(members_view(m@) =~= spec);
    }
    r
}

} // verus!
