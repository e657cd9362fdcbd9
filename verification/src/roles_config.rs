//! Role settings read from the shared config and task cards: follow-up role
//! resolution, model tiers, config overrides and output settings.

use vstd::prelude::*;
use crate::json::{
    get_or, get_or_null, jas_str, jbool, jempty_array, jget, jget_or, jget_or_null, jopt,
    jopt_str, jstr, jstr_array, jstr_field, jview, member, members_view, object_of, opt_bool,
    opt_str, JVal, Json,
};
use crate::roles::{callsign_for_role, config_role_lookup_keys, spec_callsign_for_role, spec_config_role_lookup_keys};
use crate::roles::{
    agent_id_for_role, assigned_role_for_task_kind, fallback_role_summary,
    is_captain_or_orchestrator_agent_id, is_captain_or_orchestrator_role,
    normalize_dispatch_role_hint, normalize_specialist_execution_mode, role_for_agent_id,
    spec_agent_id_for_role, spec_assigned_role_for_task_kind, spec_fallback_role_summary,
    spec_is_captain_or_orchestrator_agent_id, spec_is_captain_or_orchestrator_role,
    spec_normalize_dispatch_role_hint, spec_normalize_execution_mode, spec_role_for_agent_id,
};
use crate::strings::{
    concat2, has_prefix, opt_view, push_str, starts_with, str_eq, to_owned, trim, trim_start,
    trim_string,
};

verus! {

pub open spec fn spec_task_kind_fallback_role(task_card: JVal) -> Seq<char> {
    let kind = match jstr_field(task_card, "task_kind"@) {
        Some(k) => k,
        None => "execution"@,
    };
    let role = spec_assigned_role_for_task_kind(kind);
    if spec_is_captain_or_orchestrator_role(role) {
        "code specialist"@
    } else {
        role
    }
}

/// The role a follow-up falls back to by the task card's kind (never the
/// captain or the orchestrator).
pub fn task_kind_follow_up_fallback_role(task_card: &Json) -> (r: &'static str)
    ensures
        r@ == spec_task_kind_fallback_role(jview(*task_card)),
{
    let kind: &str = match task_card.str_field("task_kind") {
        Some(k) => k,
        None => "execution",
    };
    let role = assigned_role_for_task_kind(kind);
    if is_captain_or_orchestrator_role(role) {
        "code specialist"
    } else {
        role
    }
}

/// The task card's own assigned role, trimmed, when it is set and is not
/// the captain or the orchestrator.
pub open spec fn spec_original_role(task_card: JVal) -> Option<Seq<char>> {
    match jstr_field(task_card, "assigned_role"@) {
        Some(r) => if trim(r).len() > 0 && !spec_is_captain_or_orchestrator_role(trim(r)) {
            Some(trim(r))
        } else {
            None
        },
        None => None,
    }
}

/// The specialist role of a follow-up task: the hinted role (normalized
/// against the card's own role), unless the hint or the result is the
/// captain or the orchestrator, in which case the card's kind decides.
pub open spec fn spec_follow_up_role(task_card: JVal, hint: Option<Seq<char>>) -> Seq<char> {
    let by_kind = spec_task_kind_fallback_role(task_card);
    let fallback = match spec_original_role(task_card) {
        Some(r) => r,
        None => by_kind,
    };
    match hint {
        Some(h) => if spec_is_captain_or_orchestrator_role(trim(h)) {
            by_kind
        } else {
            let selected = spec_normalize_dispatch_role_hint(Some(h), fallback);
            if spec_is_captain_or_orchestrator_role(selected) {
                by_kind
            } else {
                selected
            }
        },
        None => if spec_is_captain_or_orchestrator_role(fallback) {
            by_kind
        } else {
            fallback
        },
    }
}

pub fn resolve_follow_up_specialist_role(task_card: &Json, role_hint: Option<&str>) -> (r: String)
    ensures
        r@ == spec_follow_up_role(jview(*task_card), opt_view(role_hint)),
{
    let by_kind = task_kind_follow_up_fallback_role(task_card);
    let original: Option<String> = match task_card.str_field("assigned_role") {
        Some(r) => {
            let t = trim_string(r);
            if t.as_str().unicode_len() > 0 && !is_captain_or_orchestrator_role(t.as_str()) {
                Some(t)
            } else {
                None
            }
        },
        None => None,
    };
    let fallback: String = match original {
        Some(r) => r,
        None => to_owned(by_kind),
    };
    match role_hint {
        Some(h) => {
            let th = trim_string(h);
            if is_captain_or_orchestrator_role(th.as_str()) {
                return to_owned(by_kind);
            }
            let selected = normalize_dispatch_role_hint(Some(h), fallback.as_str());
            if is_captain_or_orchestrator_role(selected.as_str()) {
                to_owned(by_kind)
            } else {
                selected
            }
        },
        None => {
            if is_captain_or_orchestrator_role(fallback.as_str()) {
                to_owned(by_kind)
            } else {
                fallback
            }
        },
    }
}

/// The agent for a follow-up: the trimmed hinted agent when it is set, not
/// the captain or orchestrator, and serves the resolved role; else the
/// role's agent; else `raider`.
pub open spec fn spec_follow_up_agent(role: Seq<char>, agent_hint: Option<Seq<char>>) -> Seq<char> {
    let hinted = match agent_hint {
        Some(a) => {
            let t = trim(a);
            if t.len() > 0 && !spec_is_captain_or_orchestrator_agent_id(t)
                && spec_role_for_agent_id(t) == Some(role) {
                Some(t)
            } else {
                None
            }
        },
        None => None,
    };
    match hinted {
        Some(a) => a,
        None => match spec_agent_id_for_role(role) {
            Some(a) => a,
            None => "raider"@,
        },
    }
}

pub fn resolve_follow_up_specialist_assignment(
    task_card: &Json,
    role_hint: Option<&str>,
    agent_id_hint: Option<&str>,
) -> (r: (String, String))
    ensures
        r.0@ == spec_follow_up_role(jview(*task_card), opt_view(role_hint)),
        r.1@ == spec_follow_up_agent(r.0@, opt_view(agent_id_hint)),
{
    let role = resolve_follow_up_specialist_role(task_card, role_hint);
    let hinted: Option<String> = match agent_id_hint {
        Some(a) => {
            let t = trim_string(a);
            let ok = t.as_str().unicode_len() > 0 && !is_captain_or_orchestrator_agent_id(
                t.as_str(),
            ) && match role_for_agent_id(t.as_str()) {
                Some(r) => str_eq(r, role.as_str()),
                None => false,
            };
            if ok {
                Some(t)
            } else {
                None
            }
        },
        None => None,
    };
    let agent = match hinted {
        Some(a) => a,
        None => match agent_id_for_role(role.as_str()) {
            Some(a) => to_owned(a),
            None => to_owned("raider"),
        },
    };
    (role, agent)
}

pub open spec fn spec_model_tier_intent(snapshot: JVal) -> Seq<char> {
    match jstr_field(snapshot, "variant"@) {
        Some(v) => if v == "low"@ {
            "low_cost"@
        } else if v == "high"@ || v == "xhigh"@ {
            "high_tier"@
        } else {
            "standard"@
        },
        None => "standard"@,
    }
}

/// The cost tier a role's configured reasoning variant implies.
pub fn role_model_tier_intent(role_config_snapshot: &Json) -> (r: &'static str)
    ensures
        r@ == spec_model_tier_intent(jview(*role_config_snapshot)),
{
    match role_config_snapshot.str_field("variant") {
        Some(v) => if str_eq(v, "low") {
            "low_cost"
        } else if str_eq(v, "high") || str_eq(v, "xhigh") {
            "high_tier"
        } else {
            "standard"
        },
        None => "standard",
    }
}

/// The role summary shown to a custom agent: the configured summary when it
/// is not blank, the role's fallback summary otherwise.
pub open spec fn spec_role_summary(role: Seq<char>, snapshot: JVal) -> Seq<char> {
    match jstr_field(snapshot, "summary"@) {
        Some(s) => if trim(s).len() > 0 {
            trim(s)
        } else {
            spec_fallback_role_summary(role)
        },
        None => spec_fallback_role_summary(role),
    }
}

pub fn role_summary(role: &str, snapshot: &Json) -> (r: String)
    ensures
        r@ == spec_role_summary(role@, jview(*snapshot)),
{
    match snapshot.str_field("summary") {
        Some(s) => {
            let t = trim_string(s);
            if t.as_str().unicode_len() > 0 {
                t
            } else {
                to_owned(fallback_role_summary(role))
            }
        },
        None => to_owned(fallback_role_summary(role)),
    }
}

/// `CCC-synced specialist. <summary>`.
pub fn custom_agent_description_for_role(role: &str, snapshot: &Json) -> (r: String)
    ensures
        r@ == "CCC-synced specialist. "@ + spec_role_summary(role@, jview(*snapshot)),
{
    let summary = role_summary(role, snapshot);
    concat2("CCC-synced specialist. ", summary.as_str())
}

/// The guidance line on external paths in generated agent instructions.
pub fn external_path_guidance_instruction() -> (r: &'static str)
    ensures
        r@ == "External paths: use exact operator paths only when readable and sandbox-allowed; if blocked, report path+approval needed."@,
{
    "External paths: use exact operator paths only when readable and sandbox-allowed; if blocked, report path+approval needed."
}

/// The fan-in line in generated agent instructions.
pub fn fan_in_output_instruction() -> (r: &'static str)
    ensures
        r@ == "Fan-in only: summary, status, evidence_paths, next_action, open_questions, confidence. Stop when acceptance evidence is enough."@,
{
    "Fan-in only: summary, status, evidence_paths, next_action, open_questions, confidence. Stop when acceptance evidence is enough."
}

/// The token-discipline line in generated agent instructions.
pub fn token_discipline_instruction() -> (r: &'static str)
    ensures
        r@ == "Token discipline: task-specific context only; no full-history dumps, repeated task-card text, or narrative transcript."@,
{
    "Token discipline: task-specific context only; no full-history dumps, repeated task-card text, or narrative transcript."
}

/// The configured output verbosity: `quiet`, `default` or `debug`, else
/// `default`.
pub open spec fn spec_output_verbosity(config: JVal) -> Seq<char> {
    match jget(config, "output"@) {
        Some(o) => match jstr_field(o, "verbosity"@) {
            Some(v) => if v == "quiet"@ || v == "default"@ || v == "debug"@ {
                v
            } else {
                "default"@
            },
            None => "default"@,
        },
        None => "default"@,
    }
}

pub fn output_verbosity_from_config(config: &Json) -> (r: String)
    ensures
        r@ == spec_output_verbosity(jview(*config)),
{
    match config.get("output") {
        Some(o) => match o.str_field("verbosity") {
            Some(v) => if str_eq(v, "quiet") || str_eq(v, "default") || str_eq(v, "debug") {
                to_owned(v)
            } else {
                to_owned("default")
            },
            None => to_owned("default"),
        },
        None => to_owned("default"),
    }
}

/// The preferred specialist execution mode of the runtime config
/// (`codex_subagent` unless it names another supported mode).
pub fn preferred_specialist_execution_mode(runtime_config: &Json) -> (r: String)
    ensures
        r@ == spec_normalize_execution_mode(
            jstr_field(jview(*runtime_config), "preferred_specialist_execution_mode"@),
            "codex_subagent"@,
        ),
{
    normalize_specialist_execution_mode(
        runtime_config.str_field("preferred_specialist_execution_mode"),
        "codex_subagent",
    )
}

/// The fallback specialist execution mode of the runtime config
/// (`codex_exec` unless it names another supported mode).
pub fn fallback_specialist_execution_mode(runtime_config: &Json) -> (r: String)
    ensures
        r@ == spec_normalize_execution_mode(
            jstr_field(jview(*runtime_config), "fallback_specialist_execution_mode"@),
            "codex_exec"@,
        ),
{
    normalize_specialist_execution_mode(
        runtime_config.str_field("fallback_specialist_execution_mode"),
        "codex_exec",
    )
}


/// The snapshot of a role with no configured settings.
pub open spec fn spec_empty_role_snapshot(role: Seq<char>) -> JVal {
    JVal::Object(
        seq![
            ("source"@, JVal::Str("shared_role_config"@)),
            ("role"@, JVal::Str(role)),
            ("summary"@, JVal::Null),
            ("profile"@, JVal::Null),
            ("model"@, JVal::Null),
            ("variant"@, JVal::Null),
            ("fast_mode"@, JVal::Bool(false)),
            ("config_entries"@, JVal::Array(Seq::empty())),
        ],
    )
}

pub fn create_empty_role_config_snapshot(role: &str) -> (r: Json)
    ensures
        jview(r) == spec_empty_role_snapshot(role@),
{
    let mut m: Vec<(String, Json)> = Vec::new();
    m.push(member("source", jstr("shared_role_config")));
    m.push(member("role", jstr(role)));
    m.push(member("summary", Json::Null));
    m.push(member("profile", Json::Null));
    m.push(member("model", Json::Null));
    m.push(member("variant", Json::Null));
    m.push(member("fast_mode", jbool(false)));
    m.push(member("config_entries", jempty_array()));
    let r = object_of(m);
    assert(members_view(m@) =~= spec_empty_role_snapshot(role@)->Object_0);
    r
}

/// The generated default snapshot of a lightweight role (`variant` given).
pub open spec fn spec_default_light_snapshot(role: Seq<char>, variant: Seq<char>) -> JVal {
    JVal::Object(
        seq![
            ("source"@, JVal::Str("shared_role_config_default"@)),
            ("role"@, JVal::Str(role)),
            ("summary"@, JVal::Str(spec_fallback_role_summary(role))),
            ("display_name"@, jopt_str(spec_callsign_for_role(role))),
            ("callsign"@, jopt_str(spec_callsign_for_role(role))),
            ("theme"@, JVal::Str("starcraft_display_callsign"@)),
            ("inspired_by"@, JVal::Array(seq![JVal::Str("oh-my-openagent"@)])),
            ("profile"@, JVal::Null),
            ("model"@, JVal::Str("gpt-5.4-mini"@)),
            ("variant"@, JVal::Str(variant)),
            ("fast_mode"@, JVal::Bool(true)),
            ("config_entries"@, JVal::Array(Seq::empty())),
            ("recommended_workflows"@, JVal::Array(Seq::empty())),
            ("lsp_capabilities"@, JVal::Array(Seq::empty())),
        ],
    )
}

fn default_light_snapshot(role: &str, variant: &str) -> (r: Json)
    ensures
        jview(r) == spec_default_light_snapshot(role@, variant@),
{
    let inspired: Vec<&str> = vec!["oh-my-openagent"];
    assert(inspired@.map_values(|s: &str| JVal::Str(s@)) =~= seq![JVal::Str("oh-my-openagent"@)]);
    let mut m: Vec<(String, Json)> = Vec::new();
    m.push(member("source", jstr("shared_role_config_default")));
    m.push(member("role", jstr(role)));
    m.push(member("summary", jstr(fallback_role_summary(role))));
    m.push(member("display_name", jopt(callsign_for_role(role))));
    m.push(member("callsign", jopt(callsign_for_role(role))));
    m.push(member("theme", jstr("starcraft_display_callsign")));
    m.push(member("inspired_by", jstr_array(&inspired)));
    m.push(member("profile", Json::Null));
    m.push(member("model", jstr("gpt-5.4-mini")));
    m.push(member("variant", jstr(variant)));
    m.push(member("fast_mode", jbool(true)));
    m.push(member("config_entries", jempty_array()));
    m.push(member("recommended_workflows", jempty_array()));
    m.push(member("lsp_capabilities", jempty_array()));
    let r = object_of(m);
    assert(members_view(m@) =~= spec_default_light_snapshot(role@, variant@)->Object_0);
    r
}

/// The default snapshot of a companion role.
pub fn create_default_companion_role_config_snapshot(role: &str) -> (r: Json)
    ensures
        jview(r) == spec_default_light_snapshot(role@, "medium"@),
{
    default_light_snapshot(role, "medium")
}

/// The default snapshot of the sentinel.
pub fn create_default_sentinel_role_config_snapshot() -> (r: Json)
    ensures
        jview(r) == spec_default_light_snapshot("sentinel"@, "high"@),
{
    default_light_snapshot("sentinel", "high")
}

/// The value under the first of `keys` that `obj` has.
pub open spec fn first_present(obj: JVal, keys: Seq<Seq<char>>) -> Option<JVal>
    decreases keys.len(),
{
    if keys.len() == 0 {
        None
    } else {
        match jget(obj, keys[0]) {
            Some(v) => Some(v),
            None => first_present(obj, keys.drop_first()),
        }
    }
}

pub open spec fn is_companion_role(role: Seq<char>) -> bool {
    role == "companion_reader"@ || role == "companion_operator"@
}

/// A role's own settings in the config: companions under
/// `companion_agents`, others under `agents`, by the role's lookup keys.
pub open spec fn spec_agent_settings(config: JVal, role: Seq<char>) -> Option<JVal> {
    let section = if is_companion_role(role) {
        jget(config, "companion_agents"@)
    } else {
        jget(config, "agents"@)
    };
    match section {
        Some(JVal::Object(m)) => first_present(JVal::Object(m), spec_config_role_lookup_keys(role)),
        _ => None,
    }
}

/// The role snapshot of a config: the role's settings with their defaults,
/// or the generated default (companions, sentinel) or empty snapshot when
/// the config has none.
pub open spec fn spec_role_snapshot(config: JVal, role: Seq<char>) -> JVal {
    match spec_agent_settings(config, role) {
        None => if is_companion_role(role) {
            spec_default_light_snapshot(role, "medium"@)
        } else if role == "sentinel"@ {
            spec_default_light_snapshot("sentinel"@, "high"@)
        } else {
            spec_empty_role_snapshot(role)
        },
        Some(a) => JVal::Object(
            seq![
                ("source"@, JVal::Str("shared_role_config"@)),
                ("role"@, JVal::Str(role)),
                ("summary"@, jget_or(a, "summary"@, JVal::Null)),
                ("display_name"@, jget_or(a, "display_name"@, jopt_str(spec_callsign_for_role(role)))),
                ("callsign"@, jget_or(a, "callsign"@, jopt_str(spec_callsign_for_role(role)))),
                ("theme"@, jget_or(a, "theme"@, JVal::Null)),
                ("inspired_by"@, jget_or(a, "inspired_by"@, JVal::Array(Seq::empty()))),
                ("profile"@, jget_or(a, "profile"@, JVal::Null)),
                ("model"@, jget_or(a, "model"@, JVal::Null)),
                ("variant"@, jget_or(a, "variant"@, JVal::Null)),
                (
                    "fast_mode"@,
                    JVal::Bool(
                        match opt_bool(jget(a, "fast_mode"@)) {
                            Some(b) => b,
                            None => false,
                        },
                    ),
                ),
                ("config_entries"@, jget_or(a, "config_entries"@, JVal::Array(Seq::empty()))),
                (
                    "recommended_workflows"@,
                    jget_or(a, "recommended_workflows"@, JVal::Array(Seq::empty())),
                ),
                ("lsp_capabilities"@, jget_or(a, "lsp_capabilities"@, JVal::Array(Seq::empty()))),
            ],
        ),
    }
}

fn find_agent_settings<'a>(config: &'a Json, role: &str) -> (r: Option<&'a Json>)
    ensures
        match r {
            Some(a) => spec_agent_settings(jview(*config), role@) == Some(jview(*a)),
            None => spec_agent_settings(jview(*config), role@) is None,
        },
{
    let companion = str_eq(role, "companion_reader") || str_eq(role, "companion_operator");
    let section = if companion {
        config.get("companion_agents")
    } else {
        config.get("agents")
    };
    let section = match section {
        Some(s) => s,
        None => return None,
    };
    if !section.is_object() {
        return None;
    }
    let keys = config_role_lookup_keys(role);
    let ghost kv = keys@.map_values(|k: &str| k@);
    let mut i: usize = 0;
    assert(kv.skip(0) == kv);
    while i < keys.len()
        invariant
            i <= keys.len(),
            kv == keys@.map_values(|k: &str| k@),
            kv == spec_config_role_lookup_keys(role@),
            jview(*section) is Object,
            spec_agent_settings(jview(*config), role@) == first_present(jview(*section), kv.skip(i as int)),
        decreases keys.len() - i,
    {
        assert(kv.skip(i as int)[0] == keys@[i as int]@);
        assert(kv.skip(i as int).drop_first() =~= kv.skip(i + 1));
        match section.get(keys[i]) {
            Some(v) => {
                return Some(v);
            },
            None => {},
        }
        i = i + 1;
    }
    None
}

pub fn load_role_config_snapshot_from_config(config: &Json, role: &str) -> (r: Json)
    ensures
        jview(r) == spec_role_snapshot(jview(*config), role@),
{
    let a = match find_agent_settings(config, role) {
        Some(a) => a,
        None => {
            if str_eq(role, "companion_reader") || str_eq(role, "companion_operator") {
                return create_default_companion_role_config_snapshot(role);
            }
            if str_eq(role, "sentinel") {
                return create_default_sentinel_role_config_snapshot();
            }
            return create_empty_role_config_snapshot(role);
        },
    };
    let fast: bool = match a.bool_field("fast_mode") {
        Some(b) => b,
        None => false,
    };
    let mut m: Vec<(String, Json)> = Vec::new();
    m.push(member("source", jstr("shared_role_config")));
    m.push(member("role", jstr(role)));
    m.push(member("summary", get_or(a, "summary", Json::Null)));
    m.push(member("display_name", get_or(a, "display_name", jopt(callsign_for_role(role)))));
    m.push(member("callsign", get_or(a, "callsign", jopt(callsign_for_role(role)))));
    m.push(member("theme", get_or(a, "theme", Json::Null)));
    m.push(member("inspired_by", get_or(a, "inspired_by", jempty_array())));
    m.push(member("profile", get_or(a, "profile", Json::Null)));
    m.push(member("model", get_or(a, "model", Json::Null)));
    m.push(member("variant", get_or(a, "variant", Json::Null)));
    m.push(member("fast_mode", jbool(fast)));
    m.push(member("config_entries", get_or(a, "config_entries", jempty_array())));
    m.push(member("recommended_workflows", get_or(a, "recommended_workflows", jempty_array())));
    m.push(member("lsp_capabilities", get_or(a, "lsp_capabilities", jempty_array())));
    let r = object_of(m);
    assert(members_view(m@) =~= spec_role_snapshot(jview(*config), role@)->Object_0);
    r
}


/// A follow-up task with no hint and no role of its own goes back to the
/// role whose kind it has: a Way task to the Way, an explore task to the
/// scout, a review task to the verifier and an execution task to the code
/// specialist.
pub proof fn lemma_follow_up_role_by_kind(task_card: JVal, r: Seq<char>)
    requires
        r == "way"@ || r == "explorer"@ || r == "verifier"@ || r == "code specialist"@,
        jstr_field(task_card, "task_kind"@) == Some(crate::roles::spec_task_kind_for_role(r)),
        spec_original_role(task_card) is None,
    ensures
        spec_follow_up_role(task_card, None) == r,
{
    crate::roles::lemma_task_kind_roles_round_trip(r, r);
    reveal_strlit("way");
    reveal_strlit("explorer");
    reveal_strlit("verifier");
    reveal_strlit("code specialist");
    reveal_strlit("captain");
    reveal_strlit("orchestrator");
    assert(crate::strings::trim_start(r) == r);
    assert(crate::strings::trim_end(r) == r);
    assert(r.len() != "captain"@.len() || r[0] != "captain"@[0]);
    assert(r.len() != "orchestrator"@.len());
}


/// The agent of a follow-up task always runs as its role: whatever agent id
/// is hinted, the agent chosen for a specialist role leads back to that
/// role (a review follow-up runs as the arbiter).
pub proof fn lemma_follow_up_agent_runs_as_role(r: Seq<char>, agent_hint: Option<Seq<char>>)
    requires
        crate::roles::spec_specialist_roles().contains(r),
    ensures
        crate::roles::spec_role_for_agent_id(spec_follow_up_agent(r, agent_hint)) == Some(r),
{
    crate::roles::lemma_specialist_names_agree();
    let l = crate::roles::spec_specialist_roles();
    let i = choose|i: int| 0 <= i < l.len() && l[i] == r;
    assert(l[i] == r);
}

} // verus!
