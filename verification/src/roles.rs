//! The specialist-role catalogue: roles, agent ids, callsigns, sandbox
//! policy, task kinds and the display names derived from them.

use vstd::prelude::*;
use crate::strings::{
    concat2, concat3, contains_char, has_prefix, opt_string_view, opt_view, split_once,
    split_once_char, starts_with, str_eq, strip_prefix, strip_prefix_spec, to_ascii_lowercase,
    ascii_lowercase, to_owned, trim, trim_start_matches, trim_start_matches_spec, trim_string,
};

verus! {

// ---------------------------------------------------------------- tables

pub open spec fn spec_assigned_role_for_task_kind(k: Seq<char>) -> Seq<char> {
    if k == "way"@ {
        "way"@
    } else if k == "explore"@ {
        "explorer"@
    } else if k == "review"@ {
        "verifier"@
    } else {
        "code specialist"@
    }
}

/// The role that owns a task of the given kind.
pub fn assigned_role_for_task_kind(task_kind: &str) -> (r: &'static str)
    ensures
        r@ == spec_assigned_role_for_task_kind(task_kind@),
{
    if str_eq(task_kind, "way") {
        "way"
    } else if str_eq(task_kind, "explore") {
        "explorer"
    } else if str_eq(task_kind, "review") {
        "verifier"
    } else {
        "code specialist"
    }
}

pub open spec fn spec_is_captain_or_orchestrator_role(role: Seq<char>) -> bool {
    trim(role) == "captain"@ || trim(role) == "orchestrator"@
}

pub fn is_captain_or_orchestrator_role(role: &str) -> (r: bool)
    ensures
        r == spec_is_captain_or_orchestrator_role(role@),
{
    let t = trim_string(role);
    str_eq(t.as_str(), "captain") || str_eq(t.as_str(), "orchestrator")
}

pub open spec fn spec_role_for_agent_id_trimmed(a: Seq<char>) -> Option<Seq<char>> {
    if a == "captain"@ {
        Some("orchestrator"@)
    } else if a == "tactician"@ {
        Some("way"@)
    } else if a == "scout"@ {
        Some("explorer"@)
    } else if a == "raider"@ {
        Some("code specialist"@)
    } else if a == "scribe"@ {
        Some("documenter"@)
    } else if a == "arbiter"@ {
        Some("verifier"@)
    } else if a == "sentinel"@ {
        Some("sentinel"@)
    } else if a == "companion_reader"@ {
        Some("companion_reader"@)
    } else if a == "companion_operator"@ {
        Some("companion_operator"@)
    } else {
        None
    }
}

/// The role an agent id stands for (the id is trimmed first).
pub open spec fn spec_role_for_agent_id(a: Seq<char>) -> Option<Seq<char>> {
    spec_role_for_agent_id_trimmed(trim(a))
}

fn role_for_trimmed_agent_id(a: &str) -> (r: Option<&'static str>)
    ensures
        opt_view(r) == spec_role_for_agent_id_trimmed(a@),
{
    if str_eq(a, "captain") {
        Some("orchestrator")
    } else if str_eq(a, "tactician") {
        Some("way")
    } else if str_eq(a, "scout") {
        Some("explorer")
    } else if str_eq(a, "raider") {
        Some("code specialist")
    } else if str_eq(a, "scribe") {
        Some("documenter")
    } else if str_eq(a, "arbiter") {
        Some("verifier")
    } else if str_eq(a, "sentinel") {
        Some("sentinel")
    } else if str_eq(a, "companion_reader") {
        Some("companion_reader")
    } else if str_eq(a, "companion_operator") {
        Some("companion_operator")
    } else {
        None
    }
}

pub fn role_for_agent_id(agent_id: &str) -> (r: Option<&'static str>)
    ensures
        opt_view(r) == spec_role_for_agent_id(agent_id@),
{
    let t = trim_string(agent_id);
    role_for_trimmed_agent_id(t.as_str())
}

pub open spec fn spec_agent_id_for_role(role: Seq<char>) -> Option<Seq<char>> {
    if role == "orchestrator"@ {
        Some("captain"@)
    } else if role == "way"@ {
        Some("tactician"@)
    } else if role == "explorer"@ {
        Some("scout"@)
    } else if role == "code specialist"@ {
        Some("raider"@)
    } else if role == "documenter"@ {
        Some("scribe"@)
    } else if role == "verifier"@ {
        Some("arbiter"@)
    } else if role == "sentinel"@ {
        Some("sentinel"@)
    } else if role == "companion_reader"@ {
        Some("companion_reader"@)
    } else if role == "companion_operator"@ {
        Some("companion_operator"@)
    } else {
        None
    }
}

pub fn agent_id_for_role(role: &str) -> (r: Option<&'static str>)
    ensures
        opt_view(r) == spec_agent_id_for_role(role@),
{
    if str_eq(role, "orchestrator") {
        Some("captain")
    } else if str_eq(role, "way") {
        Some("tactician")
    } else if str_eq(role, "explorer") {
        Some("scout")
    } else if str_eq(role, "code specialist") {
        Some("raider")
    } else if str_eq(role, "documenter") {
        Some("scribe")
    } else if str_eq(role, "verifier") {
        Some("arbiter")
    } else if str_eq(role, "sentinel") {
        Some("sentinel")
    } else if str_eq(role, "companion_reader") {
        Some("companion_reader")
    } else if str_eq(role, "companion_operator") {
        Some("companion_operator")
    } else {
        None
    }
}

pub open spec fn spec_is_captain_or_orchestrator_agent_id(a: Seq<char>) -> bool {
    trim(a) == "captain"@ || spec_role_for_agent_id(trim(a)) == Some("orchestrator"@)
}

pub fn is_captain_or_orchestrator_agent_id(agent_id: &str) -> (r: bool)
    ensures
        r == spec_is_captain_or_orchestrator_agent_id(agent_id@),
{
    let t = trim_string(agent_id);
    if str_eq(t.as_str(), "captain") {
        return true;
    }
    match role_for_agent_id(t.as_str()) {
        Some(role) => str_eq(role, "orchestrator"),
        None => false,
    }
}

pub open spec fn spec_task_kind_for_role(role: Seq<char>) -> Seq<char> {
    if role == "way"@ {
        "way"@
    } else if role == "explorer"@ || role == "companion_reader"@ {
        "explore"@
    } else if role == "verifier"@ {
        "review"@
    } else {
        "execution"@
    }
}

pub fn task_kind_for_role(role: &str) -> (r: &'static str)
    ensures
        r@ == spec_task_kind_for_role(role@),
{
    if str_eq(role, "way") {
        "way"
    } else if str_eq(role, "explorer") || str_eq(role, "companion_reader") {
        "explore"
    } else if str_eq(role, "verifier") {
        "review"
    } else {
        "execution"
    }
}

/// The agent a spawned custom agent runs as: none for the captain or the
/// orchestrator, otherwise the role's agent id.
pub fn spawnable_custom_agent_id_for_role(role: &str) -> (r: Option<&'static str>)
    ensures
        opt_view(r) == (if spec_is_captain_or_orchestrator_role(role@) {
            None
        } else {
            spec_agent_id_for_role(role@)
        }),
{
    if is_captain_or_orchestrator_role(role) {
        None
    } else {
        agent_id_for_role(role)
    }
}

pub open spec fn spec_phase_name_for_role(role: Seq<char>) -> Seq<char> {
    if role == "way"@ {
        "way"@
    } else if role == "explorer"@ || role == "companion_reader"@ {
        "inspect"@
    } else if role == "documenter"@ {
        "document"@
    } else if role == "verifier"@ {
        "verify"@
    } else if role == "sentinel"@ {
        "ownership_check"@
    } else if role == "orchestrator"@ {
        "fan_in"@
    } else {
        "mutate"@
    }
}

pub fn phase_name_for_role(role: &str) -> (r: &'static str)
    ensures
        r@ == spec_phase_name_for_role(role@),
{
    if str_eq(role, "way") {
        "way"
    } else if str_eq(role, "explorer") || str_eq(role, "companion_reader") {
        "inspect"
    } else if str_eq(role, "documenter") {
        "document"
    } else if str_eq(role, "verifier") {
        "verify"
    } else if str_eq(role, "sentinel") {
        "ownership_check"
    } else if str_eq(role, "orchestrator") {
        "fan_in"
    } else {
        "mutate"
    }
}

pub open spec fn spec_expertise_phrase(role: Seq<char>, shape: Seq<char>) -> Seq<char> {
    if role == "way"@ {
        if shape == "multi_step_or_unclear"@ {
            "You are an expert in bounded planning, tradeoff framing, and step decomposition."@
        } else {
            "You are an expert in bounded planning and next-step clarity."@
        }
    } else if role == "explorer"@ {
        "You are an expert in repository investigation, evidence gathering, and concise source-backed reporting."@
    } else if role == "documenter"@ {
        "You are an expert in release-note documentation and operator-facing clarity."@
    } else if role == "verifier"@ {
        "You are an expert in code review, regression detection, and acceptance risk."@
    } else if role == "sentinel"@ {
        "You are an expert in ownership classification, route fit, and execution-boundary risk."@
    } else if role == "companion_reader"@ {
        "You are an expert in bounded operator evidence gathering and source-focused reading."@
    } else if role == "companion_operator"@ {
        "You are an expert in bounded operator tool-operation and command-result clarity."@
    } else {
        "You are an expert in bounded implementation, repair, module ownership, and focused validation."@
    }
}

pub fn expertise_phrase_for_role_and_task_shape(role: &str, task_shape: &str) -> (r: &'static str)
    ensures
        r@ == spec_expertise_phrase(role@, task_shape@),
{
    if str_eq(role, "way") {
        if str_eq(task_shape, "multi_step_or_unclear") {
            "You are an expert in bounded planning, tradeoff framing, and step decomposition."
        } else {
            "You are an expert in bounded planning and next-step clarity."
        }
    } else if str_eq(role, "explorer") {
        "You are an expert in repository investigation, evidence gathering, and concise source-backed reporting."
    } else if str_eq(role, "documenter") {
        "You are an expert in release-note documentation and operator-facing clarity."
    } else if str_eq(role, "verifier") {
        "You are an expert in code review, regression detection, and acceptance risk."
    } else if str_eq(role, "sentinel") {
        "You are an expert in ownership classification, route fit, and execution-boundary risk."
    } else if str_eq(role, "companion_reader") {
        "You are an expert in bounded operator evidence gathering and source-focused reading."
    } else if str_eq(role, "companion_operator") {
        "You are an expert in bounded operator tool-operation and command-result clarity."
    } else {
        "You are an expert in bounded implementation, repair, module ownership, and focused validation."
    }
}

pub open spec fn spec_task_stance(role: Seq<char>, shape: Seq<char>) -> Seq<char> {
    if role == "way"@ {
        if shape == "multi_step_or_unclear"@ {
            "bounded_planning"@
        } else {
            "next_step_planning"@
        }
    } else if role == "explorer"@ {
        "read_only_investigation"@
    } else if role == "documenter"@ {
        "documentation_update"@
    } else if role == "verifier"@ {
        "findings_first_review"@
    } else if role == "sentinel"@ {
        "ownership_classification"@
    } else if role == "companion_reader"@ {
        "bounded_operator_reader"@
    } else if role == "companion_operator"@ {
        "bounded_operator_execution"@
    } else if shape == "multi_step_or_unclear"@ {
        "scoped_implementation_with_boundary_control"@
    } else {
        "bounded_implementation"@
    }
}

pub fn task_stance_for_role_and_task_shape(role: &str, task_shape: &str) -> (r: &'static str)
    ensures
        r@ == spec_task_stance(role@, task_shape@),
{
    if str_eq(role, "way") {
        if str_eq(task_shape, "multi_step_or_unclear") {
            "bounded_planning"
        } else {
            "next_step_planning"
        }
    } else if str_eq(role, "explorer") {
        "read_only_investigation"
    } else if str_eq(role, "documenter") {
        "documentation_update"
    } else if str_eq(role, "verifier") {
        "findings_first_review"
    } else if str_eq(role, "sentinel") {
        "ownership_classification"
    } else if str_eq(role, "companion_reader") {
        "bounded_operator_reader"
    } else if str_eq(role, "companion_operator") {
        "bounded_operator_execution"
    } else if str_eq(task_shape, "multi_step_or_unclear") {
        "scoped_implementation_with_boundary_control"
    } else {
        "bounded_implementation"
    }
}

pub open spec fn spec_expected_thinking_mode(role: Seq<char>) -> Seq<char> {
    if role == "way"@ {
        "compare-options-then-select-next-bound"@
    } else if role == "explorer"@ {
        "evidence-first-read-only"@
    } else if role == "documenter"@ {
        "style-and-audience-first"@
    } else if role == "verifier"@ {
        "findings-first-risk-review"@
    } else if role == "sentinel"@ {
        "classification-first-boundary-review"@
    } else if role == "companion_reader"@ {
        "bounded-reader-evidence-first"@
    } else if role == "companion_operator"@ {
        "command-boundary-first"@
    } else {
        "smallest-defensible-change"@
    }
}

pub fn expected_thinking_mode_for_role(role: &str) -> (r: &'static str)
    ensures
        r@ == spec_expected_thinking_mode(role@),
{
    if str_eq(role, "way") {
        "compare-options-then-select-next-bound"
    } else if str_eq(role, "explorer") {
        "evidence-first-read-only"
    } else if str_eq(role, "documenter") {
        "style-and-audience-first"
    } else if str_eq(role, "verifier") {
        "findings-first-risk-review"
    } else if str_eq(role, "sentinel") {
        "classification-first-boundary-review"
    } else if str_eq(role, "companion_reader") {
        "bounded-reader-evidence-first"
    } else if str_eq(role, "companion_operator") {
        "command-boundary-first"
    } else {
        "smallest-defensible-change"
    }
}

/// The role a dispatch hint names (hint trimmed and lower-cased), or the
/// fallback when the hint is absent, blank or unknown.
pub open spec fn spec_hint_role(h: Seq<char>) -> Option<Seq<char>> {
    if h == "way"@ || h == "plan"@ || h == "tactician"@ {
        Some("way"@)
    } else if h == "explore"@ || h == "explorer"@ || h == "inspect"@ || h == "scout"@ {
        Some("explorer"@)
    } else if h == "companion_reader"@ || h == "companion-reader"@ || h == "reader"@ {
        Some("companion_reader"@)
    } else if h == "companion_operator"@ || h == "companion-operator"@ || h == "operator"@ {
        Some("companion_operator"@)
    } else if h == "review"@ || h == "verify"@ || h == "verifier"@ || h == "arbiter"@ {
        Some("verifier"@)
    } else if h == "document"@ || h == "docs"@ || h == "documenter"@ || h == "scribe"@ {
        Some("documenter"@)
    } else if h == "ownership"@ || h == "sentinel"@ {
        Some("sentinel"@)
    } else if h == "execute"@ || h == "execution"@ || h == "mutate"@ || h == "implement"@ || h
        == "repair"@ || h == "retry"@ || h == "raider"@ || h == "code"@ || h == "code specialist"@ {
        Some("code specialist"@)
    } else {
        None
    }
}

pub open spec fn spec_normalize_dispatch_role_hint(hint: Option<Seq<char>>, fallback: Seq<char>) -> Seq<char> {
    match hint {
        Some(h) => if trim(h).len() > 0 {
            match spec_hint_role(ascii_lowercase(trim(h))) {
                Some(r) => r,
                None => fallback,
            }
        } else {
            fallback
        },
        None => fallback,
    }
}

fn hint_role(h: &str) -> (r: Option<&'static str>)
    ensures
        opt_view(r) == spec_hint_role(h@),
{
    if str_eq(h, "way") || str_eq(h, "plan") || str_eq(h, "tactician") {
        Some("way")
    } else if str_eq(h, "explore") || str_eq(h, "explorer") || str_eq(h, "inspect") || str_eq(
        h,
        "scout",
    ) {
        Some("explorer")
    } else if str_eq(h, "companion_reader") || str_eq(h, "companion-reader") || str_eq(h, "reader") {
        Some("companion_reader")
    } else if str_eq(h, "companion_operator") || str_eq(h, "companion-operator") || str_eq(
        h,
        "operator",
    ) {
        Some("companion_operator")
    } else if str_eq(h, "review") || str_eq(h, "verify") || str_eq(h, "verifier") || str_eq(
        h,
        "arbiter",
    ) {
        Some("verifier")
    } else if str_eq(h, "document") || str_eq(h, "docs") || str_eq(h, "documenter") || str_eq(
        h,
        "scribe",
    ) {
        Some("documenter")
    } else if str_eq(h, "ownership") || str_eq(h, "sentinel") {
        Some("sentinel")
    } else if str_eq(h, "execute") || str_eq(h, "execution") || str_eq(h, "mutate") || str_eq(
        h,
        "implement",
    ) || str_eq(h, "repair") || str_eq(h, "retry") || str_eq(h, "raider") || str_eq(h, "code")
        || str_eq(h, "code specialist") {
        Some("code specialist")
    } else {
        None
    }
}

pub fn normalize_dispatch_role_hint(hint: Option<&str>, fallback_role: &str) -> (r: String)
    ensures
        r@ == spec_normalize_dispatch_role_hint(opt_view(hint), fallback_role@),
{
    match hint {
        Some(h) => {
            let t = trim_string(h);
            if t.as_str().unicode_len() == 0 {
                return to_owned(fallback_role);
            }
            let lower = to_ascii_lowercase(t.as_str());
            match hint_role(lower.as_str()) {
                Some(role) => to_owned(role),
                None => to_owned(fallback_role),
            }
        },
        None => to_owned(fallback_role),
    }
}

pub open spec fn spec_is_read_only_role(role: Seq<char>) -> bool {
    role == "way"@ || role == "explorer"@ || role == "verifier"@ || role == "sentinel"@ || role
        == "companion_reader"@
}

pub fn sandbox_mode_for_role(role: &str) -> (r: &'static str)
    ensures
        r@ == (if spec_is_read_only_role(role@) {
            "read-only"@
        } else {
            "workspace-write"@
        }),
{
    if str_eq(role, "way") || str_eq(role, "explorer") || str_eq(role, "verifier") || str_eq(
        role,
        "sentinel",
    ) || str_eq(role, "companion_reader") {
        "read-only"
    } else {
        "workspace-write"
    }
}

pub open spec fn spec_sandbox_rationale(role: Seq<char>) -> Seq<char> {
    if role == "way"@ {
        "Way creates or updates the LongWay through bounded read-only analysis before captain selects the next specialist."@
    } else if role == "explorer"@ {
        "Scout work is evidence gathering and should not mutate the workspace."@
    } else if role == "verifier"@ {
        "Verifier work should inspect and judge without mutating the workspace."@
    } else if role == "sentinel"@ {
        "Sentinel work is classification-only and should stay read-only."@
    } else if role == "companion_reader"@ {
        "Companion reader work is lightweight tool-routed evidence gathering and should stay read-only."@
    } else if role == "companion_operator"@ {
        "Companion operator work is lightweight tool-routed mutation or operator-side execution and needs workspace-write."@
    } else if role == "documenter"@ {
        "Scribe work may update docs or release text and needs workspace-write."@
    } else if role == "code specialist"@ {
        "Raider work may change code or config and needs workspace-write."@
    } else {
        "Captain-directed mutation work needs workspace-write."@
    }
}

pub fn sandbox_rationale_for_role(role: &str) -> (r: &'static str)
    ensures
        r@ == spec_sandbox_rationale(role@),
{
    if str_eq(role, "way") {
        "Way creates or updates the LongWay through bounded read-only analysis before captain selects the next specialist."
    } else if str_eq(role, "explorer") {
        "Scout work is evidence gathering and should not mutate the workspace."
    } else if str_eq(role, "verifier") {
        "Verifier work should inspect and judge without mutating the workspace."
    } else if str_eq(role, "sentinel") {
        "Sentinel work is classification-only and should stay read-only."
    } else if str_eq(role, "companion_reader") {
        "Companion reader work is lightweight tool-routed evidence gathering and should stay read-only."
    } else if str_eq(role, "companion_operator") {
        "Companion operator work is lightweight tool-routed mutation or operator-side execution and needs workspace-write."
    } else if str_eq(role, "documenter") {
        "Scribe work may update docs or release text and needs workspace-write."
    } else if str_eq(role, "code specialist") {
        "Raider work may change code or config and needs workspace-write."
    } else {
        "Captain-directed mutation work needs workspace-write."
    }
}

pub open spec fn spec_config_role_lookup_keys(role: Seq<char>) -> Seq<Seq<char>> {
    if role == "way"@ {
        seq!["way"@, "planner"@, "plan"@]
    } else {
        seq![role]
    }
}

/// The keys under which a role's settings may stand in the shared config.
pub fn config_role_lookup_keys<'a>(role: &'a str) -> (r: Vec<&'a str>)
    ensures
        r@.map_values(|k: &str| k@) == spec_config_role_lookup_keys(role@),
{
    let mut v: Vec<&'a str> = Vec::new();
    if str_eq(role, "way") {
        v.push("way");
        v.push("planner");
        v.push("plan");
    } else {
        v.push(role);
    }
    assert(v@.map_values(|k: &str| k@) =~= spec_config_role_lookup_keys(role@));
    v
}

pub open spec fn spec_request_kind_for_task_kind(k: Seq<char>) -> Seq<char> {
    if k == "way"@ {
        "way"@
    } else if k == "review"@ {
        "verification"@
    } else if k == "explore"@ {
        "advisory"@
    } else {
        "execution"@
    }
}

pub fn request_kind_for_task_kind(task_kind: &str) -> (r: &'static str)
    ensures
        r@ == spec_request_kind_for_task_kind(task_kind@),
{
    if str_eq(task_kind, "way") {
        "way"
    } else if str_eq(task_kind, "review") {
        "verification"
    } else if str_eq(task_kind, "explore") {
        "advisory"
    } else {
        "execution"
    }
}

/// Every role the shared config may configure, in display order.
pub open spec fn spec_configured_roles() -> Seq<Seq<char>> {
    seq![
        "orchestrator"@,
        "way"@,
        "explorer"@,
        "code specialist"@,
        "documenter"@,
        "verifier"@,
        "sentinel"@,
        "companion_reader"@,
        "companion_operator"@,
    ]
}

pub fn configured_role_list() -> (r: Vec<&'static str>)
    ensures
        r@.map_values(|k: &str| k@) == spec_configured_roles(),
{
    let v: Vec<&'static str> = vec![
        "orchestrator",
        "way",
        "explorer",
        "code specialist",
        "documenter",
        "verifier",
        "sentinel",
        "companion_reader",
        "companion_operator",
    ];
    assert(v@.map_values(|k: &str| k@) =~= spec_configured_roles());
    v
}

/// The roles that get a generated custom agent: every configured role but
/// the orchestrator.
pub open spec fn spec_managed_roles() -> Seq<Seq<char>> {
    spec_configured_roles().drop_first()
}

pub fn managed_custom_agent_role_list() -> (r: Vec<&'static str>)
    ensures
        r@.map_values(|k: &str| k@) == spec_managed_roles(),
{
    let v: Vec<&'static str> = vec![
        "way",
        "explorer",
        "code specialist",
        "documenter",
        "verifier",
        "sentinel",
        "companion_reader",
        "companion_operator",
    ];
    assert(v@.map_values(|k: &str| k@) =~= spec_managed_roles());
    v
}

/// Agent ids of the managed roles.
pub open spec fn spec_is_managed_agent_id(a: Seq<char>) -> bool {
    exists|i: int|
        0 <= i < spec_managed_roles().len() && spec_agent_id_for_role(spec_managed_roles()[i])
            == Some(a)
}

pub open spec fn spec_is_managed_custom_agent_name(name: Seq<char>) -> bool {
    match strip_prefix_spec(name, "ccc_"@) {
        Some(id) => spec_is_managed_agent_id(id),
        None => false,
    }
}

pub fn is_managed_custom_agent_name(agent_name: &str) -> (r: bool)
    ensures
        r == spec_is_managed_custom_agent_name(agent_name@),
{
    let agent_id = match strip_prefix(agent_name, "ccc_") {
        Some(rest) => rest,
        None => return false,
    };
    let roles = managed_custom_agent_role_list();
    let mut i: usize = 0;
    while i < roles.len()
        invariant
            i <= roles.len(),
            roles@.map_values(|k: &str| k@) == spec_managed_roles(),
            strip_prefix_spec(agent_name@, "ccc_"@) == Some(agent_id@),
            forall|k: int|
                0 <= k < i ==> spec_agent_id_for_role(spec_managed_roles()[k]) != Some(agent_id@),
        decreases roles.len() - i,
    {
        assert(roles@.map_values(|k: &str| k@)[i as int] == roles@[i as int]@);
        match agent_id_for_role(roles[i]) {
            Some(managed) => {
                if str_eq(managed, agent_id.as_str()) {
                    assert(spec_agent_id_for_role(spec_managed_roles()[i as int]) == Some(agent_id@));
                    return true;
                }
            },
            None => {},
        }
        i = i + 1;
    }
    false
}

pub open spec fn spec_fallback_role_summary(role: Seq<char>) -> Seq<char> {
    if role == "orchestrator"@ {
        "Captain keeps the LongWay, selects specialists, and closes the loop."@
    } else if role == "way"@ {
        "Way creation and bounded planning when the next move is still unclear."@
    } else if role == "explorer"@ {
        "Read-only repo investigation and evidence gathering."@
    } else if role == "code specialist"@ {
        "Bounded code and config mutation for implementation and repair."@
    } else if role == "documenter"@ {
        "Docs and operator-facing text updates."@
    } else if role == "verifier"@ {
        "Review, regression detection, and acceptance judgment when needed."@
    } else if role == "sentinel"@ {
        "Ownership and execution-path classification for bounded routing decisions."@
    } else if role == "companion_reader"@ {
        "Lightweight tool-routed evidence gathering for files, docs, and read-only inspection."@
    } else if role == "companion_operator"@ {
        "Lightweight tool-routed mutation and operator-side execution for git-backed actions."@
    } else {
        "CCC-managed specialist."@
    }
}

pub fn fallback_role_summary(role: &str) -> (r: &'static str)
    ensures
        r@ == spec_fallback_role_summary(role@),
{
    if str_eq(role, "orchestrator") {
        "Captain keeps the LongWay, selects specialists, and closes the loop."
    } else if str_eq(role, "way") {
        "Way creation and bounded planning when the next move is still unclear."
    } else if str_eq(role, "explorer") {
        "Read-only repo investigation and evidence gathering."
    } else if str_eq(role, "code specialist") {
        "Bounded code and config mutation for implementation and repair."
    } else if str_eq(role, "documenter") {
        "Docs and operator-facing text updates."
    } else if str_eq(role, "verifier") {
        "Review, regression detection, and acceptance judgment when needed."
    } else if str_eq(role, "sentinel") {
        "Ownership and execution-path classification for bounded routing decisions."
    } else if str_eq(role, "companion_reader") {
        "Lightweight tool-routed evidence gathering for files, docs, and read-only inspection."
    } else if str_eq(role, "companion_operator") {
        "Lightweight tool-routed mutation and operator-side execution for git-backed actions."
    } else {
        "CCC-managed specialist."
    }
}

/// `ccc_<agent_id>`.
pub fn generated_custom_agent_name(agent_id: &str) -> (r: String)
    ensures
        r@ == "ccc_"@ + agent_id@,
{
    concat2("ccc_", agent_id)
}

/// `ccc-<agent_id>.toml`.
pub fn generated_custom_agent_file_name(agent_id: &str) -> (r: String)
    ensures
        r@ == "ccc-"@ + agent_id@ + ".toml"@,
{
    concat3("ccc-", agent_id, ".toml")
}

pub open spec fn spec_callsign_for_role(role: Seq<char>) -> Option<Seq<char>> {
    if role == "way"@ {
        Some("Executor"@)
    } else if role == "explorer"@ {
        Some("Observer"@)
    } else if role == "code specialist"@ {
        Some("Marauder"@)
    } else if role == "documenter"@ {
        Some("Adjutant"@)
    } else if role == "verifier"@ {
        Some("Arbiter"@)
    } else if role == "sentinel"@ {
        Some("Overseer"@)
    } else if role == "companion_reader"@ {
        Some("Probe"@)
    } else if role == "companion_operator"@ {
        Some("SCV"@)
    } else {
        None
    }
}

pub fn callsign_for_role(role: &str) -> (r: Option<&'static str>)
    ensures
        opt_view(r) == spec_callsign_for_role(role@),
{
    if str_eq(role, "way") {
        Some("Executor")
    } else if str_eq(role, "explorer") {
        Some("Observer")
    } else if str_eq(role, "code specialist") {
        Some("Marauder")
    } else if str_eq(role, "documenter") {
        Some("Adjutant")
    } else if str_eq(role, "verifier") {
        Some("Arbiter")
    } else if str_eq(role, "sentinel") {
        Some("Overseer")
    } else if str_eq(role, "companion_reader") {
        Some("Probe")
    } else if str_eq(role, "companion_operator") {
        Some("SCV")
    } else {
        None
    }
}

/// `Callsign(ccc_<agent_id>)/<role>` for a role with a callsign and an
/// agent id, the role itself otherwise.
pub open spec fn spec_status_display_role(role: Seq<char>) -> Seq<char> {
    match (spec_callsign_for_role(role), spec_agent_id_for_role(role)) {
        (Some(c), Some(a)) => c + "("@ + "ccc_"@ + a + ")/"@ + role,
        _ => role,
    }
}

pub fn status_display_role(role: &str) -> (r: String)
    ensures
        r@ == spec_status_display_role(role@),
{
    let callsign = match callsign_for_role(role) {
        Some(c) => c,
        None => return to_owned(role),
    };
    let agent_id = match agent_id_for_role(role) {
        Some(a) => a,
        None => return to_owned(role),
    };
    let stable_id = generated_custom_agent_name(agent_id);
    let mut r = concat3(callsign, "(", stable_id.as_str());
    crate::strings::push_str(&mut r, ")/");
    crate::strings::push_str(&mut r, role);
    r
}

/// The base agent id of a (possibly suffixed) agent name.
pub open spec fn spec_agent_base(normalized: Seq<char>) -> Seq<char> {
    if spec_role_for_agent_id(normalized) is Some {
        normalized
    } else {
        match split_once_char(normalized, '_') {
            Some(p) => p.0,
            None => match split_once_char(normalized, '-') {
                Some(p) => p.0,
                None => normalized,
            },
        }
    }
}

/// The operator-facing name of an agent id: `Callsign(ccc_<base>)` for a
/// known agent (keeping an already-prefixed name), the trimmed id otherwise.
pub open spec fn spec_status_display_agent(agent_id: Seq<char>) -> Seq<char> {
    let t = trim(agent_id);
    if t.len() == 0 || t == "unassigned"@ {
        t
    } else if !has_prefix(t, "ccc_"@) && t.contains('-') {
        t
    } else {
        let normalized = match strip_prefix_spec(t, "ccc_"@) {
            Some(n) => n,
            None => t,
        };
        let base = spec_agent_base(normalized);
        match spec_role_for_agent_id(base) {
            None => t,
            Some(role) => match spec_callsign_for_role(role) {
                None => t,
                Some(callsign) => callsign + "("@ + (if has_prefix(t, "ccc_"@) {
                    t
                } else {
                    "ccc_"@ + base
                }) + ")"@,
            },
        }
    }
}

pub fn status_display_agent(agent_id: &str) -> (r: String)
    ensures
        r@ == spec_status_display_agent(agent_id@),
{
    let trimmed = trim_string(agent_id);
    let t = trimmed.as_str();
    if t.unicode_len() == 0 || str_eq(t, "unassigned") {
        return trimmed;
    }
    let prefixed = starts_with(t, "ccc_");
    if !prefixed && contains_char(t, '-') {
        return trimmed;
    }
    let normalized = match strip_prefix(t, "ccc_") {
        Some(n) => n,
        None => to_owned(t),
    };
    let base: String = if role_for_agent_id(normalized.as_str()).is_some() {
        normalized
    } else {
        match split_once(normalized.as_str(), '_') {
            Some((a, _)) => a,
            None => match split_once(normalized.as_str(), '-') {
                Some((a, _)) => a,
                None => normalized,
            },
        }
    };
    let role = match role_for_agent_id(base.as_str()) {
        Some(r) => r,
        None => return trimmed,
    };
    let callsign = match callsign_for_role(role) {
        Some(c) => c,
        None => return trimmed,
    };
    let stable_id = if prefixed {
        to_owned(t)
    } else {
        generated_custom_agent_name(base.as_str())
    };
    let mut r = concat3(callsign, "(", stable_id.as_str());
    crate::strings::push_str(&mut r, ")");
    r
}

/// The role a displayed agent name stands for: the name trimmed and with
/// every leading `ccc_` removed, or the part of it before the first `-`.
pub open spec fn spec_role_for_display_agent(agent: Seq<char>) -> Option<Seq<char>> {
    let normalized = trim_start_matches_spec(trim(agent), "ccc_"@);
    match spec_role_for_agent_id(normalized) {
        Some(r) => Some(r),
        None => match split_once_char(normalized, '-') {
            Some(p) => spec_role_for_agent_id(p.0),
            None => None,
        },
    }
}

pub fn role_for_display_agent(agent: &str) -> (r: Option<&'static str>)
    ensures
        opt_view(r) == spec_role_for_display_agent(agent@),
{
    let t = trim_string(agent);
    let normalized = trim_start_matches(t.as_str(), "ccc_");
    match role_for_agent_id(normalized.as_str()) {
        Some(r) => Some(r),
        None => match split_once(normalized.as_str(), '-') {
            Some((prefix, _)) => role_for_agent_id(prefix.as_str()),
            None => None,
        },
    }
}

/// The custom-agent name shown for an agent id: the trimmed id when it is
/// blank, `unassigned`, already prefixed or suffixed with `-`, else
/// `ccc_<id>`.
pub open spec fn spec_display_custom_agent_name(agent_id: Seq<char>) -> Seq<char> {
    let t = trim(agent_id);
    if t.len() == 0 || t == "unassigned"@ || has_prefix(t, "ccc_"@) || t.contains('-') {
        t
    } else {
        "ccc_"@ + t
    }
}

pub fn display_custom_agent_name(agent_id: &str) -> (r: String)
    ensures
        r@ == spec_display_custom_agent_name(agent_id@),
{
    let trimmed = trim_string(agent_id);
    let t = trimmed.as_str();
    if t.unicode_len() == 0 || str_eq(t, "unassigned") || starts_with(t, "ccc_") || contains_char(
        t,
        '-',
    ) {
        trimmed
    } else {
        generated_custom_agent_name(t)
    }
}

pub open spec fn spec_normalize_execution_mode(value: Option<Seq<char>>, default: Seq<char>) -> Seq<char> {
    match value {
        Some(v) => {
            let t = trim(v);
            if t == "codex_subagent"@ || t == "codex_exec"@ || t == "visible_degraded_host_fallback"@ {
                t
            } else {
                default
            }
        },
        None => default,
    }
}

/// One of the three supported specialist execution modes, or `default`.
pub fn normalize_specialist_execution_mode(value: Option<&str>, default: &str) -> (r: String)
    ensures
        r@ == spec_normalize_execution_mode(opt_view(value), default@),
{
    match value {
        Some(v) => {
            let t = trim_string(v);
            if str_eq(t.as_str(), "codex_subagent") || str_eq(t.as_str(), "codex_exec") || str_eq(
                t.as_str(),
                "visible_degraded_host_fallback",
            ) {
                t
            } else {
                to_owned(default)
            }
        },
        None => to_owned(default),
    }
}


/// The role catalogue's two directions agree: a role's agent id names that
/// role back, and an agent id's role has that agent id (agent ids compared
/// after trimming, as `role_for_agent_id` trims them).
pub proof fn lemma_role_agent_id_roundtrip(role: Seq<char>, agent: Seq<char>)
    ensures
        spec_agent_id_for_role(role) == Some(agent) ==> spec_role_for_agent_id_trimmed(agent)
            == Some(role),
        spec_role_for_agent_id_trimmed(agent) == Some(role) ==> spec_agent_id_for_role(role)
            == Some(agent),
{
    reveal_strlit("orchestrator");
    assert("orchestrator"@.len() == 12);
    reveal_strlit("way");
    assert("way"@.len() == 3);
    reveal_strlit("explorer");
    assert("explorer"@.len() == 8);
    reveal_strlit("code specialist");
    assert("code specialist"@.len() == 15);
    reveal_strlit("documenter");
    assert("documenter"@.len() == 10);
    reveal_strlit("verifier");
    assert("verifier"@.len() == 8);
    reveal_strlit("sentinel");
    assert("sentinel"@.len() == 8);
    reveal_strlit("companion_reader");
    assert("companion_reader"@.len() == 16);
    reveal_strlit("companion_operator");
    assert("companion_operator"@.len() == 18);
    reveal_strlit("captain");
    assert("captain"@.len() == 7);
    reveal_strlit("tactician");
    assert("tactician"@.len() == 9);
    reveal_strlit("scout");
    assert("scout"@.len() == 5);
    reveal_strlit("raider");
    assert("raider"@.len() == 6);
    reveal_strlit("scribe");
    assert("scribe"@.len() == 6);
    reveal_strlit("arbiter");
    assert("arbiter"@.len() == 7);
    assert("explorer"@[0] == 'e' && "verifier"@[0] == 'v' && "sentinel"@[0] == 's');
    assert("raider"@[0] == 'r' && "scribe"@[0] == 's');
    assert("captain"@[0] == 'c' && "arbiter"@[0] == 'a');
}


/// The role assigned to a task kind undoes the task kind of a role: the
/// Way, scout and verifier roles get back their own tasks (in particular a
/// review goes to the verifier), and the way, explore and review kinds are
/// the kinds of the roles they are assigned to.
pub proof fn lemma_task_kind_roles_round_trip(r: Seq<char>, k: Seq<char>)
    ensures
        (r == "way"@ || r == "explorer"@ || r == "verifier"@ || r == "code specialist"@)
            ==> spec_assigned_role_for_task_kind(
            spec_task_kind_for_role(r),
        ) == r,
        (k == "way"@ || k == "explore"@ || k == "review"@) ==> spec_task_kind_for_role(
            spec_assigned_role_for_task_kind(k),
        ) == k,
{
    reveal_strlit("way");
    reveal_strlit("explorer");
    reveal_strlit("verifier");
    reveal_strlit("companion_reader");
    reveal_strlit("explore");
    reveal_strlit("review");
    reveal_strlit("execution");
    reveal_strlit("code specialist");
    assert("way"@.len() != "explorer"@.len());
    assert("way"@.len() != "verifier"@.len());
    assert("explorer"@[0] != "verifier"@[0]);
    assert("way"@.len() != "companion_reader"@.len());
    assert("explorer"@.len() != "companion_reader"@.len());
    assert("verifier"@.len() != "companion_reader"@.len());
    assert("way"@.len() != "explore"@.len());
    assert("way"@.len() != "review"@.len());
    assert("explore"@.len() != "review"@.len());
    assert("way"@.len() != "execution"@.len());
    assert("explore"@.len() != "execution"@.len());
    assert("review"@.len() != "execution"@.len());
    assert("way"@.len() != "code specialist"@.len());
    assert("explorer"@.len() != "code specialist"@.len());
    assert("verifier"@.len() != "code specialist"@.len());
    assert("companion_reader"@.len() != "code specialist"@.len());
    assert("execution"@.len() != "way"@.len());
    assert("execution"@.len() != "explore"@.len());
    assert("execution"@.len() != "review"@.len());
}

/// The role words, spelled out.
proof fn lemma_role_words_spelled()
    ensures
        "tactician"@[0] == 't',
        "tactician"@[8] == 'n',
        "scout"@[0] == 's',
        "scout"@[4] == 't',
        "raider"@[0] == 'r',
        "raider"@[5] == 'r',
        "scribe"@[0] == 's',
        "scribe"@[5] == 'e',
        "arbiter"@[0] == 'a',
        "arbiter"@[6] == 'r',
        "sentinel"@[0] == 's',
        "sentinel"@[7] == 'l',
        "companion_reader"@[0] == 'c',
        "companion_reader"@[15] == 'r',
        "companion_operator"@[0] == 'c',
        "companion_operator"@[17] == 'r',
        "arbiter"@.len() == 7,
        "arbiter"@[0] == 'a',
        "captain"@.len() == 7,
        "captain"@[0] == 'c',
        "code"@.len() == 4,
        "code"@[0] == 'c',
        "code specialist"@.len() == 15,
        "companion-operator"@.len() == 18,
        "companion-operator"@[0] == 'c',
        "companion-operator"@[1] == 'o',
        "companion-operator"@[2] == 'm',
        "companion-operator"@[3] == 'p',
        "companion-operator"@[4] == 'a',
        "companion-operator"@[5] == 'n',
        "companion-operator"@[6] == 'i',
        "companion-operator"@[7] == 'o',
        "companion-operator"@[8] == 'n',
        "companion-operator"@[9] == '-',
        "companion-reader"@.len() == 16,
        "companion-reader"@[0] == 'c',
        "companion-reader"@[1] == 'o',
        "companion-reader"@[2] == 'm',
        "companion-reader"@[3] == 'p',
        "companion-reader"@[4] == 'a',
        "companion-reader"@[5] == 'n',
        "companion-reader"@[6] == 'i',
        "companion-reader"@[7] == 'o',
        "companion-reader"@[8] == 'n',
        "companion-reader"@[9] == '-',
        "companion_operator"@.len() == 18,
        "companion_operator"@[0] == 'c',
        "companion_operator"@[1] == 'o',
        "companion_operator"@[2] == 'm',
        "companion_operator"@[3] == 'p',
        "companion_operator"@[4] == 'a',
        "companion_operator"@[5] == 'n',
        "companion_operator"@[6] == 'i',
        "companion_operator"@[7] == 'o',
        "companion_operator"@[8] == 'n',
        "companion_operator"@[9] == '_',
        "companion_reader"@.len() == 16,
        "companion_reader"@[0] == 'c',
        "companion_reader"@[1] == 'o',
        "companion_reader"@[2] == 'm',
        "companion_reader"@[3] == 'p',
        "companion_reader"@[4] == 'a',
        "companion_reader"@[5] == 'n',
        "companion_reader"@[6] == 'i',
        "companion_reader"@[7] == 'o',
        "companion_reader"@[8] == 'n',
        "companion_reader"@[9] == '_',
        "docs"@.len() == 4,
        "docs"@[0] == 'd',
        "document"@.len() == 8,
        "document"@[0] == 'd',
        "documenter"@.len() == 10,
        "execute"@.len() == 7,
        "execute"@[0] == 'e',
        "execute"@[1] == 'x',
        "execute"@[2] == 'e',
        "execution"@.len() == 9,
        "execution"@[0] == 'e',
        "explore"@.len() == 7,
        "explore"@[0] == 'e',
        "explore"@[1] == 'x',
        "explore"@[2] == 'p',
        "explorer"@.len() == 8,
        "explorer"@[0] == 'e',
        "implement"@.len() == 9,
        "implement"@[0] == 'i',
        "inspect"@.len() == 7,
        "inspect"@[0] == 'i',
        "mutate"@.len() == 6,
        "mutate"@[0] == 'm',
        "operator"@.len() == 8,
        "operator"@[0] == 'o',
        "orchestrator"@.len() == 12,
        "ownership"@.len() == 9,
        "ownership"@[0] == 'o',
        "plan"@.len() == 4,
        "plan"@[0] == 'p',
        "raider"@.len() == 6,
        "raider"@[0] == 'r',
        "raider"@[1] == 'a',
        "reader"@.len() == 6,
        "reader"@[0] == 'r',
        "reader"@[1] == 'e',
        "reader"@[2] == 'a',
        "repair"@.len() == 6,
        "repair"@[0] == 'r',
        "repair"@[1] == 'e',
        "repair"@[2] == 'p',
        "retry"@.len() == 5,
        "retry"@[0] == 'r',
        "review"@.len() == 6,
        "review"@[0] == 'r',
        "review"@[1] == 'e',
        "review"@[2] == 'v',
        "scout"@.len() == 5,
        "scout"@[0] == 's',
        "scribe"@.len() == 6,
        "scribe"@[0] == 's',
        "sentinel"@.len() == 8,
        "sentinel"@[0] == 's',
        "tactician"@.len() == 9,
        "tactician"@[0] == 't',
        "verifier"@.len() == 8,
        "verifier"@[0] == 'v',
        "verify"@.len() == 6,
        "verify"@[0] == 'v',
        "way"@.len() == 3,
{
    reveal_strlit("arbiter");
    reveal_strlit("captain");
    reveal_strlit("code");
    reveal_strlit("code specialist");
    reveal_strlit("companion-operator");
    reveal_strlit("companion-reader");
    reveal_strlit("companion_operator");
    reveal_strlit("companion_reader");
    reveal_strlit("docs");
    reveal_strlit("document");
    reveal_strlit("documenter");
    reveal_strlit("execute");
    reveal_strlit("execution");
    reveal_strlit("explore");
    reveal_strlit("explorer");
    reveal_strlit("implement");
    reveal_strlit("inspect");
    reveal_strlit("mutate");
    reveal_strlit("operator");
    reveal_strlit("orchestrator");
    reveal_strlit("ownership");
    reveal_strlit("plan");
    reveal_strlit("raider");
    reveal_strlit("reader");
    reveal_strlit("repair");
    reveal_strlit("retry");
    reveal_strlit("review");
    reveal_strlit("scout");
    reveal_strlit("scribe");
    reveal_strlit("sentinel");
    reveal_strlit("tactician");
    reveal_strlit("verifier");
    reveal_strlit("verify");
    reveal_strlit("way");
}

#[verifier::rlimit(50)]
proof fn lemma_role_names_agree_0()
    ensures
        spec_hint_role("way"@) == Some("way"@),
        spec_agent_id_for_role("way"@) == Some("tactician"@),
        spec_role_for_agent_id_trimmed("tactician"@) == Some("way"@),
        trim("tactician"@) == "tactician"@,
        spec_hint_role("tactician"@) == Some("way"@),
{
    lemma_role_words_spelled();
}

#[verifier::rlimit(50)]
proof fn lemma_role_names_agree_1()
    ensures
        spec_hint_role("explorer"@) == Some("explorer"@),
        spec_agent_id_for_role("explorer"@) == Some("scout"@),
        spec_role_for_agent_id_trimmed("scout"@) == Some("explorer"@),
        trim("scout"@) == "scout"@,
        spec_hint_role("scout"@) == Some("explorer"@),
{
    lemma_role_words_spelled();
}

#[verifier::rlimit(50)]
proof fn lemma_role_names_agree_2()
    ensures
        spec_hint_role("code specialist"@) == Some("code specialist"@),
        spec_agent_id_for_role("code specialist"@) == Some("raider"@),
        spec_role_for_agent_id_trimmed("raider"@) == Some("code specialist"@),
        trim("raider"@) == "raider"@,
        spec_hint_role("raider"@) == Some("code specialist"@),
{
    lemma_role_words_spelled();
}

#[verifier::rlimit(50)]
proof fn lemma_role_names_agree_3()
    ensures
        spec_hint_role("documenter"@) == Some("documenter"@),
        spec_agent_id_for_role("documenter"@) == Some("scribe"@),
        spec_role_for_agent_id_trimmed("scribe"@) == Some("documenter"@),
        trim("scribe"@) == "scribe"@,
        spec_hint_role("scribe"@) == Some("documenter"@),
{
    lemma_role_words_spelled();
}

#[verifier::rlimit(50)]
proof fn lemma_role_names_agree_4()
    ensures
        spec_hint_role("verifier"@) == Some("verifier"@),
        spec_agent_id_for_role("verifier"@) == Some("arbiter"@),
        spec_role_for_agent_id_trimmed("arbiter"@) == Some("verifier"@),
        trim("arbiter"@) == "arbiter"@,
        spec_hint_role("arbiter"@) == Some("verifier"@),
{
    lemma_role_words_spelled();
}

#[verifier::rlimit(50)]
proof fn lemma_role_names_agree_5()
    ensures
        trim("sentinel"@) == "sentinel"@,
        spec_hint_role("sentinel"@) == Some("sentinel"@),
        spec_agent_id_for_role("sentinel"@) == Some("sentinel"@),
        spec_role_for_agent_id_trimmed("sentinel"@) == Some("sentinel"@),
        spec_hint_role("sentinel"@) == Some("sentinel"@),
{
    lemma_role_words_spelled();
}

#[verifier::rlimit(50)]
proof fn lemma_role_names_agree_6()
    ensures
        trim("companion_reader"@) == "companion_reader"@,
        spec_hint_role("companion_reader"@) == Some("companion_reader"@),
        spec_agent_id_for_role("companion_reader"@) == Some("companion_reader"@),
        spec_role_for_agent_id_trimmed("companion_reader"@) == Some("companion_reader"@),
        spec_hint_role("companion_reader"@) == Some("companion_reader"@),
{
    lemma_role_words_spelled();
}

#[verifier::rlimit(50)]
proof fn lemma_role_names_agree_7()
    ensures
        trim("companion_operator"@) == "companion_operator"@,
        spec_hint_role("companion_operator"@) == Some("companion_operator"@),
        spec_agent_id_for_role("companion_operator"@) == Some("companion_operator"@),
        spec_role_for_agent_id_trimmed("companion_operator"@) == Some("companion_operator"@),
        spec_hint_role("companion_operator"@) == Some("companion_operator"@),
{
    lemma_role_words_spelled();
}

/// The specialist roles, in display order.
pub open spec fn spec_specialist_roles() -> Seq<Seq<char>> {
    seq!["way"@, "explorer"@, "code specialist"@, "documenter"@, "verifier"@, "sentinel"@, "companion_reader"@, "companion_operator"@]
}

/// The names of a specialist agree with each other: its role name and its
/// agent id are both dispatch hints for it, and its agent id leads back to
/// it.
pub proof fn lemma_specialist_names_agree()
    ensures
        forall|i: int|
            0 <= i < spec_specialist_roles().len() ==> {
                let r = #[trigger] spec_specialist_roles()[i];
                &&& spec_hint_role(r) == Some(r)
                &&& spec_agent_id_for_role(r) is Some
                &&& spec_role_for_agent_id_trimmed(spec_agent_id_for_role(r)->0) == Some(r)
                &&& spec_hint_role(spec_agent_id_for_role(r)->0) == Some(r)
                &&& trim(spec_agent_id_for_role(r)->0) == spec_agent_id_for_role(r)->0
            },
{
    lemma_role_names_agree_0();
    lemma_role_names_agree_1();
    lemma_role_names_agree_2();
    lemma_role_names_agree_3();
    lemma_role_names_agree_4();
    lemma_role_names_agree_5();
    lemma_role_names_agree_6();
    lemma_role_names_agree_7();
    let l = spec_specialist_roles();
    assert forall|i: int| 0 <= i < l.len() implies {
        let r = #[trigger] l[i];
        &&& spec_hint_role(r) == Some(r)
        &&& spec_agent_id_for_role(r) is Some
        &&& spec_role_for_agent_id_trimmed(spec_agent_id_for_role(r)->0) == Some(r)
        &&& spec_hint_role(spec_agent_id_for_role(r)->0) == Some(r)
        &&& trim(spec_agent_id_for_role(r)->0) == spec_agent_id_for_role(r)->0
    } by {
        assert(i == 0 || i == 1 || i == 2 || i == 3 || i == 4 || i == 5 || i == 6 || i == 7);
    }
}


/// A specialist works read-only exactly when its tasks are not execution
/// tasks, except the sentinel, whose classification work is read-only too:
/// the Way, the scout, the verifier, the sentinel and the companion reader
/// cannot write; the code specialist, the scribe and the companion operator
/// can.
pub proof fn lemma_read_only_roles_do_not_execute()
    ensures
        forall|i: int|
            0 <= i < spec_specialist_roles().len() ==> (spec_is_read_only_role(
                #[trigger] spec_specialist_roles()[i],
            ) <==> (spec_task_kind_for_role(spec_specialist_roles()[i]) != "execution"@
                || spec_specialist_roles()[i] == "sentinel"@)),
{
    lemma_role_words_spelled();
    let l = spec_specialist_roles();
    assert forall|i: int| 0 <= i < l.len() implies (spec_is_read_only_role(#[trigger] l[i]) <==> (
    spec_task_kind_for_role(l[i]) != "execution"@ || l[i] == "sentinel"@)) by {
        assert(i == 0 || i == 1 || i == 2 || i == 3 || i == 4 || i == 5 || i == 6 || i == 7);
    }
}

} // verus!
