//! The specialist delegation plan of a role: how the captain hands a task to
//! the role's custom agent (preferred and fallback execution modes, the
//! agent, its skill registry and execution contract, the fan-in and lane
//! contracts, and when direct execution has to wait for a recorded spawn).

use vstd::prelude::*;
use crate::config_defaults::jstrs;
use crate::json::{
    get_or, jbool, jget, jget_or, jopt_str, jstr, jstr_array, jstr_field, jstring, jview, member,
    members_view, object_of, JVal, Json,
};
use crate::role_payloads::{spec_framing, task_expertise_framing_for_role};
use crate::roles::{
    agent_id_for_role, generated_custom_agent_file_name, generated_custom_agent_name,
    spawnable_custom_agent_id_for_role, spec_agent_id_for_role, spec_is_captain_or_orchestrator_role,
    spec_normalize_execution_mode,
};
use crate::roles_config::{
    fallback_specialist_execution_mode, preferred_specialist_execution_mode, role_summary,
    spec_role_summary,
};
use crate::strings::{opt_string_view, opt_view, str_eq};

verus! {

fn strs(items: Vec<&str>) -> (r: Json)
    ensures
        jview(r) == JVal::Array(items@.map_values(|s: &str| JVal::Str(s@))),
{
    jstr_array(&items)
}

/// The fields a structured fan-in carries.
pub open spec fn spec_fan_in_required_fields() -> JVal {
    jstrs(
        seq![
            "summary"@,
            "status"@,
            "evidence_paths"@,
            "next_action"@,
            "open_questions"@,
            "confidence"@,
        ],
    )
}

pub fn fan_in_required_fields() -> (r: Json)
    ensures
        jview(r) == spec_fan_in_required_fields(),
{
    let items = vec!["summary", "status", "evidence_paths", "next_action", "open_questions", "confidence"];
    let r = strs(items);
    assert(items@.map_values(|s: &str| JVal::Str(s@)) =~= spec_fan_in_required_fields()->Array_0);
    r
}

/// A `field` / `source` pair.
pub open spec fn spec_field_source(field: Seq<char>, source: Seq<char>) -> JVal {
    JVal::Object(seq![("field"@, JVal::Str(field)), ("source"@, JVal::Str(source))])
}

fn field_source(field: &str, source: &str) -> (r: Json)
    ensures
        jview(r) == spec_field_source(field@, source@),
{
    let mut m: Vec<(String, Json)> = Vec::new();
    m.push(member("field", jstr(field)));
    m.push(member("source", jstr(source)));
    let r = object_of(m);
    assert(members_view(m@) =~= spec_field_source(field@, source@)->Object_0);
    r
}

/// Where a lane's result, log and recap are found.
pub open spec fn spec_lane_artifact_contract() -> JVal {
    JVal::Object(
        seq![
            ("result"@, spec_field_source("fan_in"@, "parallel_fanout.lanes[].fan_in"@)),
            ("log"@, spec_field_source("lifecycle"@, "parallel_fanout.lanes[].lifecycle"@)),
            (
                "recap"@,
                spec_field_source("fan_in.summary"@, "parallel_fanout.lanes[].fan_in.summary"@),
            ),
        ],
    )
}

pub fn lane_artifact_contract() -> (r: Json)
    ensures
        jview(r) == spec_lane_artifact_contract(),
{
    let mut m: Vec<(String, Json)> = Vec::new();
    m.push(member("result", field_source("fan_in", "parallel_fanout.lanes[].fan_in")));
    m.push(member("log", field_source("lifecycle", "parallel_fanout.lanes[].lifecycle")));
    m.push(
        member("recap", field_source("fan_in.summary", "parallel_fanout.lanes[].fan_in.summary")),
    );
    let r = object_of(m);
    assert(members_view(m@) =~= spec_lane_artifact_contract()->Object_0);
    r
}

/// How a lane is verified, retried, recapped and reported.
pub open spec fn spec_verify_retry_recap_report_contract() -> JVal {
    JVal::Object(
        seq![
            (
                "verify"@,
                JVal::Object(
                    seq![
                        ("field"@, JVal::Str("verification_state"@)),
                        (
                            "states"@,
                            jstrs(seq!["pending"@, "passed"@, "needs_work"@, "blocked"@]),
                        ),
                    ],
                ),
            ),
            (
                "retry"@,
                JVal::Object(
                    seq![
                        ("field"@, JVal::Str("captain_follow_up"@)),
                        ("budget_key"@, JVal::Str("retry"@)),
                        ("states"@, jstrs(seq!["queued"@, "consumed"@])),
                    ],
                ),
            ),
            (
                "recap"@,
                spec_field_source(
                    "lane_artifact_contract.recap"@,
                    "parallel_fanout.lanes[].fan_in.summary"@,
                ),
            ),
            (
                "report"@,
                JVal::Object(
                    seq![
                        ("field"@, JVal::Str("latest_delegate_result.result_summary"@)),
                        (
                            "fallback_field"@,
                            JVal::Str("latest_delegate_result.assistant_message_preview"@),
                        ),
                    ],
                ),
            ),
        ],
    )
}

pub fn verify_retry_recap_report_contract() -> (r: Json)
    ensures
        jview(r) == spec_verify_retry_recap_report_contract(),
{
    let verify_states = vec!["pending", "passed", "needs_work", "blocked"];
    let vs = strs(verify_states);
    let mut v: Vec<(String, Json)> = Vec::new();
    v.push(member("field", jstr("verification_state")));
    v.push(member("states", vs));
    let retry_states = vec!["queued", "consumed"];
    let rs = strs(retry_states);
    let mut t: Vec<(String, Json)> = Vec::new();
    t.push(member("field", jstr("captain_follow_up")));
    t.push(member("budget_key", jstr("retry")));
    t.push(member("states", rs));
    let mut p: Vec<(String, Json)> = Vec::new();
    p.push(member("field", jstr("latest_delegate_result.result_summary")));
    p.push(member("fallback_field", jstr("latest_delegate_result.assistant_message_preview")));
    let ghost vm = v@;
    let ghost tm = t@;
    let ghost pm = p@;
    let mut m: Vec<(String, Json)> = Vec::new();
    m.push(member("verify", object_of(v)));
    m.push(member("retry", object_of(t)));
    m.push(
        member(
            "recap",
            field_source("lane_artifact_contract.recap", "parallel_fanout.lanes[].fan_in.summary"),
        ),
    );
    m.push(member("report", object_of(p)));
    let r = object_of(m);
    proof {
        let s = spec_verify_retry_recap_report_contract()->Object_0;
        assert(verify_states@.map_values(|s: &str| JVal::Str(s@)) =~= s[0].1->Object_0[1].1->Array_0);
        assert(retry_states@.map_values(|s: &str| JVal::Str(s@)) =~= s[1].1->Object_0[2].1->Array_0);
        assert(members_view(vm) =~= s[0].1->Object_0);
        assert(members_view(tm) =~= s[1].1->Object_0);
        assert(members_view(pm) =~= s[3].1->Object_0);
        assert(members_view(m@) =~= s);
    }
    r
}

/// An `owned_by` / `fields` pair of the plan's spec surfaces.
pub open spec fn spec_owned_fields(owner: Seq<char>, fields: Seq<Seq<char>>) -> JVal {
    JVal::Object(seq![("owned_by"@, JVal::Str(owner)), ("fields"@, jstrs(fields))])
}

fn owned_fields(owner: &str, fields: Vec<&str>) -> (r: Json)
    ensures
        jview(r) == spec_owned_fields(owner@, fields@.map_values(|s: &str| s@)),
{
    let ghost fv = fields@;
    let fs = strs(fields);
    let mut m: Vec<(String, Json)> = Vec::new();
    m.push(member("owned_by", jstr(owner)));
    m.push(member("fields", fs));
    let r = object_of(m);
    assert(fv.map_values(|s: &str| JVal::Str(s@)) =~= fv.map_values(|s: &str| s@).map_values(
        |s: Seq<char>| JVal::Str(s),
    ));
    assert(members_view(m@) =~= spec_owned_fields(owner@, fv.map_values(|s: &str| s@))->Object_0);
    r
}

/// Which part of the plan each field is owned by.
pub open spec fn spec_plan_spec_surfaces() -> JVal {
    JVal::Object(
        seq![
            (
                "role_owned"@,
                spec_owned_fields(
                    "role_config_snapshot"@,
                    seq!["summary"@, "model"@, "variant"@, "fast_mode"@],
                ),
            ),
            (
                "sandbox_owned"@,
                spec_owned_fields(
                    "sandbox_policy_helpers"@,
                    seq!["sandbox_mode"@, "sandbox_rationale"@],
                ),
            ),
            (
                "workflow_owned"@,
                spec_owned_fields(
                    "delegation_plan"@,
                    seq![
                        "routing_source"@,
                        "preferred_execution_mode"@,
                        "fallback_execution_mode"@,
                        "supported_execution_modes"@,
                        "execution_contract"@,
                        "runtime_dispatch"@,
                        "expertise_framing"@,
                        "fan_in_contract"@,
                        "lane_artifact_contract"@,
                        "verify_retry_recap_report_contract"@,
                        "subagent_spawn_contract"@,
                        "subagent_update_contract"@,
                        "fallback_gate"@,
                    ],
                ),
            ),
            (
                "plan_invariants"@,
                spec_owned_fields(
                    "delegation_plan_invariants"@,
                    seq![
                        "policy_drift_check_required"@,
                        "captain_checkpoint_required"@,
                        "fallback_reason_codes"@,
                    ],
                ),
            ),
            (
                "skill_ssl_manifest"@,
                spec_owned_fields("skill_registry"@, seq!["scheduling"@, "structural"@, "logical"@]),
            ),
            (
                "skill_registry"@,
                spec_owned_fields(
                    "skill_registry"@,
                    seq!["status"@, "evidence_sources"@, "source_priority"@],
                ),
            ),
        ],
    )
}

fn plan_spec_surfaces() -> (r: Json)
    ensures
        jview(r) == spec_plan_spec_surfaces(),
{
    let f1 = vec!["summary", "model", "variant", "fast_mode"];
    let f2 = vec!["sandbox_mode", "sandbox_rationale"];
    let f3 = vec![
        "routing_source",
        "preferred_execution_mode",
        "fallback_execution_mode",
        "supported_execution_modes",
        "execution_contract",
        "runtime_dispatch",
        "expertise_framing",
        "fan_in_contract",
        "lane_artifact_contract",
        "verify_retry_recap_report_contract",
        "subagent_spawn_contract",
        "subagent_update_contract",
        "fallback_gate",
    ];
    let f4 = vec!["policy_drift_check_required", "captain_checkpoint_required", "fallback_reason_codes"];
    let f5 = vec!["scheduling", "structural", "logical"];
    let f6 = vec!["status", "evidence_sources", "source_priority"];
    let ghost s = spec_plan_spec_surfaces()->Object_0;
    assert(f1@.map_values(|s: &str| s@) =~= seq!["summary"@, "model"@, "variant"@, "fast_mode"@]);
    assert(f2@.map_values(|s: &str| s@) =~= seq!["sandbox_mode"@, "sandbox_rationale"@]);
    assert(f3@.map_values(|s: &str| s@) =~= seq![
        "routing_source"@,
        "preferred_execution_mode"@,
        "fallback_execution_mode"@,
        "supported_execution_modes"@,
        "execution_contract"@,
        "runtime_dispatch"@,
        "expertise_framing"@,
        "fan_in_contract"@,
        "lane_artifact_contract"@,
        "verify_retry_recap_report_contract"@,
        "subagent_spawn_contract"@,
        "subagent_update_contract"@,
        "fallback_gate"@,
    ]);
    assert(f4@.map_values(|s: &str| s@) =~= seq![
        "policy_drift_check_required"@,
        "captain_checkpoint_required"@,
        "fallback_reason_codes"@,
    ]);
    assert(f5@.map_values(|s: &str| s@) =~= seq!["scheduling"@, "structural"@, "logical"@]);
    assert(f6@.map_values(|s: &str| s@) =~= seq!["status"@, "evidence_sources"@, "source_priority"@]);
    let mut m: Vec<(String, Json)> = Vec::new();
    m.push(member("role_owned", owned_fields("role_config_snapshot", f1)));
    m.push(member("sandbox_owned", owned_fields("sandbox_policy_helpers", f2)));
    m.push(member("workflow_owned", owned_fields("delegation_plan", f3)));
    m.push(member("plan_invariants", owned_fields("delegation_plan_invariants", f4)));
    m.push(member("skill_ssl_manifest", owned_fields("skill_registry", f5)));
    m.push(member("skill_registry", owned_fields("skill_registry", f6)));
    let r = object_of(m);
    assert(members_view(m@) =~= s);
    r
}

/// The reasons a subagent fallback may be recorded with.
pub open spec fn spec_fallback_reason_codes() -> JVal {
    jstrs(
        seq![
            "subagent_spawn_unavailable"@,
            "approval_blocked"@,
            "sandbox_incompatible"@,
            "config_sync_stale"@,
            "host_subagent_thread_limit"@,
            "child_timeout"@,
            "parent_override_conflict"@,
        ],
    )
}

fn fallback_reason_codes() -> (r: Json)
    ensures
        jview(r) == spec_fallback_reason_codes(),
{
    let items = vec![
        "subagent_spawn_unavailable",
        "approval_blocked",
        "sandbox_incompatible",
        "config_sync_stale",
        "host_subagent_thread_limit",
        "child_timeout",
        "parent_override_conflict",
    ];
    let r = strs(items);
    assert(items@.map_values(|s: &str| JVal::Str(s@)) =~= spec_fallback_reason_codes()->Array_0);
    r
}

/// The skill registry of a role without a custom agent.
pub open spec fn spec_skill_registry_not_applicable() -> JVal {
    JVal::Object(
        seq![
            ("schema"@, JVal::Str("ccc.skill_registry.v1"@)),
            ("status"@, JVal::Str("not_applicable"@)),
            ("blocking"@, JVal::Bool(false)),
            ("runtime_truth"@, JVal::Bool(false)),
            ("advisory_only"@, JVal::Bool(true)),
            ("fallback"@, JVal::Str("SKILL.md + ccc-config.toml"@)),
        ],
    )
}

fn skill_registry_not_applicable() -> (r: Json)
    ensures
        jview(r) == spec_skill_registry_not_applicable(),
{
    let mut m: Vec<(String, Json)> = Vec::new();
    m.push(member("schema", jstr("ccc.skill_registry.v1")));
    m.push(member("status", jstr("not_applicable")));
    m.push(member("blocking", jbool(false)));
    m.push(member("runtime_truth", jbool(false)));
    m.push(member("advisory_only", jbool(true)));
    m.push(member("fallback", jstr("SKILL.md + ccc-config.toml")));
    let r = object_of(m);
    assert(members_view(m@) =~= spec_skill_registry_not_applicable()->Object_0);
    r
}

/// How a host subagent reports back.
pub open spec fn spec_subagent_update_contract() -> JVal {
    JVal::Object(
        seq![
            ("transport"@, JVal::Str("ccc_cli_subcommand"@)),
            ("command"@, JVal::Str("ccc subagent-update --quiet --json '{...}'"@)),
            ("inline_command"@, JVal::Str("ccc subagent-update --quiet --json '{...}'"@)),
            ("default_payload_transport"@, JVal::Str("inline_json"@)),
            ("avoid_mcp_tool_call"@, JVal::Bool(true)),
        ],
    )
}

fn subagent_update_contract() -> (r: Json)
    ensures
        jview(r) == spec_subagent_update_contract(),
{
    let mut m: Vec<(String, Json)> = Vec::new();
    m.push(member("transport", jstr("ccc_cli_subcommand")));
    m.push(member("command", jstr("ccc subagent-update --quiet --json '{...}'")));
    m.push(member("inline_command", jstr("ccc subagent-update --quiet --json '{...}'")));
    m.push(member("default_payload_transport", jstr("inline_json")));
    m.push(member("avoid_mcp_tool_call", jbool(true)));
    let r = object_of(m);
    assert(members_view(m@) =~= spec_subagent_update_contract()->Object_0);
    r
}

/// The custom agent a role's work is spawned as: none for the captain and
/// the orchestrator, otherwise the role's agent id.
pub open spec fn spec_spawnable_agent_id(role: Seq<char>) -> Option<Seq<char>> {
    if spec_is_captain_or_orchestrator_role(role) {
        None
    } else {
        spec_agent_id_for_role(role)
    }
}

/// The generated custom agent name for a role (`ccc_<agent_id>`).
pub open spec fn spec_preferred_custom_agent_name(role: Seq<char>) -> Option<Seq<char>> {
    match spec_spawnable_agent_id(role) {
        Some(a) => Some("ccc_"@ + a),
        None => None,
    }
}

/// The generated custom agent file for a role (`ccc-<agent_id>.toml`).
pub open spec fn spec_preferred_custom_agent_file(role: Seq<char>) -> Option<Seq<char>> {
    match spec_spawnable_agent_id(role) {
        Some(a) => Some("ccc-"@ + a + ".toml"@),
        None => None,
    }
}

pub fn preferred_custom_agent_name_for_role(role: &str) -> (r: Option<String>)
    ensures
        opt_string_view(r) == spec_preferred_custom_agent_name(role@),
{
    match spawnable_custom_agent_id_for_role(role) {
        Some(a) => Some(generated_custom_agent_name(a)),
        None => None,
    }
}

fn preferred_custom_agent_file_for_role(role: &str) -> (r: Option<String>)
    ensures
        opt_string_view(r) == spec_preferred_custom_agent_file(role@),
{
    match spawnable_custom_agent_id_for_role(role) {
        Some(a) => Some(generated_custom_agent_file_name(a)),
        None => None,
    }
}



/// The execution modes a plan supports: the preferred one, and the fallback
/// when it differs.
pub open spec fn spec_supported_execution_modes(preferred: Seq<char>, fallback: Seq<char>) -> JVal {
    if preferred == fallback {
        JVal::Array(seq![JVal::Str(preferred)])
    } else {
        JVal::Array(seq![JVal::Str(preferred), JVal::Str(fallback)])
    }
}

fn supported_execution_modes(preferred: &str, fallback: &str) -> (r: Json)
    ensures
        jview(r) == spec_supported_execution_modes(preferred@, fallback@),
{
    let items = if str_eq(preferred, fallback) {
        vec![preferred]
    } else {
        vec![preferred, fallback]
    };
    let r = strs(items);
    assert(items@.map_values(|s: &str| JVal::Str(s@)) =~= spec_supported_execution_modes(
        preferred@,
        fallback@,
    )->Array_0);
    r
}

/// The skill registry a plan carries: the role's custom agent's registry,
/// or a not-applicable registry for a role without one.
pub open spec fn spec_plan_skill_registry(role: Seq<char>, skill_registry: JVal) -> JVal {
    match spec_spawnable_agent_id(role) {
        Some(_) => skill_registry,
        None => spec_skill_registry_not_applicable(),
    }
}

/// The registry's skill manifest, else the registry itself.
pub open spec fn spec_plan_skill_manifest(registry: JVal) -> JVal {
    match jget(registry, "skill_ssl_manifest"@) {
        Some(v) => v,
        None => registry,
    }
}

/// The execution modes read from the runtime config.
pub open spec fn spec_preferred_mode(runtime_config: JVal) -> Seq<char> {
    spec_normalize_execution_mode(
        jstr_field(runtime_config, "preferred_specialist_execution_mode"@),
        "codex_subagent"@,
    )
}

pub open spec fn spec_fallback_mode(runtime_config: JVal) -> Seq<char> {
    spec_normalize_execution_mode(
        jstr_field(runtime_config, "fallback_specialist_execution_mode"@),
        "codex_exec"@,
    )
}

/// Whether the role's work must be spawned as a host subagent before any
/// direct execution: it has a custom agent and subagents are preferred.
pub open spec fn spec_spawn_required(role: Seq<char>, runtime_config: JVal) -> bool {
    spec_preferred_custom_agent_name(role) is Some && spec_preferred_mode(runtime_config)
        == "codex_subagent"@
}

/// The members that the plan and its runtime dispatch share, after the
/// execution modes.
pub open spec fn spec_plan_profile(
    role: Seq<char>,
    snapshot: JVal,
    skill_registry: JVal,
    execution_contract: JVal,
) -> Seq<(Seq<char>, JVal)> {
    let registry = spec_plan_skill_registry(role, skill_registry);
    seq![
        ("preferred_custom_agent_name"@, jopt_str(spec_preferred_custom_agent_name(role))),
        ("preferred_custom_agent_file"@, jopt_str(spec_preferred_custom_agent_file(role))),
        ("skill_ssl_manifest"@, spec_plan_skill_manifest(registry)),
        ("skill_registry"@, registry),
        ("assigned_role"@, JVal::Str(role)),
        ("assigned_agent_id"@, jopt_str(spec_agent_id_for_role(role))),
        ("summary"@, JVal::Str(spec_role_summary(role, snapshot))),
        ("execution_contract"@, execution_contract),
        ("expertise_framing"@, spec_framing(role, "single_scoped_task"@)),
        ("model"@, jget_or(snapshot, "model"@, JVal::Null)),
        ("variant"@, jget_or(snapshot, "variant"@, JVal::Null)),
        ("fast_mode"@, jget_or(snapshot, "fast_mode"@, JVal::Bool(false))),
    ]
}

/// Where the plan's dispatch settings come from, and the settings.
pub open spec fn spec_runtime_dispatch(
    role: Seq<char>,
    snapshot: JVal,
    runtime_config: JVal,
    skill_registry: JVal,
    execution_contract: JVal,
) -> JVal {
    let preferred = spec_preferred_mode(runtime_config);
    let fallback = spec_fallback_mode(runtime_config);
    JVal::Object(
        seq![
            ("source"@, JVal::Str("config_backed"@)),
            ("execution_mode_source"@, JVal::Str("runtime_config"@)),
            ("role_profile_source"@, JVal::Str("role_config_snapshot"@)),
            ("custom_agent_source"@, JVal::Str("role_mapping"@)),
            ("plan_invariants_source"@, JVal::Str("delegation_plan_invariants"@)),
            ("preferred_execution_mode"@, JVal::Str(preferred)),
            ("fallback_execution_mode"@, JVal::Str(fallback)),
            ("supported_execution_modes"@, spec_supported_execution_modes(preferred, fallback)),
        ] + spec_plan_profile(role, snapshot, skill_registry, execution_contract),
    )
}

/// How the role's custom agent is spawned.
pub open spec fn spec_subagent_spawn_contract(role: Seq<char>) -> JVal {
    let framing = spec_framing(role, "single_scoped_task"@);
    JVal::Object(
        seq![
            ("mode"@, JVal::Str("custom_agent"@)),
            ("custom_agent_name"@, jopt_str(spec_preferred_custom_agent_name(role))),
            ("custom_agent_file"@, jopt_str(spec_preferred_custom_agent_file(role))),
            ("expertise_phrase"@, jget_or(framing, "expertise_phrase"@, JVal::Null)),
            ("task_stance"@, jget_or(framing, "task_stance"@, JVal::Null)),
            ("expected_thinking_mode"@, jget_or(framing, "expected_thinking_mode"@, JVal::Null)),
            ("forbid_full_history_fork"@, JVal::Bool(true)),
            ("prefer_fresh_child_context"@, JVal::Bool(true)),
            ("omit_agent_type_override"@, JVal::Bool(true)),
            ("omit_model_override"@, JVal::Bool(true)),
            ("omit_reasoning_effort_override"@, JVal::Bool(true)),
            ("retry_once_without_full_history_fork_on_conflict"@, JVal::Bool(true)),
        ],
    )
}

/// What must happen before the captain may fall back from the subagent.
pub open spec fn spec_fallback_gate(role: Seq<char>, runtime_config: JVal) -> JVal {
    JVal::Object(
        seq![
            ("must_attempt_preferred_subagent_first"@, JVal::Bool(true)),
            ("host_subagent_spawn_required"@, JVal::Bool(spec_spawn_required(role, runtime_config))),
            (
                "block_direct_execution_until_spawn_recorded"@,
                JVal::Bool(spec_spawn_required(role, runtime_config)),
            ),
            ("block_exec_fallback_while_subagent_active"@, JVal::Bool(true)),
            ("require_explicit_subagent_fallback_reason"@, JVal::Bool(true)),
        ],
    )
}

/// The delegation plan of a role. `skill_registry` is the registry loaded
/// for the role's custom agent (a role without one gets a not-applicable
/// registry), and `execution_contract` the role's execution contract.
pub open spec fn spec_delegation_plan(
    role: Seq<char>,
    snapshot: JVal,
    runtime_config: JVal,
    sandbox_mode: Seq<char>,
    sandbox_rationale: Seq<char>,
    skill_registry: JVal,
    execution_contract: JVal,
) -> JVal {
    let preferred = spec_preferred_mode(runtime_config);
    let fallback = spec_fallback_mode(runtime_config);
    JVal::Object(
        seq![
            ("routing_source"@, JVal::Str("ccc_config_custom_agent_sync"@)),
            ("preferred_execution_mode"@, JVal::Str(preferred)),
            ("fallback_execution_mode"@, JVal::Str(fallback)),
            ("supported_execution_modes"@, spec_supported_execution_modes(preferred, fallback)),
        ] + spec_plan_profile(role, snapshot, skill_registry, execution_contract) + spec_plan_contracts(
            role,
            snapshot,
            runtime_config,
            sandbox_mode,
            sandbox_rationale,
            skill_registry,
            execution_contract,
        ),
    )
}

/// The plan's dispatch, sandbox, contracts and invariants.
pub open spec fn spec_plan_contracts(
    role: Seq<char>,
    snapshot: JVal,
    runtime_config: JVal,
    sandbox_mode: Seq<char>,
    sandbox_rationale: Seq<char>,
    skill_registry: JVal,
    execution_contract: JVal,
) -> Seq<(Seq<char>, JVal)> {
    seq![
            (
                "runtime_dispatch"@,
                spec_runtime_dispatch(role, snapshot, runtime_config, skill_registry, execution_contract),
            ),
            ("sandbox_mode"@, JVal::Str(sandbox_mode)),
            ("sandbox_rationale"@, JVal::Str(sandbox_rationale)),
            ("spec_surfaces"@, spec_plan_spec_surfaces()),
            (
                "fan_in_contract"@,
                JVal::Object(
                    seq![
                        ("mode"@, JVal::Str("structured_summary"@)),
                        ("required_fields"@, spec_fan_in_required_fields()),
                    ],
                ),
            ),
            ("lane_artifact_contract"@, spec_lane_artifact_contract()),
            ("verify_retry_recap_report_contract"@, spec_verify_retry_recap_report_contract()),
            ("subagent_spawn_contract"@, spec_subagent_spawn_contract(role)),
            ("subagent_update_contract"@, spec_subagent_update_contract()),
            ("fallback_gate"@, spec_fallback_gate(role, runtime_config)),
            ("policy_drift_check_required"@, JVal::Bool(true)),
            ("captain_checkpoint_required"@, JVal::Bool(true)),
            ("subagent_available"@, JVal::Bool(spec_preferred_custom_agent_name(role) is Some)),
            ("fallback_reason_codes"@, spec_fallback_reason_codes()),
        ]
}

fn push_plan_profile(
    m: &mut Vec<(String, Json)>,
    role: &str,
    role_config_snapshot: &Json,
    skill_registry: &Json,
    execution_contract: &Json,
)
    ensures
        members_view(final(m)@) == members_view(old(m)@) + spec_plan_profile(
            role@,
            jview(*role_config_snapshot),
            jview(*skill_registry),
            jview(*execution_contract),
        ),
{
    let ghost start = old(m)@;
    let registry = match spawnable_custom_agent_id_for_role(role) {
        Some(_) => skill_registry.deep_clone(),
        None => skill_registry_not_applicable(),
    };
    let manifest = get_or(&registry, "skill_ssl_manifest", registry.deep_clone());
    let name = preferred_custom_agent_name_for_role(role);
    let file = preferred_custom_agent_file_for_role(role);
    m.push(member("preferred_custom_agent_name", crate::json::jopt_string(&name)));
    m.push(member("preferred_custom_agent_file", crate::json::jopt_string(&file)));
    m.push(member("skill_ssl_manifest", manifest));
    m.push(member("skill_registry", registry));
    m.push(member("assigned_role", jstr(role)));
    m.push(
        member(
            "assigned_agent_id",
            match agent_id_for_role(role) {
                Some(a) => jstr(a),
                None => Json::Null,
            },
        ),
    );
    m.push(member("summary", jstring(role_summary(role, role_config_snapshot))));
    m.push(member("execution_contract", execution_contract.deep_clone()));
    m.push(member("expertise_framing", task_expertise_framing_for_role(role, "single_scoped_task")));
    m.push(member("model", get_or(role_config_snapshot, "model", Json::Null)));
    m.push(member("variant", get_or(role_config_snapshot, "variant", Json::Null)));
    m.push(member("fast_mode", get_or(role_config_snapshot, "fast_mode", jbool(false))));
    assert(members_view(m@) =~= members_view(start) + spec_plan_profile(
        role@,
        jview(*role_config_snapshot),
        jview(*skill_registry),
        jview(*execution_contract),
    ));
}

fn push_execution_modes(m: &mut Vec<(String, Json)>, preferred: &str, fallback: &str)
    ensures
        members_view(final(m)@) == members_view(old(m)@) + seq![
            ("preferred_execution_mode"@, JVal::Str(preferred@)),
            ("fallback_execution_mode"@, JVal::Str(fallback@)),
            ("supported_execution_modes"@, spec_supported_execution_modes(preferred@, fallback@)),
        ],
{
    let ghost start = old(m)@;
    m.push(member("preferred_execution_mode", jstr(preferred)));
    m.push(member("fallback_execution_mode", jstr(fallback)));
    m.push(member("supported_execution_modes", supported_execution_modes(preferred, fallback)));
    assert(members_view(m@) =~= members_view(start) + seq![
        ("preferred_execution_mode"@, JVal::Str(preferred@)),
        ("fallback_execution_mode"@, JVal::Str(fallback@)),
        ("supported_execution_modes"@, spec_supported_execution_modes(preferred@, fallback@)),
    ]);
}

fn runtime_dispatch(
    role: &str,
    role_config_snapshot: &Json,
    runtime_config: &Json,
    skill_registry: &Json,
    execution_contract: &Json,
) -> (r: Json)
    ensures
        jview(r) == spec_runtime_dispatch(
            role@,
            jview(*role_config_snapshot),
            jview(*runtime_config),
            jview(*skill_registry),
            jview(*execution_contract),
        ),
{
    let preferred = preferred_specialist_execution_mode(runtime_config);
    let fallback = fallback_specialist_execution_mode(runtime_config);
    let mut m: Vec<(String, Json)> = Vec::new();
    m.push(member("source", jstr("config_backed")));
    m.push(member("execution_mode_source", jstr("runtime_config")));
    m.push(member("role_profile_source", jstr("role_config_snapshot")));
    m.push(member("custom_agent_source", jstr("role_mapping")));
    m.push(member("plan_invariants_source", jstr("delegation_plan_invariants")));
    push_execution_modes(&mut m, preferred.as_str(), fallback.as_str());
    push_plan_profile(&mut m, role, role_config_snapshot, skill_registry, execution_contract);
    let r = object_of(m);
    assert(members_view(m@) =~= spec_runtime_dispatch(
        role@,
        jview(*role_config_snapshot),
        jview(*runtime_config),
        jview(*skill_registry),
        jview(*execution_contract),
    )->Object_0);
    r
}

fn subagent_spawn_contract(role: &str) -> (r: Json)
    ensures
        jview(r) == spec_subagent_spawn_contract(role@),
{
    let framing = task_expertise_framing_for_role(role, "single_scoped_task");
    let name = preferred_custom_agent_name_for_role(role);
    let file = preferred_custom_agent_file_for_role(role);
    let mut m: Vec<(String, Json)> = Vec::new();
    m.push(member("mode", jstr("custom_agent")));
    m.push(member("custom_agent_name", crate::json::jopt_string(&name)));
    m.push(member("custom_agent_file", crate::json::jopt_string(&file)));
    m.push(member("expertise_phrase", get_or(&framing, "expertise_phrase", Json::Null)));
    m.push(member("task_stance", get_or(&framing, "task_stance", Json::Null)));
    m.push(member("expected_thinking_mode", get_or(&framing, "expected_thinking_mode", Json::Null)));
    m.push(member("forbid_full_history_fork", jbool(true)));
    m.push(member("prefer_fresh_child_context", jbool(true)));
    m.push(member("omit_agent_type_override", jbool(true)));
    m.push(member("omit_model_override", jbool(true)));
    m.push(member("omit_reasoning_effort_override", jbool(true)));
    m.push(member("retry_once_without_full_history_fork_on_conflict", jbool(true)));
    let r = object_of(m);
    assert(members_view(m@) =~= spec_subagent_spawn_contract(role@)->Object_0);
    r
}

fn fallback_gate(role: &str, runtime_config: &Json) -> (r: Json)
    ensures
        jview(r) == spec_fallback_gate(role@, jview(*runtime_config)),
{
    let preferred = preferred_specialist_execution_mode(runtime_config);
    let required = preferred_custom_agent_name_for_role(role).is_some() && str_eq(
        preferred.as_str(),
        "codex_subagent",
    );
    let mut m: Vec<(String, Json)> = Vec::new();
    m.push(member("must_attempt_preferred_subagent_first", jbool(true)));
    m.push(member("host_subagent_spawn_required", jbool(required)));
    m.push(member("block_direct_execution_until_spawn_recorded", jbool(required)));
    m.push(member("block_exec_fallback_while_subagent_active", jbool(true)));
    m.push(member("require_explicit_subagent_fallback_reason", jbool(true)));
    let r = object_of(m);
    assert(members_view(m@) =~= spec_fallback_gate(role@, jview(*runtime_config))->Object_0);
    r
}

fn push_plan_contracts(
    m: &mut Vec<(String, Json)>,
    role: &str,
    role_config_snapshot: &Json,
    runtime_config: &Json,
    sandbox_mode: &str,
    sandbox_rationale: &str,
    skill_registry: &Json,
    execution_contract: &Json,
)
    ensures
        members_view(final(m)@) == members_view(old(m)@) + spec_plan_contracts(
            role@,
            jview(*role_config_snapshot),
            jview(*runtime_config),
            sandbox_mode@,
            sandbox_rationale@,
            jview(*skill_registry),
            jview(*execution_contract),
        ),
{
    let ghost start = old(m)@;
    let mut fan_in: Vec<(String, Json)> = Vec::new();
    fan_in.push(member("mode", jstr("structured_summary")));
    fan_in.push(member("required_fields", fan_in_required_fields()));
    let ghost fan_in_view = members_view(fan_in@);
    m.push(
        member(
            "runtime_dispatch",
            runtime_dispatch(role, role_config_snapshot, runtime_config, skill_registry, execution_contract),
        ),
    );
    m.push(member("sandbox_mode", jstr(sandbox_mode)));
    m.push(member("sandbox_rationale", jstr(sandbox_rationale)));
    m.push(member("spec_surfaces", plan_spec_surfaces()));
    m.push(member("fan_in_contract", object_of(fan_in)));
    m.push(member("lane_artifact_contract", lane_artifact_contract()));
    m.push(member("verify_retry_recap_report_contract", verify_retry_recap_report_contract()));
    m.push(member("subagent_spawn_contract", subagent_spawn_contract(role)));
    m.push(member("subagent_update_contract", subagent_update_contract()));
    m.push(member("fallback_gate", fallback_gate(role, runtime_config)));
    m.push(member("policy_drift_check_required", jbool(true)));
    m.push(member("captain_checkpoint_required", jbool(true)));
    m.push(member("subagent_available", jbool(preferred_custom_agent_name_for_role(role).is_some())));
    m.push(member("fallback_reason_codes", fallback_reason_codes()));
    proof {
        let t = spec_plan_contracts(
            role@,
            jview(*role_config_snapshot),
            jview(*runtime_config),
            sandbox_mode@,
            sandbox_rationale@,
            jview(*skill_registry),
            jview(*execution_contract),
        );
        assert(fan_in_view =~= t[4].1->Object_0);
        assert(members_view(m@) =~= members_view(start) + t);
    }
}

pub fn create_specialist_delegation_plan_with_runtime(
    role: &str,
    role_config_snapshot: &Json,
    runtime_config: &Json,
    sandbox_mode: &str,
    sandbox_rationale: &str,
    skill_registry: &Json,
    execution_contract: &Json,
) -> (r: Json)
    ensures
        jview(r) == spec_delegation_plan(
            role@,
            jview(*role_config_snapshot),
            jview(*runtime_config),
            sandbox_mode@,
            sandbox_rationale@,
            jview(*skill_registry),
            jview(*execution_contract),
        ),
{
    let preferred = preferred_specialist_execution_mode(runtime_config);
    let fallback = fallback_specialist_execution_mode(runtime_config);
    let mut m: Vec<(String, Json)> = Vec::new();
    m.push(member("routing_source", jstr("ccc_config_custom_agent_sync")));
    let ghost first = members_view(m@);
    push_execution_modes(&mut m, preferred.as_str(), fallback.as_str());
    let ghost with_modes = members_view(m@);
    push_plan_profile(&mut m, role, role_config_snapshot, skill_registry, execution_contract);
    let ghost with_profile = members_view(m@);
    push_plan_contracts(
        &mut m,
        role,
        role_config_snapshot,
        runtime_config,
        sandbox_mode,
        sandbox_rationale,
        skill_registry,
        execution_contract,
    );
    let r = object_of(m);
    proof {
        let s = spec_delegation_plan(
            role@,
            jview(*role_config_snapshot),
            jview(*runtime_config),
            sandbox_mode@,
            sandbox_rationale@,
            jview(*skill_registry),
            jview(*execution_contract),
        );
        assert(first =~= seq![("routing_source"@, JVal::Str("ccc_config_custom_agent_sync"@))]);
        assert(members_view(m@) =~= s->Object_0);
    }
    r
}

} // verus!
