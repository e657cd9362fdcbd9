//! Launching a worker: who works on a task and in which sandbox, the
//! delegation record written at spawn time, the command line of the Codex
//! child, the supervisor's launch and completion updates, and the launch
//! result reported back.

use vstd::prelude::*;
use crate::app_panel::{clone_or, get_ref, or_else, or_null};
use crate::json::{jget, jstr, jstr_at, jstr_field, jstring, jview, member, members_view, object_of, JVal, Json};
use crate::roles::{agent_id_for_role, sandbox_mode_for_role, spec_agent_id_for_role, spec_is_read_only_role};
use crate::strings::{opt_view, push_str, str_eq, to_owned};

verus! {

/// The role a spawned worker takes (`code specialist` unless the task names
/// one).
pub open spec fn spec_spawn_role(task: JVal) -> Seq<char> {
    match jstr_field(task, "assigned_role"@) {
        Some(r) => r,
        None => "code specialist"@,
    }
}

pub fn spawn_role(task_card: &Json) -> (r: &str)
    ensures
        r@ == spec_spawn_role(jview(*task_card)),
{
    match task_card.str_field("assigned_role") {
        Some(r) => r,
        None => "code specialist",
    }
}

/// The agent of a spawned worker: the task's, else the role's, else
/// `raider`.
pub open spec fn spec_spawn_agent(task: JVal, role: Seq<char>) -> Seq<char> {
    match jstr_field(task, "assigned_agent_id"@) {
        Some(a) => a,
        None => match spec_agent_id_for_role(role) {
            Some(a) => a,
            None => "raider"@,
        },
    }
}

pub fn spawn_agent<'a>(task_card: &'a Json, role: &str) -> (r: &'a str)
    ensures
        r@ == spec_spawn_agent(jview(*task_card), role@),
{
    match task_card.str_field("assigned_agent_id") {
        Some(a) => a,
        None => match agent_id_for_role(role) {
            Some(a) => a,
            None => "raider",
        },
    }
}

/// The sandbox of a spawned worker: the task's when it is `read-only` or
/// `workspace-write`, else the role's.
pub open spec fn spec_spawn_sandbox_mode(task: JVal, role: Seq<char>) -> Seq<char> {
    match jstr_field(task, "sandbox_mode"@) {
        Some(s) => if s == "read-only"@ || s == "workspace-write"@ {
            s
        } else if spec_is_read_only_role(role) {
            "read-only"@
        } else {
            "workspace-write"@
        },
        None => if spec_is_read_only_role(role) {
            "read-only"@
        } else {
            "workspace-write"@
        },
    }
}

pub fn spawn_sandbox_mode<'a>(task_card: &'a Json, role: &str) -> (r: &'a str)
    ensures
        r@ == spec_spawn_sandbox_mode(jview(*task_card), role@),
{
    match task_card.str_field("sandbox_mode") {
        Some(s) => if str_eq(s, "read-only") || str_eq(s, "workspace-write") {
            s
        } else {
            sandbox_mode_for_role(role)
        },
        None => sandbox_mode_for_role(role),
    }
}

/// The summary of a spawned delegation.
pub open spec fn spec_spawn_summary(task: JVal, agent: Seq<char>) -> Seq<char> {
    "Primary worker "@ + agent + " launched for task \""@ + match jstr_field(task, "title"@) {
        Some(t) => t,
        None => "untitled task"@,
    } + "\"."@
}

fn spawn_summary(task: &Json, agent: &str) -> (r: String)
    ensures
        r@ == spec_spawn_summary(jview(*task), agent@),
{
    let mut s = to_owned("Primary worker ");
    push_str(&mut s, agent);
    push_str(&mut s, " launched for task \"");
    match task.str_field("title") {
        Some(t) => push_str(&mut s, t),
        None => push_str(&mut s, "untitled task"),
    }
    push_str(&mut s, "\".");
    s
}

/// The child agent of a spawned delegation.
pub open spec fn spawn_child_agent_members(agent: Seq<char>, role: Seq<char>, task_card_id: Seq<char>) -> Seq<(Seq<char>, JVal)> {
    seq![
        ("agent_id"@, JVal::Str(agent)),
        ("parent_agent_id"@, JVal::Str("captain"@)),
        ("role"@, JVal::Str(role)),
        ("status"@, JVal::Str("running"@)),
        ("task_card_id"@, JVal::Str(task_card_id)),
    ]
}

fn push_spawn_child_agent_members(m: &mut Vec<(String, Json)>, agent: &str, role: &str, task_card_id: &str)
    ensures
        members_view(final(m)@) == members_view(old(m)@) + spawn_child_agent_members(agent@, role@, task_card_id@),
{
    let ghost start = members_view(m@);
    m.push(member("agent_id", jstr(agent)));
    m.push(member("parent_agent_id", jstr("captain")));
    m.push(member("role", jstr(role)));
    m.push(member("status", jstr("running")));
    m.push(member("task_card_id", jstr(task_card_id)));
    assert(members_view(m@) =~= start + spawn_child_agent_members(agent@, role@, task_card_id@));
}

/// The executor of a spawned delegation.
pub open spec fn spawn_executor_members(agent: Seq<char>, task_card_id: Seq<char>, delegation_id: Seq<char>) -> Seq<(Seq<char>, JVal)> {
    seq![
        ("executor_id"@, JVal::Str("specialist-executor:"@ + agent)),
        ("status"@, JVal::Str("running"@)),
        ("task_card_id"@, JVal::Str(task_card_id)),
        ("delegation_id"@, JVal::Str(delegation_id)),
        ("child_agent_id"@, JVal::Str(agent)),
    ]
}

fn push_spawn_executor_members(m: &mut Vec<(String, Json)>, agent: &str, task_card_id: &str, delegation_id: &str)
    ensures
        members_view(final(m)@) == members_view(old(m)@) + spawn_executor_members(agent@, task_card_id@, delegation_id@),
{
    let ghost start = members_view(m@);
    m.push(member("executor_id", jstring(crate::strings::concat2("specialist-executor:", agent))));
    m.push(member("status", jstr("running")));
    m.push(member("task_card_id", jstr(task_card_id)));
    m.push(member("delegation_id", jstr(delegation_id)));
    m.push(member("child_agent_id", jstr(agent)));
    assert(members_view(m@) =~= start + spawn_executor_members(agent@, task_card_id@, delegation_id@));
}

/// The request handed to a spawned worker.
pub open spec fn spawn_worker_request_members(task: JVal, prompt: Seq<char>, sandbox: Seq<char>) -> Seq<(Seq<char>, JVal)> {
    seq![
        ("prompt"@, JVal::Str(prompt)),
        ("acceptance"@, or_null(jget(task, "acceptance"@))),
        ("scope"@, or_null(jget(task, "scope"@))),
        ("sandbox_mode"@, or_else(jget(task, "sandbox_mode"@), JVal::Str(sandbox))),
        ("sandbox_rationale"@, or_null(jget(task, "sandbox_rationale"@))),
    ]
}

fn push_spawn_worker_request_members(m: &mut Vec<(String, Json)>, task: &Json, prompt: &str, sandbox: &str)
    ensures
        members_view(final(m)@) == members_view(old(m)@) + spawn_worker_request_members(jview(*task), prompt@, sandbox@),
{
    let ghost start = members_view(m@);
    m.push(member("prompt", jstr(prompt)));
    m.push(member("acceptance", clone_or(get_ref(task, "acceptance"), Json::Null)));
    m.push(member("scope", clone_or(get_ref(task, "scope"), Json::Null)));
    m.push(member("sandbox_mode", clone_or(get_ref(task, "sandbox_mode"), jstr(sandbox))));
    m.push(member("sandbox_rationale", clone_or(get_ref(task, "sandbox_rationale"), Json::Null)));
    assert(members_view(m@) =~= start + spawn_worker_request_members(jview(*task), prompt@, sandbox@));
}

/// Part 1 of `spawn_launch_evidence_members`.
pub open spec fn spawn_launch_evidence_members_1(codex_bin: Seq<char>, worker_codex_home: Seq<char>, sandbox: Seq<char>, timestamp: Seq<char>, raw_events_file: Seq<char>, role_config_snapshot: JVal) -> Seq<(Seq<char>, JVal)> {
    seq![
        ("launch_source"@, JVal::Str("ccc_spawn"@)),
        ("codex_path"@, JVal::Str(codex_bin)),
        ("worker_codex_home"@, JVal::Str(worker_codex_home)),
        ("sandbox_mode"@, JVal::Str(sandbox)),
        ("match_state"@, JVal::Str("verified_match"@)),
    ]
}

fn push_spawn_launch_evidence_members_1(m: &mut Vec<(String, Json)>, codex_bin: &str, worker_codex_home: &str, sandbox: &str, timestamp: &str, raw_events_file: &str, role_config_snapshot: &Json)
    ensures
        members_view(final(m)@) == members_view(old(m)@) + spawn_launch_evidence_members_1(codex_bin@, worker_codex_home@, sandbox@, timestamp@, raw_events_file@, jview(*role_config_snapshot)),
{
    let ghost start = members_view(m@);
    m.push(member("launch_source", jstr("ccc_spawn")));
    m.push(member("codex_path", jstr(codex_bin)));
    m.push(member("worker_codex_home", jstr(worker_codex_home)));
    m.push(member("sandbox_mode", jstr(sandbox)));
    m.push(member("match_state", jstr("verified_match")));
    assert(members_view(m@) =~= start + spawn_launch_evidence_members_1(codex_bin@, worker_codex_home@, sandbox@, timestamp@, raw_events_file@, jview(*role_config_snapshot)));
}

/// Part 2 of `spawn_launch_evidence_members`.
pub open spec fn spawn_launch_evidence_members_2(codex_bin: Seq<char>, worker_codex_home: Seq<char>, sandbox: Seq<char>, timestamp: Seq<char>, raw_events_file: Seq<char>, role_config_snapshot: JVal) -> Seq<(Seq<char>, JVal)> {
    seq![
        ("mismatch_summary"@, JVal::Null),
        ("recorded_at"@, JVal::Str(timestamp)),
        ("raw_events_file"@, JVal::Str(raw_events_file)),
        ("role_config_snapshot"@, role_config_snapshot),
    ]
}

fn push_spawn_launch_evidence_members_2(m: &mut Vec<(String, Json)>, codex_bin: &str, worker_codex_home: &str, sandbox: &str, timestamp: &str, raw_events_file: &str, role_config_snapshot: &Json)
    ensures
        members_view(final(m)@) == members_view(old(m)@) + spawn_launch_evidence_members_2(codex_bin@, worker_codex_home@, sandbox@, timestamp@, raw_events_file@, jview(*role_config_snapshot)),
{
    let ghost start = members_view(m@);
    m.push(member("mismatch_summary", Json::Null));
    m.push(member("recorded_at", jstr(timestamp)));
    m.push(member("raw_events_file", jstr(raw_events_file)));
    m.push(member("role_config_snapshot", role_config_snapshot.deep_clone()));
    assert(members_view(m@) =~= start + spawn_launch_evidence_members_2(codex_bin@, worker_codex_home@, sandbox@, timestamp@, raw_events_file@, jview(*role_config_snapshot)));
}

/// The launch evidence of a spawned worker.
pub open spec fn spawn_launch_evidence_members(codex_bin: Seq<char>, worker_codex_home: Seq<char>, sandbox: Seq<char>, timestamp: Seq<char>, raw_events_file: Seq<char>, role_config_snapshot: JVal) -> Seq<(Seq<char>, JVal)> {
    spawn_launch_evidence_members_1(codex_bin, worker_codex_home, sandbox, timestamp, raw_events_file, role_config_snapshot) + spawn_launch_evidence_members_2(codex_bin, worker_codex_home, sandbox, timestamp, raw_events_file, role_config_snapshot)
}

fn push_spawn_launch_evidence_members(m: &mut Vec<(String, Json)>, codex_bin: &str, worker_codex_home: &str, sandbox: &str, timestamp: &str, raw_events_file: &str, role_config_snapshot: &Json)
    ensures
        members_view(final(m)@) == members_view(old(m)@) + spawn_launch_evidence_members(codex_bin@, worker_codex_home@, sandbox@, timestamp@, raw_events_file@, jview(*role_config_snapshot)),
{
    let ghost start = members_view(m@);
    push_spawn_launch_evidence_members_1(m, codex_bin, worker_codex_home, sandbox, timestamp, raw_events_file, role_config_snapshot);
    push_spawn_launch_evidence_members_2(m, codex_bin, worker_codex_home, sandbox, timestamp, raw_events_file, role_config_snapshot);
    assert(members_view(m@) =~= start + spawn_launch_evidence_members(codex_bin@, worker_codex_home@, sandbox@, timestamp@, raw_events_file@, jview(*role_config_snapshot)));
}

fn spawn_child_agent(agent: &str, role: &str, task_card_id: &str) -> (r: Json)
    ensures
        jview(r) == JVal::Object(spawn_child_agent_members(agent@, role@, task_card_id@)),
{
    let mut m: Vec<(String, Json)> = Vec::new();
    push_spawn_child_agent_members(&mut m, agent, role, task_card_id);
    assert(members_view(m@) =~= spawn_child_agent_members(agent@, role@, task_card_id@));
    object_of(m)
}

fn spawn_executor(agent: &str, task_card_id: &str, delegation_id: &str) -> (r: Json)
    ensures
        jview(r) == JVal::Object(spawn_executor_members(agent@, task_card_id@, delegation_id@)),
{
    let mut m: Vec<(String, Json)> = Vec::new();
    push_spawn_executor_members(&mut m, agent, task_card_id, delegation_id);
    assert(members_view(m@) =~= spawn_executor_members(agent@, task_card_id@, delegation_id@));
    object_of(m)
}

fn spawn_worker_request(task: &Json, prompt: &str, sandbox: &str) -> (r: Json)
    ensures
        jview(r) == JVal::Object(spawn_worker_request_members(jview(*task), prompt@, sandbox@)),
{
    let mut m: Vec<(String, Json)> = Vec::new();
    push_spawn_worker_request_members(&mut m, task, prompt, sandbox);
    assert(members_view(m@) =~= spawn_worker_request_members(jview(*task), prompt@, sandbox@));
    object_of(m)
}

fn spawn_launch_evidence(codex_bin: &str, worker_codex_home: &str, sandbox: &str, timestamp: &str, raw_events_file: &str, role_config_snapshot: &Json) -> (r: Json)
    ensures
        jview(r) == JVal::Object(spawn_launch_evidence_members(codex_bin@, worker_codex_home@, sandbox@, timestamp@, raw_events_file@, jview(*role_config_snapshot))),
{
    let mut m: Vec<(String, Json)> = Vec::new();
    push_spawn_launch_evidence_members(&mut m, codex_bin, worker_codex_home, sandbox, timestamp, raw_events_file, role_config_snapshot);
    assert(members_view(m@) =~= spawn_launch_evidence_members(codex_bin@, worker_codex_home@, sandbox@, timestamp@, raw_events_file@, jview(*role_config_snapshot)));
    object_of(m)
}

/// Part 1 of `spawn_delegation_members`.
pub open spec fn spawn_delegation_members_1(task: JVal, delegation_id: Seq<char>, task_card_id: Seq<char>, agent: Seq<char>, role: Seq<char>, sandbox: Seq<char>, prompt: Seq<char>, codex_bin: Seq<char>, worker_codex_home: Seq<char>, timestamp: Seq<char>, raw_events_file: Seq<char>, role_config_snapshot: JVal, model_launch_evidence: JVal) -> Seq<(Seq<char>, JVal)> {
    seq![
        ("delegation_id"@, JVal::Str(delegation_id)),
        ("run_id"@, or_null(jget(task, "run_id"@))),
        ("task_card_id"@, JVal::Str(task_card_id)),
        ("delegated_by_role"@, JVal::Str("orchestrator"@)),
        ("review_round"@, JVal::Null),
    ]
}

fn push_spawn_delegation_members_1(m: &mut Vec<(String, Json)>, task: &Json, delegation_id: &str, task_card_id: &str, agent: &str, role: &str, sandbox: &str, prompt: &str, codex_bin: &str, worker_codex_home: &str, timestamp: &str, raw_events_file: &str, role_config_snapshot: &Json, model_launch_evidence: &Json)
    ensures
        members_view(final(m)@) == members_view(old(m)@) + spawn_delegation_members_1(jview(*task), delegation_id@, task_card_id@, agent@, role@, sandbox@, prompt@, codex_bin@, worker_codex_home@, timestamp@, raw_events_file@, jview(*role_config_snapshot), jview(*model_launch_evidence)),
{
    let ghost start = members_view(m@);
    m.push(member("delegation_id", jstr(delegation_id)));
    m.push(member("run_id", clone_or(get_ref(task, "run_id"), Json::Null)));
    m.push(member("task_card_id", jstr(task_card_id)));
    m.push(member("delegated_by_role", jstr("orchestrator")));
    m.push(member("review_round", Json::Null));
    assert(members_view(m@) =~= start + spawn_delegation_members_1(jview(*task), delegation_id@, task_card_id@, agent@, role@, sandbox@, prompt@, codex_bin@, worker_codex_home@, timestamp@, raw_events_file@, jview(*role_config_snapshot), jview(*model_launch_evidence)));
}

/// Part 2 of `spawn_delegation_members`.
pub open spec fn spawn_delegation_members_2(task: JVal, delegation_id: Seq<char>, task_card_id: Seq<char>, agent: Seq<char>, role: Seq<char>, sandbox: Seq<char>, prompt: Seq<char>, codex_bin: Seq<char>, worker_codex_home: Seq<char>, timestamp: Seq<char>, raw_events_file: Seq<char>, role_config_snapshot: JVal, model_launch_evidence: JVal) -> Seq<(Seq<char>, JVal)> {
    seq![
        ("summary"@, JVal::Str(spec_spawn_summary(task, agent))),
        ("child_agent"@, JVal::Object(spawn_child_agent_members(agent, role, task_card_id))),
        ("executor"@, JVal::Object(spawn_executor_members(agent, task_card_id, delegation_id))),
        ("worker_request"@, JVal::Object(spawn_worker_request_members(task, prompt, sandbox))),
        ("worker_launch_evidence"@, JVal::Object(spawn_launch_evidence_members(codex_bin, worker_codex_home, sandbox, timestamp, raw_events_file, role_config_snapshot))),
    ]
}

fn push_spawn_delegation_members_2(m: &mut Vec<(String, Json)>, task: &Json, delegation_id: &str, task_card_id: &str, agent: &str, role: &str, sandbox: &str, prompt: &str, codex_bin: &str, worker_codex_home: &str, timestamp: &str, raw_events_file: &str, role_config_snapshot: &Json, model_launch_evidence: &Json)
    ensures
        members_view(final(m)@) == members_view(old(m)@) + spawn_delegation_members_2(jview(*task), delegation_id@, task_card_id@, agent@, role@, sandbox@, prompt@, codex_bin@, worker_codex_home@, timestamp@, raw_events_file@, jview(*role_config_snapshot), jview(*model_launch_evidence)),
{
    let ghost start = members_view(m@);
    m.push(member("summary", jstring(spawn_summary(task, agent))));
    m.push(member("child_agent", spawn_child_agent(agent, role, task_card_id)));
    m.push(member("executor", spawn_executor(agent, task_card_id, delegation_id)));
    m.push(member("worker_request", spawn_worker_request(task, prompt, sandbox)));
    m.push(member("worker_launch_evidence", spawn_launch_evidence(codex_bin, worker_codex_home, sandbox, timestamp, raw_events_file, role_config_snapshot)));
    assert(members_view(m@) =~= start + spawn_delegation_members_2(jview(*task), delegation_id@, task_card_id@, agent@, role@, sandbox@, prompt@, codex_bin@, worker_codex_home@, timestamp@, raw_events_file@, jview(*role_config_snapshot), jview(*model_launch_evidence)));
}

/// Part 3 of `spawn_delegation_members`.
pub open spec fn spawn_delegation_members_3(task: JVal, delegation_id: Seq<char>, task_card_id: Seq<char>, agent: Seq<char>, role: Seq<char>, sandbox: Seq<char>, prompt: Seq<char>, codex_bin: Seq<char>, worker_codex_home: Seq<char>, timestamp: Seq<char>, raw_events_file: Seq<char>, role_config_snapshot: JVal, model_launch_evidence: JVal, lifecycle: JVal) -> Seq<(Seq<char>, JVal)> {
    seq![
        ("role_config_snapshot"@, or_null(jget(task, "role_config_snapshot"@))),
        ("latest_model_launch"@, model_launch_evidence),
        ("worker_lifecycle"@, lifecycle),
        ("worker_result"@, JVal::Null),
        ("result_summary"@, JVal::Null),
    ]
}

fn push_spawn_delegation_members_3(m: &mut Vec<(String, Json)>, task: &Json, delegation_id: &str, task_card_id: &str, agent: &str, role: &str, sandbox: &str, prompt: &str, codex_bin: &str, worker_codex_home: &str, timestamp: &str, raw_events_file: &str, role_config_snapshot: &Json, model_launch_evidence: &Json, lifecycle: Json)
    ensures
        members_view(final(m)@) == members_view(old(m)@) + spawn_delegation_members_3(jview(*task), delegation_id@, task_card_id@, agent@, role@, sandbox@, prompt@, codex_bin@, worker_codex_home@, timestamp@, raw_events_file@, jview(*role_config_snapshot), jview(*model_launch_evidence), jview(lifecycle)),
{
    let ghost start = members_view(m@);
    let ghost lifecycle_view = jview(lifecycle);
    m.push(member("role_config_snapshot", clone_or(get_ref(task, "role_config_snapshot"), Json::Null)));
    m.push(member("latest_model_launch", model_launch_evidence.deep_clone()));
    m.push(member("worker_lifecycle", lifecycle));
    m.push(member("worker_result", Json::Null));
    m.push(member("result_summary", Json::Null));
    assert(members_view(m@) =~= start + spawn_delegation_members_3(jview(*task), delegation_id@, task_card_id@, agent@, role@, sandbox@, prompt@, codex_bin@, worker_codex_home@, timestamp@, raw_events_file@, jview(*role_config_snapshot), jview(*model_launch_evidence), lifecycle_view));
}

/// Part 4 of `spawn_delegation_members`.
pub open spec fn spawn_delegation_members_4(task: JVal, delegation_id: Seq<char>, task_card_id: Seq<char>, agent: Seq<char>, role: Seq<char>, sandbox: Seq<char>, prompt: Seq<char>, codex_bin: Seq<char>, worker_codex_home: Seq<char>, timestamp: Seq<char>, raw_events_file: Seq<char>, role_config_snapshot: JVal, model_launch_evidence: JVal) -> Seq<(Seq<char>, JVal)> {
    seq![
        ("reviewer_outcome"@, JVal::Null),
        ("latest_failure"@, JVal::Null),
        ("created_at"@, JVal::Str(timestamp)),
        ("updated_at"@, JVal::Str(timestamp)),
        ("completed_at"@, JVal::Null),
    ]
}

fn push_spawn_delegation_members_4(m: &mut Vec<(String, Json)>, task: &Json, delegation_id: &str, task_card_id: &str, agent: &str, role: &str, sandbox: &str, prompt: &str, codex_bin: &str, worker_codex_home: &str, timestamp: &str, raw_events_file: &str, role_config_snapshot: &Json, model_launch_evidence: &Json)
    ensures
        members_view(final(m)@) == members_view(old(m)@) + spawn_delegation_members_4(jview(*task), delegation_id@, task_card_id@, agent@, role@, sandbox@, prompt@, codex_bin@, worker_codex_home@, timestamp@, raw_events_file@, jview(*role_config_snapshot), jview(*model_launch_evidence)),
{
    let ghost start = members_view(m@);
    m.push(member("reviewer_outcome", Json::Null));
    m.push(member("latest_failure", Json::Null));
    m.push(member("created_at", jstr(timestamp)));
    m.push(member("updated_at", jstr(timestamp)));
    m.push(member("completed_at", Json::Null));
    assert(members_view(m@) =~= start + spawn_delegation_members_4(jview(*task), delegation_id@, task_card_id@, agent@, role@, sandbox@, prompt@, codex_bin@, worker_codex_home@, timestamp@, raw_events_file@, jview(*role_config_snapshot), jview(*model_launch_evidence)));
}

/// The delegation record of a spawned worker.
pub open spec fn spawn_delegation_members(task: JVal, delegation_id: Seq<char>, task_card_id: Seq<char>, agent: Seq<char>, role: Seq<char>, sandbox: Seq<char>, prompt: Seq<char>, codex_bin: Seq<char>, worker_codex_home: Seq<char>, timestamp: Seq<char>, raw_events_file: Seq<char>, role_config_snapshot: JVal, model_launch_evidence: JVal, lifecycle: JVal) -> Seq<(Seq<char>, JVal)> {
    spawn_delegation_members_1(task, delegation_id, task_card_id, agent, role, sandbox, prompt, codex_bin, worker_codex_home, timestamp, raw_events_file, role_config_snapshot, model_launch_evidence) + spawn_delegation_members_2(task, delegation_id, task_card_id, agent, role, sandbox, prompt, codex_bin, worker_codex_home, timestamp, raw_events_file, role_config_snapshot, model_launch_evidence) + spawn_delegation_members_3(task, delegation_id, task_card_id, agent, role, sandbox, prompt, codex_bin, worker_codex_home, timestamp, raw_events_file, role_config_snapshot, model_launch_evidence, lifecycle) + spawn_delegation_members_4(task, delegation_id, task_card_id, agent, role, sandbox, prompt, codex_bin, worker_codex_home, timestamp, raw_events_file, role_config_snapshot, model_launch_evidence)
}

fn push_spawn_delegation_members(m: &mut Vec<(String, Json)>, task: &Json, delegation_id: &str, task_card_id: &str, agent: &str, role: &str, sandbox: &str, prompt: &str, codex_bin: &str, worker_codex_home: &str, timestamp: &str, raw_events_file: &str, role_config_snapshot: &Json, model_launch_evidence: &Json, lifecycle: Json)
    ensures
        members_view(final(m)@) == members_view(old(m)@) + spawn_delegation_members(jview(*task), delegation_id@, task_card_id@, agent@, role@, sandbox@, prompt@, codex_bin@, worker_codex_home@, timestamp@, raw_events_file@, jview(*role_config_snapshot), jview(*model_launch_evidence), jview(lifecycle)),
{
    let ghost start = members_view(m@);
    let ghost lifecycle_view = jview(lifecycle);
    push_spawn_delegation_members_1(m, task, delegation_id, task_card_id, agent, role, sandbox, prompt, codex_bin, worker_codex_home, timestamp, raw_events_file, role_config_snapshot, model_launch_evidence);
    push_spawn_delegation_members_2(m, task, delegation_id, task_card_id, agent, role, sandbox, prompt, codex_bin, worker_codex_home, timestamp, raw_events_file, role_config_snapshot, model_launch_evidence);
    push_spawn_delegation_members_3(m, task, delegation_id, task_card_id, agent, role, sandbox, prompt, codex_bin, worker_codex_home, timestamp, raw_events_file, role_config_snapshot, model_launch_evidence, lifecycle);
    push_spawn_delegation_members_4(m, task, delegation_id, task_card_id, agent, role, sandbox, prompt, codex_bin, worker_codex_home, timestamp, raw_events_file, role_config_snapshot, model_launch_evidence);
    assert(members_view(m@) =~= start + spawn_delegation_members(jview(*task), delegation_id@, task_card_id@, agent@, role@, sandbox@, prompt@, codex_bin@, worker_codex_home@, timestamp@, raw_events_file@, jview(*role_config_snapshot), jview(*model_launch_evidence), lifecycle_view));
}

/// The delegation record written when a worker is spawned for a task (an
/// error when the task has no task card id): the worker runs the task's
/// execution prompt in the task's sandbox, and its lifecycle starts
/// `launching` at `timestamp`.
pub open spec fn spec_spawn_delegation_payload(
    task: JVal,
    delegation_id: Seq<char>,
    timestamp: Seq<char>,
    codex_bin: Seq<char>,
    worker_codex_home: Seq<char>,
    raw_events_file: Seq<char>,
    role_config_snapshot: JVal,
    model_launch_evidence: JVal,
    runtime_config: Option<JVal>,
) -> Result<JVal, Seq<char>> {
    match jstr_field(task, "task_card_id"@) {
        Some(task_card_id) => {
            let role = spec_spawn_role(task);
            Ok(
                JVal::Object(
                    spawn_delegation_members(
                        task,
                        delegation_id,
                        task_card_id,
                        spec_spawn_agent(task, role),
                        role,
                        spec_spawn_sandbox_mode(task, role),
                        crate::worker_prompt::spec_task_execution_prompt(task, runtime_config),
                        codex_bin,
                        worker_codex_home,
                        timestamp,
                        raw_events_file,
                        role_config_snapshot,
                        model_launch_evidence,
                        crate::worker_prompt::spec_delegation_worker_lifecycle_record(
                            timestamp,
                            "launching"@,
                            "not_needed"@,
                            Some(timestamp),
                            None,
                            None,
                            None,
                            None,
                            None,
                            runtime_config,
                        ),
                    ),
                ),
            )
        },
        None => Err("task card is missing task_card_id."@),
    }
}

pub fn create_spawn_delegation_payload(
    task_card: &Json,
    delegation_id: &str,
    timestamp: &str,
    codex_bin: &str,
    worker_codex_home: &str,
    raw_events_file: &str,
    role_config_snapshot: &Json,
    model_launch_evidence: &Json,
    runtime_config: Option<&Json>,
) -> (r: Result<Json, String>)
    ensures
        match (r, spec_spawn_delegation_payload(
            jview(*task_card),
            delegation_id@,
            timestamp@,
            codex_bin@,
            worker_codex_home@,
            raw_events_file@,
            jview(*role_config_snapshot),
            jview(*model_launch_evidence),
            match runtime_config {
                Some(c) => Some(jview(*c)),
                None => None,
            },
        )) {
            (Ok(j), Ok(v)) => jview(j) == v,
            (Err(e), Err(m)) => e@ == m,
            _ => false,
        },
{
    let task_card_id = match task_card.str_field("task_card_id") {
        Some(t) => t,
        None => return Err(to_owned("task card is missing task_card_id.")),
    };
    let role = spawn_role(task_card);
    let agent = spawn_agent(task_card, role);
    let sandbox = spawn_sandbox_mode(task_card, role);
    let prompt = crate::worker_prompt::build_task_execution_prompt(task_card, runtime_config);
    let lifecycle = crate::worker_prompt::create_delegation_worker_lifecycle_record(
        timestamp,
        "launching",
        "not_needed",
        Some(timestamp),
        None,
        None,
        None,
        None,
        None,
        runtime_config,
    );
    let mut m: Vec<(String, Json)> = Vec::new();
    push_spawn_delegation_members(
        &mut m,
        task_card,
        delegation_id,
        task_card_id,
        agent,
        role,
        sandbox,
        prompt.as_str(),
        codex_bin,
        worker_codex_home,
        timestamp,
        raw_events_file,
        role_config_snapshot,
        model_launch_evidence,
        lifecycle,
    );
    Ok(object_of(m))
}

/// A child status after which a delegation does no more work.
pub open spec fn is_settled_status(s: Option<Seq<char>>) -> bool {
    s == Some("completed"@) || s == Some("failed"@) || s == Some("cancelled"@)
}

/// Whether a launched delegation has already settled (its child agent
/// completed, failed or was cancelled).
pub fn launch_settled(delegation: &Json) -> (r: bool)
    ensures
        r == is_settled_status(jstr_at(jview(*delegation), seq!["child_agent"@, "status"@])),
{
    let keys: [&str; 2] = ["child_agent", "status"];
    assert(keys@.map_values(|k: &str| k@) =~= seq!["child_agent"@, "status"@]);
    let s = delegation.str_at(keys.as_slice());
    crate::strings::opt_str_is(s, "completed") || crate::strings::opt_str_is(s, "failed")
        || crate::strings::opt_str_is(s, "cancelled")
}

/// The delegation after its supervisor was launched: the supervisor's
/// process id and spec file recorded in its launch evidence (when that is
/// an object).
pub open spec fn spec_record_supervisor_launch(d: JVal, process_id: u32, spec_file: Seq<char>) -> JVal {
    match jget(d, "worker_launch_evidence"@) {
        Some(e) => if d is Object && e is Object {
            crate::json::jinsert(
                d,
                "worker_launch_evidence"@,
                crate::json::jinsert(
                    crate::json::jinsert(e, "supervisor_process_id"@, JVal::Num(process_id as int)),
                    "supervisor_spec_file"@,
                    JVal::Str(spec_file),
                ),
            )
        } else {
            d
        },
        None => d,
    }
}

pub fn record_supervisor_launch(delegation: &mut Json, process_id: u32, spec_file: &str)
    ensures
        jview(*final(delegation)) == spec_record_supervisor_launch(jview(*old(delegation)), process_id, spec_file@),
{
    if !delegation.is_object() {
        return;
    }
    let e = match delegation.get("worker_launch_evidence") {
        Some(e) => if e.is_object() {
            e.deep_clone()
        } else {
            return;
        },
        None => return,
    };
    let mut e2 = e;
    e2.insert("supervisor_process_id", crate::json::juint(process_id as u64));
    e2.insert("supervisor_spec_file", jstr(spec_file));
    delegation.insert("worker_launch_evidence", e2);
}

/// The lifecycle of a delegation whose worker process has started.
pub open spec fn launched_lifecycle(l: JVal, launched_at: Seq<char>, process_id: u32) -> JVal {
    let at = JVal::Str(launched_at);
    crate::json::jinsert(
        crate::json::jinsert(
            crate::json::jinsert(
                crate::json::jinsert(
                    crate::json::jinsert(
                        crate::json::jinsert(
                            crate::json::jinsert(l, "state"@, JVal::Str("running_quiet"@)),
                            "started_at"@,
                            at,
                        ),
                        "process_id"@,
                        JVal::Num(process_id as int),
                    ),
                    "process_started_at"@,
                    at,
                ),
                "process_last_seen_at"@,
                at,
            ),
            "last_progress_at"@,
            at,
        ),
        "summary"@,
        JVal::Str("Detached worker supervisor launched the Codex child."@),
    )
}

/// The delegation once its worker process has started: updated at
/// `launched_at`, and its lifecycle (when an object) running quietly with
/// the process id and start time.
pub open spec fn spec_launched_delegation(d: JVal, launched_at: Seq<char>, process_id: u32) -> JVal {
    let d1 = crate::json::jinsert(d, "updated_at"@, JVal::Str(launched_at));
    match jget(d1, "worker_lifecycle"@) {
        Some(l) => if d is Object && l is Object {
            crate::json::jinsert(d1, "worker_lifecycle"@, launched_lifecycle(l, launched_at, process_id))
        } else {
            d1
        },
        None => d1,
    }
}

pub fn mark_worker_launched(delegation: &mut Json, launched_at: &str, process_id: u32)
    ensures
        jview(*final(delegation)) == spec_launched_delegation(jview(*old(delegation)), launched_at@, process_id),
{
    let ghost d0 = jview(*delegation);
    if !delegation.is_object() {
        return;
    }
    delegation.insert("updated_at", jstr(launched_at));
    let l = match delegation.get("worker_lifecycle") {
        Some(l) => if l.is_object() {
            l.deep_clone()
        } else {
            return;
        },
        None => return,
    };
    let mut l2 = l;
    l2.insert("state", jstr("running_quiet"));
    l2.insert("started_at", jstr(launched_at));
    l2.insert("process_id", crate::json::juint(process_id as u64));
    l2.insert("process_started_at", jstr(launched_at));
    l2.insert("process_last_seen_at", jstr(launched_at));
    l2.insert("last_progress_at", jstr(launched_at));
    l2.insert("summary", jstr("Detached worker supervisor launched the Codex child."));
    delegation.insert("worker_lifecycle", l2);
}

/// The arguments of the Codex child: an ephemeral JSON run in the sandbox,
/// the role's profile and model when set, each config override, and the
/// prompt read from standard input.
pub open spec fn spec_codex_exec_arguments(sandbox_mode: Seq<char>, snapshot: JVal) -> Seq<Seq<char>> {
    seq!["exec"@, "--ignore-user-config"@, "--ephemeral"@, "--json"@, "--sandbox"@, sandbox_mode, "--skip-git-repo-check"@]
        + match crate::custom_agent::spec_trimmed_nonblank(jstr_field(snapshot, "profile"@)) {
        Some(p) => seq!["--profile"@, p],
        None => Seq::empty(),
    } + match crate::custom_agent::spec_trimmed_nonblank(jstr_field(snapshot, "model"@)) {
        Some(m) => seq!["--model"@, m],
        None => Seq::empty(),
    } + override_arguments(crate::role_payloads::spec_config_overrides(snapshot)) + seq!["-"@]
}

/// `-c <entry>` for each config override.
pub open spec fn override_arguments(entries: Seq<Seq<char>>) -> Seq<Seq<char>>
    decreases entries.len(),
{
    if entries.len() == 0 {
        Seq::empty()
    } else {
        override_arguments(entries.drop_last()) + seq!["-c"@, entries.last()]
    }
}

fn push_arg(args: &mut Vec<String>, s: String)
    ensures
        final(args)@.map_values(|x: String| x@) == old(args)@.map_values(|x: String| x@).push(s@),
{
    let ghost before = args@.map_values(|x: String| x@);
    let ghost sv = s@;
    args.push(s);
    assert(args@.map_values(|x: String| x@) =~= before.push(sv));
}

pub fn codex_exec_arguments(sandbox_mode: &str, role_config_snapshot: &Json) -> (r: Vec<String>)
    ensures
        r@.map_values(|x: String| x@) == spec_codex_exec_arguments(sandbox_mode@, jview(*role_config_snapshot)),
{
    let mut args: Vec<String> = Vec::new();
    push_arg(&mut args, to_owned("exec"));
    push_arg(&mut args, to_owned("--ignore-user-config"));
    push_arg(&mut args, to_owned("--ephemeral"));
    push_arg(&mut args, to_owned("--json"));
    push_arg(&mut args, to_owned("--sandbox"));
    push_arg(&mut args, to_owned(sandbox_mode));
    push_arg(&mut args, to_owned("--skip-git-repo-check"));
    let ghost head = args@.map_values(|x: String| x@);
    match crate::custom_agent::trimmed_nonblank(role_config_snapshot.str_field("profile")) {
        Some(p) => {
            push_arg(&mut args, to_owned("--profile"));
            push_arg(&mut args, p);
        },
        None => {},
    }
    match crate::custom_agent::trimmed_nonblank(role_config_snapshot.str_field("model")) {
        Some(m) => {
            push_arg(&mut args, to_owned("--model"));
            push_arg(&mut args, m);
        },
        None => {},
    }
    let ghost mid = args@.map_values(|x: String| x@);
    let entries = crate::role_payloads::collect_codex_config_overrides(role_config_snapshot);
    let ghost ev = entries@.map_values(|s: String| s@);
    let mut i: usize = 0;
    assert(ev.take(0) =~= Seq::<Seq<char>>::empty());
    while i < entries.len()
        invariant
            i <= entries.len(),
            ev == entries@.map_values(|s: String| s@),
            args@.map_values(|x: String| x@) == mid + override_arguments(ev.take(i as int)),
        decreases entries.len() - i,
    {
        assert(ev.take(i + 1).drop_last() =~= ev.take(i as int));
        assert(ev[i as int] == entries@[i as int]@);
        push_arg(&mut args, to_owned("-c"));
        push_arg(&mut args, to_owned(entries[i].as_str()));
        assert(args@.map_values(|x: String| x@) =~= mid + override_arguments(ev.take(i + 1)));
        i = i + 1;
    }
    assert(ev.take(entries.len() as int) =~= ev);
    push_arg(&mut args, to_owned("-"));
    args
}

/// What a supervisor needs from its spec (the fields it requires, then its
/// sandbox, prompt and role config with their defaults).
pub struct SupervisorFields {
    pub workspace_dir: String,
    pub codex_bin: String,
    pub delegation_file: String,
    pub raw_events_file: String,
    pub worker_codex_home: String,
    pub sandbox_mode: String,
    pub prompt: String,
    pub role_config_snapshot: Json,
}

/// The fields a supervisor spec must hold, in the order they are checked.
pub open spec fn required_supervisor_fields() -> Seq<Seq<char>> {
    seq!["workspace_dir"@, "codex_bin"@, "delegation_file"@, "raw_events_file"@, "worker_codex_home"@]
}

/// The first required field a spec lacks (as a string).
pub open spec fn first_missing_field(spec: JVal, fields: Seq<Seq<char>>) -> Option<Seq<char>>
    decreases fields.len(),
{
    if fields.len() == 0 {
        None
    } else if jstr_field(spec, fields[0]) is None {
        Some(fields[0])
    } else {
        first_missing_field(spec, fields.drop_first())
    }
}

fn required_text(spec: &Json, key: &str) -> (r: Result<String, String>)
    ensures
        match r {
            Ok(s) => jstr_field(jview(*spec), key@) == Some(s@),
            Err(e) => jstr_field(jview(*spec), key@) is None && e@ == "worker-supervise requires "@ + key@ + "."@,
        },
{
    match spec.str_field(key) {
        Some(s) => Ok(to_owned(s)),
        None => {
            let mut e = to_owned("worker-supervise requires ");
            push_str(&mut e, key);
            push_str(&mut e, ".");
            Err(e)
        },
    }
}

/// Checks a supervisor spec: the first missing required field gives the
/// error `worker-supervise requires <field>.`; otherwise the fields, with
/// sandbox `workspace-write`, prompt `Implement the bounded task.` and a
/// `null` role config when the spec has none.
pub fn check_supervisor_spec(spec: &Json) -> (r: Result<SupervisorFields, String>)
    ensures
        match r {
            Ok(f) => first_missing_field(jview(*spec), required_supervisor_fields()) is None
                && jstr_field(jview(*spec), "workspace_dir"@) == Some(f.workspace_dir@)
                && jstr_field(jview(*spec), "codex_bin"@) == Some(f.codex_bin@)
                && jstr_field(jview(*spec), "delegation_file"@) == Some(f.delegation_file@)
                && jstr_field(jview(*spec), "raw_events_file"@) == Some(f.raw_events_file@)
                && jstr_field(jview(*spec), "worker_codex_home"@) == Some(f.worker_codex_home@)
                && f.sandbox_mode@ == crate::app_panel_text::text_or(jstr_field(jview(*spec), "sandbox_mode"@), "workspace-write"@)
                && f.prompt@ == crate::app_panel_text::text_or(jstr_field(jview(*spec), "prompt"@), "Implement the bounded task."@)
                && jview(f.role_config_snapshot) == or_null(jget(jview(*spec), "role_config_snapshot"@)),
            Err(e) => match first_missing_field(jview(*spec), required_supervisor_fields()) {
                Some(k) => e@ == "worker-supervise requires "@ + k + "."@,
                None => false,
            },
        },
{
    proof {
        reveal_with_fuel(first_missing_field, 6);
        let f = required_supervisor_fields();
        assert(f.drop_first() =~= seq!["codex_bin"@, "delegation_file"@, "raw_events_file"@, "worker_codex_home"@]);
        assert(f.drop_first().drop_first() =~= seq!["delegation_file"@, "raw_events_file"@, "worker_codex_home"@]);
        assert(f.drop_first().drop_first().drop_first() =~= seq!["raw_events_file"@, "worker_codex_home"@]);
        assert(f.drop_first().drop_first().drop_first().drop_first() =~= seq!["worker_codex_home"@]);
        assert(f.drop_first().drop_first().drop_first().drop_first().drop_first() =~= Seq::<Seq<char>>::empty());
    }
    let workspace_dir = match required_text(spec, "workspace_dir") {
        Ok(s) => s,
        Err(e) => return Err(e),
    };
    let codex_bin = match required_text(spec, "codex_bin") {
        Ok(s) => s,
        Err(e) => return Err(e),
    };
    let delegation_file = match required_text(spec, "delegation_file") {
        Ok(s) => s,
        Err(e) => return Err(e),
    };
    let raw_events_file = match required_text(spec, "raw_events_file") {
        Ok(s) => s,
        Err(e) => return Err(e),
    };
    let worker_codex_home = match required_text(spec, "worker_codex_home") {
        Ok(s) => s,
        Err(e) => return Err(e),
    };
    let sandbox_mode = to_owned(crate::app_panel_text::or_text(spec.str_field("sandbox_mode"), "workspace-write"));
    let prompt = to_owned(crate::app_panel_text::or_text(spec.str_field("prompt"), "Implement the bounded task."));
    let role_config_snapshot = clone_or(get_ref(spec, "role_config_snapshot"), Json::Null);
    Ok(SupervisorFields {
        workspace_dir,
        codex_bin,
        delegation_file,
        raw_events_file,
        worker_codex_home,
        sandbox_mode,
        prompt,
        role_config_snapshot,
    })
}

/// The record a supervisor returns when its worker has finished.
pub open spec fn spec_supervisor_result(
    spec: JVal,
    process_id: u32,
    status: Seq<char>,
    completed_at: Seq<char>,
    summary: Seq<char>,
) -> JVal {
    JVal::Object(
        seq![
            ("delegation_id"@, or_null(jget(spec, "delegation_id"@))),
            ("process_id"@, JVal::Num(process_id as int)),
            ("status"@, JVal::Str(status)),
            ("completed_at"@, JVal::Str(completed_at)),
            ("result_summary"@, JVal::Str(summary)),
        ],
    )
}

pub fn create_supervisor_result(spec: &Json, process_id: u32, status: &str, completed_at: &str, summary: &str) -> (r: Json)
    ensures
        jview(r) == spec_supervisor_result(jview(*spec), process_id, status@, completed_at@, summary@),
{
    let mut m: Vec<(String, Json)> = Vec::new();
    m.push(member("delegation_id", clone_or(get_ref(spec, "delegation_id"), Json::Null)));
    m.push(member("process_id", crate::json::juint(process_id as u64)));
    m.push(member("status", jstr(status)));
    m.push(member("completed_at", jstr(completed_at)));
    m.push(member("result_summary", jstr(summary)));
    let r = object_of(m);
    assert(members_view(m@) =~= spec_supervisor_result(jview(*spec), process_id, status@, completed_at@, summary@)->Object_0);
    r
}

/// The launch result reported after a spawn: the delegation's ids and
/// files, its terminal status when it already settled, its worker state
/// (`launching` until recorded), and its completion and summary.
pub open spec fn spec_launch_result(
    delegation: JVal,
    delegation_id: Seq<char>,
    raw_events_file: Seq<char>,
    agent: Seq<char>,
    role: Seq<char>,
    launched_at: Seq<char>,
) -> JVal {
    let status = jstr_at(delegation, seq!["child_agent"@, "status"@]);
    JVal::Object(
        seq![
            ("delegation_id"@, JVal::Str(delegation_id)),
            ("raw_events_file"@, JVal::Str(raw_events_file)),
            ("child_agent_id"@, JVal::Str(agent)),
            ("assigned_role"@, JVal::Str(role)),
            ("launched_at"@, JVal::Str(launched_at)),
            (
                "terminal_status"@,
                if is_settled_status(status) {
                    crate::json::jopt_str(status)
                } else {
                    JVal::Null
                },
            ),
            (
                "worker_state"@,
                JVal::Str(
                    match jstr_at(delegation, seq!["worker_lifecycle"@, "state"@]) {
                        Some(s) => s,
                        None => "launching"@,
                    },
                ),
            ),
            ("completed_at"@, or_null(jget(delegation, "completed_at"@))),
            ("result_summary"@, or_null(jget(delegation, "result_summary"@))),
        ],
    )
}

pub fn create_launch_result(
    delegation: &Json,
    delegation_id: &str,
    raw_events_file: &str,
    agent: &str,
    role: &str,
    launched_at: &str,
) -> (r: Json)
    ensures
        jview(r) == spec_launch_result(jview(*delegation), delegation_id@, raw_events_file@, agent@, role@, launched_at@),
{
    let k1: [&str; 2] = ["child_agent", "status"];
    let k2: [&str; 2] = ["worker_lifecycle", "state"];
    assert(k1@.map_values(|k: &str| k@) =~= seq!["child_agent"@, "status"@]);
    assert(k2@.map_values(|k: &str| k@) =~= seq!["worker_lifecycle"@, "state"@]);
    let terminal = if launch_settled(delegation) {
        crate::json::jopt(delegation.str_at(k1.as_slice()))
    } else {
        Json::Null
    };
    let state = match delegation.str_at(k2.as_slice()) {
        Some(s) => s,
        None => "launching",
    };
    let mut m: Vec<(String, Json)> = Vec::new();
    m.push(member("delegation_id", jstr(delegation_id)));
    m.push(member("raw_events_file", jstr(raw_events_file)));
    m.push(member("child_agent_id", jstr(agent)));
    m.push(member("assigned_role", jstr(role)));
    m.push(member("launched_at", jstr(launched_at)));
    m.push(member("terminal_status", terminal));
    m.push(member("worker_state", jstr(state)));
    m.push(member("completed_at", clone_or(get_ref(delegation, "completed_at"), Json::Null)));
    m.push(member("result_summary", clone_or(get_ref(delegation, "result_summary"), Json::Null)));
    let r = object_of(m);
    assert(members_view(m@) =~= spec_launch_result(jview(*delegation), delegation_id@, raw_events_file@, agent@, role@, launched_at@)->Object_0);
    r
}

} // verus!
