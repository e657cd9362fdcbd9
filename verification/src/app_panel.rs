//! The Codex app panel payload: a compact view of the status payload for a
//! host app (run, LongWay progress, current task, specialist lanes, fan-in,
//! blockers, target workspace, workspace state and warnings).

use vstd::prelude::*;
use crate::json::{
    jbool, jget, jget_or, jget_path, jinsert, jstr, jstr_at, jstr_field, jview, juint, lemma_array_view,
    member, members_view, opt_bool, opt_u64,
    object_of, JVal, Json,
};
use crate::roles::{
    agent_id_for_role, display_custom_agent_name, normalize_dispatch_role_hint, role_for_display_agent,
    spec_agent_id_for_role, spec_display_custom_agent_name, spec_normalize_dispatch_role_hint,
    spec_role_for_display_agent,
};
use crate::roles_config::{
    create_empty_role_config_snapshot, first_present, load_role_config_snapshot_from_config,
    spec_empty_role_snapshot, spec_role_snapshot,
};
use crate::run_health::array_items;
use crate::status_templates::{default_direct_file_mutation_policy, spec_default_direct_file_mutation_policy};
use crate::worker_events::opt_jview_ref;
use crate::strings::{concat3, is_blank, opt_string_view, opt_view, str_eq, to_owned, trim};
use crate::worker_fleet::jviews;

verus! {

/// The value, or `null` when there is none.
pub open spec fn or_null(o: Option<JVal>) -> JVal {
    match o {
        Some(v) => v,
        None => JVal::Null,
    }
}

/// The value, or `fallback` when there is none.
pub open spec fn or_else(o: Option<JVal>, fallback: JVal) -> JVal {
    match o {
        Some(v) => v,
        None => fallback,
    }
}

pub(crate) fn at2<'a>(j: &'a Json, a: &str, b: &str) -> (r: Option<&'a Json>)
    ensures
        opt_jview_ref(r) == jget_path(jview(*j), seq![a@, b@]),
{
    let keys: [&str; 2] = [a, b];
    let ks = keys.as_slice();
    assert(ks@.map_values(|k: &str| k@) =~= seq![a@, b@]);
    j.get_path(ks)
}

pub(crate) fn at3<'a>(j: &'a Json, a: &str, b: &str, c: &str) -> (r: Option<&'a Json>)
    ensures
        opt_jview_ref(r) == jget_path(jview(*j), seq![a@, b@, c@]),
{
    let keys: [&str; 3] = [a, b, c];
    let ks = keys.as_slice();
    assert(ks@.map_values(|k: &str| k@) =~= seq![a@, b@, c@]);
    j.get_path(ks)
}

pub(crate) fn at4<'a>(j: &'a Json, a: &str, b: &str, c: &str, d: &str) -> (r: Option<&'a Json>)
    ensures
        opt_jview_ref(r) == jget_path(jview(*j), seq![a@, b@, c@, d@]),
{
    let keys: [&str; 4] = [a, b, c, d];
    let ks = keys.as_slice();
    assert(ks@.map_values(|k: &str| k@) =~= seq![a@, b@, c@, d@]);
    j.get_path(ks)
}

/// A copy of the value, or `fallback` when there is none.
pub(crate) fn clone_or(o: Option<&Json>, fallback: Json) -> (r: Json)
    ensures
        jview(r) == or_else(opt_jview_ref(o), jview(fallback)),
{
    match o {
        Some(v) => v.deep_clone(),
        None => fallback,
    }
}

pub(crate) fn get_ref<'a>(j: &'a Json, key: &str) -> (r: Option<&'a Json>)
    ensures
        opt_jview_ref(r) == jget(jview(*j), key@),
{
    j.get(key)
}

/// The first of two members that is present.
pub(crate) fn first_of2<'a>(j: &'a Json, a: &str, b: &str) -> (r: Option<&'a Json>)
    ensures
        opt_jview_ref(r) == first_present(jview(*j), seq![a@, b@]),
{
    proof {
        reveal_with_fuel(first_present, 3);
        assert(seq![a@, b@].drop_first() =~= seq![b@]);
        assert(seq![b@].drop_first() =~= Seq::<Seq<char>>::empty());
    }
    match j.get(a) {
        Some(v) => Some(v),
        None => j.get(b),
    }
}

/// A dispatch setting of a task: from its runtime dispatch, its delegation
/// plan's runtime dispatch, its delegation plan, or its role config
/// snapshot, the first that has it.
pub open spec fn spec_dispatch_setting(task: JVal, key: Seq<char>) -> Option<JVal> {
    match jget_path(task, seq!["runtime_dispatch"@, key]) {
        Some(v) => Some(v),
        None => match jget_path(task, seq!["delegation_plan"@, "runtime_dispatch"@, key]) {
            Some(v) => Some(v),
            None => match jget_path(task, seq!["delegation_plan"@, key]) {
                Some(v) => Some(v),
                None => jget_path(task, seq!["role_config_snapshot"@, key]),
            },
        },
    }
}

pub(crate) fn dispatch_setting<'a>(task: &'a Json, key: &str) -> (r: Option<&'a Json>)
    ensures
        opt_jview_ref(r) == spec_dispatch_setting(jview(*task), key@),
{
    match at2(task, "runtime_dispatch", key) {
        Some(v) => Some(v),
        None => match at3(task, "delegation_plan", "runtime_dispatch", key) {
            Some(v) => Some(v),
            None => match at2(task, "delegation_plan", key) {
                Some(v) => Some(v),
                None => at2(task, "role_config_snapshot", key),
            },
        },
    }
}

/// A LongWay phase row as the panel shows it.
pub open spec fn spec_compact_longway_row(row: JVal) -> JVal {
    JVal::Object(
        seq![
            ("id"@, or_null(first_present(row, seq!["id"@, "phase_id"@]))),
            ("title"@, or_null(first_present(row, seq!["title"@, "label"@]))),
            ("status"@, or_null(jget(row, "status"@))),
            ("owner_agent"@, or_null(first_present(row, seq!["owner_agent"@, "assigned_agent_id"@]))),
            ("summary"@, or_null(jget(row, "summary"@))),
            ("lifecycle"@, or_null(jget(row, "lifecycle"@))),
        ],
    )
}

/// The LongWay's phase rows as the panel shows them (none unless a list).
pub open spec fn spec_compact_longway_rows(payload: JVal) -> JVal {
    match jget_path(payload, seq!["longway"@, "phase_rows"@]) {
        Some(JVal::Array(rows)) => JVal::Array(rows.map_values(|r: JVal| spec_compact_longway_row(r))),
        _ => JVal::Array(Seq::empty()),
    }
}

fn compact_longway_row(row: &Json) -> (r: Json)
    ensures
        jview(r) == spec_compact_longway_row(jview(*row)),
{
    let mut m: Vec<(String, Json)> = Vec::new();
    m.push(member("id", clone_or(first_of2(row, "id", "phase_id"), Json::Null)));
    m.push(member("title", clone_or(first_of2(row, "title", "label"), Json::Null)));
    m.push(member("status", clone_or(get_ref(row, "status"), Json::Null)));
    m.push(
        member("owner_agent", clone_or(first_of2(row, "owner_agent", "assigned_agent_id"), Json::Null)),
    );
    m.push(member("summary", clone_or(get_ref(row, "summary"), Json::Null)));
    m.push(member("lifecycle", clone_or(get_ref(row, "lifecycle"), Json::Null)));
    let r = object_of(m);
    assert(members_view(m@) =~= spec_compact_longway_row(jview(*row))->Object_0);
    r
}

pub fn compact_longway_rows(payload: &Json) -> (r: Json)
    ensures
        jview(r) == spec_compact_longway_rows(jview(*payload)),
{
    let mut out: Vec<Json> = Vec::new();
    match array_items(at2(payload, "longway", "phase_rows")) {
        Some(rows) => {
            let ghost rv = jviews(rows@);
            let mut i: usize = 0;
            while i < rows.len()
                invariant
                    i <= rows.len(),
                    rv == jviews(rows@),
                    out@.len() == i,
                    forall|k: int| 0 <= k < i ==> jview(#[trigger] out@[k]) == spec_compact_longway_row(rv[k]),
                decreases rows.len() - i,
            {
                out.push(compact_longway_row(&rows[i]));
                i = i + 1;
            }
            proof {
                lemma_array_view(out);
                assert(out@.map_values(|x: Json| jview(x)) =~= rv.map_values(
                    |r: JVal| spec_compact_longway_row(r),
                ));
            }
        },
        None => {
            proof {
                lemma_array_view(out);
                assert(out@.map_values(|x: Json| jview(x)) =~= Seq::<JVal>::empty());
            }
        },
    }
    Json::Array(out)
}

/// A parallel lane as the panel shows it.
pub open spec fn spec_compact_parallel_lane(lane: JVal) -> JVal {
    JVal::Object(
        seq![
            ("lane_id"@, or_null(jget(lane, "lane_id"@))),
            ("required"@, or_else(jget(lane, "required"@), JVal::Bool(false))),
            ("scope"@, or_null(jget(lane, "scope"@))),
            ("status"@, or_null(jget_path(lane, seq!["lifecycle"@, "status"@]))),
            ("child_agent_id"@, or_null(jget_path(lane, seq!["lifecycle"@, "child_agent_id"@]))),
            ("thread_id"@, or_null(jget_path(lane, seq!["lifecycle"@, "thread_id"@]))),
            ("summary"@, or_null(jget_path(lane, seq!["lifecycle"@, "summary"@]))),
            ("fan_in_status"@, or_null(jget_path(lane, seq!["fan_in"@, "status"@]))),
        ],
    )
}

/// The current task's parallel lanes as the panel shows them.
pub open spec fn spec_compact_parallel_lanes(payload: JVal) -> JVal {
    match jget_path(payload, seq!["current_task_card"@, "parallel_fanout"@, "lanes"@]) {
        Some(JVal::Array(lanes)) => JVal::Array(lanes.map_values(|l: JVal| spec_compact_parallel_lane(l))),
        _ => JVal::Array(Seq::empty()),
    }
}

fn compact_parallel_lane(lane: &Json) -> (r: Json)
    ensures
        jview(r) == spec_compact_parallel_lane(jview(*lane)),
{
    let mut m: Vec<(String, Json)> = Vec::new();
    m.push(member("lane_id", clone_or(get_ref(lane, "lane_id"), Json::Null)));
    m.push(member("required", clone_or(get_ref(lane, "required"), jbool(false))));
    m.push(member("scope", clone_or(get_ref(lane, "scope"), Json::Null)));
    m.push(member("status", clone_or(at2(lane, "lifecycle", "status"), Json::Null)));
    m.push(member("child_agent_id", clone_or(at2(lane, "lifecycle", "child_agent_id"), Json::Null)));
    m.push(member("thread_id", clone_or(at2(lane, "lifecycle", "thread_id"), Json::Null)));
    m.push(member("summary", clone_or(at2(lane, "lifecycle", "summary"), Json::Null)));
    m.push(member("fan_in_status", clone_or(at2(lane, "fan_in", "status"), Json::Null)));
    let r = object_of(m);
    assert(members_view(m@) =~= spec_compact_parallel_lane(jview(*lane))->Object_0);
    r
}

pub fn compact_parallel_lanes(payload: &Json) -> (r: Json)
    ensures
        jview(r) == spec_compact_parallel_lanes(jview(*payload)),
{
    let mut out: Vec<Json> = Vec::new();
    match array_items(at3(payload, "current_task_card", "parallel_fanout", "lanes")) {
        Some(lanes) => {
            let ghost lv = jviews(lanes@);
            let mut i: usize = 0;
            while i < lanes.len()
                invariant
                    i <= lanes.len(),
                    lv == jviews(lanes@),
                    out@.len() == i,
                    forall|k: int| 0 <= k < i ==> jview(#[trigger] out@[k]) == spec_compact_parallel_lane(lv[k]),
                decreases lanes.len() - i,
            {
                out.push(compact_parallel_lane(&lanes[i]));
                i = i + 1;
            }
            proof {
                lemma_array_view(out);
                assert(out@.map_values(|x: Json| jview(x)) =~= lv.map_values(
                    |l: JVal| spec_compact_parallel_lane(l),
                ));
            }
        },
        None => {
            proof {
                lemma_array_view(out);
                assert(out@.map_values(|x: Json| jview(x)) =~= Seq::<JVal>::empty());
            }
        },
    }
    Json::Array(out)
}

/// The active subagents: the host subagent state's, else the active task
/// delegations', else none.
pub open spec fn spec_compact_active_subagents(payload: JVal) -> JVal {
    match jget_path(payload, seq!["host_subagent_state"@, "active_subagents"@]) {
        Some(v) => v,
        None => or_else(
            jget_path(payload, seq!["active_task_delegations"@, "active"@]),
            JVal::Array(Seq::empty()),
        ),
    }
}

pub fn compact_active_subagents(payload: &Json) -> (r: Json)
    ensures
        jview(r) == spec_compact_active_subagents(jview(*payload)),
{
    match at2(payload, "host_subagent_state", "active_subagents") {
        Some(v) => v.deep_clone(),
        None => {
            let empty: Vec<Json> = Vec::new();
            proof {
                lemma_array_view(empty);
                assert(empty@.map_values(|x: Json| jview(x)) =~= Seq::<JVal>::empty());
            }
            clone_or(at2(payload, "active_task_delegations", "active"), Json::Array(empty))
        },
    }
}

/// A Tolaria note state as the panel shows it (`null` unless an object).
pub open spec fn spec_compact_tolaria_state(value: JVal) -> JVal {
    if value is Object {
        JVal::Object(
            seq![
                ("enabled"@, or_else(jget(value, "enabled"@), JVal::Bool(false))),
                ("available"@, or_else(jget(value, "available"@), JVal::Bool(false))),
                ("state"@, or_null(jget(value, "state"@))),
                ("relative_note_path"@, or_null(jget(value, "relative_note_path"@))),
            ],
        )
    } else {
        JVal::Null
    }
}

pub fn compact_tolaria_state(value: &Json) -> (r: Json)
    ensures
        jview(r) == spec_compact_tolaria_state(jview(*value)),
{
    if !value.is_object() {
        return Json::Null;
    }
    let mut m: Vec<(String, Json)> = Vec::new();
    m.push(member("enabled", clone_or(get_ref(value, "enabled"), jbool(false))));
    m.push(member("available", clone_or(get_ref(value, "available"), jbool(false))));
    m.push(member("state", clone_or(get_ref(value, "state"), Json::Null)));
    m.push(member("relative_note_path", clone_or(get_ref(value, "relative_note_path"), Json::Null)));
    let r = object_of(m);
    assert(members_view(m@) =~= spec_compact_tolaria_state(jview(*value))->Object_0);
    r
}

/// A code graph state as the panel shows it (`null` unless an object).
pub open spec fn spec_compact_graph_state(graph: JVal) -> JVal {
    if graph is Object {
        JVal::Object(
            seq![
                ("available"@, or_else(jget(graph, "available"@), JVal::Bool(false))),
                ("repo_root"@, or_null(jget(graph, "repo_root"@))),
                ("store_path"@, or_null(jget(graph, "store_path"@))),
                ("file_count"@, or_else(jget(graph, "file_count"@), JVal::Num(0))),
                ("tolaria"@, spec_compact_tolaria_state(or_null(jget(graph, "tolaria"@)))),
            ],
        )
    } else {
        JVal::Null
    }
}

pub fn compact_graph_state(graph: &Json) -> (r: Json)
    ensures
        jview(r) == spec_compact_graph_state(jview(*graph)),
{
    if !graph.is_object() {
        return Json::Null;
    }
    let tolaria = clone_or(get_ref(graph, "tolaria"), Json::Null);
    let mut m: Vec<(String, Json)> = Vec::new();
    m.push(member("available", clone_or(get_ref(graph, "available"), jbool(false))));
    m.push(member("repo_root", clone_or(get_ref(graph, "repo_root"), Json::Null)));
    m.push(member("store_path", clone_or(get_ref(graph, "store_path"), Json::Null)));
    m.push(member("file_count", clone_or(get_ref(graph, "file_count"), juint(0))));
    m.push(member("tolaria", compact_tolaria_state(&tolaria)));
    let r = object_of(m);
    assert(members_view(m@) =~= spec_compact_graph_state(jview(*graph))->Object_0);
    r
}

/// A memory state as the panel shows it (`null` unless an object).
pub open spec fn spec_compact_memory_state(memory: JVal) -> JVal {
    if memory is Object {
        JVal::Object(
            seq![
                ("available"@, or_else(jget(memory, "available"@), JVal::Bool(false))),
                ("enabled"@, or_else(jget(memory, "enabled"@), JVal::Bool(false))),
                ("workspace"@, or_null(jget(memory, "workspace"@))),
                ("entry_count"@, or_else(jget(memory, "entry_count"@), JVal::Num(0))),
                (
                    "captain_instruction_count"@,
                    or_else(jget(memory, "captain_instruction_count"@), JVal::Num(0)),
                ),
                ("tolaria"@, spec_compact_tolaria_state(or_null(jget(memory, "tolaria"@)))),
            ],
        )
    } else {
        JVal::Null
    }
}

pub fn compact_memory_state(memory: &Json) -> (r: Json)
    ensures
        jview(r) == spec_compact_memory_state(jview(*memory)),
{
    if !memory.is_object() {
        return Json::Null;
    }
    let tolaria = clone_or(get_ref(memory, "tolaria"), Json::Null);
    let mut m: Vec<(String, Json)> = Vec::new();
    m.push(member("available", clone_or(get_ref(memory, "available"), jbool(false))));
    m.push(member("enabled", clone_or(get_ref(memory, "enabled"), jbool(false))));
    m.push(member("workspace", clone_or(get_ref(memory, "workspace"), Json::Null)));
    m.push(member("entry_count", clone_or(get_ref(memory, "entry_count"), juint(0))));
    m.push(
        member(
            "captain_instruction_count",
            clone_or(get_ref(memory, "captain_instruction_count"), juint(0)),
        ),
    );
    m.push(member("tolaria", compact_tolaria_state(&tolaria)));
    let r = object_of(m);
    assert(members_view(m@) =~= spec_compact_memory_state(jview(*memory))->Object_0);
    r
}

/// Graph context readiness as the panel shows it (`null` unless an object).
pub open spec fn spec_compact_graph_context_state(readiness: JVal) -> JVal {
    if readiness is Object {
        JVal::Object(
            seq![
                ("provider"@, or_null(jget(readiness, "provider"@))),
                ("readiness"@, or_null(jget(readiness, "readiness"@))),
                ("reason"@, or_null(jget(readiness, "reason"@))),
                ("fallback"@, or_null(jget(readiness, "fallback"@))),
                ("artifact_state"@, or_null(jget(readiness, "artifact_state"@))),
                (
                    "artifacts"@,
                    JVal::Object(
                        seq![
                            (
                                "report"@,
                                or_else(
                                    jget_path(readiness, seq!["artifacts"@, "report"@, "available"@]),
                                    JVal::Bool(false),
                                ),
                            ),
                            (
                                "graph"@,
                                or_else(
                                    jget_path(readiness, seq!["artifacts"@, "graph"@, "available"@]),
                                    JVal::Bool(false),
                                ),
                            ),
                        ],
                    ),
                ),
                (
                    "stale"@,
                    or_else(jget_path(readiness, seq!["stale"@, "is_stale"@]), JVal::Bool(false)),
                ),
            ],
        )
    } else {
        JVal::Null
    }
}

pub fn compact_graph_context_state(readiness: &Json) -> (r: Json)
    ensures
        jview(r) == spec_compact_graph_context_state(jview(*readiness)),
{
    if !readiness.is_object() {
        return Json::Null;
    }
    let mut a: Vec<(String, Json)> = Vec::new();
    a.push(member("report", clone_or(at3(readiness, "artifacts", "report", "available"), jbool(false))));
    a.push(member("graph", clone_or(at3(readiness, "artifacts", "graph", "available"), jbool(false))));
    let ghost av = members_view(a@);
    let mut m: Vec<(String, Json)> = Vec::new();
    m.push(member("provider", clone_or(get_ref(readiness, "provider"), Json::Null)));
    m.push(member("readiness", clone_or(get_ref(readiness, "readiness"), Json::Null)));
    m.push(member("reason", clone_or(get_ref(readiness, "reason"), Json::Null)));
    m.push(member("fallback", clone_or(get_ref(readiness, "fallback"), Json::Null)));
    m.push(member("artifact_state", clone_or(get_ref(readiness, "artifact_state"), Json::Null)));
    m.push(member("artifacts", object_of(a)));
    m.push(member("stale", clone_or(at2(readiness, "stale", "is_stale"), jbool(false))));
    let r = object_of(m);
    proof {
        let s = spec_compact_graph_context_state(jview(*readiness))->Object_0;
        assert(av =~= s[5].1->Object_0);
        assert(members_view(m@) =~= s);
    }
    r
}

/// The workspace state: the planning context's (else the status's) code
/// graph and memory, and the graph context readiness.
pub open spec fn spec_compact_workspace_state(payload: JVal) -> JVal {
    let graph = match jget_path(payload, seq!["longway"@, "planning_context"@, "graph"@]) {
        Some(v) => v,
        None => or_null(jget(payload, "code_graph"@)),
    };
    let memory = match jget_path(payload, seq!["longway"@, "planning_context"@, "memory"@]) {
        Some(v) => v,
        None => or_null(jget(payload, "memory"@)),
    };
    JVal::Object(
        seq![
            ("graph"@, spec_compact_graph_state(graph)),
            ("graph_context"@, spec_compact_graph_context_state(or_null(jget(payload, "graph_context"@)))),
            ("memory"@, spec_compact_memory_state(memory)),
        ],
    )
}

pub fn compact_workspace_state(payload: &Json) -> (r: Json)
    ensures
        jview(r) == spec_compact_workspace_state(jview(*payload)),
{
    let graph = match at3(payload, "longway", "planning_context", "graph") {
        Some(v) => v.deep_clone(),
        None => clone_or(get_ref(payload, "code_graph"), Json::Null),
    };
    let memory = match at3(payload, "longway", "planning_context", "memory") {
        Some(v) => v.deep_clone(),
        None => clone_or(get_ref(payload, "memory"), Json::Null),
    };
    let readiness = clone_or(get_ref(payload, "graph_context"), Json::Null);
    let mut m: Vec<(String, Json)> = Vec::new();
    m.push(member("graph", compact_graph_state(&graph)));
    m.push(member("graph_context", compact_graph_context_state(&readiness)));
    m.push(member("memory", compact_memory_state(&memory)));
    let r = object_of(m);
    assert(members_view(m@) =~= spec_compact_workspace_state(jview(*payload))->Object_0);
    r
}

/// The target workspace root as the panel shows it (`null` unless the
/// planning context records an object).
pub open spec fn spec_compact_target_workspace(payload: JVal) -> JVal {
    match jget_path(payload, seq!["longway"@, "planning_context"@, "workspace_root"@]) {
        Some(root) => if root is Object {
            JVal::Object(
                seq![
                    ("root"@, or_null(jget(root, "root"@))),
                    ("root_kind"@, or_null(jget(root, "root_kind"@))),
                    ("confidence"@, or_null(jget(root, "confidence"@))),
                    ("confirmation_required"@, or_else(jget(root, "confirmation_required"@), JVal::Bool(false))),
                    ("reason"@, or_null(jget(root, "reason"@))),
                    (
                        "candidate_count"@,
                        match jget(root, "candidates"@) {
                            Some(JVal::Array(items)) => JVal::Num(items.len() as int),
                            _ => JVal::Num(0),
                        },
                    ),
                    ("candidates"@, or_else(jget(root, "candidates"@), JVal::Array(Seq::empty()))),
                ],
            )
        } else {
            JVal::Null
        },
        None => JVal::Null,
    }
}

pub fn compact_target_workspace(payload: &Json) -> (r: Json)
    ensures
        jview(r) == spec_compact_target_workspace(jview(*payload)),
{
    let root = match at3(payload, "longway", "planning_context", "workspace_root") {
        Some(v) => v,
        None => return Json::Null,
    };
    if !root.is_object() {
        return Json::Null;
    }
    let count: u64 = match array_items(get_ref(root, "candidates")) {
        Some(items) => items.len() as u64,
        None => 0,
    };
    let empty: Vec<Json> = Vec::new();
    proof {
        lemma_array_view(empty);
        assert(empty@.map_values(|x: Json| jview(x)) =~= Seq::<JVal>::empty());
    }
    let mut m: Vec<(String, Json)> = Vec::new();
    m.push(member("root", clone_or(get_ref(root, "root"), Json::Null)));
    m.push(member("root_kind", clone_or(get_ref(root, "root_kind"), Json::Null)));
    m.push(member("confidence", clone_or(get_ref(root, "confidence"), Json::Null)));
    m.push(member("confirmation_required", clone_or(get_ref(root, "confirmation_required"), jbool(false))));
    m.push(member("reason", clone_or(get_ref(root, "reason"), Json::Null)));
    m.push(member("candidate_count", juint(count)));
    m.push(member("candidates", clone_or(get_ref(root, "candidates"), Json::Array(empty))));
    let r = object_of(m);
    assert(members_view(m@) =~= spec_compact_target_workspace(jview(*payload))->Object_0);
    r
}


/// The current task as the panel shows it (`null` unless an object).
pub open spec fn spec_compact_current_task(payload: JVal) -> JVal {
    let task = or_null(jget(payload, "current_task_card"@));
    if task is Object {
        JVal::Object(
            seq![
                (
                    "task_card_id"@,
                    match jget(task, "task_card_id"@) {
                        Some(v) => v,
                        None => or_null(jget(payload, "active_task_card_id"@)),
                    },
                ),
                ("title"@, or_null(jget(task, "title"@))),
                ("task_kind"@, or_null(jget(task, "task_kind"@))),
                ("scope"@, or_null(jget(task, "scope"@))),
                ("assigned_role"@, or_null(jget(task, "assigned_role"@))),
                ("assigned_agent_id"@, or_null(jget(task, "assigned_agent_id"@))),
                ("model"@, or_null(spec_dispatch_setting(task, "model"@))),
                ("variant"@, or_null(spec_dispatch_setting(task, "variant"@))),
                ("fast_mode"@, or_null(spec_dispatch_setting(task, "fast_mode"@))),
                ("verification_state"@, or_null(jget(task, "verification_state"@))),
                ("verification_capsule"@, or_null(jget(task, "verification_capsule"@))),
                ("delegated_ownership"@, or_null(jget(task, "delegated_ownership"@))),
                ("review_pass_count"@, or_null(jget(task, "review_pass_count"@))),
                (
                    "lifecycle"@,
                    or_null(first_present(task, seq!["subagent_lifecycle"@, "review_lifecycle"@])),
                ),
                ("fan_in"@, or_null(first_present(task, seq!["subagent_fan_in"@, "review_fan_in"@]))),
            ],
        )
    } else {
        JVal::Null
    }
}

pub fn compact_current_task(payload: &Json) -> (r: Json)
    ensures
        jview(r) == spec_compact_current_task(jview(*payload)),
{
    let task = clone_or(get_ref(payload, "current_task_card"), Json::Null);
    if !task.is_object() {
        return Json::Null;
    }
    let task_card_id = match get_ref(&task, "task_card_id") {
        Some(v) => v.deep_clone(),
        None => clone_or(get_ref(payload, "active_task_card_id"), Json::Null),
    };
    let mut m: Vec<(String, Json)> = Vec::new();
    m.push(member("task_card_id", task_card_id));
    m.push(member("title", clone_or(get_ref(&task, "title"), Json::Null)));
    m.push(member("task_kind", clone_or(get_ref(&task, "task_kind"), Json::Null)));
    m.push(member("scope", clone_or(get_ref(&task, "scope"), Json::Null)));
    m.push(member("assigned_role", clone_or(get_ref(&task, "assigned_role"), Json::Null)));
    m.push(member("assigned_agent_id", clone_or(get_ref(&task, "assigned_agent_id"), Json::Null)));
    m.push(member("model", clone_or(dispatch_setting(&task, "model"), Json::Null)));
    m.push(member("variant", clone_or(dispatch_setting(&task, "variant"), Json::Null)));
    m.push(member("fast_mode", clone_or(dispatch_setting(&task, "fast_mode"), Json::Null)));
    m.push(member("verification_state", clone_or(get_ref(&task, "verification_state"), Json::Null)));
    m.push(member("verification_capsule", clone_or(get_ref(&task, "verification_capsule"), Json::Null)));
    m.push(member("delegated_ownership", clone_or(get_ref(&task, "delegated_ownership"), Json::Null)));
    m.push(member("review_pass_count", clone_or(get_ref(&task, "review_pass_count"), Json::Null)));
    m.push(
        member(
            "lifecycle",
            clone_or(first_of2(&task, "subagent_lifecycle", "review_lifecycle"), Json::Null),
        ),
    );
    m.push(member("fan_in", clone_or(first_of2(&task, "subagent_fan_in", "review_fan_in"), Json::Null)));
    let r = object_of(m);
    assert(members_view(m@) =~= spec_compact_current_task(jview(*payload))->Object_0);
    r
}

/// `setting` inserted under `key` when the activity is of the current
/// task's role, lacks the key, and the current task has the setting.
pub open spec fn enrich_setting(item: JVal, same_role: bool, key: Seq<char>, setting: Option<JVal>) -> JVal {
    if same_role && jget(item, key) is None && setting is Some {
        jinsert(item, key, setting->Some_0)
    } else {
        item
    }
}

/// A subagent activity as the panel shows it: an activity of the current
/// task's role gains the task's model, variant and fast mode where it has
/// none.
pub open spec fn spec_enriched_activity(item: JVal, task: JVal) -> JVal {
    if item is Object {
        let role = match jstr_field(task, "assigned_role"@) {
            Some(s) => s,
            None => Seq::empty(),
        };
        let activity_role = match jstr_field(item, "assigned_role"@) {
            Some(s) => s,
            None => Seq::empty(),
        };
        let same = activity_role == role;
        let a = enrich_setting(item, same, "model"@, spec_dispatch_setting(task, "model"@));
        let b = enrich_setting(a, same, "variant"@, spec_dispatch_setting(task, "variant"@));
        enrich_setting(b, same, "fast_mode"@, spec_dispatch_setting(task, "fast_mode"@))
    } else {
        item
    }
}

/// The host subagents' activity (else the active subagents), enriched.
pub open spec fn spec_compact_subagent_activity(payload: JVal) -> JVal {
    let task = or_null(jget(payload, "current_task_card"@));
    let activities = match jget_path(payload, seq!["host_subagent_state"@, "subagent_activity"@]) {
        Some(v) => v,
        None => or_else(
            jget_path(payload, seq!["host_subagent_state"@, "active_subagents"@]),
            JVal::Array(Seq::empty()),
        ),
    };
    match activities {
        JVal::Array(items) => JVal::Array(items.map_values(|i: JVal| spec_enriched_activity(i, task))),
        _ => JVal::Array(Seq::empty()),
    }
}

fn enrich_with(item: &mut Json, same_role: bool, key: &str, setting: Option<&Json>)
    ensures
        jview(*final(item)) == enrich_setting(jview(*old(item)), same_role, key@, opt_jview_ref(setting)),
{
    if same_role && get_ref(item, key).is_none() {
        match setting {
            Some(v) => item.insert(key, v.deep_clone()),
            None => {},
        }
    }
}

fn enriched_activity(item: &Json, task: &Json) -> (r: Json)
    ensures
        jview(r) == spec_enriched_activity(jview(*item), jview(*task)),
{
    proof {
        reveal_strlit("");
        assert(""@ =~= Seq::<char>::empty());
    }
    let mut enriched = item.deep_clone();
    if !enriched.is_object() {
        return enriched;
    }
    let role: &str = match task.str_field("assigned_role") {
        Some(s) => s,
        None => "",
    };
    let same = match item.str_field("assigned_role") {
        Some(s) => str_eq(s, role),
        None => str_eq("", role),
    };
    let ghost tv = jview(*task);
    let ghost iv = jview(*item);
    assert(role@ == match jstr_field(tv, "assigned_role"@) {
        Some(s) => s,
        None => Seq::<char>::empty(),
    });
    assert(same == ((match jstr_field(iv, "assigned_role"@) {
        Some(s) => s,
        None => Seq::<char>::empty(),
    }) == role@));
    enrich_with(&mut enriched, same, "model", dispatch_setting(task, "model"));
    enrich_with(&mut enriched, same, "variant", dispatch_setting(task, "variant"));
    enrich_with(&mut enriched, same, "fast_mode", dispatch_setting(task, "fast_mode"));
    enriched
}

pub fn compact_subagent_activity(payload: &Json) -> (r: Json)
    ensures
        jview(r) == spec_compact_subagent_activity(jview(*payload)),
{
    let task = clone_or(get_ref(payload, "current_task_card"), Json::Null);
    let empty: Vec<Json> = Vec::new();
    proof {
        lemma_array_view(empty);
        assert(empty@.map_values(|x: Json| jview(x)) =~= Seq::<JVal>::empty());
    }
    let activities = match at2(payload, "host_subagent_state", "subagent_activity") {
        Some(v) => v.deep_clone(),
        None => clone_or(at2(payload, "host_subagent_state", "active_subagents"), Json::Array(empty)),
    };
    let mut out: Vec<Json> = Vec::new();
    match array_items(Some(&activities)) {
        Some(items) => {
            let ghost iv = jviews(items@);
            let ghost tv = jview(task);
            let mut i: usize = 0;
            while i < items.len()
                invariant
                    i <= items.len(),
                    iv == jviews(items@),
                    tv == jview(task),
                    out@.len() == i,
                    forall|k: int| 0 <= k < i ==> jview(#[trigger] out@[k]) == spec_enriched_activity(iv[k], tv),
                decreases items.len() - i,
            {
                out.push(enriched_activity(&items[i], &task));
                i = i + 1;
            }
            proof {
                lemma_array_view(out);
                assert(out@.map_values(|x: Json| jview(x)) =~= iv.map_values(
                    |it: JVal| spec_enriched_activity(it, tv),
                ));
            }
        },
        None => {
            proof {
                lemma_array_view(out);
                assert(out@.map_values(|x: Json| jview(x)) =~= Seq::<JVal>::empty());
            }
        },
    }
    Json::Array(out)
}

/// A one-element list when `c` holds, else an empty one.
pub open spec fn seq_if(c: bool, x: JVal) -> Seq<JVal> {
    if c {
        seq![x]
    } else {
        Seq::empty()
    }
}

/// What blocks the run: workers to reclaim, a queued captain follow-up, and
/// a captain intervention that chose an action.
pub open spec fn spec_compact_blockers(payload: JVal) -> JVal {
    let reclaim = match opt_u64(jget_path(payload, seq!["reclaim_plan"@, "reclaim_needed_worker_count"@])) {
        Some(n) => n > 0,
        None => false,
    };
    let follow_up = jstr_at(payload, seq!["pending_captain_follow_up"@, "action"@]);
    let intervention = jstr_at(payload, seq!["latest_captain_intervention"@, "chosen_next_action"@]);
    JVal::Array(
        seq_if(
            reclaim,
            JVal::Object(
                seq![
                    ("kind"@, JVal::Str("reclaim_needed"@)),
                    (
                        "summary"@,
                        or_else(
                            jget_path(payload, seq!["reclaim_plan"@, "summary"@]),
                            JVal::Str("worker reclaim is needed"@),
                        ),
                    ),
                ],
            ),
        ) + seq_if(
            follow_up is Some,
            JVal::Object(
                seq![
                    ("kind"@, JVal::Str("pending_captain_follow_up"@)),
                    ("action"@, JVal::Str(follow_up->Some_0)),
                    (
                        "status"@,
                        or_else(
                            jget_path(payload, seq!["pending_captain_follow_up"@, "status"@]),
                            JVal::Str("queued"@),
                        ),
                    ),
                ],
            ),
        ) + seq_if(
            intervention is Some && intervention->Some_0 != "no_action"@,
            JVal::Object(
                seq![
                    ("kind"@, JVal::Str("captain_intervention"@)),
                    ("action"@, JVal::Str(intervention->Some_0)),
                    (
                        "summary"@,
                        or_null(
                            jget_path(
                                payload,
                                seq!["latest_captain_intervention"@, "intervention_rationale"@],
                            ),
                        ),
                    ),
                ],
            ),
        ),
    )
}

pub fn compact_blockers(payload: &Json) -> (r: Json)
    ensures
        jview(r) == spec_compact_blockers(jview(*payload)),
{
    let ghost pv = jview(*payload);
    let mut out: Vec<Json> = Vec::new();
    let reclaim = match at2(payload, "reclaim_plan", "reclaim_needed_worker_count") {
        Some(v) => match v.as_u64() {
            Some(n) => n > 0,
            None => false,
        },
        None => false,
    };
    if reclaim {
        let mut m: Vec<(String, Json)> = Vec::new();
        m.push(member("kind", jstr("reclaim_needed")));
        m.push(
            member(
                "summary",
                clone_or(at2(payload, "reclaim_plan", "summary"), jstr("worker reclaim is needed")),
            ),
        );
        let b = object_of(m);
        assert(members_view(m@) =~= spec_compact_blockers(pv)->Array_0[0]->Object_0);
        out.push(b);
    }
    let ghost n1 = out@.len();
    let ghost first = out@;
    match at2(payload, "pending_captain_follow_up", "action") {
        Some(v) => match v.as_str() {
            Some(action) => {
                let mut m: Vec<(String, Json)> = Vec::new();
                m.push(member("kind", jstr("pending_captain_follow_up")));
                m.push(member("action", jstr(action)));
                m.push(
                    member(
                        "status",
                        clone_or(at2(payload, "pending_captain_follow_up", "status"), jstr("queued")),
                    ),
                );
                let b = object_of(m);
                assert(members_view(m@) =~= spec_compact_blockers(pv)->Array_0[n1 as int]->Object_0);
                out.push(b);
            },
            None => {},
        },
        None => {},
    }
    let ghost n2 = out@.len();
    match at2(payload, "latest_captain_intervention", "chosen_next_action") {
        Some(v) => match v.as_str() {
            Some(action) => {
                if !str_eq(action, "no_action") {
                    let mut m: Vec<(String, Json)> = Vec::new();
                    m.push(member("kind", jstr("captain_intervention")));
                    m.push(member("action", jstr(action)));
                    m.push(
                        member(
                            "summary",
                            clone_or(
                                at2(payload, "latest_captain_intervention", "intervention_rationale"),
                                Json::Null,
                            ),
                        ),
                    );
                    let b = object_of(m);
                    assert(members_view(m@) =~= spec_compact_blockers(pv)->Array_0[n2 as int]->Object_0);
                    out.push(b);
                }
            },
            None => {},
        },
        None => {},
    }
    proof {
        lemma_array_view(out);
        assert(out@.map_values(|x: Json| jview(x)) =~= spec_compact_blockers(pv)->Array_0);
    }
    Json::Array(out)
}


/// The first target root candidate, when it is a string that is not blank.
pub open spec fn spec_first_root_candidate(payload: JVal) -> Option<Seq<char>> {
    match jget_path(
        payload,
        seq!["longway"@, "planning_context"@, "workspace_root"@, "candidates"@],
    ) {
        Some(JVal::Array(items)) => if items.len() > 0 {
            match items[0] {
                JVal::Str(c) => if trim(c).len() > 0 {
                    Some(c)
                } else {
                    None
                },
                _ => None,
            }
        } else {
            None
        },
        _ => None,
    }
}

/// The command that retries the LongWay with the first target root
/// candidate.
pub open spec fn spec_target_root_retry_command(payload: JVal) -> Option<Seq<char>> {
    match spec_first_root_candidate(payload) {
        Some(c) => Some("$cap Use target_paths=[\""@ + c + "\"] and continue this LongWay."@),
        None => None,
    }
}

pub fn target_root_retry_command_from_payload(payload: &Json) -> (r: Option<String>)
    ensures
        opt_string_view(r) == spec_target_root_retry_command(jview(*payload)),
{
    let items = match array_items(at4(payload, "longway", "planning_context", "workspace_root", "candidates")) {
        Some(items) => items,
        None => return None,
    };
    if items.len() == 0 {
        return None;
    }
    assert(jviews(items@)[0] == jview(items@[0]));
    let first = match items[0].as_str() {
        Some(c) => c,
        None => return None,
    };
    if is_blank(first) {
        return None;
    }
    Some(concat3("$cap Use target_paths=[\"", first, "\"] and continue this LongWay."))
}

/// What the operator should know: a target root to confirm, a long
/// session to mitigate, token usage that is unavailable, and a code graph
/// warning.
pub open spec fn spec_compact_warnings(payload: JVal) -> JVal {
    let confirm = opt_bool(
        jget_path(
            payload,
            seq!["longway"@, "planning_context"@, "workspace_root"@, "confirmation_required"@],
        ),
    ) == Some(true);
    let mitigation = match jstr_at(payload, seq!["long_session_mitigation"@, "recommended_action"@]) {
        Some(a) => a != "continue"@,
        None => false,
    };
    let tokens = jstr_at(payload, seq!["token_usage_visibility"@, "status"@]) == Some("unavailable"@);
    let graph = jstr_at(payload, seq!["code_graph"@, "diagnostic_severity"@]) == Some("warning"@);
    JVal::Array(
        seq_if(confirm, spec_root_confirmation_warning(payload)) + seq_if(
            mitigation,
            JVal::Object(
                seq![
                    ("kind"@, JVal::Str("long_session_mitigation"@)),
                    (
                        "recommended_action"@,
                        or_null(jget_path(payload, seq!["long_session_mitigation"@, "recommended_action"@])),
                    ),
                    ("summary"@, or_null(jget_path(payload, seq!["long_session_mitigation"@, "summary"@]))),
                ],
            ),
        ) + seq_if(
            tokens,
            JVal::Object(
                seq![
                    ("kind"@, JVal::Str("token_usage_unavailable"@)),
                    (
                        "reason"@,
                        or_null(jget_path(payload, seq!["token_usage_visibility"@, "unavailable_reason"@])),
                    ),
                    (
                        "reason_code"@,
                        or_null(
                            jget_path(payload, seq!["token_usage_visibility"@, "unavailable_reason_code"@]),
                        ),
                    ),
                ],
            ),
        ) + seq_if(
            graph,
            JVal::Object(
                seq![
                    ("kind"@, JVal::Str("code_graph_warning"@)),
                    ("blocking"@, or_else(jget_path(payload, seq!["code_graph"@, "blocking"@]), JVal::Bool(false))),
                    ("reason"@, or_null(jget_path(payload, seq!["code_graph"@, "reason"@]))),
                    (
                        "recommended_action"@,
                        or_null(jget_path(payload, seq!["code_graph"@, "recommended_action"@])),
                    ),
                ],
            ),
        ),
    )
}

/// A workspace root value of the planning context.
pub open spec fn root_value(payload: JVal, key: Seq<char>) -> Option<JVal> {
    jget_path(payload, seq!["longway"@, "planning_context"@, "workspace_root"@, key])
}

/// The warning that the target root must be confirmed.
pub open spec fn spec_root_confirmation_warning(payload: JVal) -> JVal {
    JVal::Object(
        seq![
            ("kind"@, JVal::Str("target_root_confirmation_required"@)),
            ("status"@, JVal::Str("confirm_target_path"@)),
            ("root_kind"@, or_null(root_value(payload, "root_kind"@))),
            ("root"@, or_null(root_value(payload, "root"@))),
            ("confidence"@, or_null(root_value(payload, "confidence"@))),
            ("reason"@, or_null(root_value(payload, "reason"@))),
            ("candidates"@, or_else(root_value(payload, "candidates"@), JVal::Array(Seq::empty()))),
            (
                "retry_command"@,
                match spec_target_root_retry_command(payload) {
                    Some(c) => JVal::Str(c),
                    None => JVal::Null,
                },
            ),
            (
                "recommended_action"@,
                JVal::Str(
                    "Confirm the intended repo or document root by passing cwd/target_paths, or rerun the request with the target path."@,
                ),
            ),
        ],
    )
}

fn root_confirmation_warning(payload: &Json) -> (r: Json)
    ensures
        jview(r) == spec_root_confirmation_warning(jview(*payload)),
{
    let empty: Vec<Json> = Vec::new();
    proof {
        lemma_array_view(empty);
        assert(empty@.map_values(|x: Json| jview(x)) =~= Seq::<JVal>::empty());
    }
    let retry = match target_root_retry_command_from_payload(payload) {
        Some(c) => Json::Str(c),
        None => Json::Null,
    };
    let mut m: Vec<(String, Json)> = Vec::new();
    m.push(member("kind", jstr("target_root_confirmation_required")));
    m.push(member("status", jstr("confirm_target_path")));
    m.push(
        member(
            "root_kind",
            clone_or(at4(payload, "longway", "planning_context", "workspace_root", "root_kind"), Json::Null),
        ),
    );
    m.push(
        member("root", clone_or(at4(payload, "longway", "planning_context", "workspace_root", "root"), Json::Null)),
    );
    m.push(
        member(
            "confidence",
            clone_or(at4(payload, "longway", "planning_context", "workspace_root", "confidence"), Json::Null),
        ),
    );
    m.push(
        member(
            "reason",
            clone_or(at4(payload, "longway", "planning_context", "workspace_root", "reason"), Json::Null),
        ),
    );
    m.push(
        member(
            "candidates",
            clone_or(
                at4(payload, "longway", "planning_context", "workspace_root", "candidates"),
                Json::Array(empty),
            ),
        ),
    );
    m.push(member("retry_command", retry));
    m.push(
        member(
            "recommended_action",
            jstr(
                "Confirm the intended repo or document root by passing cwd/target_paths, or rerun the request with the target path.",
            ),
        ),
    );
    let r = object_of(m);
    assert(members_view(m@) =~= spec_root_confirmation_warning(jview(*payload))->Object_0);
    r
}

fn path_str_is(payload: &Json, a: &str, b: &str, expected: &str) -> (r: bool)
    ensures
        r == (jstr_at(jview(*payload), seq![a@, b@]) == Some(expected@)),
{
    match at2(payload, a, b) {
        Some(v) => match v.as_str() {
            Some(s) => str_eq(s, expected),
            None => false,
        },
        None => false,
    }
}

pub fn compact_warnings(payload: &Json) -> (r: Json)
    ensures
        jview(r) == spec_compact_warnings(jview(*payload)),
{
    let ghost pv = jview(*payload);
    let ghost ws = spec_compact_warnings(pv)->Array_0;
    let mut out: Vec<Json> = Vec::new();
    let confirm = match at4(payload, "longway", "planning_context", "workspace_root", "confirmation_required") {
        Some(v) => match v.as_bool() {
            Some(b) => b,
            None => false,
        },
        None => false,
    };
    if confirm {
        out.push(root_confirmation_warning(payload));
    }
    let ghost n1 = out@.len();
    let mitigation = match at2(payload, "long_session_mitigation", "recommended_action") {
        Some(v) => match v.as_str() {
            Some(a) => !str_eq(a, "continue"),
            None => false,
        },
        None => false,
    };
    if mitigation {
        let mut m: Vec<(String, Json)> = Vec::new();
        m.push(member("kind", jstr("long_session_mitigation")));
        m.push(
            member(
                "recommended_action",
                clone_or(at2(payload, "long_session_mitigation", "recommended_action"), Json::Null),
            ),
        );
        m.push(member("summary", clone_or(at2(payload, "long_session_mitigation", "summary"), Json::Null)));
        let w = object_of(m);
        assert(members_view(m@) =~= ws[n1 as int]->Object_0);
        out.push(w);
    }
    let ghost n2 = out@.len();
    if path_str_is(payload, "token_usage_visibility", "status", "unavailable") {
        let mut m: Vec<(String, Json)> = Vec::new();
        m.push(member("kind", jstr("token_usage_unavailable")));
        m.push(
            member("reason", clone_or(at2(payload, "token_usage_visibility", "unavailable_reason"), Json::Null)),
        );
        m.push(
            member(
                "reason_code",
                clone_or(at2(payload, "token_usage_visibility", "unavailable_reason_code"), Json::Null),
            ),
        );
        let w = object_of(m);
        assert(members_view(m@) =~= ws[n2 as int]->Object_0);
        out.push(w);
    }
    let ghost n3 = out@.len();
    if path_str_is(payload, "code_graph", "diagnostic_severity", "warning") {
        let mut m: Vec<(String, Json)> = Vec::new();
        m.push(member("kind", jstr("code_graph_warning")));
        m.push(member("blocking", clone_or(at2(payload, "code_graph", "blocking"), jbool(false))));
        m.push(member("reason", clone_or(at2(payload, "code_graph", "reason"), Json::Null)));
        m.push(
            member(
                "recommended_action",
                clone_or(at2(payload, "code_graph", "recommended_action"), Json::Null),
            ),
        );
        let w = object_of(m);
        assert(members_view(m@) =~= ws[n3 as int]->Object_0);
        out.push(w);
    }
    proof {
        lemma_array_view(out);
        assert(out@.map_values(|x: Json| jview(x)) =~= ws);
    }
    Json::Array(out)
}


/// A role's config snapshot from the shared config (`None` when the config
/// could not be read, which gives the role's empty snapshot).
pub open spec fn spec_loaded_role_snapshot(shared_config: Option<JVal>, role: Seq<char>) -> JVal {
    match shared_config {
        Some(c) => spec_role_snapshot(c, role),
        None => spec_empty_role_snapshot(role),
    }
}

pub fn loaded_role_config_snapshot(shared_config: Option<&Json>, role: &str) -> (r: Json)
    ensures
        jview(r) == spec_loaded_role_snapshot(opt_jview_ref(shared_config), role@),
{
    match shared_config {
        Some(c) => load_role_config_snapshot_from_config(c, role),
        None => create_empty_role_config_snapshot(role),
    }
}

/// The snapshot of the first candidate role that normalizes to a role
/// (not blank, not `unassigned`) whose snapshot names a model or a variant;
/// `null` when none does.
pub open spec fn spec_first_configured_snapshot(candidates: Seq<Seq<char>>, shared_config: Option<JVal>) -> JVal
    decreases candidates.len(),
{
    if candidates.len() == 0 {
        JVal::Null
    } else {
        let c = candidates[0];
        let n = spec_normalize_dispatch_role_hint(Some(c), c);
        let snapshot = spec_loaded_role_snapshot(shared_config, n);
        if n.len() > 0 && n != "unassigned"@ && (jstr_field(snapshot, "model"@) is Some || jstr_field(
            snapshot,
            "variant"@,
        ) is Some) {
            snapshot
        } else {
            spec_first_configured_snapshot(candidates.drop_first(), shared_config)
        }
    }
}

/// A list of the present values.
pub open spec fn somes(a: Option<Seq<char>>, b: Option<Seq<char>>, c: Option<Seq<char>>) -> Seq<Seq<char>> {
    (match a {
        Some(x) => seq![x],
        None => Seq::empty(),
    }) + (match b {
        Some(x) => seq![x],
        None => Seq::empty(),
    }) + (match c {
        Some(x) => seq![x],
        None => Seq::empty(),
    })
}

/// The role config that a planned row's display routing reads: tried for
/// the planned role, the role of the planned agent, and the fallback role.
pub open spec fn spec_planned_row_role_config_snapshot(
    planned_role: Option<Seq<char>>,
    planned_agent: Option<Seq<char>>,
    fallback_role: Option<Seq<char>>,
    shared_config: Option<JVal>,
) -> JVal {
    let agent_role = match planned_agent {
        Some(a) => spec_role_for_display_agent(a),
        None => None,
    };
    spec_first_configured_snapshot(somes(planned_role, agent_role, fallback_role), shared_config)
}

fn push_some(v: &mut Vec<String>, o: Option<&str>)
    ensures
        final(v)@.map_values(|s: String| s@) == old(v)@.map_values(|s: String| s@) + match opt_view(o) {
            Some(x) => seq![x],
            None => Seq::<Seq<char>>::empty(),
        },
{
    let ghost before = old(v)@;
    match o {
        Some(x) => {
            v.push(to_owned(x));
            assert(v@.map_values(|s: String| s@) =~= before.map_values(|s: String| s@) + seq![x@]);
        },
        None => {
            assert(v@.map_values(|s: String| s@) =~= before.map_values(|s: String| s@) + Seq::<
                Seq<char>,
            >::empty());
        },
    }
}

pub fn planned_row_role_config_snapshot(
    planned_role: Option<&str>,
    planned_agent: Option<&str>,
    fallback_role: Option<&str>,
    shared_config: Option<&Json>,
) -> (r: Json)
    ensures
        jview(r) == spec_planned_row_role_config_snapshot(
            opt_view(planned_role),
            opt_view(planned_agent),
            opt_view(fallback_role),
            opt_jview_ref(shared_config),
        ),
{
    let mut candidates: Vec<String> = Vec::new();
    push_some(&mut candidates, planned_role);
    let agent_role = match planned_agent {
        Some(a) => role_for_display_agent(a),
        None => None,
    };
    push_some(&mut candidates, agent_role);
    push_some(&mut candidates, fallback_role);
    let ghost cv = candidates@.map_values(|s: String| s@);
    assert(cv =~= somes(
        opt_view(planned_role),
        opt_view(agent_role),
        opt_view(fallback_role),
    ));
    let ghost cfg = opt_jview_ref(shared_config);
    let mut i: usize = 0;
    assert(cv.skip(0) =~= cv);
    while i < candidates.len()
        invariant
            i <= candidates.len(),
            cv == candidates@.map_values(|s: String| s@),
            cv == somes(
                opt_view(planned_role),
                match opt_view(planned_agent) {
                    Some(a) => spec_role_for_display_agent(a),
                    None => None,
                },
                opt_view(fallback_role),
            ),
            cfg == opt_jview_ref(shared_config),
            spec_first_configured_snapshot(cv, cfg) == spec_first_configured_snapshot(cv.skip(i as int), cfg),
        decreases candidates.len() - i,
    {
        let c = candidates[i].as_str();
        assert(cv.skip(i as int)[0] == c@);
        assert(cv.skip(i as int).drop_first() =~= cv.skip(i + 1));
        let n = normalize_dispatch_role_hint(Some(c), c);
        if n.as_str().unicode_len() > 0 && !str_eq(n.as_str(), "unassigned") {
            let snapshot = loaded_role_config_snapshot(shared_config, n.as_str());
            if snapshot.str_field("model").is_some() || snapshot.str_field("variant").is_some() {
                return snapshot;
            }
        }
        i = i + 1;
    }
    Json::Null
}

/// How a planned row is routed for display: its role and agent, model and
/// variant, and where each came from. The task card id is set only for the
/// current task's routing, which rows of that task card fall back on.
pub struct RoutingView {
    pub task_card_id: Option<Seq<char>>,
    pub role: JVal,
    pub agent: JVal,
    pub model: JVal,
    pub variant: JVal,
    pub agent_source: JVal,
    pub model_source: JVal,
    pub reasoning_source: JVal,
}

/// A planned row's display routing (see `RoutingView`).
pub struct PlannedRowRouting {
    pub task_card_id: Option<String>,
    pub role: Json,
    pub agent: Json,
    pub model: Json,
    pub variant: Json,
    pub agent_source: Json,
    pub model_source: Json,
    pub reasoning_source: Json,
}

pub open spec fn routing_view(r: PlannedRowRouting) -> RoutingView {
    RoutingView {
        task_card_id: opt_string_view(r.task_card_id),
        role: jview(r.role),
        agent: jview(r.agent),
        model: jview(r.model),
        variant: jview(r.variant),
        agent_source: jview(r.agent_source),
        model_source: jview(r.model_source),
        reasoning_source: jview(r.reasoning_source),
    }
}

pub open spec fn opt_routing_view(r: Option<PlannedRowRouting>) -> Option<RoutingView> {
    match r {
        Some(x) => Some(routing_view(x)),
        None => None,
    }
}

/// The current task's routing, which planned rows of its task card fall
/// back on (none without a current task card).
pub open spec fn spec_planned_row_fallback_routing(payload: JVal) -> Option<RoutingView> {
    match jget(payload, "current_task_card"@) {
        Some(task) => Some(
            RoutingView {
                task_card_id: jstr_field(task, "task_card_id"@),
                role: or_null(jget(task, "assigned_role"@)),
                agent: match jstr_field(task, "assigned_agent_id"@) {
                    Some(a) => JVal::Str(spec_display_custom_agent_name(a)),
                    None => JVal::Null,
                },
                model: or_null(spec_dispatch_setting(task, "model"@)),
                variant: or_null(spec_dispatch_setting(task, "variant"@)),
                agent_source: JVal::Str("current_task_matching_task_card"@),
                model_source: JVal::Str("current_task_matching_task_card"@),
                reasoning_source: JVal::Str("current_task_matching_task_card"@),
            },
        ),
        None => None,
    }
}

pub fn planned_row_fallback_routing(payload: &Json) -> (r: Option<PlannedRowRouting>)
    ensures
        opt_routing_view(r) == spec_planned_row_fallback_routing(jview(*payload)),
{
    let task = match payload.get("current_task_card") {
        Some(t) => t,
        None => return None,
    };
    let task_card_id = match task.str_field("task_card_id") {
        Some(s) => Some(to_owned(s)),
        None => None,
    };
    let agent = match task.str_field("assigned_agent_id") {
        Some(a) => Json::Str(display_custom_agent_name(a)),
        None => Json::Null,
    };
    Some(
        PlannedRowRouting {
            task_card_id,
            role: clone_or(get_ref(task, "assigned_role"), Json::Null),
            agent,
            model: clone_or(dispatch_setting(task, "model"), Json::Null),
            variant: clone_or(dispatch_setting(task, "variant"), Json::Null),
            agent_source: jstr("current_task_matching_task_card"),
            model_source: jstr("current_task_matching_task_card"),
            reasoning_source: jstr("current_task_matching_task_card"),
        },
    )
}

/// A string that is not `unassigned`.
pub open spec fn assigned(o: Option<Seq<char>>) -> Option<Seq<char>> {
    match o {
        Some(s) => if s != "unassigned"@ {
            Some(s)
        } else {
            None
        },
        None => None,
    }
}

/// The fallback routing applies to a row of the same task card.
pub open spec fn spec_matching_fallback(row: JVal, fallback: Option<RoutingView>) -> Option<RoutingView> {
    match fallback {
        Some(f) => match jstr_field(row, "task_card_id"@) {
            Some(id) => if f.task_card_id == Some(id) {
                Some(f)
            } else {
                None
            },
            None => None,
        },
        None => None,
    }
}

/// The role a planned row is displayed with: its display role, planned role
/// or role, the first that is assigned.
pub open spec fn spec_planned_role(row: JVal) -> Option<Seq<char>> {
    match assigned(jstr_field(row, "display_role"@)) {
        Some(r) => Some(r),
        None => match assigned(jstr_field(row, "planned_role"@)) {
            Some(r) => Some(r),
            None => assigned(jstr_field(row, "role"@)),
        },
    }
}

/// The agent a planned row is displayed with, and its source: the row's
/// display or planned agent, else the agent of its role, else none.
pub open spec fn spec_planned_agent(row: JVal) -> Option<(Seq<char>, Seq<char>)> {
    match assigned(jstr_field(row, "display_agent_id"@)) {
        Some(a) => Some((spec_display_custom_agent_name(a), "planned_row_input"@)),
        None => match assigned(jstr_field(row, "planned_agent_id"@)) {
            Some(a) => Some((spec_display_custom_agent_name(a), "planned_row_input"@)),
            None => match spec_planned_role(row) {
                Some(r) => match spec_agent_id_for_role(r) {
                    Some(a) => Some((spec_display_custom_agent_name(a), "role_mapping"@)),
                    None => None,
                },
                None => None,
            },
        },
    }
}

/// A planned row's display routing: the row's own values first, then its
/// role's config, then the current task's routing for a row of its task
/// card, else unassigned.
pub open spec fn spec_planned_row_display_routing(
    row: JVal,
    fallback: Option<RoutingView>,
    shared_config: Option<JVal>,
) -> RoutingView {
    let matching = spec_matching_fallback(row, fallback);
    let planned_role = spec_planned_role(row);
    let planned_agent = spec_planned_agent(row);
    let role = match planned_role {
        Some(r) => JVal::Str(r),
        None => match matching {
            Some(f) => f.role,
            None => JVal::Null,
        },
    };
    let snapshot = spec_planned_row_role_config_snapshot(
        planned_role,
        match planned_agent {
            Some(p) => Some(p.0),
            None => None,
        },
        match role {
            JVal::Str(s) => Some(s),
            _ => None,
        },
        shared_config,
    );
    let (model, model_source) = match jget(row, "model"@) {
        Some(v) => (v, JVal::Str("planned_row_input"@)),
        None => match jget(snapshot, "model"@) {
            Some(v) => (v, JVal::Str("role_config"@)),
            None => match matching {
                Some(f) => (f.model, f.model_source),
                None => (JVal::Null, JVal::Str("unassigned"@)),
            },
        },
    };
    let (variant, reasoning_source) = match first_present(row, seq!["variant"@, "reasoning"@]) {
        Some(v) => (v, JVal::Str("planned_row_input"@)),
        None => match jget(snapshot, "variant"@) {
            Some(v) => (v, JVal::Str("role_config"@)),
            None => match matching {
                Some(f) => (f.variant, f.reasoning_source),
                None => (JVal::Null, JVal::Str("unassigned"@)),
            },
        },
    };
    RoutingView {
        task_card_id: None,
        role,
        agent: match planned_agent {
            Some(p) => JVal::Str(p.0),
            None => match matching {
                Some(f) => f.agent,
                None => JVal::Null,
            },
        },
        model,
        variant,
        agent_source: match planned_agent {
            Some(p) => JVal::Str(p.1),
            None => match matching {
                Some(f) => f.agent_source,
                None => JVal::Str("unassigned"@),
            },
        },
        model_source,
        reasoning_source,
    }
}

fn assigned_str<'a>(row: &'a Json, key: &str) -> (r: Option<&'a str>)
    ensures
        opt_view(r) == assigned(jstr_field(jview(*row), key@)),
{
    match row.str_field(key) {
        Some(s) => if str_eq(s, "unassigned") {
            None
        } else {
            Some(s)
        },
        None => None,
    }
}

fn planned_role_of<'a>(row: &'a Json) -> (r: Option<&'a str>)
    ensures
        opt_view(r) == spec_planned_role(jview(*row)),
{
    match assigned_str(row, "display_role") {
        Some(r) => Some(r),
        None => match assigned_str(row, "planned_role") {
            Some(r) => Some(r),
            None => assigned_str(row, "role"),
        },
    }
}

fn planned_agent_of(row: &Json) -> (r: Option<(String, &'static str)>)
    ensures
        match r {
            Some((a, s)) => spec_planned_agent(jview(*row)) == Some((a@, s@)),
            None => spec_planned_agent(jview(*row)) is None,
        },
{
    match assigned_str(row, "display_agent_id") {
        Some(a) => Some((display_custom_agent_name(a), "planned_row_input")),
        None => match assigned_str(row, "planned_agent_id") {
            Some(a) => Some((display_custom_agent_name(a), "planned_row_input")),
            None => match planned_role_of(row) {
                Some(r) => match agent_id_for_role(r) {
                    Some(a) => Some((display_custom_agent_name(a), "role_mapping")),
                    None => None,
                },
                None => None,
            },
        },
    }
}

fn clone_routing(f: &PlannedRowRouting) -> (r: PlannedRowRouting)
    ensures
        routing_view(r) == routing_view(*f),
{
    PlannedRowRouting {
        task_card_id: match &f.task_card_id {
            Some(s) => Some(to_owned(s.as_str())),
            None => None,
        },
        role: f.role.deep_clone(),
        agent: f.agent.deep_clone(),
        model: f.model.deep_clone(),
        variant: f.variant.deep_clone(),
        agent_source: f.agent_source.deep_clone(),
        model_source: f.model_source.deep_clone(),
        reasoning_source: f.reasoning_source.deep_clone(),
    }
}

fn matching_fallback<'a>(row: &Json, fallback: Option<&'a PlannedRowRouting>) -> (r: Option<&'a PlannedRowRouting>)
    ensures
        match r {
            Some(f) => spec_matching_fallback(
                jview(*row),
                match fallback {
                    Some(x) => Some(routing_view(*x)),
                    None => None,
                },
            ) == Some(routing_view(*f)),
            None => spec_matching_fallback(
                jview(*row),
                match fallback {
                    Some(x) => Some(routing_view(*x)),
                    None => None,
                },
            ) is None,
        },
{
    match fallback {
        Some(f) => match row.str_field("task_card_id") {
            Some(id) => match &f.task_card_id {
                Some(t) => if str_eq(t.as_str(), id) {
                    Some(f)
                } else {
                    None
                },
                None => None,
            },
            None => None,
        },
        None => None,
    }
}

pub fn planned_row_display_routing(
    row: &Json,
    fallback: Option<&PlannedRowRouting>,
    shared_config: Option<&Json>,
) -> (r: PlannedRowRouting)
    ensures
        routing_view(r) == spec_planned_row_display_routing(
            jview(*row),
            match fallback {
                Some(x) => Some(routing_view(*x)),
                None => None,
            },
            opt_jview_ref(shared_config),
        ),
{
    let matching = matching_fallback(row, fallback);
    let planned_role = planned_role_of(row);
    let planned_agent = planned_agent_of(row);
    let role = match planned_role {
        Some(r) => jstr(r),
        None => match matching {
            Some(f) => f.role.deep_clone(),
            None => Json::Null,
        },
    };
    let snapshot = planned_row_role_config_snapshot(
        planned_role,
        match &planned_agent {
            Some(p) => Some(p.0.as_str()),
            None => None,
        },
        role.as_str(),
        shared_config,
    );
    let (model, model_source) = match row.get("model") {
        Some(v) => (v.deep_clone(), jstr("planned_row_input")),
        None => match snapshot.get("model") {
            Some(v) => (v.deep_clone(), jstr("role_config")),
            None => match matching {
                Some(f) => (f.model.deep_clone(), f.model_source.deep_clone()),
                None => (Json::Null, jstr("unassigned")),
            },
        },
    };
    let (variant, reasoning_source) = match first_of2(row, "variant", "reasoning") {
        Some(v) => (v.deep_clone(), jstr("planned_row_input")),
        None => match snapshot.get("variant") {
            Some(v) => (v.deep_clone(), jstr("role_config")),
            None => match matching {
                Some(f) => (f.variant.deep_clone(), f.reasoning_source.deep_clone()),
                None => (Json::Null, jstr("unassigned")),
            },
        },
    };
    let (agent, agent_source) = match planned_agent {
        Some((a, s)) => (Json::Str(a), jstr(s)),
        None => match matching {
            Some(f) => (f.agent.deep_clone(), f.agent_source.deep_clone()),
            None => (Json::Null, jstr("unassigned")),
        },
    };
    PlannedRowRouting {
        task_card_id: None,
        role,
        agent,
        model,
        variant,
        agent_source,
        model_source,
        reasoning_source,
    }
}


/// A planned row as the panel shows it, with its display routing.
pub open spec fn spec_compact_planned_row(row: JVal, routing: RoutingView) -> JVal {
    JVal::Object(
        seq![
            ("title"@, or_null(jget(row, "title"@))),
            ("status"@, or_else(jget(row, "status"@), JVal::Str("planned"@))),
            ("planned_agent_id"@, or_null(jget(row, "planned_agent_id"@))),
            ("planned_role"@, or_null(jget(row, "planned_role"@))),
            ("display_agent_id"@, routing.agent),
            ("display_role"@, routing.role),
            ("model"@, routing.model),
            ("variant"@, routing.variant),
            ("reasoning"@, routing.variant),
            ("agent_source"@, routing.agent_source),
            ("model_source"@, routing.model_source),
            ("reasoning_source"@, routing.reasoning_source),
            ("recovery"@, or_null(jget(row, "recovery"@))),
            ("scope"@, or_null(jget(row, "scope"@))),
            ("acceptance"@, or_null(jget(row, "acceptance"@))),
        ],
    )
}

/// The planned rows: the LongWay's, else the scheduler's (none unless a
/// list).
pub open spec fn spec_planned_rows_source(payload: JVal) -> Option<JVal> {
    match jget_path(payload, seq!["longway"@, "planned_rows"@]) {
        Some(v) => Some(v),
        None => jget_path(payload, seq!["scheduler"@, "planned_rows"@, "planned_rows"@]),
    }
}

/// The planned rows as the panel shows them.
pub open spec fn spec_compact_planned_rows(payload: JVal, shared_config: Option<JVal>) -> JVal {
    let fallback = spec_planned_row_fallback_routing(payload);
    match spec_planned_rows_source(payload) {
        Some(JVal::Array(rows)) => JVal::Array(
            rows.map_values(
                |r: JVal|
                    spec_compact_planned_row(
                        r,
                        spec_planned_row_display_routing(r, fallback, shared_config),
                    ),
            ),
        ),
        _ => JVal::Array(Seq::empty()),
    }
}

fn compact_planned_row(row: &Json, routing: PlannedRowRouting) -> (r: Json)
    ensures
        jview(r) == spec_compact_planned_row(jview(*row), routing_view(routing)),
{
    let ghost rv = routing_view(routing);
    let reasoning = routing.variant.deep_clone();
    let mut m: Vec<(String, Json)> = Vec::new();
    m.push(member("title", clone_or(get_ref(row, "title"), Json::Null)));
    m.push(member("status", clone_or(get_ref(row, "status"), jstr("planned"))));
    m.push(member("planned_agent_id", clone_or(get_ref(row, "planned_agent_id"), Json::Null)));
    m.push(member("planned_role", clone_or(get_ref(row, "planned_role"), Json::Null)));
    m.push(member("display_agent_id", routing.agent));
    m.push(member("display_role", routing.role));
    m.push(member("model", routing.model));
    m.push(member("variant", routing.variant));
    m.push(member("reasoning", reasoning));
    m.push(member("agent_source", routing.agent_source));
    m.push(member("model_source", routing.model_source));
    m.push(member("reasoning_source", routing.reasoning_source));
    m.push(member("recovery", clone_or(get_ref(row, "recovery"), Json::Null)));
    m.push(member("scope", clone_or(get_ref(row, "scope"), Json::Null)));
    m.push(member("acceptance", clone_or(get_ref(row, "acceptance"), Json::Null)));
    let r = object_of(m);
    assert(members_view(m@) =~= spec_compact_planned_row(jview(*row), rv)->Object_0);
    r
}

pub fn compact_planned_rows(payload: &Json, shared_config: Option<&Json>) -> (r: Json)
    ensures
        jview(r) == spec_compact_planned_rows(jview(*payload), opt_jview_ref(shared_config)),
{
    let fallback = planned_row_fallback_routing(payload);
    let ghost fv = opt_routing_view(fallback);
    let ghost cfg = opt_jview_ref(shared_config);
    let source = match at2(payload, "longway", "planned_rows") {
        Some(v) => Some(v),
        None => at3(payload, "scheduler", "planned_rows", "planned_rows"),
    };
    let mut out: Vec<Json> = Vec::new();
    match array_items(source) {
        Some(rows) => {
            let ghost rv = jviews(rows@);
            let mut i: usize = 0;
            while i < rows.len()
                invariant
                    i <= rows.len(),
                    rv == jviews(rows@),
                    fv == opt_routing_view(fallback),
                    cfg == opt_jview_ref(shared_config),
                    out@.len() == i,
                    forall|k: int|
                        0 <= k < i ==> jview(#[trigger] out@[k]) == spec_compact_planned_row(
                            rv[k],
                            spec_planned_row_display_routing(rv[k], fv, cfg),
                        ),
                decreases rows.len() - i,
            {
                let routing = planned_row_display_routing(
                    &rows[i],
                    match &fallback {
                        Some(f) => Some(f),
                        None => None,
                    },
                    shared_config,
                );
                out.push(compact_planned_row(&rows[i], routing));
                i = i + 1;
            }
            proof {
                lemma_array_view(out);
                assert(out@.map_values(|x: Json| jview(x)) =~= rv.map_values(
                    |r: JVal|
                        spec_compact_planned_row(r, spec_planned_row_display_routing(r, fv, cfg)),
                ));
            }
        },
        None => {
            proof {
                lemma_array_view(out);
                assert(out@.map_values(|x: Json| jview(x)) =~= Seq::<JVal>::empty());
            }
        },
    }
    Json::Array(out)
}


/// How a host renders the panel.
pub open spec fn spec_render_strategy() -> JVal {
    JVal::Object(
        seq![
            ("primary"@, JVal::Str("host_app_status_panel"@)),
            ("data_source"@, JVal::Str("ccc_status_or_ccc_activity"@)),
            ("fallback"@, JVal::Str("transcript_status_text"@)),
            ("mcp_apps_component"@, JVal::Str("available_if_host_renders_mcp_apps_resources"@)),
            ("resource_uri"@, JVal::Str("ui://ccc/app-panel.html"@)),
        ],
    )
}

fn render_strategy() -> (r: Json)
    ensures
        jview(r) == spec_render_strategy(),
{
    let mut m: Vec<(String, Json)> = Vec::new();
    m.push(member("primary", jstr("host_app_status_panel")));
    m.push(member("data_source", jstr("ccc_status_or_ccc_activity")));
    m.push(member("fallback", jstr("transcript_status_text")));
    m.push(member("mcp_apps_component", jstr("available_if_host_renders_mcp_apps_resources")));
    m.push(member("resource_uri", jstr("ui://ccc/app-panel.html")));
    let r = object_of(m);
    assert(members_view(m@) =~= spec_render_strategy()->Object_0);
    r
}

/// The run as the panel shows it.
pub open spec fn spec_panel_run(payload: JVal) -> JVal {
    JVal::Object(
        seq![
            ("run_id"@, or_null(jget(payload, "run_id"@))),
            ("run_ref"@, or_null(jget(payload, "run_ref"@))),
            ("status"@, or_null(jget(payload, "status"@))),
            ("stage"@, or_null(jget(payload, "stage"@))),
            ("next_step"@, or_null(jget(payload, "next_step"@))),
            ("can_advance"@, or_null(jget(payload, "can_advance"@))),
            ("visibility_signature"@, or_null(jget(payload, "visibility_signature"@))),
        ],
    )
}

fn panel_run(payload: &Json) -> (r: Json)
    ensures
        jview(r) == spec_panel_run(jview(*payload)),
{
    let mut m: Vec<(String, Json)> = Vec::new();
    m.push(member("run_id", clone_or(get_ref(payload, "run_id"), Json::Null)));
    m.push(member("run_ref", clone_or(get_ref(payload, "run_ref"), Json::Null)));
    m.push(member("status", clone_or(get_ref(payload, "status"), Json::Null)));
    m.push(member("stage", clone_or(get_ref(payload, "stage"), Json::Null)));
    m.push(member("next_step", clone_or(get_ref(payload, "next_step"), Json::Null)));
    m.push(member("can_advance", clone_or(get_ref(payload, "can_advance"), Json::Null)));
    m.push(member("visibility_signature", clone_or(get_ref(payload, "visibility_signature"), Json::Null)));
    let r = object_of(m);
    assert(members_view(m@) =~= spec_panel_run(jview(*payload))->Object_0);
    r
}

/// The LongWay's progress as the panel shows it.
pub open spec fn spec_longway_progress(payload: JVal, shared_config: Option<JVal>) -> JVal {
    JVal::Object(
        seq![
            ("completed_phase_count"@, or_null(jget_path(payload, seq!["longway"@, "completed_phase_count"@]))),
            ("phase_count"@, or_null(jget_path(payload, seq!["longway"@, "phase_count"@]))),
            ("planned_row_count"@, or_null(jget_path(payload, seq!["longway"@, "planned_row_count"@]))),
            ("current_item"@, or_null(jget_path(payload, seq!["longway"@, "current_item"@]))),
            ("lifecycle_state"@, or_null(jget_path(payload, seq!["longway"@, "lifecycle_state"@]))),
            ("rows"@, spec_compact_longway_rows(payload)),
            ("planned_rows"@, spec_compact_planned_rows(payload, shared_config)),
        ],
    )
}

fn longway_progress(payload: &Json, shared_config: Option<&Json>) -> (r: Json)
    ensures
        jview(r) == spec_longway_progress(jview(*payload), opt_jview_ref(shared_config)),
{
    let mut m: Vec<(String, Json)> = Vec::new();
    m.push(member("completed_phase_count", clone_or(at2(payload, "longway", "completed_phase_count"), Json::Null)));
    m.push(member("phase_count", clone_or(at2(payload, "longway", "phase_count"), Json::Null)));
    m.push(member("planned_row_count", clone_or(at2(payload, "longway", "planned_row_count"), Json::Null)));
    m.push(member("current_item", clone_or(at2(payload, "longway", "current_item"), Json::Null)));
    m.push(member("lifecycle_state", clone_or(at2(payload, "longway", "lifecycle_state"), Json::Null)));
    m.push(member("rows", compact_longway_rows(payload)));
    m.push(member("planned_rows", compact_planned_rows(payload, shared_config)));
    let r = object_of(m);
    assert(members_view(m@) =~= spec_longway_progress(jview(*payload), opt_jview_ref(shared_config))->Object_0);
    r
}

/// The specialist lanes as the panel shows them.
pub open spec fn spec_specialist_lanes(payload: JVal) -> JVal {
    JVal::Object(
        seq![
            ("parallel_lanes"@, spec_compact_parallel_lanes(payload)),
            ("active_subagents"@, spec_compact_active_subagents(payload)),
            ("subagent_activity"@, spec_compact_subagent_activity(payload)),
            ("host_subagent_state"@, or_null(jget(payload, "host_subagent_state"@))),
        ],
    )
}

fn specialist_lanes(payload: &Json) -> (r: Json)
    ensures
        jview(r) == spec_specialist_lanes(jview(*payload)),
{
    let mut m: Vec<(String, Json)> = Vec::new();
    m.push(member("parallel_lanes", compact_parallel_lanes(payload)));
    m.push(member("active_subagents", compact_active_subagents(payload)));
    m.push(member("subagent_activity", compact_subagent_activity(payload)));
    m.push(member("host_subagent_state", clone_or(get_ref(payload, "host_subagent_state"), Json::Null)));
    let r = object_of(m);
    assert(members_view(m@) =~= spec_specialist_lanes(jview(*payload))->Object_0);
    r
}

/// The fan-in state as the panel shows it.
pub open spec fn spec_panel_fan_in(payload: JVal) -> JVal {
    JVal::Object(
        seq![
            (
                "ready"@,
                JVal::Bool(
                    opt_bool(jget_path(payload, seq!["run_truth_surface"@, "fan_in_ready"@])) == Some(true),
                ),
            ),
            ("host_subagent_ready"@, or_null(jget_path(payload, seq!["host_subagent_state"@, "fan_in_ready"@]))),
            ("worker_total"@, or_null(jget_path(payload, seq!["run_truth_surface"@, "worker_total"@]))),
            ("worker_active"@, or_null(jget_path(payload, seq!["run_truth_surface"@, "worker_active"@]))),
        ],
    )
}

fn panel_fan_in(payload: &Json) -> (r: Json)
    ensures
        jview(r) == spec_panel_fan_in(jview(*payload)),
{
    let ready = match at2(payload, "run_truth_surface", "fan_in_ready") {
        Some(v) => match v.as_bool() {
            Some(b) => b,
            None => false,
        },
        None => false,
    };
    let mut m: Vec<(String, Json)> = Vec::new();
    m.push(member("ready", jbool(ready)));
    m.push(member("host_subagent_ready", clone_or(at2(payload, "host_subagent_state", "fan_in_ready"), Json::Null)));
    m.push(member("worker_total", clone_or(at2(payload, "run_truth_surface", "worker_total"), Json::Null)));
    m.push(member("worker_active", clone_or(at2(payload, "run_truth_surface", "worker_active"), Json::Null)));
    let r = object_of(m);
    assert(members_view(m@) =~= spec_panel_fan_in(jview(*payload))->Object_0);
    r
}

/// The captain's next action as the panel shows it.
pub open spec fn spec_next_captain_action(payload: JVal) -> JVal {
    JVal::Object(
        seq![
            ("precedence"@, or_null(jget_path(payload, seq!["post_fan_in_captain_decision"@, "precedence"@]))),
            ("allowed_action"@, or_null(jget_path(payload, seq!["captain_action_contract"@, "allowed_action"@]))),
            ("required_action"@, or_null(jget_path(payload, seq!["captain_action_contract"@, "required_action"@]))),
            (
                "direct_file_mutation_policy"@,
                or_else(
                    jget_path(payload, seq!["captain_action_contract"@, "direct_file_mutation_policy"@]),
                    spec_default_direct_file_mutation_policy(),
                ),
            ),
            ("resume_action"@, or_null(jget_path(payload, seq!["run_truth_surface"@, "resume_action"@]))),
            ("run_state_next_action"@, or_null(jget_path(payload, seq!["run_state"@, "next_action"@]))),
        ],
    )
}

fn next_captain_action(payload: &Json) -> (r: Json)
    ensures
        jview(r) == spec_next_captain_action(jview(*payload)),
{
    let policy = match at2(payload, "captain_action_contract", "direct_file_mutation_policy") {
        Some(v) => v.deep_clone(),
        None => default_direct_file_mutation_policy(),
    };
    let mut m: Vec<(String, Json)> = Vec::new();
    m.push(member("precedence", clone_or(at2(payload, "post_fan_in_captain_decision", "precedence"), Json::Null)));
    m.push(member("allowed_action", clone_or(at2(payload, "captain_action_contract", "allowed_action"), Json::Null)));
    m.push(member("required_action", clone_or(at2(payload, "captain_action_contract", "required_action"), Json::Null)));
    m.push(member("direct_file_mutation_policy", policy));
    m.push(member("resume_action", clone_or(at2(payload, "run_truth_surface", "resume_action"), Json::Null)));
    m.push(member("run_state_next_action", clone_or(at2(payload, "run_state", "next_action"), Json::Null)));
    let r = object_of(m);
    assert(members_view(m@) =~= spec_next_captain_action(jview(*payload))->Object_0);
    r
}

/// The panel's run, progress and status parts.
pub open spec fn spec_panel_head(payload: JVal, shared_config: Option<JVal>) -> Seq<(Seq<char>, JVal)> {
    seq![
        ("schema"@, JVal::Str("ccc.codex_app_panel.v1"@)),
        ("surface"@, JVal::Str("codex_app"@)),
        ("render_strategy"@, spec_render_strategy()),
        ("run"@, spec_panel_run(payload)),
        ("longway_progress"@, spec_longway_progress(payload, shared_config)),
        ("scheduler"@, or_null(jget(payload, "scheduler"@))),
        ("active_checkpoint"@, or_null(jget(payload, "active_checkpoint"@))),
        ("task_session_state"@, or_null(jget(payload, "task_session_state"@))),
        ("workflow_loop"@, or_null(jget(payload, "workflow_loop"@))),
        ("lifecycle_hooks"@, or_null(jget(payload, "lifecycle_hooks"@))),
        ("state_contract"@, or_null(jget(payload, "state_contract"@))),
        ("post_fan_in_captain_decision"@, or_null(jget(payload, "post_fan_in_captain_decision"@))),
        ("recovery_lane"@, or_null(jget(payload, "recovery_lane"@))),
    ]
}

/// The panel's task, lane, fan-in, workspace and action parts.
pub open spec fn spec_panel_tail(payload: JVal) -> Seq<(Seq<char>, JVal)> {
    seq![
        ("current_task"@, spec_compact_current_task(payload)),
        ("specialist_lanes"@, spec_specialist_lanes(payload)),
        ("fan_in"@, spec_panel_fan_in(payload)),
        ("blockers"@, spec_compact_blockers(payload)),
        ("target_workspace"@, spec_compact_target_workspace(payload)),
        ("workspace_state"@, spec_compact_workspace_state(payload)),
        ("captain_direct_mutation_guard"@, or_null(jget(payload, "captain_direct_mutation_guard"@))),
        ("context_health"@, or_null(jget(payload, "context_health"@))),
        ("registry_evidence"@, or_null(jget(payload, "registry_evidence"@))),
        ("restart_handoff"@, or_null(jget(payload, "restart_handoff"@))),
        ("next_captain_action"@, spec_next_captain_action(payload)),
        ("warnings"@, spec_compact_warnings(payload)),
    ]
}

/// The Codex app panel of a status payload. `shared_config` is the shared
/// CCC config that planned rows read role settings from (`None` when it
/// could not be read).
pub open spec fn spec_codex_app_panel(payload: JVal, shared_config: Option<JVal>) -> JVal {
    JVal::Object(spec_panel_head(payload, shared_config) + spec_panel_tail(payload))
}

fn panel_head(payload: &Json, shared_config: Option<&Json>) -> (r: Vec<(String, Json)>)
    ensures
        members_view(r@) == spec_panel_head(jview(*payload), opt_jview_ref(shared_config)),
{
    let mut m: Vec<(String, Json)> = Vec::new();
    m.push(member("schema", jstr("ccc.codex_app_panel.v1")));
    m.push(member("surface", jstr("codex_app")));
    m.push(member("render_strategy", render_strategy()));
    m.push(member("run", panel_run(payload)));
    m.push(member("longway_progress", longway_progress(payload, shared_config)));
    m.push(member("scheduler", clone_or(get_ref(payload, "scheduler"), Json::Null)));
    m.push(member("active_checkpoint", clone_or(get_ref(payload, "active_checkpoint"), Json::Null)));
    m.push(member("task_session_state", clone_or(get_ref(payload, "task_session_state"), Json::Null)));
    m.push(member("workflow_loop", clone_or(get_ref(payload, "workflow_loop"), Json::Null)));
    m.push(member("lifecycle_hooks", clone_or(get_ref(payload, "lifecycle_hooks"), Json::Null)));
    m.push(member("state_contract", clone_or(get_ref(payload, "state_contract"), Json::Null)));
    m.push(
        member(
            "post_fan_in_captain_decision",
            clone_or(get_ref(payload, "post_fan_in_captain_decision"), Json::Null),
        ),
    );
    m.push(member("recovery_lane", clone_or(get_ref(payload, "recovery_lane"), Json::Null)));
    assert(members_view(m@) =~= spec_panel_head(jview(*payload), opt_jview_ref(shared_config)));
    m
}

fn push_panel_tail(m: &mut Vec<(String, Json)>, payload: &Json)
    ensures
        members_view(final(m)@) == members_view(old(m)@) + spec_panel_tail(jview(*payload)),
{
    let ghost start = old(m)@;
    m.push(member("current_task", compact_current_task(payload)));
    m.push(member("specialist_lanes", specialist_lanes(payload)));
    m.push(member("fan_in", panel_fan_in(payload)));
    m.push(member("blockers", compact_blockers(payload)));
    m.push(member("target_workspace", compact_target_workspace(payload)));
    m.push(member("workspace_state", compact_workspace_state(payload)));
    m.push(
        member(
            "captain_direct_mutation_guard",
            clone_or(get_ref(payload, "captain_direct_mutation_guard"), Json::Null),
        ),
    );
    m.push(member("context_health", clone_or(get_ref(payload, "context_health"), Json::Null)));
    m.push(member("registry_evidence", clone_or(get_ref(payload, "registry_evidence"), Json::Null)));
    m.push(member("restart_handoff", clone_or(get_ref(payload, "restart_handoff"), Json::Null)));
    m.push(member("next_captain_action", next_captain_action(payload)));
    m.push(member("warnings", compact_warnings(payload)));
    assert(members_view(m@) =~= members_view(start) + spec_panel_tail(jview(*payload)));
}

pub fn create_codex_app_panel_payload(payload: &Json, shared_config: Option<&Json>) -> (r: Json)
    ensures
        jview(r) == spec_codex_app_panel(jview(*payload), opt_jview_ref(shared_config)),
{
    let mut m = panel_head(payload, shared_config);
    push_panel_tail(&mut m, payload);
    object_of(m)
}

} // verus!
