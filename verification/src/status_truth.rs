//! Persisted truth that the status falls back on: a member of the task card
//! or run record, else of the other; the graph context readiness with its
//! fallbacks; the operator's language; and the transport guidance shown to
//! the operator.

use vstd::prelude::*;
use crate::json::{
    get_or, jbool, jget, jget_or, jget_path, jinsert, jstr, jstr_array, jstr_field, jstring, jview,
    member, members_view, object_of, opt_bool, JVal, Json,
};
use crate::status_text::{is_korean_char, text_appears_korean};
use crate::strings::{concat3, opt_str_is, str_eq};

verus! {

/// The primary's member when it is present and not `null`, else the
/// fallback's member, else `null`.
pub open spec fn spec_primary_or_fallback(
    primary: JVal,
    primary_key: Seq<char>,
    fallback: JVal,
    fallback_key: Seq<char>,
) -> JVal {
    match jget(primary, primary_key) {
        Some(v) => if v != JVal::Null {
            v
        } else {
            jget_or(fallback, fallback_key, JVal::Null)
        },
        None => jget_or(fallback, fallback_key, JVal::Null),
    }
}

pub fn primary_non_null_or_fallback_payload(
    primary: &Json,
    primary_key: &str,
    fallback: &Json,
    fallback_key: &str,
) -> (r: Json)
    ensures
        jview(r) == spec_primary_or_fallback(
            jview(*primary),
            primary_key@,
            jview(*fallback),
            fallback_key@,
        ),
{
    match primary.get(primary_key) {
        Some(v) => if !v.is_null() {
            v.deep_clone()
        } else {
            get_or(fallback, fallback_key, Json::Null)
        },
        None => get_or(fallback, fallback_key, Json::Null),
    }
}

/// The latest intervention: the task card's, else the run record's.
pub fn latest_intervention_payload(
    current_task_card: &Json,
    run_record: &Json,
    task_card_key: &str,
    run_record_key: &str,
) -> (r: Json)
    ensures
        jview(r) == spec_primary_or_fallback(
            jview(*current_task_card),
            task_card_key@,
            jview(*run_record),
            run_record_key@,
        ),
{
    primary_non_null_or_fallback_payload(current_task_card, task_card_key, run_record, run_record_key)
}

/// The status fields that fall back from one persisted record to another.
pub struct CccStatusTruthFallbackFields {
    pub way_clarification_request: Json,
    pub prompt_refinement: Json,
    pub review_policy: Json,
    pub completion_discipline: Json,
    pub latest_captain_intervention: Json,
    pub latest_sentinel_intervention: Json,
}

/// The run's clarification request and prompt refinement (else the
/// LongWay's), and the task's review policy, completion discipline and
/// latest captain and sentinel interventions (else the run's).
pub fn create_ccc_status_truth_fallback_fields(
    run_record: &Json,
    current_task_card: &Json,
    longway: &Json,
) -> (r: CccStatusTruthFallbackFields)
    ensures
        jview(r.way_clarification_request) == spec_primary_or_fallback(
            jview(*run_record),
            "way_clarification_request"@,
            jview(*longway),
            "way_clarification_request"@,
        ),
        jview(r.prompt_refinement) == spec_primary_or_fallback(
            jview(*run_record),
            "prompt_refinement"@,
            jview(*longway),
            "prompt_refinement"@,
        ),
        jview(r.review_policy) == spec_primary_or_fallback(
            jview(*current_task_card),
            "review_policy"@,
            jview(*run_record),
            "review_policy"@,
        ),
        jview(r.completion_discipline) == spec_primary_or_fallback(
            jview(*current_task_card),
            "completion_discipline"@,
            jview(*run_record),
            "completion_discipline"@,
        ),
        jview(r.latest_captain_intervention) == spec_primary_or_fallback(
            jview(*current_task_card),
            "captain_intervention"@,
            jview(*run_record),
            "latest_captain_intervention"@,
        ),
        jview(r.latest_sentinel_intervention) == spec_primary_or_fallback(
            jview(*current_task_card),
            "sentinel_intervention"@,
            jview(*run_record),
            "latest_sentinel_intervention"@,
        ),
{
    CccStatusTruthFallbackFields {
        way_clarification_request: primary_non_null_or_fallback_payload(
            run_record,
            "way_clarification_request",
            longway,
            "way_clarification_request",
        ),
        prompt_refinement: primary_non_null_or_fallback_payload(
            run_record,
            "prompt_refinement",
            longway,
            "prompt_refinement",
        ),
        review_policy: primary_non_null_or_fallback_payload(
            current_task_card,
            "review_policy",
            run_record,
            "review_policy",
        ),
        completion_discipline: primary_non_null_or_fallback_payload(
            current_task_card,
            "completion_discipline",
            run_record,
            "completion_discipline",
        ),
        latest_captain_intervention: latest_intervention_payload(
            current_task_card,
            run_record,
            "captain_intervention",
            "latest_captain_intervention",
        ),
        latest_sentinel_intervention: latest_intervention_payload(
            current_task_card,
            run_record,
            "sentinel_intervention",
            "latest_sentinel_intervention",
        ),
    }
}

/// The state of the graph artifacts: present when both the report and the
/// graph are available, partial when one is, missing otherwise.
pub open spec fn spec_artifact_state(payload: JVal) -> Seq<char> {
    let report = opt_bool(jget_path(payload, seq!["artifacts"@, "report"@, "available"@])) == Some(
        true,
    );
    let graph = opt_bool(jget_path(payload, seq!["artifacts"@, "graph"@, "available"@])) == Some(
        true,
    );
    if report && graph {
        "present"@
    } else if report || graph {
        "partial"@
    } else {
        "missing"@
    }
}

/// The readiness payload with the status schema and the artifact state set;
/// unless it is available, the scout source evidence fallbacks are added
/// where missing. A value that is not an object is returned as it is.
pub open spec fn spec_normalized_graph_context(payload: JVal) -> JVal {
    match payload {
        JVal::Object(_) => {
            let ready = jstr_field(payload, "readiness"@) == Some("available"@);
            let p1 = jinsert(payload, "schema"@, JVal::Str("ccc.graph_context_readiness.status.v1"@));
            let p2 = jinsert(p1, "artifact_state"@, JVal::Str(spec_artifact_state(payload)));
            let p3 = if !ready && jget(p2, "fallback_when_unavailable"@) is None {
                jinsert(p2, "fallback_when_unavailable"@, JVal::Str("scout_source_evidence"@))
            } else {
                p2
            };
            if !ready && jget(p3, "fallback"@) is None {
                jinsert(p3, "fallback"@, JVal::Str("scout_source_evidence"@))
            } else {
                p3
            }
        },
        _ => payload,
    }
}

fn available_at(payload: &Json, which: &str) -> (r: bool)
    ensures
        r == (opt_bool(jget_path(jview(*payload), seq!["artifacts"@, which@, "available"@])) == Some(
            true,
        )),
{
    let keys: [&str; 3] = ["artifacts", which, "available"];
    let ks = keys.as_slice();
    assert(ks@.map_values(|k: &str| k@) =~= seq!["artifacts"@, which@, "available"@]);
    match payload.get_path(ks) {
        Some(v) => match v.as_bool() {
            Some(b) => b,
            None => false,
        },
        None => false,
    }
}

pub fn normalize_graph_context_status_fallback(payload: Json) -> (r: Json)
    ensures
        jview(r) == spec_normalized_graph_context(jview(payload)),
{
    if !payload.is_object() {
        return payload;
    }
    let ready = opt_str_is(payload.str_field("readiness"), "available");
    let report = available_at(&payload, "report");
    let graph = available_at(&payload, "graph");
    let state: &str = if report && graph {
        "present"
    } else if report || graph {
        "partial"
    } else {
        "missing"
    };
    let mut out = payload;
    out.insert("schema", jstr("ccc.graph_context_readiness.status.v1"));
    out.insert("artifact_state", jstr(state));
    if !ready && out.get("fallback_when_unavailable").is_none() {
        out.insert("fallback_when_unavailable", jstr("scout_source_evidence"));
    }
    if !ready && out.get("fallback").is_none() {
        out.insert("fallback", jstr("scout_source_evidence"));
    }
    out
}

/// The routing of graph context when its readiness cannot be inspected.
pub open spec fn spec_inspection_error_routing() -> JVal {
    JVal::Object(
        seq![
            ("graph_context_enabled"@, JVal::Bool(true)),
            ("graphify_queries_enabled"@, JVal::Bool(false)),
            ("legacy_code_graph_called"@, JVal::Bool(false)),
            ("legacy_fallback_disabled"@, JVal::Bool(true)),
            ("legacy_rebuild_disabled"@, JVal::Bool(true)),
            ("ccc_graph_backend"@, JVal::Str("graph_context_scout_source_evidence"@)),
            ("ccc_code_graph_backend"@, JVal::Str("graph_context_scout_source_evidence"@)),
        ],
    )
}

/// The graph context status: the readiness payload normalized, or, when it
/// could not be inspected, an unavailable status naming the error.
pub open spec fn spec_graph_context_status(readiness: Result<JVal, Seq<char>>) -> JVal {
    match readiness {
        Ok(p) => spec_normalized_graph_context(p),
        Err(error) => JVal::Object(
            seq![
                ("schema"@, JVal::Str("ccc.graph_context_readiness.status.v1"@)),
                ("provider"@, JVal::Str("graphify"@)),
                ("readiness"@, JVal::Str("unavailable"@)),
                ("reason"@, JVal::Str("inspection_error"@)),
                ("fallback_when_unavailable"@, JVal::Str("scout_source_evidence"@)),
                ("fallback"@, JVal::Str("scout_source_evidence"@)),
                ("artifact_state"@, JVal::Str("inspection_error"@)),
                (
                    "summary"@,
                    JVal::Str(
                        "Graphify graph_context readiness could not be inspected: "@ + error + "."@,
                    ),
                ),
                ("routing"@, spec_inspection_error_routing()),
            ],
        ),
    }
}

/// The graph context status from the readiness inspection's outcome (its
/// payload, or its error's text).
pub fn create_graph_context_status_payload(readiness: Result<Json, String>) -> (r: Json)
    ensures
        jview(r) == spec_graph_context_status(
            match readiness {
                Ok(p) => Ok(jview(p)),
                Err(e) => Err(e@),
            },
        ),
{
    match readiness {
        Ok(payload) => normalize_graph_context_status_fallback(payload),
        Err(error) => {
            let mut rt: Vec<(String, Json)> = Vec::new();
            rt.push(member("graph_context_enabled", jbool(true)));
            rt.push(member("graphify_queries_enabled", jbool(false)));
            rt.push(member("legacy_code_graph_called", jbool(false)));
            rt.push(member("legacy_fallback_disabled", jbool(true)));
            rt.push(member("legacy_rebuild_disabled", jbool(true)));
            rt.push(member("ccc_graph_backend", jstr("graph_context_scout_source_evidence")));
            rt.push(member("ccc_code_graph_backend", jstr("graph_context_scout_source_evidence")));
            let summary = concat3(
                "Graphify graph_context readiness could not be inspected: ",
                error.as_str(),
                ".",
            );
            let mut m: Vec<(String, Json)> = Vec::new();
            m.push(member("schema", jstr("ccc.graph_context_readiness.status.v1")));
            m.push(member("provider", jstr("graphify")));
            m.push(member("readiness", jstr("unavailable")));
            m.push(member("reason", jstr("inspection_error")));
            m.push(member("fallback_when_unavailable", jstr("scout_source_evidence")));
            m.push(member("fallback", jstr("scout_source_evidence")));
            m.push(member("artifact_state", jstr("inspection_error")));
            m.push(member("summary", jstring(summary)));
            m.push(member("routing", object_of(rt)));
            let r = object_of(m);
            proof {
                assert(members_view(rt@) =~= spec_inspection_error_routing()->Object_0);
                assert(members_view(m@) =~= spec_graph_context_status(Err(error@))->Object_0);
            }
            r
        },
    }
}

/// Whether a text has a Korean character.
pub open spec fn has_korean(t: Seq<char>) -> bool {
    exists|i: int| 0 <= i < t.len() && is_korean_char(#[trigger] t[i])
}

/// The operator's language: `ko` when the run's prompt, request, intent,
/// goal or title (the first that has one) is written with Korean
/// characters, else `en`.
pub open spec fn spec_operator_language(run_record: JVal) -> Seq<char> {
    let k = |key: Seq<char>| match jstr_field(run_record, key) {
        Some(t) => has_korean(t),
        None => false,
    };
    if k("prompt"@) || k("request"@) || k("intent"@) || k("goal"@) || k("title"@) {
        "ko"@
    } else {
        "en"@
    }
}

fn field_is_korean(run_record: &Json, key: &str) -> (r: bool)
    ensures
        r == match jstr_field(jview(*run_record), key@) {
            Some(t) => has_korean(t),
            None => false,
        },
{
    match run_record.str_field(key) {
        Some(t) => text_appears_korean(t),
        None => false,
    }
}

pub fn operator_language_from_run_record(run_record: &Json) -> (r: &'static str)
    ensures
        r@ == spec_operator_language(jview(*run_record)),
{
    if field_is_korean(run_record, "prompt") || field_is_korean(run_record, "request")
        || field_is_korean(run_record, "intent") || field_is_korean(run_record, "goal")
        || field_is_korean(run_record, "title") {
        "ko"
    } else {
        "en"
    }
}

/// The operator transport guidance: lifecycle mutations go through quiet
/// inline-JSON CLI subcommands, MCP tool calls are kept for app surfaces,
/// structured inspection and an unavailable CLI.
pub open spec fn spec_transport_guidance() -> JVal {
    JVal::Object(
        seq![
            ("preferred_transport"@, JVal::Str("ccc_cli_quiet_subcommand"@)),
            ("transcript_signal"@, JVal::Str("ran"@)),
            (
                "reason"@,
                JVal::Str(
                    "Operator-visible CCC lifecycle mutations should be recorded as quiet inline-JSON CLI subcommands instead of MCP tool calls."@,
                ),
            ),
            (
                "lifecycle_mutations"@,
                JVal::Array(
                    seq![
                        JVal::Str("start"@),
                        JVal::Str("orchestrate"@),
                        JVal::Str("subagent-update"@),
                        JVal::Str("memory"@),
                    ],
                ),
            ),
            ("default_payload_transport"@, JVal::Str("inline_json"@)),
            (
                "longway_visibility"@,
                JVal::Str(
                    "Use CCC_LONGWAY_PROJECTION.md for normal progress visibility; refresh it with ccc status --projection --json '{...}' or ccc checklist --projection --json '{...}'."@,
                ),
            ),
            (
                "preferred_command_shapes"@,
                JVal::Object(
                    seq![
                        ("start"@, JVal::Array(seq![JVal::Str("ccc start --quiet --json '{...}'"@)])),
                        (
                            "orchestrate"@,
                            JVal::Array(seq![JVal::Str("ccc orchestrate --quiet --json '{...}'"@)]),
                        ),
                        (
                            "subagent_update"@,
                            JVal::Array(seq![JVal::Str("ccc subagent-update --quiet --json '{...}'"@)]),
                        ),
                        ("memory"@, JVal::Array(seq![JVal::Str("ccc memory --quiet --json '{...}'"@)])),
                        (
                            "projection"@,
                            JVal::Array(seq![JVal::Str("ccc status --projection --json '{...}'"@)]),
                        ),
                    ],
                ),
            ),
            (
                "mcp_reserved_for"@,
                JVal::Array(
                    seq![
                        JVal::Str("app surfaces"@),
                        JVal::Str("structured inspection"@),
                        JVal::Str("CLI unavailable"@),
                    ],
                ),
            ),
        ],
    )
}

fn one_str_array(s: &str) -> (r: Json)
    ensures
        jview(r) == JVal::Array(seq![JVal::Str(s@)]),
{
    let items: Vec<&str> = vec![s];
    let r = jstr_array(&items);
    assert(jview(r)->Array_0 =~= seq![JVal::Str(s@)]);
    r
}

pub fn create_operator_visible_transport_guidance() -> (r: Json)
    ensures
        jview(r) == spec_transport_guidance(),
{
    let lifecycle = jstr_array(&vec!["start", "orchestrate", "subagent-update", "memory"]);
    let reserved = jstr_array(&vec!["app surfaces", "structured inspection", "CLI unavailable"]);
    let mut shapes: Vec<(String, Json)> = Vec::new();
    shapes.push(member("start", one_str_array("ccc start --quiet --json '{...}'")));
    shapes.push(member("orchestrate", one_str_array("ccc orchestrate --quiet --json '{...}'")));
    shapes.push(member("subagent_update", one_str_array("ccc subagent-update --quiet --json '{...}'")));
    shapes.push(member("memory", one_str_array("ccc memory --quiet --json '{...}'")));
    shapes.push(member("projection", one_str_array("ccc status --projection --json '{...}'")));
    let mut m: Vec<(String, Json)> = Vec::new();
    m.push(member("preferred_transport", jstr("ccc_cli_quiet_subcommand")));
    m.push(member("transcript_signal", jstr("ran")));
    m.push(
        member(
            "reason",
            jstr(
                "Operator-visible CCC lifecycle mutations should be recorded as quiet inline-JSON CLI subcommands instead of MCP tool calls.",
            ),
        ),
    );
    m.push(member("lifecycle_mutations", lifecycle));
    m.push(member("default_payload_transport", jstr("inline_json")));
    m.push(
        member(
            "longway_visibility",
            jstr(
                "Use CCC_LONGWAY_PROJECTION.md for normal progress visibility; refresh it with ccc status --projection --json '{...}' or ccc checklist --projection --json '{...}'.",
            ),
        ),
    );
    m.push(member("preferred_command_shapes", object_of(shapes)));
    m.push(member("mcp_reserved_for", reserved));
    let r = object_of(m);
    proof {
        let s = spec_transport_guidance();
        assert(jview(lifecycle)->Array_0 =~= s->Object_0[3].1->Array_0);
        assert(jview(reserved)->Array_0 =~= s->Object_0[7].1->Array_0);
        assert(members_view(shapes@) =~= s->Object_0[6].1->Object_0);
        assert(members_view(m@) =~= s->Object_0);
    }
    r
}

/// The first present value of the task's model setting `field`: what its
/// latest launch dispatched, its runtime dispatch, its plan's runtime
/// dispatch, its plan, then its role config snapshot (`null` when none).
pub open spec fn spec_task_model_value(task: JVal, field: Seq<char>) -> JVal {
    crate::app_panel::or_null(
        match crate::json::jget_path(task, seq!["latest_model_launch"@, "dispatched_"@ + field]) {
            Some(v) => Some(v),
            None => match crate::json::jget_path(task, seq!["runtime_dispatch"@, field]) {
                Some(v) => Some(v),
                None => match crate::json::jget_path(task, seq!["delegation_plan"@, "runtime_dispatch"@, field]) {
                    Some(v) => Some(v),
                    None => match crate::json::jget_path(task, seq!["delegation_plan"@, field]) {
                        Some(v) => Some(v),
                        None => crate::json::jget_path(task, seq!["role_config_snapshot"@, field]),
                    },
                },
            },
        },
    )
}

/// A model setting of a task: its model or its reasoning variant.
pub enum ModelField {
    Model,
    Variant,
}

/// The member name of a model setting.
pub open spec fn model_field_name(f: ModelField) -> Seq<char> {
    match f {
        ModelField::Model => "model"@,
        ModelField::Variant => "variant"@,
    }
}

/// The task's model setting (see `spec_task_model_value`).
pub fn task_model_value(current_task_card: &Json, field: ModelField) -> (r: Json)
    ensures
        jview(r) == spec_task_model_value(jview(*current_task_card), model_field_name(field)),
{
    let (name, dispatched): (&str, &str) = match field {
        ModelField::Model => ("model", "dispatched_model"),
        ModelField::Variant => ("variant", "dispatched_variant"),
    };
    proof {
        reveal_strlit("model");
        reveal_strlit("variant");
        reveal_strlit("dispatched_");
        reveal_strlit("dispatched_model");
        reveal_strlit("dispatched_variant");
    }
    assert(dispatched@ =~= "dispatched_"@ + model_field_name(field));
    let found = match crate::app_panel::at2(current_task_card, "latest_model_launch", dispatched) {
        Some(v) => Some(v),
        None => match crate::app_panel::at2(current_task_card, "runtime_dispatch", name) {
            Some(v) => Some(v),
            None => match crate::app_panel::at3(current_task_card, "delegation_plan", "runtime_dispatch", name) {
                Some(v) => Some(v),
                None => match crate::app_panel::at2(current_task_card, "delegation_plan", name) {
                    Some(v) => Some(v),
                    None => crate::app_panel::at2(current_task_card, "role_config_snapshot", name),
                },
            },
        },
    };
    crate::app_panel::clone_or(found, Json::Null)
}

} // verus!
