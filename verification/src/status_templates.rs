//! The command templates of the compact status: ready-made `ccc` commands and
//! payload skeletons for the next operator or captain step, and the compact
//! views of the captain action contract and graph context readiness.

use vstd::prelude::*;
use crate::json::{
    get_or, jbool, jempty_array, jget, jget_or, jget_path, jint, jstr, jstr_array, jstring, jview,
    lemma_array_view, jstr_field, member, members_view, new_object, object_of, JVal, Json,
};
use crate::strings::{push_str, to_owned, trim, trim_string};
use crate::text_utils::{summarize_text_for_visibility, summary_of};

verus! {

/// The value at a path of nested members, or `fallback`.
pub open spec fn jpath_or(j: JVal, keys: Seq<Seq<char>>, fallback: JVal) -> JVal {
    match jget_path(j, keys) {
        Some(v) => v,
        None => fallback,
    }
}

pub(crate) fn path_or(j: &Json, outer: &str, inner: &str, fallback: Json) -> (r: Json)
    ensures
        jview(r) == jpath_or(jview(*j), seq![outer@, inner@], jview(fallback)),
{
    let keys: [&str; 2] = [outer, inner];
    let ks = keys.as_slice();
    assert(ks@.map_values(|k: &str| k@) =~= seq![outer@, inner@]);
    match j.get_path(ks) {
        Some(v) => v.deep_clone(),
        None => fallback,
    }
}

/// A `ccc` command that names a run: `<prefix> --json '{"run_id":"<run>"}'`.
pub open spec fn run_command(prefix: Seq<char>, run_id: Seq<char>) -> Seq<char> {
    prefix + " --json '{\"run_id\":\""@ + run_id + "\"}'"@
}

fn run_command_text(prefix: &str, run_id_text: &str) -> (r: String)
    ensures
        r@ == run_command(prefix@, run_id_text@),
{
    let mut out = to_owned(prefix);
    push_str(&mut out, " --json '{\"run_id\":\"");
    push_str(&mut out, run_id_text);
    push_str(&mut out, "\"}'");
    out
}

fn strs(items: Vec<&str>) -> (r: Json)
    ensures
        jview(r) == JVal::Array(items@.map_values(|s: &str| JVal::Str(s@))),
{
    jstr_array(&items)
}

/// The `status` commands for a run.
pub open spec fn spec_status_commands(run_id: Seq<char>) -> JVal {
    JVal::Object(
        seq![
            ("command"@, JVal::Str(run_command("ccc status --quiet"@, run_id))),
            ("text_command"@, JVal::Str(run_command("ccc status --text"@, run_id))),
            ("projection_command"@, JVal::Str(run_command("ccc status --projection"@, run_id))),
            ("longway_text_command"@, JVal::Str(run_command("ccc status --projection"@, run_id))),
        ],
    )
}

fn status_commands(run_id_text: &str) -> (r: Json)
    ensures
        jview(r) == spec_status_commands(run_id_text@),
{
    let mut m: Vec<(String, Json)> = Vec::new();
    m.push(member("command", jstring(run_command_text("ccc status --quiet", run_id_text))));
    m.push(member("text_command", jstring(run_command_text("ccc status --text", run_id_text))));
    m.push(
        member("projection_command", jstring(run_command_text("ccc status --projection", run_id_text))),
    );
    m.push(
        member(
            "longway_text_command",
            jstring(run_command_text("ccc status --projection", run_id_text)),
        ),
    );
    let r = object_of(m);
    assert(members_view(m@) =~= spec_status_commands(run_id_text@)->Object_0);
    r
}

/// The `graph` commands, with a review-context payload for the status's
/// working directory.
pub open spec fn spec_graph_commands(payload: JVal) -> JVal {
    JVal::Object(
        seq![
            (
                "command"@,
                JVal::Str(
                    "ccc graph --json '{\"paths\":[\"<path>\"],\"query\":\"review_context\",\"update\":false}'"@,
                ),
            ),
            (
                "text_command"@,
                JVal::Str(
                    "ccc graph --text --json '{\"paths\":[\"<path>\"],\"query\":\"impact\",\"update\":false}'"@,
                ),
            ),
            (
                "payload"@,
                JVal::Object(
                    seq![
                        ("cwd"@, jget_or(payload, "cwd"@, JVal::Null)),
                        ("paths"@, JVal::Array(seq![JVal::Str("<changed-path>"@)])),
                        ("query"@, JVal::Str("review_context"@)),
                        ("update"@, JVal::Bool(false)),
                    ],
                ),
            ),
        ],
    )
}

fn graph_commands(payload: &Json) -> (r: Json)
    ensures
        jview(r) == spec_graph_commands(jview(*payload)),
{
    let paths = strs(vec!["<changed-path>"]);
    let mut p: Vec<(String, Json)> = Vec::new();
    p.push(member("cwd", get_or(payload, "cwd", Json::Null)));
    p.push(member("paths", paths));
    p.push(member("query", jstr("review_context")));
    p.push(member("update", jbool(false)));
    let inner = object_of(p);
    let mut m: Vec<(String, Json)> = Vec::new();
    m.push(
        member(
            "command",
            jstr(
                "ccc graph --json '{\"paths\":[\"<path>\"],\"query\":\"review_context\",\"update\":false}'",
            ),
        ),
    );
    m.push(
        member(
            "text_command",
            jstr(
                "ccc graph --text --json '{\"paths\":[\"<path>\"],\"query\":\"impact\",\"update\":false}'",
            ),
        ),
    );
    m.push(member("payload", inner));
    let r = object_of(m);
    proof {
        assert(jview(paths)->Array_0 =~= seq![JVal::Str("<changed-path>"@)]);
        assert(members_view(p@) =~= spec_graph_commands(jview(*payload))->Object_0[2].1->Object_0);
        assert(members_view(m@) =~= spec_graph_commands(jview(*payload))->Object_0);
    }
    r
}

/// The `memory` commands, with a preview payload for a recurring captain
/// instruction.
pub open spec fn spec_memory_commands() -> JVal {
    JVal::Object(
        seq![
            ("command"@, JVal::Str("ccc memory --text --json '{\"action\":\"status\"}'"@)),
            ("preview_command"@, JVal::Str("ccc memory --text --json '{...}'"@)),
            ("write_command"@, JVal::Str("ccc memory --quiet --json '{...}'"@)),
            (
                "payload"@,
                JVal::Object(
                    seq![
                        ("action"@, JVal::Str("preview"@)),
                        (
                            "entries"@,
                            JVal::Array(
                                seq![
                                    JVal::Object(
                                        seq![
                                            ("kind"@, JVal::Str("captain_instruction"@)),
                                            ("text"@, JVal::Str("<recurring captain instruction>"@)),
                                            ("source_kind"@, JVal::Str("operator_confirmation"@)),
                                            ("source"@, JVal::Str("operator"@)),
                                        ],
                                    ),
                                ],
                            ),
                        ),
                    ],
                ),
            ),
        ],
    )
}

fn memory_commands() -> (r: Json)
    ensures
        jview(r) == spec_memory_commands(),
{
    let mut e: Vec<(String, Json)> = Vec::new();
    e.push(member("kind", jstr("captain_instruction")));
    e.push(member("text", jstr("<recurring captain instruction>")));
    e.push(member("source_kind", jstr("operator_confirmation")));
    e.push(member("source", jstr("operator")));
    let entry = object_of(e);
    let ghost entry_view = jview(entry);
    let mut entries: Vec<Json> = Vec::new();
    entries.push(entry);
    proof {
        lemma_array_view(entries);
    }
    let ghost entries_seq = entries@;
    let mut p: Vec<(String, Json)> = Vec::new();
    p.push(member("action", jstr("preview")));
    p.push(member("entries", Json::Array(entries)));
    let inner = object_of(p);
    let mut m: Vec<(String, Json)> = Vec::new();
    m.push(member("command", jstr("ccc memory --text --json '{\"action\":\"status\"}'")));
    m.push(member("preview_command", jstr("ccc memory --text --json '{...}'")));
    m.push(member("write_command", jstr("ccc memory --quiet --json '{...}'")));
    m.push(member("payload", inner));
    let r = object_of(m);
    proof {
        let s = spec_memory_commands();
        assert(members_view(e@) =~= s->Object_0[3].1->Object_0[1].1->Array_0[0]->Object_0);
        assert(entries_seq.map_values(|x: Json| jview(x)) =~= s->Object_0[3].1->Object_0[1].1->Array_0);
        assert(members_view(p@) =~= s->Object_0[3].1->Object_0);
        assert(members_view(m@) =~= s->Object_0);
    }
    r
}

/// The `checklist` commands for a run, with the status's run id as payload.
pub open spec fn spec_checklist_commands(payload: JVal, run_id: Seq<char>) -> JVal {
    JVal::Object(
        seq![
            ("command"@, JVal::Str(run_command("ccc checklist --quiet"@, run_id))),
            ("text_command"@, JVal::Str(run_command("ccc checklist --text"@, run_id))),
            ("projection_command"@, JVal::Str(run_command("ccc checklist --projection"@, run_id))),
            (
                "longway_text_command"@,
                JVal::Str(run_command("ccc checklist --projection"@, run_id)),
            ),
            (
                "payload"@,
                JVal::Object(seq![("run_id"@, jget_or(payload, "run_id"@, JVal::Null))]),
            ),
        ],
    )
}

fn checklist_commands(payload: &Json, run_id_text: &str) -> (r: Json)
    ensures
        jview(r) == spec_checklist_commands(jview(*payload), run_id_text@),
{
    let mut p: Vec<(String, Json)> = Vec::new();
    p.push(member("run_id", get_or(payload, "run_id", Json::Null)));
    let inner = object_of(p);
    let mut m: Vec<(String, Json)> = Vec::new();
    m.push(member("command", jstring(run_command_text("ccc checklist --quiet", run_id_text))));
    m.push(member("text_command", jstring(run_command_text("ccc checklist --text", run_id_text))));
    m.push(
        member(
            "projection_command",
            jstring(run_command_text("ccc checklist --projection", run_id_text)),
        ),
    );
    m.push(
        member(
            "longway_text_command",
            jstring(run_command_text("ccc checklist --projection", run_id_text)),
        ),
    );
    m.push(member("payload", inner));
    let r = object_of(m);
    proof {
        let s = spec_checklist_commands(jview(*payload), run_id_text@);
        assert(members_view(p@) =~= s->Object_0[4].1->Object_0);
        assert(members_view(m@) =~= s->Object_0);
    }
    r
}

/// The `start` commands, with a skeleton of a compact start payload.
pub open spec fn spec_start_commands() -> JVal {
    JVal::Object(
        seq![
            ("command"@, JVal::Str("ccc start --quiet --json '{...}'"@)),
            ("text_command"@, JVal::Str("ccc start --text --json '{...}'"@)),
            (
                "payload"@,
                JVal::Object(
                    seq![
                        ("goal"@, JVal::Str("<short goal>"@)),
                        ("title"@, JVal::Str("<bounded title>"@)),
                        ("intent"@, JVal::Str("<operator intent>"@)),
                        ("scope"@, JVal::Str("<bounded scope>"@)),
                        ("acceptance"@, JVal::Str("<done when>"@)),
                        ("prompt"@, JVal::Str("<request>"@)),
                        ("task_kind"@, JVal::Str("<execution|explore|review|way>"@)),
                        ("compact"@, JVal::Bool(true)),
                    ],
                ),
            ),
        ],
    )
}

fn start_commands() -> (r: Json)
    ensures
        jview(r) == spec_start_commands(),
{
    let mut p: Vec<(String, Json)> = Vec::new();
    p.push(member("goal", jstr("<short goal>")));
    p.push(member("title", jstr("<bounded title>")));
    p.push(member("intent", jstr("<operator intent>")));
    p.push(member("scope", jstr("<bounded scope>")));
    p.push(member("acceptance", jstr("<done when>")));
    p.push(member("prompt", jstr("<request>")));
    p.push(member("task_kind", jstr("<execution|explore|review|way>")));
    p.push(member("compact", jbool(true)));
    let inner = object_of(p);
    let mut m: Vec<(String, Json)> = Vec::new();
    m.push(member("command", jstr("ccc start --quiet --json '{...}'")));
    m.push(member("text_command", jstr("ccc start --text --json '{...}'")));
    m.push(member("payload", inner));
    let r = object_of(m);
    proof {
        let s = spec_start_commands();
        assert(members_view(p@) =~= s->Object_0[2].1->Object_0);
        assert(members_view(m@) =~= s->Object_0);
    }
    r
}

/// A retry or reassign budget: one allowed, none used.
pub open spec fn spec_unit_budget() -> JVal {
    JVal::Object(
        seq![("limit"@, JVal::Num(1)), ("used"@, JVal::Num(0)), ("remaining"@, JVal::Num(1))],
    )
}

fn unit_budget() -> (r: Json)
    ensures
        jview(r) == spec_unit_budget(),
{
    let mut m: Vec<(String, Json)> = Vec::new();
    m.push(member("limit", jint(1)));
    m.push(member("used", jint(0)));
    m.push(member("remaining", jint(1)));
    let r = object_of(m);
    assert(members_view(m@) =~= spec_unit_budget()->Object_0);
    r
}

/// The fields a captain gives when it judges a report unsatisfactory.
pub open spec fn spec_intervention_fields() -> JVal {
    JVal::Object(
        seq![
            (
                "intervention_classification"@,
                JVal::Str(
                    "<clarification_only|bounded_scope_amendment|direction_or_risk_correction>"@,
                ),
            ),
            ("intervention_rationale"@, JVal::Str("<why the captain is intervening>"@)),
            (
                "chosen_next_action"@,
                JVal::Str("<amend_same_worker|reclaim|reassign|close|clarify|no_action>"@),
            ),
            (
                "budget_snapshot"@,
                JVal::Object(seq![("retry"@, spec_unit_budget()), ("reassign"@, spec_unit_budget())]),
            ),
            ("stale_output_policy"@, JVal::Str("<preserve_visible|merge_explicit_only>"@)),
            ("stale_output_summary"@, JVal::Str("<summary of late/stale output, if relevant>"@)),
        ],
    )
}

fn intervention_fields() -> (r: Json)
    ensures
        jview(r) == spec_intervention_fields(),
{
    let mut b: Vec<(String, Json)> = Vec::new();
    b.push(member("retry", unit_budget()));
    b.push(member("reassign", unit_budget()));
    let budget = object_of(b);
    let mut m: Vec<(String, Json)> = Vec::new();
    m.push(
        member(
            "intervention_classification",
            jstr("<clarification_only|bounded_scope_amendment|direction_or_risk_correction>"),
        ),
    );
    m.push(member("intervention_rationale", jstr("<why the captain is intervening>")));
    m.push(
        member("chosen_next_action", jstr("<amend_same_worker|reclaim|reassign|close|clarify|no_action>")),
    );
    m.push(member("budget_snapshot", budget));
    m.push(member("stale_output_policy", jstr("<preserve_visible|merge_explicit_only>")));
    m.push(member("stale_output_summary", jstr("<summary of late/stale output, if relevant>")));
    let r = object_of(m);
    proof {
        let s = spec_intervention_fields();
        assert(members_view(b@) =~= s->Object_0[3].1->Object_0);
        assert(members_view(m@) =~= s->Object_0);
    }
    r
}

/// The skeleton of one lane's fan-in report.
pub open spec fn spec_lane_payload_template() -> JVal {
    JVal::Object(
        seq![
            (
                "lane_id"@,
                JVal::Str("<raider-a|raider-b|raider-c|raider-d|scout-a|scout-b|scout-c|scout-d>"@),
            ),
            ("summary"@, JVal::Str("<short>"@)),
            ("status"@, JVal::Str("<completed|failed|stalled|reclaimed|merged>"@)),
            (
                "review_outcome"@,
                JVal::Str("<passed|needs_work|unsatisfactory|blocked|stalled|reclaimed>"@),
            ),
            (
                "artifacts"@,
                JVal::Object(
                    seq![
                        ("result"@, JVal::Str("<fan_in>"@)),
                        ("log"@, JVal::Str("<lifecycle>"@)),
                        ("recap"@, JVal::Str("<fan_in.summary>"@)),
                    ],
                ),
            ),
            ("findings"@, JVal::Array(seq![JVal::Str("finding summary"@)])),
            ("evidence_paths"@, JVal::Array(seq![JVal::Str("path:line"@)])),
            ("next_action"@, JVal::Str("<captain_merge|advance>"@)),
            ("open_questions"@, JVal::Array(Seq::empty())),
            ("confidence"@, JVal::Str("<low|medium|high>"@)),
        ],
    )
}

fn lane_payload_template() -> (r: Json)
    ensures
        jview(r) == spec_lane_payload_template(),
{
    let mut a: Vec<(String, Json)> = Vec::new();
    a.push(member("result", jstr("<fan_in>")));
    a.push(member("log", jstr("<lifecycle>")));
    a.push(member("recap", jstr("<fan_in.summary>")));
    let artifacts = object_of(a);
    let findings = strs(vec!["finding summary"]);
    let evidence = strs(vec!["path:line"]);
    let open_questions = jempty_array();
    let mut m: Vec<(String, Json)> = Vec::new();
    m.push(
        member("lane_id", jstr("<raider-a|raider-b|raider-c|raider-d|scout-a|scout-b|scout-c|scout-d>")),
    );
    m.push(member("summary", jstr("<short>")));
    m.push(member("status", jstr("<completed|failed|stalled|reclaimed|merged>")));
    m.push(
        member("review_outcome", jstr("<passed|needs_work|unsatisfactory|blocked|stalled|reclaimed>")),
    );
    m.push(member("artifacts", artifacts));
    m.push(member("findings", findings));
    m.push(member("evidence_paths", evidence));
    m.push(member("next_action", jstr("<captain_merge|advance>")));
    m.push(member("open_questions", open_questions));
    m.push(member("confidence", jstr("<low|medium|high>")));
    let r = object_of(m);
    proof {
        let s = spec_lane_payload_template();
        assert(members_view(a@) =~= s->Object_0[4].1->Object_0);
        assert(jview(findings)->Array_0 =~= seq![JVal::Str("finding summary"@)]);
        assert(jview(evidence)->Array_0 =~= seq![JVal::Str("path:line"@)]);
        assert(members_view(m@) =~= s->Object_0);
    }
    r
}

/// The `subagent-update` commands, with a payload skeleton for the current
/// run, task card, child agent and lanes.
pub open spec fn spec_subagent_update_commands(
    payload: JVal,
    current_task: JVal,
    child_agent_id: JVal,
    default_lane_id: JVal,
    lane_ids: JVal,
) -> JVal {
    JVal::Object(
        seq![
            ("command"@, JVal::Str("ccc subagent-update --quiet --json '{...}'"@)),
            ("text_command"@, JVal::Str("ccc subagent-update --text --json '{...}'"@)),
            (
                "payload"@,
                JVal::Object(
                    seq![
                        ("run_id"@, jget_or(payload, "run_id"@, JVal::Null)),
                        ("task_card_id"@, jget_or(current_task, "task_card_id"@, JVal::Null)),
                        ("child_agent_id"@, child_agent_id),
                        ("lane_id"@, default_lane_id),
                        ("lane_ids"@, lane_ids),
                        ("compact"@, JVal::Bool(true)),
                        ("mode"@, JVal::Str("compact"@)),
                        ("event_ref"@, JVal::Str("<optional-stable-event-ref>"@)),
                        (
                            "status"@,
                            JVal::Str(
                                "<spawned|acknowledged|running|stalled|completed|failed|merged|reclaimed>"@,
                            ),
                        ),
                        (
                            "review_outcome"@,
                            JVal::Str("<passed|needs_work|unsatisfactory|blocked|stalled|reclaimed>"@),
                        ),
                        ("summary"@, JVal::Str("<short>"@)),
                        (
                            "fan_in_fields_on_completed"@,
                            JVal::Array(
                                seq![
                                    JVal::Str("summary"@),
                                    JVal::Str("status"@),
                                    JVal::Str("evidence_paths"@),
                                    JVal::Str("next_action"@),
                                    JVal::Str("open_questions"@),
                                    JVal::Str("confidence"@),
                                ],
                            ),
                        ),
                        ("intervention_fields_when_unsatisfactory"@, spec_intervention_fields()),
                        ("lane_payload_template"@, spec_lane_payload_template()),
                    ],
                ),
            ),
        ],
    )
}

fn subagent_update_commands(
    payload: &Json,
    current_task: &Json,
    child_agent_id: &Json,
    default_lane_id: Json,
    lane_ids: Json,
) -> (r: Json)
    ensures
        jview(r) == spec_subagent_update_commands(
            jview(*payload),
            jview(*current_task),
            jview(*child_agent_id),
            jview(default_lane_id),
            jview(lane_ids),
        ),
{
    let ghost lane_view = jview(default_lane_id);
    let ghost lanes_view = jview(lane_ids);
    let fields = strs(
        vec!["summary", "status", "evidence_paths", "next_action", "open_questions", "confidence"],
    );
    let mut p: Vec<(String, Json)> = Vec::new();
    p.push(member("run_id", get_or(payload, "run_id", Json::Null)));
    p.push(member("task_card_id", get_or(current_task, "task_card_id", Json::Null)));
    p.push(member("child_agent_id", child_agent_id.deep_clone()));
    p.push(member("lane_id", default_lane_id));
    p.push(member("lane_ids", lane_ids));
    p.push(member("compact", jbool(true)));
    p.push(member("mode", jstr("compact")));
    p.push(member("event_ref", jstr("<optional-stable-event-ref>")));
    p.push(
        member(
            "status",
            jstr("<spawned|acknowledged|running|stalled|completed|failed|merged|reclaimed>"),
        ),
    );
    p.push(
        member("review_outcome", jstr("<passed|needs_work|unsatisfactory|blocked|stalled|reclaimed>")),
    );
    p.push(member("summary", jstr("<short>")));
    p.push(member("fan_in_fields_on_completed", fields));
    p.push(member("intervention_fields_when_unsatisfactory", intervention_fields()));
    p.push(member("lane_payload_template", lane_payload_template()));
    let inner = object_of(p);
    let mut m: Vec<(String, Json)> = Vec::new();
    m.push(member("command", jstr("ccc subagent-update --quiet --json '{...}'")));
    m.push(member("text_command", jstr("ccc subagent-update --text --json '{...}'")));
    m.push(member("payload", inner));
    let r = object_of(m);
    proof {
        let s = spec_subagent_update_commands(
            jview(*payload),
            jview(*current_task),
            jview(*child_agent_id),
            lane_view,
            lanes_view,
        );
        assert(jview(fields)->Array_0 =~= seq![
            JVal::Str("summary"@),
            JVal::Str("status"@),
            JVal::Str("evidence_paths"@),
            JVal::Str("next_action"@),
            JVal::Str("open_questions"@),
            JVal::Str("confidence"@),
        ]);
        assert(members_view(p@) =~= s->Object_0[2].1->Object_0);
        assert(members_view(m@) =~= s->Object_0);
    }
    r
}

/// The `orchestrate` commands, with a payload skeleton for replan and
/// resolve.
pub open spec fn spec_orchestrate_commands(payload: JVal) -> JVal {
    JVal::Object(
        seq![
            ("command"@, JVal::Str("ccc orchestrate --quiet --json '{...}'"@)),
            ("text_command"@, JVal::Str("ccc orchestrate --text --json '{...}'"@)),
            (
                "payload"@,
                JVal::Object(
                    seq![
                        ("run_id"@, jget_or(payload, "run_id"@, JVal::Null)),
                        ("compact"@, JVal::Bool(true)),
                        ("repair_action"@, JVal::Str("<role for replan>"@)),
                        ("replan_prompt"@, JVal::Str("<bounded next task for replan>"@)),
                        ("resolve_outcome"@, JVal::Str("completed"@)),
                        ("resolve_summary"@, JVal::Str("<final summary for resolve>"@)),
                    ],
                ),
            ),
        ],
    )
}

fn orchestrate_commands(payload: &Json) -> (r: Json)
    ensures
        jview(r) == spec_orchestrate_commands(jview(*payload)),
{
    let mut p: Vec<(String, Json)> = Vec::new();
    p.push(member("run_id", get_or(payload, "run_id", Json::Null)));
    p.push(member("compact", jbool(true)));
    p.push(member("repair_action", jstr("<role for replan>")));
    p.push(member("replan_prompt", jstr("<bounded next task for replan>")));
    p.push(member("resolve_outcome", jstr("completed")));
    p.push(member("resolve_summary", jstr("<final summary for resolve>")));
    let inner = object_of(p);
    let mut m: Vec<(String, Json)> = Vec::new();
    m.push(member("command", jstr("ccc orchestrate --quiet --json '{...}'")));
    m.push(member("text_command", jstr("ccc orchestrate --text --json '{...}'")));
    m.push(member("payload", inner));
    let r = object_of(m);
    proof {
        let s = spec_orchestrate_commands(jview(*payload));
        assert(members_view(p@) =~= s->Object_0[2].1->Object_0);
        assert(members_view(m@) =~= s->Object_0);
    }
    r
}

/// The session rollover guidance carried over from the long-session
/// mitigation: recommended action (`continue` when unset), checkpoint and
/// resume commands, operator choices (none when unset) and the slash
/// command boundary.
pub open spec fn spec_session_rollover(payload: JVal) -> JVal {
    JVal::Object(
        seq![
            (
                "recommended_action"@,
                jpath_or(
                    payload,
                    seq!["long_session_mitigation"@, "recommended_action"@],
                    JVal::Str("continue"@),
                ),
            ),
            (
                "checkpoint_command"@,
                jpath_or(payload, seq!["long_session_mitigation"@, "checkpoint_command"@], JVal::Null),
            ),
            (
                "resume_command"@,
                jpath_or(payload, seq!["long_session_mitigation"@, "resume_command"@], JVal::Null),
            ),
            (
                "operator_choices"@,
                jpath_or(
                    payload,
                    seq!["long_session_mitigation"@, "choices"@],
                    JVal::Array(Seq::empty()),
                ),
            ),
            (
                "slash_command_boundary"@,
                jpath_or(
                    payload,
                    seq!["long_session_mitigation"@, "slash_command_boundary"@],
                    JVal::Null,
                ),
            ),
        ],
    )
}

fn session_rollover(payload: &Json) -> (r: Json)
    ensures
        jview(r) == spec_session_rollover(jview(*payload)),
{
    let mut m: Vec<(String, Json)> = Vec::new();
    m.push(
        member(
            "recommended_action",
            path_or(payload, "long_session_mitigation", "recommended_action", jstr("continue")),
        ),
    );
    m.push(
        member(
            "checkpoint_command",
            path_or(payload, "long_session_mitigation", "checkpoint_command", Json::Null),
        ),
    );
    m.push(
        member("resume_command", path_or(payload, "long_session_mitigation", "resume_command", Json::Null)),
    );
    m.push(
        member("operator_choices", path_or(payload, "long_session_mitigation", "choices", jempty_array())),
    );
    m.push(
        member(
            "slash_command_boundary",
            path_or(payload, "long_session_mitigation", "slash_command_boundary", Json::Null),
        ),
    );
    let r = object_of(m);
    assert(members_view(m@) =~= spec_session_rollover(jview(*payload))->Object_0);
    r
}

/// The command templates of the compact status for a run: the operator
/// transport contract as given, then status, graph, memory, checklist,
/// start, subagent-update and orchestrate commands and the session rollover
/// guidance.
pub open spec fn spec_status_command_templates(
    payload: JVal,
    current_task: JVal,
    operator_transport_contract: JVal,
    run_id_text: Seq<char>,
    child_agent_id: JVal,
    default_lane_id: JVal,
    parallel_required_lane_ids: JVal,
) -> JVal {
    JVal::Object(
        seq![
            ("operator_transport"@, operator_transport_contract),
            ("status"@, spec_status_commands(run_id_text)),
            ("graph"@, spec_graph_commands(payload)),
            ("memory"@, spec_memory_commands()),
            ("checklist"@, spec_checklist_commands(payload, run_id_text)),
            ("start"@, spec_start_commands()),
            (
                "subagent_update"@,
                spec_subagent_update_commands(
                    payload,
                    current_task,
                    child_agent_id,
                    default_lane_id,
                    parallel_required_lane_ids,
                ),
            ),
            ("orchestrate"@, spec_orchestrate_commands(payload)),
            ("session_rollover"@, spec_session_rollover(payload)),
        ],
    )
}

pub fn create_status_command_templates_payload(
    payload: &Json,
    current_task: &Json,
    operator_transport_contract: Json,
    run_id_text: &str,
    child_agent_id: &Json,
    default_lane_id: Json,
    parallel_required_lane_ids: Json,
) -> (r: Json)
    ensures
        jview(r) == spec_status_command_templates(
            jview(*payload),
            jview(*current_task),
            jview(operator_transport_contract),
            run_id_text@,
            jview(*child_agent_id),
            jview(default_lane_id),
            jview(parallel_required_lane_ids),
        ),
{
    let ghost transport_view = jview(operator_transport_contract);
    let ghost lane_view = jview(default_lane_id);
    let ghost lanes_view = jview(parallel_required_lane_ids);
    let mut m: Vec<(String, Json)> = Vec::new();
    m.push(member("operator_transport", operator_transport_contract));
    m.push(member("status", status_commands(run_id_text)));
    m.push(member("graph", graph_commands(payload)));
    m.push(member("memory", memory_commands()));
    m.push(member("checklist", checklist_commands(payload, run_id_text)));
    m.push(member("start", start_commands()));
    m.push(
        member(
            "subagent_update",
            subagent_update_commands(
                payload,
                current_task,
                child_agent_id,
                default_lane_id,
                parallel_required_lane_ids,
            ),
        ),
    );
    m.push(member("orchestrate", orchestrate_commands(payload)));
    m.push(member("session_rollover", session_rollover(payload)));
    let r = object_of(m);
    assert(members_view(m@) =~= spec_status_command_templates(
        jview(*payload),
        jview(*current_task),
        transport_view,
        run_id_text@,
        jview(*child_agent_id),
        lane_view,
        lanes_view,
    )->Object_0);
    r
}

/// The policy that forbids the host captain from mutating specialist-owned
/// files directly while a run is active.
pub open spec fn spec_default_direct_file_mutation_policy() -> JVal {
    JVal::Object(
        seq![
            ("allowed"@, JVal::Bool(false)),
            (
                "applies_to"@,
                JVal::Array(
                    seq![
                        JVal::Str("apply_patch"@),
                        JVal::Str("direct_shell_file_mutation"@),
                        JVal::Str("file_edits"@),
                        JVal::Str("mutation_commands"@),
                    ],
                ),
            ),
            ("required_route"@, JVal::Str("specialist_fan_in_then_captain_review_merge"@)),
            ("required_action"@, JVal::Str("spawn_or_record_specialist"@)),
            (
                "requires_recorded_exception"@,
                JVal::Str("explicit_terminal_fallback_or_operator_override"@),
            ),
            ("merge_gate"@, JVal::Str("specialist_fan_in_or_explicit_operator_override"@)),
            ("operator_override_required"@, JVal::Bool(true)),
            (
                "reason"@,
                JVal::Str(
                    "Host captain must not use apply_patch or direct shell mutation for specialist-owned files while a CCC run is active unless an explicit terminal fallback or operator override is recorded."@,
                ),
            ),
        ],
    )
}

pub fn default_direct_file_mutation_policy() -> (r: Json)
    ensures
        jview(r) == spec_default_direct_file_mutation_policy(),
{
    let applies = strs(
        vec!["apply_patch", "direct_shell_file_mutation", "file_edits", "mutation_commands"],
    );
    let mut m: Vec<(String, Json)> = Vec::new();
    m.push(member("allowed", jbool(false)));
    m.push(member("applies_to", applies));
    m.push(member("required_route", jstr("specialist_fan_in_then_captain_review_merge")));
    m.push(member("required_action", jstr("spawn_or_record_specialist")));
    m.push(
        member("requires_recorded_exception", jstr("explicit_terminal_fallback_or_operator_override")),
    );
    m.push(member("merge_gate", jstr("specialist_fan_in_or_explicit_operator_override")));
    m.push(member("operator_override_required", jbool(true)));
    m.push(
        member(
            "reason",
            jstr(
                "Host captain must not use apply_patch or direct shell mutation for specialist-owned files while a CCC run is active unless an explicit terminal fallback or operator override is recorded.",
            ),
        ),
    );
    let r = object_of(m);
    proof {
        assert(jview(applies)->Array_0 =~= seq![
            JVal::Str("apply_patch"@),
            JVal::Str("direct_shell_file_mutation"@),
            JVal::Str("file_edits"@),
            JVal::Str("mutation_commands"@),
        ]);
        assert(members_view(m@) =~= spec_default_direct_file_mutation_policy()->Object_0);
    }
    r
}

/// The captain action contract of a status, with the default direct file
/// mutation policy added when the contract is an object without one; any
/// other contract (or `null` when there is none) is passed on unchanged.
pub open spec fn spec_compact_captain_action_contract(payload: JVal) -> JVal {
    let contract = jget_or(payload, "captain_action_contract"@, JVal::Null);
    match contract {
        JVal::Object(_) => if jget(contract, "direct_file_mutation_policy"@) is Some {
            contract
        } else {
            crate::json::jinsert(
                contract,
                "direct_file_mutation_policy"@,
                spec_default_direct_file_mutation_policy(),
            )
        },
        _ => contract,
    }
}

pub fn compact_captain_action_contract(payload: &Json) -> (r: Json)
    ensures
        jview(r) == spec_compact_captain_action_contract(jview(*payload)),
{
    let mut contract = get_or(payload, "captain_action_contract", Json::Null);
    if contract.is_object() && contract.get("direct_file_mutation_policy").is_none() {
        contract.insert("direct_file_mutation_policy", default_direct_file_mutation_policy());
    }
    contract
}

pub(crate) fn path_or3(j: &Json, a: &str, b: &str, c: &str, fallback: Json) -> (r: Json)
    ensures
        jview(r) == jpath_or(jview(*j), seq![a@, b@, c@], jview(fallback)),
{
    let keys: [&str; 3] = [a, b, c];
    let ks = keys.as_slice();
    assert(ks@.map_values(|k: &str| k@) =~= seq![a@, b@, c@]);
    match j.get_path(ks) {
        Some(v) => v.deep_clone(),
        None => fallback,
    }
}

/// The compact graph context readiness of a status: `null` unless its
/// `graph_context` is an object; otherwise its schema (the readiness status
/// schema when unset), provider, readiness, reason, fallback and artifact
/// state, whether the report and graph artifacts are available, whether it
/// is stale (false when unset) and its routing.
pub open spec fn spec_compact_graph_context_readiness(payload: JVal) -> JVal {
    match jget(payload, "graph_context"@) {
        Some(JVal::Object(rm)) => {
            let r = JVal::Object(rm);
            JVal::Object(
                seq![
                    (
                        "schema"@,
                        jget_or(r, "schema"@, JVal::Str("ccc.graph_context_readiness.status.v1"@)),
                    ),
                    ("provider"@, jget_or(r, "provider"@, JVal::Null)),
                    ("readiness"@, jget_or(r, "readiness"@, JVal::Null)),
                    ("reason"@, jget_or(r, "reason"@, JVal::Null)),
                    ("fallback"@, jget_or(r, "fallback"@, JVal::Null)),
                    ("artifact_state"@, jget_or(r, "artifact_state"@, JVal::Null)),
                    (
                        "artifacts"@,
                        JVal::Object(
                            seq![
                                (
                                    "report"@,
                                    jpath_or(
                                        r,
                                        seq!["artifacts"@, "report"@, "available"@],
                                        JVal::Bool(false),
                                    ),
                                ),
                                (
                                    "graph"@,
                                    jpath_or(
                                        r,
                                        seq!["artifacts"@, "graph"@, "available"@],
                                        JVal::Bool(false),
                                    ),
                                ),
                            ],
                        ),
                    ),
                    ("stale"@, jpath_or(r, seq!["stale"@, "is_stale"@], JVal::Bool(false))),
                    ("routing"@, jget_or(r, "routing"@, JVal::Null)),
                ],
            )
        },
        _ => JVal::Null,
    }
}

pub fn compact_graph_context_readiness(payload: &Json) -> (r: Json)
    ensures
        jview(r) == spec_compact_graph_context_readiness(jview(*payload)),
{
    let readiness = match payload.get("graph_context") {
        Some(v) => {
            if !v.is_object() {
                return Json::Null;
            }
            v
        },
        None => {
            return Json::Null;
        },
    };
    let mut a: Vec<(String, Json)> = Vec::new();
    a.push(member("report", path_or3(readiness, "artifacts", "report", "available", jbool(false))));
    a.push(member("graph", path_or3(readiness, "artifacts", "graph", "available", jbool(false))));
    let artifacts = object_of(a);
    let mut m: Vec<(String, Json)> = Vec::new();
    m.push(
        member(
            "schema",
            get_or(readiness, "schema", jstr("ccc.graph_context_readiness.status.v1")),
        ),
    );
    m.push(member("provider", get_or(readiness, "provider", Json::Null)));
    m.push(member("readiness", get_or(readiness, "readiness", Json::Null)));
    m.push(member("reason", get_or(readiness, "reason", Json::Null)));
    m.push(member("fallback", get_or(readiness, "fallback", Json::Null)));
    m.push(member("artifact_state", get_or(readiness, "artifact_state", Json::Null)));
    m.push(member("artifacts", artifacts));
    m.push(member("stale", path_or(readiness, "stale", "is_stale", jbool(false))));
    m.push(member("routing", get_or(readiness, "routing", Json::Null)));
    let r = object_of(m);
    proof {
        let s = spec_compact_graph_context_readiness(jview(*payload));
        assert(members_view(a@) =~= s->Object_0[6].1->Object_0);
        assert(members_view(m@) =~= s->Object_0);
    }
    r
}

/// The first of `keys` whose value is a string that is not blank, trimmed.
pub open spec fn first_nonblank_field(obj: JVal, keys: Seq<Seq<char>>) -> Option<Seq<char>>
    decreases keys.len(),
{
    if keys.len() == 0 {
        None
    } else {
        match jstr_field(obj, keys[0]) {
            Some(s) => if trim(s).len() > 0 {
                Some(trim(s))
            } else {
                first_nonblank_field(obj, keys.drop_first())
            },
            None => first_nonblank_field(obj, keys.drop_first()),
        }
    }
}

/// The compact member `output_key` of a routing trace: the first non-blank
/// of `keys`, summarized to `max_chars`; nothing when there is none.
pub open spec fn trace_member(obj: JVal, output_key: Seq<char>, keys: Seq<Seq<char>>, max_chars: nat) -> Seq<
    (Seq<char>, JVal),
> {
    match first_nonblank_field(obj, keys) {
        Some(v) => seq![(output_key, JVal::Str(summary_of(v, max_chars)))],
        None => Seq::empty(),
    }
}

/// The compact members of a routing trace, in a fixed order, each with its
/// own length limit; the reason falls back to the rationale.
pub open spec fn spec_trace_members(t: JVal) -> Seq<(Seq<char>, JVal)> {
    trace_member(t, "source"@, seq!["source"@], 80) + trace_member(
        t,
        "selected_category"@,
        seq!["selected_category"@],
        80,
    ) + trace_member(t, "selected_skill_id"@, seq!["selected_skill_id"@], 120) + trace_member(
        t,
        "selected_skill_name"@,
        seq!["selected_skill_name"@],
        120,
    ) + trace_member(t, "risk"@, seq!["risk"@], 40) + trace_member(
        t,
        "mutation_intent"@,
        seq!["mutation_intent"@],
        80,
    ) + trace_member(t, "evidence_need"@, seq!["evidence_need"@], 120) + trace_member(
        t,
        "verification_need"@,
        seq!["verification_need"@],
        120,
    ) + trace_member(t, "selected_role"@, seq!["selected_role"@], 80) + trace_member(
        t,
        "selected_agent_id"@,
        seq!["selected_agent_id"@],
        80,
    ) + trace_member(t, "reason"@, seq!["reason"@, "rationale"@], 240) + trace_member(
        t,
        "summary"@,
        seq!["summary"@],
        240,
    )
}

/// The compact routing trace: `null` unless the trace is an object with at
/// least one usable member.
pub open spec fn spec_compact_routing_trace(trace: JVal) -> JVal {
    match trace {
        JVal::Object(_) => if spec_trace_members(trace).len() == 0 {
            JVal::Null
        } else {
            JVal::Object(spec_trace_members(trace))
        },
        _ => JVal::Null,
    }
}

fn nonblank_field(obj: &Json, key: &str) -> (r: Option<String>)
    ensures
        match r {
            Some(s) => first_nonblank_field(jview(*obj), seq![key@]) == Some(s@),
            None => first_nonblank_field(jview(*obj), seq![key@]) is None,
        },
{
    assert(seq![key@].drop_first() =~= Seq::<Seq<char>>::empty());
    assert(seq![key@][0] == key@);
    proof {
        reveal_with_fuel(first_nonblank_field, 2);
    }
    match obj.str_field(key) {
        Some(s) => {
            let t = trim_string(s);
            if t.as_str().unicode_len() > 0 {
                Some(t)
            } else {
                None
            }
        },
        None => None,
    }
}

fn push_trace_member(
    obj: &Json,
    out: &mut Vec<(String, Json)>,
    output_key: &str,
    key: &str,
    fallback_key: Option<&str>,
    max_chars: usize,
)
    ensures
        members_view(final(out)@) == members_view(old(out)@) + trace_member(
            jview(*obj),
            output_key@,
            match fallback_key {
                Some(f) => seq![key@, f@],
                None => seq![key@],
            },
            max_chars as nat,
        ),
{
    let ghost keys = match fallback_key {
        Some(f) => seq![key@, f@],
        None => seq![key@],
    };
    let first = nonblank_field(obj, key);
    proof {
        reveal_with_fuel(first_nonblank_field, 3);
        assert(keys[0] == key@);
        assert(seq![key@][0] == key@);
        assert(seq![key@].drop_first() =~= Seq::<Seq<char>>::empty());
    }
    let found = match first {
        Some(s) => Some(s),
        None => match fallback_key {
            Some(f) => {
                assert(keys.drop_first() =~= seq![f@]);
                nonblank_field(obj, f)
            },
            None => {
                assert(keys.drop_first() =~= Seq::<Seq<char>>::empty());
                None
            },
        },
    };
    assert(found matches Some(s) ==> first_nonblank_field(jview(*obj), keys) == Some(s@));
    assert(found is None ==> first_nonblank_field(jview(*obj), keys) is None);
    let ghost before = out@;
    match found {
        Some(v) => {
            out.push(member(output_key, jstring(summarize_text_for_visibility(v.as_str(), max_chars))));
            assert(members_view(out@) =~= members_view(before) + trace_member(
                jview(*obj),
                output_key@,
                keys,
                max_chars as nat,
            ));
        },
        None => {
            assert(members_view(out@) =~= members_view(before) + trace_member(
                jview(*obj),
                output_key@,
                keys,
                max_chars as nat,
            ));
        },
    }
}

pub fn compact_routing_trace(trace: &Json) -> (r: Json)
    ensures
        jview(r) == spec_compact_routing_trace(jview(*trace)),
{
    if !trace.is_object() {
        return Json::Null;
    }
    let mut m: Vec<(String, Json)> = Vec::new();
    assert(members_view(m@) =~= Seq::<(Seq<char>, JVal)>::empty());
    push_trace_member(trace, &mut m, "source", "source", None, 80);
    push_trace_member(trace, &mut m, "selected_category", "selected_category", None, 80);
    push_trace_member(trace, &mut m, "selected_skill_id", "selected_skill_id", None, 120);
    push_trace_member(trace, &mut m, "selected_skill_name", "selected_skill_name", None, 120);
    push_trace_member(trace, &mut m, "risk", "risk", None, 40);
    push_trace_member(trace, &mut m, "mutation_intent", "mutation_intent", None, 80);
    push_trace_member(trace, &mut m, "evidence_need", "evidence_need", None, 120);
    push_trace_member(trace, &mut m, "verification_need", "verification_need", None, 120);
    push_trace_member(trace, &mut m, "selected_role", "selected_role", None, 80);
    push_trace_member(trace, &mut m, "selected_agent_id", "selected_agent_id", None, 80);
    push_trace_member(trace, &mut m, "reason", "reason", Some("rationale"), 240);
    push_trace_member(trace, &mut m, "summary", "summary", None, 240);
    assert(members_view(m@) =~= spec_trace_members(jview(*trace)));
    if m.len() == 0 {
        Json::Null
    } else {
        object_of(m)
    }
}

} // verus!
