//! The operator status text: one line per part of a status payload that is
//! present (gate, checkpoint, task session, verification capsule, delegated
//! ownership, recovery, workflow loop, hooks, routing, mutation guard,
//! interventions, graph context, registry), then what changed and who acts
//! next.

use vstd::prelude::*;
use crate::app_panel_text::{
    bool_text, count_at, count_path, flag, flag_path, member_string_list, member_strings, object_member,
    object_member_ref, or_text, prefixed, push_bool, take_upto, text1, text2, text_at, text_or, first_strings,
};
use crate::custom_agent::{spec_trimmed_nonblank, trimmed_nonblank};
use crate::format::{decimal, push_decimal};
use crate::json::{jget, jget_path, jstr_at, jstr_field, jview, opt_bool, JVal, Json};
use crate::roles::{spec_status_display_agent, spec_status_display_role, status_display_agent, status_display_role};
use crate::skill_manifest::{join_strings, string_views};
use crate::status_text::{dashed, underscores_to_dashes};
use crate::strings::{has_suffix, opt_string_view, opt_view, push_str, str_eq, to_owned};
use crate::text_utils::{summarize_text_for_visibility, summary_of};
use crate::worker_events::{join_with, opt_jview_ref};

verus! {

/// The trimmed, non-blank text at a path.
pub open spec fn compact_at(j: JVal, keys: Seq<Seq<char>>) -> Option<Seq<char>> {
    spec_trimmed_nonblank(jstr_at(j, keys))
}

/// The first of two optional texts that is present.
pub open spec fn or_else(a: Option<Seq<char>>, b: Option<Seq<char>>) -> Option<Seq<char>> {
    match a {
        Some(s) => Some(s),
        None => b,
    }
}

/// The value at a path, when it is an object.
pub open spec fn object_at(j: JVal, keys: Seq<Seq<char>>) -> Option<JVal> {
    match jget_path(j, keys) {
        Some(v) => if v is Object {
            Some(v)
        } else {
            None
        },
        None => None,
    }
}

/// The length of the list at a path (0 when it is not a list).
pub open spec fn list_len_at(j: JVal, keys: Seq<Seq<char>>) -> nat {
    match jget_path(j, keys) {
        Some(JVal::Array(items)) => items.len(),
        _ => 0,
    }
}

/// The trimmed, non-blank text of a member.
pub fn compact_text_field(value: &Json, key: &str) -> (r: Option<String>)
    ensures
        opt_string_view(r) == compact_at(jview(*value), seq![key@]),
{
    let keys: [&str; 1] = [key];
    assert(keys@.map_values(|k: &str| k@) =~= seq![key@]);
    trimmed_nonblank(value.str_at(keys.as_slice()))
}

/// The trimmed, non-blank text at a path.
pub fn compact_text_pointer(value: &Json, keys: &[&str]) -> (r: Option<String>)
    ensures
        opt_string_view(r) == compact_at(jview(*value), keys@.map_values(|k: &str| k@)),
{
    trimmed_nonblank(value.str_at(keys))
}

fn compact2(value: &Json, a: &str, b: &str) -> (r: Option<String>)
    ensures
        opt_string_view(r) == compact_at(jview(*value), seq![a@, b@]),
{
    let keys: [&str; 2] = [a, b];
    assert(keys@.map_values(|k: &str| k@) =~= seq![a@, b@]);
    compact_text_pointer(value, keys.as_slice())
}

fn compact3(value: &Json, a: &str, b: &str, c: &str) -> (r: Option<String>)
    ensures
        opt_string_view(r) == compact_at(jview(*value), seq![a@, b@, c@]),
{
    let keys: [&str; 3] = [a, b, c];
    assert(keys@.map_values(|k: &str| k@) =~= seq![a@, b@, c@]);
    compact_text_pointer(value, keys.as_slice())
}

fn or_string(o: Option<String>, fallback: &str) -> (r: String)
    ensures
        r@ == text_or(opt_string_view(o), fallback@),
{
    match o {
        Some(s) => s,
        None => to_owned(fallback),
    }
}

fn or_else_string(a: Option<String>, b: Option<String>) -> (r: Option<String>)
    ensures
        opt_string_view(r) == or_else(opt_string_view(a), opt_string_view(b)),
{
    match a {
        Some(s) => Some(s),
        None => b,
    }
}

fn object_at2<'a>(j: &'a Json, a: &str, b: &str) -> (r: Option<&'a Json>)
    ensures
        opt_jview_ref(r) == object_at(jview(*j), seq![a@, b@]),
{
    match crate::app_panel::at2(j, a, b) {
        Some(v) => if v.is_object() {
            Some(v)
        } else {
            None
        },
        None => None,
    }
}

fn list_len2(j: &Json, a: &str, b: &str) -> (r: u64)
    ensures
        r as nat == list_len_at(jview(*j), seq![a@, b@]),
{
    match crate::app_panel::at2(j, a, b) {
        Some(Json::Array(items)) => {
            proof {
                crate::json::lemma_array_view(*items);
            }
            items.len() as u64
        },
        _ => 0,
    }
}

fn flag2(j: &Json, a: &str, b: &str) -> (r: bool)
    ensures
        r == flag(jview(*j), seq![a@, b@]),
{
    let keys: [&str; 2] = [a, b];
    assert(keys@.map_values(|k: &str| k@) =~= seq![a@, b@]);
    flag_path(j, keys.as_slice())
}

fn count2(j: &Json, a: &str, b: &str) -> (r: u64)
    ensures
        r == count_at(jview(*j), seq![a@, b@]),
{
    let keys: [&str; 2] = [a, b];
    assert(keys@.map_values(|k: &str| k@) =~= seq![a@, b@]);
    count_path(j, keys.as_slice())
}

fn push_dashed(line: &mut String, s: &str)
    ensures
        final(line)@ == old(line)@ + underscores_to_dashes(s@),
{
    push_str(line, dashed(s).as_str());
}

/// `Prompt Refinement: ...` for a payload with a prompt refinement.
pub open spec fn spec_prompt_refinement_line(payload: JVal) -> Option<Seq<char>> {
    match object_member(payload, "prompt_refinement"@) {
        Some(pr) => Some(
            "Prompt Refinement: state="@ + text_or(compact_at(pr, seq!["state"@]), "unknown"@) + " enabled="@
                + bool_text(flag(pr, seq!["enabled"@])) + " mode="@ + text_or(
                compact_at(pr, seq!["execution_mode"@]),
                "internal"@,
            ) + " owner="@ + text_or(compact_at(pr, seq!["owner"@]), "captain"@) + " gate="@ + text_or(
                compact_at(pr, seq!["captain_gate"@]),
                "accept_adjust_reject"@,
            ) + " longway="@ + bool_text(flag(pr, seq!["longway_materialization_allowed"@]))
                + " task_cards="@ + bool_text(flag(pr, seq!["task_card_creation_allowed"@])) + " source="@
                + text_or(compact_at(pr, seq!["source"@]), "internal"@),
        ),
        None => None,
    }
}

pub fn build_prompt_refinement_line(payload: &Json) -> (r: Option<String>)
    ensures
        opt_string_view(r) == spec_prompt_refinement_line(jview(*payload)),
{
    let pr = match object_member_ref(payload, "prompt_refinement") {
        Some(p) => p,
        None => return None,
    };
    let e: [&str; 1] = ["enabled"];
    let l: [&str; 1] = ["longway_materialization_allowed"];
    let t: [&str; 1] = ["task_card_creation_allowed"];
    assert(e@.map_values(|k: &str| k@) =~= seq!["enabled"@]);
    assert(l@.map_values(|k: &str| k@) =~= seq!["longway_materialization_allowed"@]);
    assert(t@.map_values(|k: &str| k@) =~= seq!["task_card_creation_allowed"@]);
    let mut line = to_owned("Prompt Refinement: state=");
    push_str(&mut line, or_string(compact_text_field(pr, "state"), "unknown").as_str());
    push_str(&mut line, " enabled=");
    push_bool(&mut line, flag_path(pr, e.as_slice()));
    push_str(&mut line, " mode=");
    push_str(&mut line, or_string(compact_text_field(pr, "execution_mode"), "internal").as_str());
    push_str(&mut line, " owner=");
    push_str(&mut line, or_string(compact_text_field(pr, "owner"), "captain").as_str());
    push_str(&mut line, " gate=");
    push_str(&mut line, or_string(compact_text_field(pr, "captain_gate"), "accept_adjust_reject").as_str());
    push_str(&mut line, " longway=");
    push_bool(&mut line, flag_path(pr, l.as_slice()));
    push_str(&mut line, " task_cards=");
    push_bool(&mut line, flag_path(pr, t.as_slice()));
    push_str(&mut line, " source=");
    push_str(&mut line, or_string(compact_text_field(pr, "source"), "internal").as_str());
    Some(line)
}

/// Who acts next: the captain once fan-in is ready or on `advance`,
/// `completed` after a halt, the operator when awaited, the assigned agent
/// of the current task when a task is to run, else the step itself.
pub open spec fn spec_next_actor_label(payload: JVal, next_step: Seq<char>, fan_in_ready: bool) -> Seq<char> {
    if fan_in_ready || next_step == "advance"@ {
        "captain"@
    } else if next_step == "halt_completed"@ || next_step == "halt_failed"@ || next_step == "halt_cancelled"@ {
        "completed"@
    } else if next_step == "await_operator"@ {
        "operator"@
    } else if next_step == "execute_task"@ {
        spec_status_display_agent(
            text_or(jstr_at(payload, seq!["current_task_card"@, "assigned_agent_id"@]), "worker"@),
        )
    } else {
        next_step
    }
}

pub fn next_actor_label(payload: &Json, next_step: &str, fan_in_ready: bool) -> (r: String)
    ensures
        r@ == spec_next_actor_label(jview(*payload), next_step@, fan_in_ready),
{
    if fan_in_ready || str_eq(next_step, "advance") {
        return to_owned("captain");
    }
    if str_eq(next_step, "halt_completed") || str_eq(next_step, "halt_failed") || str_eq(
        next_step,
        "halt_cancelled",
    ) {
        return to_owned("completed");
    }
    if str_eq(next_step, "await_operator") {
        return to_owned("operator");
    }
    if str_eq(next_step, "execute_task") {
        let keys: [&str; 2] = ["current_task_card", "assigned_agent_id"];
        assert(keys@.map_values(|k: &str| k@) =~= seq!["current_task_card"@, "assigned_agent_id"@]);
        let agent = match payload.str_at(keys.as_slice()) {
            Some(a) => a,
            None => "worker",
        };
        return status_display_agent(agent);
    }
    to_owned(next_step)
}

/// `Routing: ...` for a current task card with a routing trace.
pub open spec fn spec_routing_trace_line(payload: JVal) -> Option<Seq<char>> {
    match object_at(payload, seq!["current_task_card"@, "routing_trace"@]) {
        Some(t) => Some(
            "Routing: category="@ + text_or(compact_at(t, seq!["selected_category"@]), "unknown"@) + " skill="@
                + spec_status_display_agent(
                text_or(
                    or_else(compact_at(t, seq!["selected_skill_id"@]), compact_at(t, seq!["selected_skill_name"@])),
                    "unknown"@,
                ),
            ) + " role="@ + spec_status_display_role(text_or(compact_at(t, seq!["selected_role"@]), "unknown"@))
                + " agent="@ + spec_status_display_agent(
                text_or(compact_at(t, seq!["selected_agent_id"@]), "unknown"@),
            ) + prefixed(" risk="@, compact_at(t, seq!["risk"@])) + match or_else(
                compact_at(t, seq!["reason"@]),
                compact_at(t, seq!["summary"@]),
            ) {
                Some(v) => " reason=\""@ + summary_of(v, 140) + "\""@,
                None => Seq::empty(),
            },
        ),
        None => None,
    }
}

pub fn build_routing_trace_line(payload: &Json) -> (r: Option<String>)
    ensures
        opt_string_view(r) == spec_routing_trace_line(jview(*payload)),
{
    let t = match object_at2(payload, "current_task_card", "routing_trace") {
        Some(t) => t,
        None => return None,
    };
    let skill = or_string(
        or_else_string(compact_text_field(t, "selected_skill_id"), compact_text_field(t, "selected_skill_name")),
        "unknown",
    );
    let mut line = to_owned("Routing: category=");
    push_str(&mut line, or_string(compact_text_field(t, "selected_category"), "unknown").as_str());
    push_str(&mut line, " skill=");
    push_str(&mut line, status_display_agent(skill.as_str()).as_str());
    push_str(&mut line, " role=");
    push_str(&mut line, status_display_role(or_string(compact_text_field(t, "selected_role"), "unknown").as_str()).as_str());
    push_str(&mut line, " agent=");
    push_str(
        &mut line,
        status_display_agent(or_string(compact_text_field(t, "selected_agent_id"), "unknown").as_str()).as_str(),
    );
    match compact_text_field(t, "risk") {
        Some(risk) => {
            push_str(&mut line, " risk=");
            push_str(&mut line, risk.as_str());
        },
        None => {},
    }
    match or_else_string(compact_text_field(t, "reason"), compact_text_field(t, "summary")) {
        Some(v) => {
            push_str(&mut line, " reason=\"");
            push_str(&mut line, summarize_text_for_visibility(v.as_str(), 140).as_str());
            push_str(&mut line, "\"");
        },
        None => {},
    }
    Some(line)
}

/// `Captain Direct Mutation Guard: ...` for a guard with a state.
pub open spec fn spec_captain_direct_mutation_guard_line(payload: JVal) -> Option<Seq<char>> {
    match object_member(payload, "captain_direct_mutation_guard"@) {
        Some(g) => match text_at(g, seq!["state"@]) {
            Some(state) => {
                let visible = take_upto(member_strings(g, "changed_paths"@), 3);
                Some(
                    "Captain Direct Mutation Guard: state="@ + underscores_to_dashes(state) + " changed_paths="@
                        + decimal(count_at(g, seq!["changed_path_count"@])) + if visible.len() == 0 {
                        Seq::empty()
                    } else {
                        " paths="@ + join_with(visible, ","@)
                    } + match text_at(g, seq!["required_action"@]) {
                        Some(a) => " required="@ + underscores_to_dashes(a),
                        None => Seq::empty(),
                    },
                )
            },
            None => None,
        },
        None => None,
    }
}

pub fn build_captain_direct_mutation_guard_line(payload: &Json) -> (r: Option<String>)
    ensures
        opt_string_view(r) == spec_captain_direct_mutation_guard_line(jview(*payload)),
{
    let g = match object_member_ref(payload, "captain_direct_mutation_guard") {
        Some(g) => g,
        None => return None,
    };
    let state = match text1(g, "state") {
        Some(s) => s,
        None => return None,
    };
    let c: [&str; 1] = ["changed_path_count"];
    assert(c@.map_values(|k: &str| k@) =~= seq!["changed_path_count"@]);
    let visible = first_strings(member_string_list(g, "changed_paths"), 3);
    let mut line = to_owned("Captain Direct Mutation Guard: state=");
    push_dashed(&mut line, state);
    push_str(&mut line, " changed_paths=");
    push_decimal(&mut line, count_path(g, c.as_slice()));
    if visible.len() > 0 {
        push_str(&mut line, " paths=");
        push_str(&mut line, join_strings(&visible, ",").as_str());
    }
    match text1(g, "required_action") {
        Some(a) => {
            push_str(&mut line, " required=");
            push_dashed(&mut line, a);
        },
        None => {},
    }
    Some(line)
}

/// The first part of a state contract line: state, active step, required
/// artifact and next step.
pub open spec fn state_contract_head(c: JVal, state: Seq<char>) -> Seq<char> {
    "Active Gate: state="@ + underscores_to_dashes(state) + " gate="@ + underscores_to_dashes(
        text_or(text_at(c, seq!["active_gate"@]), "unknown"@),
    ) + " requires="@ + underscores_to_dashes(text_or(text_at(c, seq!["required_artifact"@]), "unspecified"@))
        + " next="@ + underscores_to_dashes(text_or(text_at(c, seq!["next_step"@]), "unknown"@))
}

/// The decision part of a state contract line: the captain's decision
/// precedence, the allowed transitions and the captain's actions.
pub open spec fn state_contract_tail(payload: JVal, c: JVal) -> Seq<char> {
    let allowed = take_upto(member_strings(c, "allowed_next_transitions"@), 4);
    (match text_at(payload, seq!["post_fan_in_captain_decision"@, "precedence"@]) {
        Some(p) => " decision="@ + underscores_to_dashes(p),
        None => Seq::empty(),
    }) + if allowed.len() == 0 {
        Seq::empty()
    } else {
        " allowed="@ + join_with(allowed, ","@)
    } + match text_at(c, seq!["captain_allowed_action"@]) {
        Some(a) => " captain_allowed="@ + underscores_to_dashes(a),
        None => Seq::empty(),
    } + match text_at(c, seq!["captain_required_action"@]) {
        Some(a) => " captain_required="@ + underscores_to_dashes(a),
        None => Seq::empty(),
    }
}

/// `Active Gate: ...` for a state contract with a state.
pub open spec fn spec_state_contract_line(payload: JVal) -> Option<Seq<char>> {
    match object_member(payload, "state_contract"@) {
        Some(c) => match text_at(c, seq!["state"@]) {
            Some(state) => Some(state_contract_head(c, state) + state_contract_tail(payload, c)),
            None => None,
        },
        None => None,
    }
}

fn push_state_contract_head(line: &mut String, c: &Json, state: &str)
    ensures
        final(line)@ == old(line)@ + state_contract_head(jview(*c), state@),
{
    push_str(line, "Active Gate: state=");
    push_dashed(line, state);
    push_str(line, " gate=");
    push_dashed(line, or_text(text1(c, "active_gate"), "unknown"));
    push_str(line, " requires=");
    push_dashed(line, or_text(text1(c, "required_artifact"), "unspecified"));
    push_str(line, " next=");
    push_dashed(line, or_text(text1(c, "next_step"), "unknown"));
}

fn push_state_contract_tail(line: &mut String, payload: &Json, c: &Json)
    ensures
        final(line)@ == old(line)@ + state_contract_tail(jview(*payload), jview(*c)),
{
    let ghost start = line@;
    let allowed = first_strings(member_string_list(c, "allowed_next_transitions"), 4);
    let mut tail = String::new();
    match text2(payload, "post_fan_in_captain_decision", "precedence") {
        Some(p) => {
            push_str(&mut tail, " decision=");
            push_dashed(&mut tail, p);
        },
        None => {},
    }
    if allowed.len() > 0 {
        push_str(&mut tail, " allowed=");
        push_str(&mut tail, join_strings(&allowed, ",").as_str());
    }
    match text1(c, "captain_allowed_action") {
        Some(a) => {
            push_str(&mut tail, " captain_allowed=");
            push_dashed(&mut tail, a);
        },
        None => {},
    }
    match text1(c, "captain_required_action") {
        Some(a) => {
            push_str(&mut tail, " captain_required=");
            push_dashed(&mut tail, a);
        },
        None => {},
    }
    assert(tail@ =~= state_contract_tail(jview(*payload), jview(*c)));
    push_str(line, tail.as_str());
}

pub fn build_state_contract_line(payload: &Json) -> (r: Option<String>)
    ensures
        opt_string_view(r) == spec_state_contract_line(jview(*payload)),
{
    let c = match object_member_ref(payload, "state_contract") {
        Some(c) => c,
        None => return None,
    };
    let state = match text1(c, "state") {
        Some(s) => s,
        None => return None,
    };
    let mut line = String::new();
    push_state_contract_head(&mut line, c, state);
    push_state_contract_tail(&mut line, payload, c);
    Some(line)
}

/// The first part of a checkpoint line: gate, task, role, agent and
/// delegated work.
pub open spec fn checkpoint_head(cp: JVal) -> Seq<char> {
    "Checkpoint: gate="@ + underscores_to_dashes(text_or(compact_at(cp, seq!["current_gate"@]), "unknown"@))
        + " task="@ + text_or(compact_at(cp, seq!["task_card_id"@]), "unknown"@) + " role="@
        + spec_status_display_role(text_or(compact_at(cp, seq!["assigned_role"@]), "unassigned"@)) + " agent="@
        + spec_status_display_agent(text_or(compact_at(cp, seq!["assigned_agent_id"@]), "unassigned"@)) + " "@
        + text_or(compact_at(cp, seq!["delegated_work"@, "summary"@]), "workers=0/0 host_subagents=0/0"@)
}

/// The second part of a checkpoint line: fan-in readiness, next and resume
/// actions, continuation command and late output.
pub open spec fn checkpoint_tail(cp: JVal) -> Seq<char> {
    " fan_in="@ + bool_text(flag(cp, seq!["fan_in_state"@, "ready"@])) + " next="@ + underscores_to_dashes(
        text_or(compact_at(cp, seq!["next_legal_action"@]), "unknown"@),
    ) + " resume="@ + underscores_to_dashes(text_or(compact_at(cp, seq!["resume_action"@]), "unknown"@))
        + " continue=\""@ + text_or(compact_at(cp, seq!["continuation_command"@]), "$cap continue <run_id>"@)
        + "\" late="@ + underscores_to_dashes(text_or(compact_at(cp, seq!["late_output"@, "state"@]), "none"@))
        + "("@ + decimal(count_at(cp, seq!["late_output"@, "count"@])) + ")"@ + match compact_at(
        cp,
        seq!["late_output"@, "authority"@],
    ) {
        Some(a) => " authority="@ + underscores_to_dashes(a),
        None => Seq::empty(),
    }
}

/// `Checkpoint: ...` for a payload with an active checkpoint.
pub open spec fn spec_active_checkpoint_line(payload: JVal) -> Option<Seq<char>> {
    match object_member(payload, "active_checkpoint"@) {
        Some(cp) => Some(checkpoint_head(cp) + checkpoint_tail(cp)),
        None => None,
    }
}

fn push_checkpoint_head(line: &mut String, cp: &Json)
    ensures
        final(line)@ == old(line)@ + checkpoint_head(jview(*cp)),
{
    push_str(line, "Checkpoint: gate=");
    push_dashed(line, or_string(compact_text_field(cp, "current_gate"), "unknown").as_str());
    push_str(line, " task=");
    push_str(line, or_string(compact_text_field(cp, "task_card_id"), "unknown").as_str());
    push_str(line, " role=");
    push_str(line, status_display_role(or_string(compact_text_field(cp, "assigned_role"), "unassigned").as_str()).as_str());
    push_str(line, " agent=");
    push_str(
        line,
        status_display_agent(or_string(compact_text_field(cp, "assigned_agent_id"), "unassigned").as_str()).as_str(),
    );
    push_str(line, " ");
    push_str(
        line,
        or_string(compact2(cp, "delegated_work", "summary"), "workers=0/0 host_subagents=0/0").as_str(),
    );
}

fn push_checkpoint_tail(line: &mut String, cp: &Json)
    ensures
        final(line)@ == old(line)@ + checkpoint_tail(jview(*cp)),
{
    push_str(line, " fan_in=");
    push_bool(line, flag2(cp, "fan_in_state", "ready"));
    push_str(line, " next=");
    push_dashed(line, or_string(compact_text_field(cp, "next_legal_action"), "unknown").as_str());
    push_str(line, " resume=");
    push_dashed(line, or_string(compact_text_field(cp, "resume_action"), "unknown").as_str());
    push_str(line, " continue=\"");
    push_str(line, or_string(compact_text_field(cp, "continuation_command"), "$cap continue <run_id>").as_str());
    push_str(line, "\" late=");
    push_dashed(line, or_string(compact2(cp, "late_output", "state"), "none").as_str());
    push_str(line, "(");
    push_decimal(line, count2(cp, "late_output", "count"));
    push_str(line, ")");
    match compact2(cp, "late_output", "authority") {
        Some(a) => {
            push_str(line, " authority=");
            push_dashed(line, a.as_str());
        },
        None => {},
    }
}

pub fn build_active_checkpoint_line(payload: &Json) -> (r: Option<String>)
    ensures
        opt_string_view(r) == spec_active_checkpoint_line(jview(*payload)),
{
    let cp = match object_member_ref(payload, "active_checkpoint") {
        Some(c) => c,
        None => return None,
    };
    let mut line = String::new();
    push_checkpoint_head(&mut line, cp);
    push_checkpoint_tail(&mut line, cp);
    Some(line)
}

/// The first part of a task session line: task, gate, agent, its status and
/// its model and variant.
pub open spec fn task_session_head(st: JVal) -> Seq<char> {
    "Task Session: task="@ + text_or(compact_at(st, seq!["active_task"@, "task_card_id"@]), "unknown"@) + " gate="@
        + underscores_to_dashes(text_or(compact_at(st, seq!["current_gate"@, "active_gate"@]), "unknown"@))
        + " agent="@ + spec_status_display_agent(
        text_or(
            or_else(
                compact_at(st, seq!["delegated_agent"@, "child_agent_id"@]),
                compact_at(st, seq!["active_task"@, "assigned_agent_id"@]),
            ),
            "unassigned"@,
        ),
    ) + " status="@ + underscores_to_dashes(text_or(compact_at(st, seq!["delegated_agent"@, "status"@]), "unknown"@))
        + " model="@ + text_or(compact_at(st, seq!["delegated_agent"@, "model"@]), "unknown"@) + "/"@ + text_or(
        compact_at(st, seq!["delegated_agent"@, "variant"@]),
        "unknown"@,
    )
}

/// The second part of a task session line: fallback, evidence,
/// verification, unresolved risks and session.
pub open spec fn task_session_tail(st: JVal) -> Seq<char> {
    " fallback="@ + underscores_to_dashes(text_or(compact_at(st, seq!["fallback_state"@, "status"@]), "none"@))
        + " evidence="@ + decimal(count_at(st, seq!["evidence"@, "count"@])) + " verification="@
        + underscores_to_dashes(text_or(compact_at(st, seq!["verification"@, "state"@]), "unknown"@))
        + " unresolved_risk="@ + decimal(count_at(st, seq!["verification"@, "unresolved_risk_count"@]))
        + " session="@ + text_or(compact_at(st, seq!["internal_session"@, "session_id"@]), "unknown"@)
}

/// `Task Session: ...` for a payload with a task session state.
pub open spec fn spec_task_session_state_line(payload: JVal) -> Option<Seq<char>> {
    match object_member(payload, "task_session_state"@) {
        Some(st) => Some(task_session_head(st) + task_session_tail(st)),
        None => None,
    }
}

fn push_task_session_head(line: &mut String, st: &Json)
    ensures
        final(line)@ == old(line)@ + task_session_head(jview(*st)),
{
    let agent = or_string(
        or_else_string(compact2(st, "delegated_agent", "child_agent_id"), compact2(st, "active_task", "assigned_agent_id")),
        "unassigned",
    );
    push_str(line, "Task Session: task=");
    push_str(line, or_string(compact2(st, "active_task", "task_card_id"), "unknown").as_str());
    push_str(line, " gate=");
    push_dashed(line, or_string(compact2(st, "current_gate", "active_gate"), "unknown").as_str());
    push_str(line, " agent=");
    push_str(line, status_display_agent(agent.as_str()).as_str());
    push_str(line, " status=");
    push_dashed(line, or_string(compact2(st, "delegated_agent", "status"), "unknown").as_str());
    push_str(line, " model=");
    push_str(line, or_string(compact2(st, "delegated_agent", "model"), "unknown").as_str());
    push_str(line, "/");
    push_str(line, or_string(compact2(st, "delegated_agent", "variant"), "unknown").as_str());
}

fn push_task_session_tail(line: &mut String, st: &Json)
    ensures
        final(line)@ == old(line)@ + task_session_tail(jview(*st)),
{
    push_str(line, " fallback=");
    push_dashed(line, or_string(compact2(st, "fallback_state", "status"), "none").as_str());
    push_str(line, " evidence=");
    push_decimal(line, count2(st, "evidence", "count"));
    push_str(line, " verification=");
    push_dashed(line, or_string(compact2(st, "verification", "state"), "unknown").as_str());
    push_str(line, " unresolved_risk=");
    push_decimal(line, count2(st, "verification", "unresolved_risk_count"));
    push_str(line, " session=");
    push_str(line, or_string(compact2(st, "internal_session", "session_id"), "unknown").as_str());
}

pub fn build_task_session_state_line(payload: &Json) -> (r: Option<String>)
    ensures
        opt_string_view(r) == spec_task_session_state_line(jview(*payload)),
{
    let st = match object_member_ref(payload, "task_session_state") {
        Some(s) => s,
        None => return None,
    };
    let mut line = String::new();
    push_task_session_head(&mut line, st);
    push_task_session_tail(&mut line, st);
    Some(line)
}

/// The first of two paths that holds a value, when that value is an object.
pub open spec fn first_object_at(j: JVal, a: Seq<Seq<char>>, b: Seq<Seq<char>>) -> Option<JVal> {
    match (match jget_path(j, a) {
        Some(v) => Some(v),
        None => jget_path(j, b),
    }) {
        Some(v) => if v is Object {
            Some(v)
        } else {
            None
        },
        None => None,
    }
}

/// `Verification Capsule: ...` for the current task card's (else the task
/// session's) verification capsule.
pub open spec fn spec_verification_capsule_line(payload: JVal) -> Option<Seq<char>> {
    match first_object_at(
        payload,
        seq!["current_task_card"@, "verification_capsule"@],
        seq!["task_session_state"@, "verification_capsule"@],
    ) {
        Some(c) => Some(
            "Verification Capsule: evidence="@ + decimal(count_at(c, seq!["evidence"@, "count"@])) + " validation="@
                + decimal(count_at(c, seq!["validation"@, "count"@])) + " reviewer_verdict="@
                + underscores_to_dashes(text_or(compact_at(c, seq!["reviewer_verdict"@]), "not-applicable"@))
                + " unresolved_risk="@ + decimal(count_at(c, seq!["unresolved_risk"@, "count"@])) + match compact_at(
                c,
                seq!["acceptance"@],
            ) {
                Some(v) => " acceptance=\""@ + summary_of(v, 120) + "\""@,
                None => Seq::empty(),
            },
        ),
        None => None,
    }
}

fn first_object2<'a>(j: &'a Json, a1: &str, a2: &str, b1: &str, b2: &str) -> (r: Option<&'a Json>)
    ensures
        opt_jview_ref(r) == first_object_at(jview(*j), seq![a1@, a2@], seq![b1@, b2@]),
{
    let v = match crate::app_panel::at2(j, a1, a2) {
        Some(v) => Some(v),
        None => crate::app_panel::at2(j, b1, b2),
    };
    match v {
        Some(v) => if v.is_object() {
            Some(v)
        } else {
            None
        },
        None => None,
    }
}

pub fn build_verification_capsule_line(payload: &Json) -> (r: Option<String>)
    ensures
        opt_string_view(r) == spec_verification_capsule_line(jview(*payload)),
{
    let c = match first_object2(
        payload,
        "current_task_card",
        "verification_capsule",
        "task_session_state",
        "verification_capsule",
    ) {
        Some(c) => c,
        None => return None,
    };
    let mut line = to_owned("Verification Capsule: evidence=");
    push_decimal(&mut line, count2(c, "evidence", "count"));
    push_str(&mut line, " validation=");
    push_decimal(&mut line, count2(c, "validation", "count"));
    push_str(&mut line, " reviewer_verdict=");
    push_dashed(&mut line, or_string(compact_text_field(c, "reviewer_verdict"), "not-applicable").as_str());
    push_str(&mut line, " unresolved_risk=");
    push_decimal(&mut line, count2(c, "unresolved_risk", "count"));
    match compact_text_field(c, "acceptance") {
        Some(v) => {
            push_str(&mut line, " acceptance=\"");
            push_str(&mut line, summarize_text_for_visibility(v.as_str(), 120).as_str());
            push_str(&mut line, "\"");
        },
        None => {},
    }
    Some(line)
}

/// The delegated ownership of the current task card, else of the task
/// session, else of the checkpoint's delegated work (an object).
pub open spec fn ownership_of(payload: JVal) -> Option<JVal> {
    match (match jget_path(payload, seq!["current_task_card"@, "delegated_ownership"@]) {
        Some(v) => Some(v),
        None => match jget_path(payload, seq!["task_session_state"@, "delegated_ownership"@]) {
            Some(v) => Some(v),
            None => jget_path(payload, seq!["active_checkpoint"@, "delegated_work"@, "ownership"@]),
        },
    }) {
        Some(v) => if v is Object {
            Some(v)
        } else {
            None
        },
        None => None,
    }
}

/// `Delegated Ownership: ...` for a payload with delegated ownership.
pub open spec fn spec_delegated_ownership_line(payload: JVal) -> Option<Seq<char>> {
    match ownership_of(payload) {
        Some(o) => Some(
            "Delegated Ownership: agent="@ + spec_status_display_agent(
                text_or(
                    or_else(
                        compact_at(o, seq!["owner"@, "assigned_agent_id"@]),
                        compact_at(o, seq!["owner"@, "child_agent_id"@]),
                    ),
                    "unassigned"@,
                ),
            ) + " search_paths="@ + decimal(list_len_at(o, seq!["search_ownership"@, "paths"@]))
                + " search_terms="@ + decimal(list_len_at(o, seq!["search_ownership"@, "terms"@])) + " mutation="@
                + bool_text(flag(o, seq!["mutation_ownership"@, "active"@])) + " repeat_guard=reclaim:"@
                + bool_text(flag(o, seq!["repeat_guard"@, "reclaim_recorded"@])) + " stale:"@ + bool_text(
                flag(o, seq!["repeat_guard"@, "stale_output_recorded"@]),
            ) + " explicit-reason-required"@,
        ),
        None => None,
    }
}

pub fn build_delegated_ownership_line(payload: &Json) -> (r: Option<String>)
    ensures
        opt_string_view(r) == spec_delegated_ownership_line(jview(*payload)),
{
    let v = match crate::app_panel::at2(payload, "current_task_card", "delegated_ownership") {
        Some(v) => Some(v),
        None => match crate::app_panel::at2(payload, "task_session_state", "delegated_ownership") {
            Some(v) => Some(v),
            None => crate::app_panel::at3(payload, "active_checkpoint", "delegated_work", "ownership"),
        },
    };
    let o = match v {
        Some(o) => if o.is_object() {
            o
        } else {
            return None;
        },
        None => return None,
    };
    let agent = or_string(
        or_else_string(compact2(o, "owner", "assigned_agent_id"), compact2(o, "owner", "child_agent_id")),
        "unassigned",
    );
    let mut line = to_owned("Delegated Ownership: agent=");
    push_str(&mut line, status_display_agent(agent.as_str()).as_str());
    push_str(&mut line, " search_paths=");
    push_decimal(&mut line, list_len2(o, "search_ownership", "paths"));
    push_str(&mut line, " search_terms=");
    push_decimal(&mut line, list_len2(o, "search_ownership", "terms"));
    push_str(&mut line, " mutation=");
    push_bool(&mut line, flag2(o, "mutation_ownership", "active"));
    push_str(&mut line, " repeat_guard=reclaim:");
    push_bool(&mut line, flag2(o, "repeat_guard", "reclaim_recorded"));
    push_str(&mut line, " stale:");
    push_bool(&mut line, flag2(o, "repeat_guard", "stale_output_recorded"));
    push_str(&mut line, " explicit-reason-required");
    Some(line)
}

/// `Recovery: ...` for a recovery lane with a status.
pub open spec fn spec_recovery_lane_line(payload: JVal) -> Option<Seq<char>> {
    match crate::app_panel_text::spec_summarize_recovery_lane(payload) {
        Some(s) => Some("Recovery: "@ + s),
        None => None,
    }
}

pub fn build_recovery_lane_line(payload: &Json) -> (r: Option<String>)
    ensures
        opt_string_view(r) == spec_recovery_lane_line(jview(*payload)),
{
    match crate::app_panel_text::summarize_recovery_lane(payload) {
        Some(s) => {
            let mut line = to_owned("Recovery: ");
            push_str(&mut line, s.as_str());
            Some(line)
        },
        None => None,
    }
}

/// `Lifecycle Hooks: ...` for lifecycle hooks with a status.
pub open spec fn spec_lifecycle_hooks_line(payload: JVal) -> Option<Seq<char>> {
    match object_member(payload, "lifecycle_hooks"@) {
        Some(h) => match text_at(h, seq!["status"@]) {
            Some(status) => {
                let active = member_strings(h, "active_tiers"@);
                Some(
                    "Lifecycle Hooks: status="@ + underscores_to_dashes(status) + " active="@ + if active.len() == 0 {
                        "none"@
                    } else {
                        join_with(active, ","@)
                    } + " skipped="@ + decimal(crate::longway::member_list(h, "skipped_tiers"@).len()) + " failures="@ + decimal(
                        count_at(h, seq!["failure_count"@]),
                    ) + " internal=true"@,
                )
            },
            None => None,
        },
        None => None,
    }
}

pub fn build_lifecycle_hooks_line(payload: &Json) -> (r: Option<String>)
    ensures
        opt_string_view(r) == spec_lifecycle_hooks_line(jview(*payload)),
{
    let h = match object_member_ref(payload, "lifecycle_hooks") {
        Some(h) => h,
        None => return None,
    };
    let status = match text1(h, "status") {
        Some(s) => s,
        None => return None,
    };
    let active = member_string_list(h, "active_tiers");
    let skipped: u64 = match h.get("skipped_tiers") {
        Some(Json::Array(items)) => {
            proof {
                crate::json::lemma_array_view(*items);
            }
            items.len() as u64
        },
        _ => 0,
    };
    assert(skipped as nat == crate::longway::member_list(jview(*h), "skipped_tiers"@).len());
    let f: [&str; 1] = ["failure_count"];
    assert(f@.map_values(|k: &str| k@) =~= seq!["failure_count"@]);
    let mut line = to_owned("Lifecycle Hooks: status=");
    push_dashed(&mut line, status);
    push_str(&mut line, " active=");
    if active.len() == 0 {
        push_str(&mut line, "none");
    } else {
        push_str(&mut line, join_strings(&active, ",").as_str());
    }
    push_str(&mut line, " skipped=");
    push_decimal(&mut line, skipped);
    push_str(&mut line, " failures=");
    push_decimal(&mut line, count_path(h, f.as_slice()));
    push_str(&mut line, " internal=true");
    Some(line)
}

/// A workflow stage as `label:status`, both trimmed (none without a label).
pub open spec fn spec_stage_text(item: JVal) -> Option<Seq<char>> {
    match compact_at(item, seq!["label"@]) {
        Some(label) => Some(
            crate::strings::replace_char(label, ' ', '-') + ":"@ + underscores_to_dashes(
                text_or(compact_at(item, seq!["status"@]), "unknown"@),
            ),
        ),
        None => None,
    }
}

/// `Workflow Loop: ...` for a workflow loop with a current stage.
pub open spec fn spec_workflow_loop_line(payload: JVal) -> Option<Seq<char>> {
    match object_member(payload, "workflow_loop"@) {
        Some(w) => match compact_at(w, seq!["current_stage"@]) {
            Some(current) => {
                let stages = crate::longway::member_list(w, "stages"@).filter_map(|it: JVal| spec_stage_text(it));
                Some(
                    "Workflow Loop: status="@ + underscores_to_dashes(text_or(compact_at(w, seq!["status"@]), "active"@))
                        + " current="@ + underscores_to_dashes(current) + " stages="@ + if stages.len() == 0 {
                        "none"@
                    } else {
                        join_with(stages, ">"@)
                    },
                )
            },
            None => None,
        },
        None => None,
    }
}

fn stage_text(item: &Json) -> (r: Option<String>)
    ensures
        opt_string_view(r) == spec_stage_text(jview(*item)),
{
    match compact_text_field(item, "label") {
        Some(label) => {
            let mut s = crate::strings::replace_char_string(label.as_str(), ' ', '-');
            push_str(&mut s, ":");
            push_dashed(&mut s, or_string(compact_text_field(item, "status"), "unknown").as_str());
            Some(s)
        },
        None => None,
    }
}

fn stage_texts(items: &Vec<Json>) -> (r: Vec<String>)
    ensures
        string_views(r@) == crate::worker_fleet::jviews(items@).filter_map(|it: JVal| spec_stage_text(it)),
{
    let ghost iv = crate::worker_fleet::jviews(items@);
    let mut out: Vec<String> = Vec::new();
    let mut i: usize = 0;
    assert(iv.take(0).filter_map(|it: JVal| spec_stage_text(it)) =~= Seq::<Seq<char>>::empty());
    assert(string_views(out@) =~= Seq::<Seq<char>>::empty());
    while i < items.len()
        invariant
            i <= items.len(),
            iv == crate::worker_fleet::jviews(items@),
            string_views(out@) == iv.take(i as int).filter_map(|it: JVal| spec_stage_text(it)),
        decreases items.len() - i,
    {
        proof {
            iv.lemma_filter_map_take_succ(|it: JVal| spec_stage_text(it), i as int);
        }
        let ghost before = string_views(out@);
        assert(iv[i as int] == jview(items@[i as int]));
        match stage_text(&items[i]) {
            Some(t) => {
                let ghost tv = t@;
                out.push(t);
                assert(string_views(out@) =~= before + seq![tv]);
            },
            None => {
                assert(string_views(out@) =~= before);
            },
        }
        i = i + 1;
    }
    assert(iv.take(items.len() as int) =~= iv);
    out
}

pub fn build_workflow_loop_line(payload: &Json) -> (r: Option<String>)
    ensures
        opt_string_view(r) == spec_workflow_loop_line(jview(*payload)),
{
    let w = match object_member_ref(payload, "workflow_loop") {
        Some(w) => w,
        None => return None,
    };
    let current = match compact_text_field(w, "current_stage") {
        Some(c) => c,
        None => return None,
    };
    let empty: Vec<Json> = Vec::new();
    let items: &Vec<Json> = match crate::run_health::array_items(w.get("stages")) {
        Some(it) => it,
        None => &empty,
    };
    let stages = stage_texts(items);
    let mut line = to_owned("Workflow Loop: status=");
    push_dashed(&mut line, or_string(compact_text_field(w, "status"), "active").as_str());
    push_str(&mut line, " current=");
    push_dashed(&mut line, current.as_str());
    push_str(&mut line, " stages=");
    if stages.len() == 0 {
        push_str(&mut line, "none");
    } else {
        push_str(&mut line, join_strings(&stages, ">").as_str());
    }
    Some(line)
}

/// One part when present, else none.
pub open spec fn opt_part(o: Option<Seq<char>>) -> Seq<Seq<char>> {
    match o {
        Some(s) => seq![s],
        None => Seq::empty(),
    }
}

/// A `key=value` part with underscores in the value shown as dashes.
pub open spec fn dashed_part(key: Seq<char>, o: Option<Seq<char>>) -> Option<Seq<char>> {
    match o {
        Some(v) => Some(key + "="@ + underscores_to_dashes(v)),
        None => None,
    }
}

/// A `rationale="..."` part.
pub open spec fn rationale_part(o: Option<Seq<char>>) -> Option<Seq<char>> {
    match o {
        Some(v) => Some("rationale=\""@ + summary_of(v, 120) + "\""@),
        None => None,
    }
}

/// The intervention object of a payload: its own member, else the current
/// task card's (each only when an object).
pub open spec fn intervention_of(payload: JVal, own: Seq<char>, on_task: Seq<char>) -> Option<JVal> {
    match object_member(payload, own) {
        Some(v) => Some(v),
        None => object_at(payload, seq!["current_task_card"@, on_task]),
    }
}

/// The follow-up part of a captain intervention.
pub open spec fn follow_up_part(i: JVal) -> Option<Seq<char>> {
    match text_at(i, seq!["pending_follow_up"@, "action"@]) {
        Some(action) => {
            let status = text_or(jstr_at(i, seq!["pending_follow_up"@, "status"@]), "queued"@);
            if status == "queued"@ {
                Some("follow_up="@ + underscores_to_dashes(action))
            } else {
                Some("follow_up="@ + underscores_to_dashes(action) + ":"@ + underscores_to_dashes(status))
            }
        },
        None => None,
    }
}

/// The parts of a captain intervention line.
pub open spec fn captain_intervention_parts(i: JVal) -> Seq<Seq<char>> {
    opt_part(dashed_part("class"@, text_at(i, seq!["classification"@]))) + opt_part(
        dashed_part("next"@, text_at(i, seq!["chosen_next_action"@])),
    ) + opt_part(
        if flag(i, seq!["next_action_blocked"@]) {
            Some("blocked="@ + underscores_to_dashes(text_or(jstr_at(i, seq!["next_action_block_reason"@]), "blocked"@)))
        } else {
            None
        },
    ) + opt_part(follow_up_part(i)) + opt_part(dashed_part("stale"@, text_at(i, seq!["stale_output_policy"@])))
        + opt_part(rationale_part(text_at(i, seq!["rationale"@])))
}

/// `Intervention: ...` for the latest captain intervention with something
/// to show.
pub open spec fn spec_captain_intervention_line(payload: JVal) -> Option<Seq<char>> {
    match intervention_of(payload, "latest_captain_intervention"@, "captain_intervention"@) {
        Some(i) => {
            let parts = captain_intervention_parts(i);
            if parts.len() == 0 {
                None
            } else {
                Some("Intervention: "@ + join_with(parts, " "@))
            }
        },
        None => None,
    }
}

/// The parts of a sentinel intervention line.
pub open spec fn sentinel_intervention_parts(i: JVal) -> Seq<Seq<char>> {
    opt_part(dashed_part("class"@, text_at(i, seq!["classification"@]))) + opt_part(
        dashed_part("next"@, text_at(i, seq!["next_action"@])),
    ) + opt_part(dashed_part("source"@, text_at(i, seq!["source"@]))) + opt_part(
        rationale_part(text_at(i, seq!["rationale"@])),
    )
}

/// `Sentinel: ...` for the latest sentinel intervention with something to
/// show.
pub open spec fn spec_sentinel_intervention_line(payload: JVal) -> Option<Seq<char>> {
    match intervention_of(payload, "latest_sentinel_intervention"@, "sentinel_intervention"@) {
        Some(i) => {
            let parts = sentinel_intervention_parts(i);
            if parts.len() == 0 {
                None
            } else {
                Some("Sentinel: "@ + join_with(parts, " "@))
            }
        },
        None => None,
    }
}

fn intervention_ref<'a>(payload: &'a Json, own: &str, on_task: &str) -> (r: Option<&'a Json>)
    ensures
        opt_jview_ref(r) == intervention_of(jview(*payload), own@, on_task@),
{
    match object_member_ref(payload, own) {
        Some(v) => Some(v),
        None => object_at2(payload, "current_task_card", on_task),
    }
}

fn push_dashed_part(parts: &mut Vec<String>, key: &str, o: Option<&str>)
    ensures
        string_views(final(parts)@) == string_views(old(parts)@) + opt_part(dashed_part(key@, opt_view(o))),
{
    let ghost before = string_views(parts@);
    match o {
        Some(v) => {
            let mut p = to_owned(key);
            push_str(&mut p, "=");
            push_dashed(&mut p, v);
            let ghost pv = p@;
            parts.push(p);
            assert(string_views(parts@) =~= before + seq![pv]);
        },
        None => {
            assert(string_views(parts@) =~= before + Seq::<Seq<char>>::empty());
        },
    }
}

pub(crate) fn push_opt_part(parts: &mut Vec<String>, o: Option<String>)
    ensures
        string_views(final(parts)@) == string_views(old(parts)@) + opt_part(opt_string_view(o)),
{
    let ghost before = string_views(parts@);
    match o {
        Some(v) => {
            let ghost pv = v@;
            parts.push(v);
            assert(string_views(parts@) =~= before + seq![pv]);
        },
        None => {
            assert(string_views(parts@) =~= before + Seq::<Seq<char>>::empty());
        },
    }
}

fn rationale_text(o: Option<&str>) -> (r: Option<String>)
    ensures
        opt_string_view(r) == rationale_part(opt_view(o)),
{
    match o {
        Some(v) => {
            let mut p = to_owned("rationale=\"");
            push_str(&mut p, summarize_text_for_visibility(v, 120).as_str());
            push_str(&mut p, "\"");
            Some(p)
        },
        None => None,
    }
}

fn follow_up_text(i: &Json) -> (r: Option<String>)
    ensures
        opt_string_view(r) == follow_up_part(jview(*i)),
{
    let action = match text2(i, "pending_follow_up", "action") {
        Some(a) => a,
        None => return None,
    };
    let keys: [&str; 2] = ["pending_follow_up", "status"];
    assert(keys@.map_values(|k: &str| k@) =~= seq!["pending_follow_up"@, "status"@]);
    let status = or_text(i.str_at(keys.as_slice()), "queued");
    let mut p = to_owned("follow_up=");
    push_dashed(&mut p, action);
    if !str_eq(status, "queued") {
        push_str(&mut p, ":");
        push_dashed(&mut p, status);
    }
    Some(p)
}

fn parts_line(prefix: &str, parts: &Vec<String>) -> (r: Option<String>)
    ensures
        opt_string_view(r) == (if parts@.len() == 0 {
            None::<Seq<char>>
        } else {
            Some(prefix@ + join_with(string_views(parts@), " "@))
        }),
{
    if parts.len() == 0 {
        None
    } else {
        let mut line = to_owned(prefix);
        push_str(&mut line, join_strings(parts, " ").as_str());
        Some(line)
    }
}

pub fn build_captain_intervention_line(payload: &Json) -> (r: Option<String>)
    ensures
        opt_string_view(r) == spec_captain_intervention_line(jview(*payload)),
{
    let i = match intervention_ref(payload, "latest_captain_intervention", "captain_intervention") {
        Some(i) => i,
        None => return None,
    };
    let b: [&str; 1] = ["next_action_blocked"];
    assert(b@.map_values(|k: &str| k@) =~= seq!["next_action_blocked"@]);
    let mut parts: Vec<String> = Vec::new();
    push_dashed_part(&mut parts, "class", text1(i, "classification"));
    push_dashed_part(&mut parts, "next", text1(i, "chosen_next_action"));
    let blocked = if flag_path(i, b.as_slice()) {
        let r: [&str; 1] = ["next_action_block_reason"];
        assert(r@.map_values(|k: &str| k@) =~= seq!["next_action_block_reason"@]);
        let mut p = to_owned("blocked=");
        push_dashed(&mut p, or_text(i.str_at(r.as_slice()), "blocked"));
        Some(p)
    } else {
        None
    };
    push_opt_part(&mut parts, blocked);
    push_opt_part(&mut parts, follow_up_text(i));
    push_dashed_part(&mut parts, "stale", text1(i, "stale_output_policy"));
    push_opt_part(&mut parts, rationale_text(text1(i, "rationale")));
    assert(string_views(parts@) =~= captain_intervention_parts(jview(*i)));
    parts_line("Intervention: ", &parts)
}

pub fn build_sentinel_intervention_line(payload: &Json) -> (r: Option<String>)
    ensures
        opt_string_view(r) == spec_sentinel_intervention_line(jview(*payload)),
{
    let i = match intervention_ref(payload, "latest_sentinel_intervention", "sentinel_intervention") {
        Some(i) => i,
        None => return None,
    };
    let mut parts: Vec<String> = Vec::new();
    push_dashed_part(&mut parts, "class", text1(i, "classification"));
    push_dashed_part(&mut parts, "next", text1(i, "next_action"));
    push_dashed_part(&mut parts, "source", text1(i, "source"));
    push_opt_part(&mut parts, rationale_text(text1(i, "rationale")));
    assert(string_views(parts@) =~= sentinel_intervention_parts(jview(*i)));
    parts_line("Sentinel: ", &parts)
}

/// `Graph Context: ...` for a graph context object with a readiness.
pub open spec fn spec_graph_context_line(payload: JVal) -> Option<Seq<char>> {
    match object_member(payload, "graph_context"@) {
        Some(g) => match text_at(g, seq!["readiness"@]) {
            Some(readiness) => Some(
                "Graph Context: provider="@ + text_or(jstr_field(g, "provider"@), "graphify"@) + " readiness="@
                    + readiness + " reason="@ + text_or(jstr_field(g, "reason"@), "unknown"@) + " fallback="@
                    + text_or(jstr_field(g, "fallback"@), "none"@) + " artifacts="@ + text_or(
                    jstr_field(g, "artifact_state"@),
                    "unknown"@,
                ),
            ),
            None => None,
        },
        None => None,
    }
}

pub fn build_graph_context_line(payload: &Json) -> (r: Option<String>)
    ensures
        opt_string_view(r) == spec_graph_context_line(jview(*payload)),
{
    let g = match object_member_ref(payload, "graph_context") {
        Some(g) => g,
        None => return None,
    };
    let readiness = match text1(g, "readiness") {
        Some(r) => r,
        None => return None,
    };
    let mut line = to_owned("Graph Context: provider=");
    push_str(&mut line, or_text(g.str_field("provider"), "graphify"));
    push_str(&mut line, " readiness=");
    push_str(&mut line, readiness);
    push_str(&mut line, " reason=");
    push_str(&mut line, or_text(g.str_field("reason"), "unknown"));
    push_str(&mut line, " fallback=");
    push_str(&mut line, or_text(g.str_field("fallback"), "none"));
    push_str(&mut line, " artifacts=");
    push_str(&mut line, or_text(g.str_field("artifact_state"), "unknown"));
    Some(line)
}

/// `Registry: ...` for registry evidence that is present and not `null`.
pub open spec fn spec_registry_evidence_line(payload: JVal) -> Option<Seq<char>> {
    match jget(payload, "registry_evidence"@) {
        Some(reg) => if reg is Null {
            None
        } else {
            Some(
                "Registry: "@ + spec_status_display_agent(text_or(text_at(reg, seq!["agent_name"@]), "agent"@))
                    + " status="@ + text_or(jstr_field(reg, "status"@), "missing"@) + " ssl="@ + text_or(
                    or_else(
                        jstr_field(reg, "manifest_status"@),
                        jstr_at(reg, seq!["skill_ssl_manifest"@, "status"@]),
                    ),
                    "missing"@,
                ) + " advisory="@ + bool_text(opt_bool(jget(reg, "advisory_only"@)) != Some(false)),
            )
        },
        None => None,
    }
}

pub fn build_registry_evidence_line(payload: &Json) -> (r: Option<String>)
    ensures
        opt_string_view(r) == spec_registry_evidence_line(jview(*payload)),
{
    let reg = match payload.get("registry_evidence") {
        Some(r) => r,
        None => return None,
    };
    if reg.is_null() {
        return None;
    }
    let keys: [&str; 2] = ["skill_ssl_manifest", "status"];
    assert(keys@.map_values(|k: &str| k@) =~= seq!["skill_ssl_manifest"@, "status"@]);
    let ssl = match reg.str_field("manifest_status") {
        Some(s) => s,
        None => or_text(reg.str_at(keys.as_slice()), "missing"),
    };
    let advisory = match reg.get("advisory_only") {
        Some(v) => match v.as_bool() {
            Some(b) => b,
            None => true,
        },
        None => true,
    };
    let mut line = to_owned("Registry: ");
    push_str(&mut line, status_display_agent(or_text(text1(reg, "agent_name"), "agent")).as_str());
    push_str(&mut line, " status=");
    push_str(&mut line, or_text(reg.str_field("status"), "missing"));
    push_str(&mut line, " ssl=");
    push_str(&mut line, ssl);
    push_str(&mut line, " advisory=");
    push_bool(&mut line, advisory);
    Some(line)
}

/// The projection object of a payload (the operator's, else the plain
/// one), when it is an object.
pub open spec fn projection_of(payload: JVal) -> Option<JVal> {
    match (match jget(payload, "operator_longway_projection"@) {
        Some(v) => Some(v),
        None => jget(payload, "longway_projection"@),
    }) {
        Some(v) => if v is Object {
            Some(v)
        } else {
            None
        },
        None => None,
    }
}

/// The projection file shown: its path (the bare file name when the path
/// ends with it), else the file name.
pub open spec fn projection_path(projection: JVal) -> Seq<char> {
    match text_at(projection, seq!["path"@]) {
        Some(p) => if has_suffix(p, "CCC_LONGWAY_PROJECTION.md"@) {
            "CCC_LONGWAY_PROJECTION.md"@
        } else {
            p
        },
        None => "CCC_LONGWAY_PROJECTION.md"@,
    }
}

/// The command that refreshes the projection of a run.
pub open spec fn projection_command(payload: JVal) -> Seq<char> {
    match text_at(payload, seq!["run_id"@]) {
        Some(r) => "ccc status --projection --json '{\"run_id\":\""@ + r + "\"}'"@,
        None => "ccc status --projection --json '{...}'"@,
    }
}

/// The projection block: where the LongWay projection is, how to refresh
/// it, and its diff command (none when the projection is missing, removed
/// or absent).
pub open spec fn spec_operator_projection_status_block(payload: JVal) -> Option<Seq<char>> {
    match projection_of(payload) {
        Some(pr) => {
            let status = jstr_field(pr, "status"@);
            if status == Some("removed"@) || status == Some("absent"@) {
                None
            } else {
                let path = projection_path(pr);
                Some(
                    "LongWay Projection: "@ + path + "\nProgress: view "@ + path + " or refresh with "@
                        + projection_command(payload) + match text_at(
                        pr,
                        seq!["diff_visibility"@, "diff_command"@],
                    ) {
                        Some(d) => "\nDiff: "@ + d,
                        None => Seq::empty(),
                    },
                )
            }
        },
        None => None,
    }
}

pub fn build_operator_projection_status_block(payload: &Json) -> (r: Option<String>)
    ensures
        opt_string_view(r) == spec_operator_projection_status_block(jview(*payload)),
{
    let v = match payload.get("operator_longway_projection") {
        Some(v) => Some(v),
        None => payload.get("longway_projection"),
    };
    let pr = match v {
        Some(p) => if p.is_object() {
            p
        } else {
            return None;
        },
        None => return None,
    };
    match pr.str_field("status") {
        Some(st) => if str_eq(st, "removed") || str_eq(st, "absent") {
            return None;
        },
        None => {},
    }
    let path: &str = match text1(pr, "path") {
        Some(p) => if crate::strings::ends_with(p, "CCC_LONGWAY_PROJECTION.md") {
            "CCC_LONGWAY_PROJECTION.md"
        } else {
            p
        },
        None => "CCC_LONGWAY_PROJECTION.md",
    };
    let mut line = to_owned("LongWay Projection: ");
    push_str(&mut line, path);
    push_str(&mut line, "\nProgress: view ");
    push_str(&mut line, path);
    push_str(&mut line, " or refresh with ");
    match text1(payload, "run_id") {
        Some(r) => {
            push_str(&mut line, "ccc status --projection --json '{\"run_id\":\"");
            push_str(&mut line, r);
            push_str(&mut line, "\"}'");
        },
        None => push_str(&mut line, "ccc status --projection --json '{...}'"),
    }
    match text2(pr, "diff_visibility", "diff_command") {
        Some(d) => {
            push_str(&mut line, "\nDiff: ");
            push_str(&mut line, d);
        },
        None => {},
    }
    Some(line)
}

} // verus!
