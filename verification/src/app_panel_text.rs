//! The Codex app panel as text: one-line summaries of its gate,
//! checkpoint, recovery, workflow, hooks, mutation guard, workspace state,
//! target root, checklist, planned rows and subagents, the boxed panel, and
//! the Markdown panel.

use vstd::prelude::*;
use crate::format::{decimal, push_decimal, u64_to_string};
use crate::panel_text::{boxed_text_panel, spec_boxed_text_panel};
use crate::json::{jas_str, jget, jget_path, jstr_at, jstr_field, jview, opt_bool, opt_u64, JVal, Json};
use crate::app_panel::{at2, at3};
use crate::paths::{spec_target_root_candidate_label, target_root_candidate_label};
use crate::roles::{spec_status_display_agent, spec_status_display_role, status_display_agent, status_display_role};
use crate::skill_manifest::{join_strings, string_views};
use crate::status_text::{
    dashed, progress_gauge, spec_progress_gauge, spec_status_symbol, status_symbol, underscores_to_dashes,
};
use crate::strings::{
    is_blank, opt_string_view, opt_view, push_str, replace_char, replace_char_string, to_owned, trim,
};
use crate::text_utils::{summarize_text_for_visibility, summary_of};
use crate::worker_events::{join_with, opt_jview_ref};
use crate::worker_fleet::jviews;

verus! {

/// A string that is not blank.
pub open spec fn nonblank(o: Option<Seq<char>>) -> Option<Seq<char>> {
    match o {
        Some(s) => if trim(s).len() > 0 {
            Some(s)
        } else {
            None
        },
        None => None,
    }
}

/// The non-blank string at a path.
pub open spec fn text_at(j: JVal, keys: Seq<Seq<char>>) -> Option<Seq<char>> {
    nonblank(jstr_at(j, keys))
}

/// The text, or `fallback`.
pub open spec fn text_or(o: Option<Seq<char>>, fallback: Seq<char>) -> Seq<char> {
    match o {
        Some(s) => s,
        None => fallback,
    }
}

/// `true` or `false`.
pub open spec fn bool_text(b: bool) -> Seq<char> {
    if b {
        "true"@
    } else {
        "false"@
    }
}

/// A prefix and the text, or nothing.
pub open spec fn prefixed(prefix: Seq<char>, o: Option<Seq<char>>) -> Seq<char> {
    match o {
        Some(s) => prefix + s,
        None => Seq::empty(),
    }
}

/// The `u64` at a path, or 0.
pub open spec fn count_at(j: JVal, keys: Seq<Seq<char>>) -> nat {
    match opt_u64(jget_path(j, keys)) {
        Some(n) => n as nat,
        None => 0,
    }
}

/// Whether the boolean at a path is `true`.
pub open spec fn flag(j: JVal, keys: Seq<Seq<char>>) -> bool {
    opt_bool(jget_path(j, keys)) == Some(true)
}

/// The first `n` items (all of them when there are fewer).
pub open spec fn take_upto<A>(s: Seq<A>, n: nat) -> Seq<A> {
    if s.len() <= n {
        s
    } else {
        s.take(n as int)
    }
}

/// The strings among a list's values.
pub open spec fn strings_in(items: Seq<JVal>) -> Seq<Seq<char>> {
    items.filter_map(|v: JVal| jas_str(v))
}

/// The strings of a list member (none unless a list).
pub open spec fn member_strings(j: JVal, key: Seq<char>) -> Seq<Seq<char>> {
    match jget(j, key) {
        Some(JVal::Array(items)) => strings_in(items),
        _ => Seq::empty(),
    }
}

/// An object member.
pub open spec fn object_member(j: JVal, key: Seq<char>) -> Option<JVal> {
    match jget(j, key) {
        Some(v) => if v is Object {
            Some(v)
        } else {
            None
        },
        None => None,
    }
}

pub(crate) fn text1<'a>(j: &'a Json, a: &str) -> (r: Option<&'a str>)
    ensures
        opt_view(r) == text_at(jview(*j), seq![a@]),
{
    let keys: [&str; 1] = [a];
    let ks = keys.as_slice();
    assert(ks@.map_values(|k: &str| k@) =~= seq![a@]);
    match j.str_at(ks) {
        Some(s) => if is_blank(s) {
            None
        } else {
            Some(s)
        },
        None => None,
    }
}

pub(crate) fn text2<'a>(j: &'a Json, a: &str, b: &str) -> (r: Option<&'a str>)
    ensures
        opt_view(r) == text_at(jview(*j), seq![a@, b@]),
{
    let keys: [&str; 2] = [a, b];
    let ks = keys.as_slice();
    assert(ks@.map_values(|k: &str| k@) =~= seq![a@, b@]);
    match j.str_at(ks) {
        Some(s) => if is_blank(s) {
            None
        } else {
            Some(s)
        },
        None => None,
    }
}

pub(crate) fn text3<'a>(j: &'a Json, a: &str, b: &str, c: &str) -> (r: Option<&'a str>)
    ensures
        opt_view(r) == text_at(jview(*j), seq![a@, b@, c@]),
{
    let keys: [&str; 3] = [a, b, c];
    let ks = keys.as_slice();
    assert(ks@.map_values(|k: &str| k@) =~= seq![a@, b@, c@]);
    match j.str_at(ks) {
        Some(s) => if is_blank(s) {
            None
        } else {
            Some(s)
        },
        None => None,
    }
}

pub(crate) fn or_text<'a>(o: Option<&'a str>, fallback: &'a str) -> (r: &'a str)
    ensures
        r@ == text_or(opt_view(o), fallback@),
{
    match o {
        Some(s) => s,
        None => fallback,
    }
}

pub(crate) fn count1(j: &Json, a: &str) -> (r: u64)
    ensures
        r == count_at(jview(*j), seq![a@]),
{
    let keys: [&str; 1] = [a];
    let ks = keys.as_slice();
    assert(ks@.map_values(|k: &str| k@) =~= seq![a@]);
    match j.get_path(ks) {
        Some(v) => match v.as_u64() {
            Some(n) => n,
            None => 0,
        },
        None => 0,
    }
}

pub(crate) fn count_path(j: &Json, keys: &[&str]) -> (r: u64)
    ensures
        r == count_at(jview(*j), keys@.map_values(|k: &str| k@)),
{
    match j.get_path(keys) {
        Some(v) => match v.as_u64() {
            Some(n) => n,
            None => 0,
        },
        None => 0,
    }
}

pub(crate) fn flag_path(j: &Json, keys: &[&str]) -> (r: bool)
    ensures
        r == flag(jview(*j), keys@.map_values(|k: &str| k@)),
{
    match j.get_path(keys) {
        Some(v) => match v.as_bool() {
            Some(b) => b,
            None => false,
        },
        None => false,
    }
}

pub(crate) fn push_bool(out: &mut String, b: bool)
    ensures
        final(out)@ == old(out)@ + bool_text(b),
{
    if b {
        push_str(out, "true");
    } else {
        push_str(out, "false");
    }
}

pub(crate) fn object_member_ref<'a>(j: &'a Json, key: &str) -> (r: Option<&'a Json>)
    ensures
        opt_jview_ref(r) == object_member(jview(*j), key@),
{
    match j.get(key) {
        Some(v) => if v.is_object() {
            Some(v)
        } else {
            None
        },
        None => None,
    }
}

/// The strings of a list member.
pub(crate) fn member_string_list(j: &Json, key: &str) -> (r: Vec<String>)
    ensures
        string_views(r@) == member_strings(jview(*j), key@),
{
    let mut out: Vec<String> = Vec::new();
    match j.get(key) {
        Some(Json::Array(items)) => {
            let ghost iv = jviews(items@);
            proof {
                crate::json::lemma_array_view(*items);
                assert(jview(Json::Array(*items)) == JVal::Array(iv));
            }
            let mut i: usize = 0;
            assert(iv.take(0).filter_map(|v: JVal| jas_str(v)) =~= Seq::<Seq<char>>::empty());
            assert(string_views(out@) =~= Seq::<Seq<char>>::empty());
            while i < items.len()
                invariant
                    i <= items.len(),
                    iv == jviews(items@),
                    string_views(out@) == iv.take(i as int).filter_map(|v: JVal| jas_str(v)),
                decreases items.len() - i,
            {
                proof {
                    iv.lemma_filter_map_take_succ(|v: JVal| jas_str(v), i as int);
                }
                let ghost before = string_views(out@);
                assert(iv[i as int] == jview(items@[i as int]));
                match items[i].as_str() {
                    Some(s) => {
                        out.push(to_owned(s));
                        assert(string_views(out@) =~= before + seq![s@]);
                    },
                    None => {},
                }
                assert(string_views(out@) =~= iv.take(i + 1).filter_map(|v: JVal| jas_str(v)));
                i = i + 1;
            }
            assert(iv.take(items.len() as int) =~= iv);
        },
        _ => {
            assert(string_views(out@) =~= Seq::<Seq<char>>::empty());
        },
    }
    out
}

/// The first `n` strings of a list.
pub(crate) fn first_strings(v: Vec<String>, n: usize) -> (r: Vec<String>)
    ensures
        string_views(r@) == take_upto(string_views(v@), n as nat),
{
    let mut out: Vec<String> = Vec::new();
    let mut i: usize = 0;
    let ghost vv = string_views(v@);
    while i < v.len() && i < n
        invariant
            i <= v.len(),
            i <= n,
            vv == string_views(v@),
            string_views(out@) == vv.take(i as int),
        decreases v.len() - i,
    {
        let ghost before = string_views(out@);
        assert(vv[i as int] == v@[i as int]@);
        out.push(to_owned(v[i].as_str()));
        assert(string_views(out@) =~= before.push(vv[i as int]));
        assert(string_views(out@) =~= vv.take(i + 1));
        i = i + 1;
    }
    assert(string_views(out@) =~= take_upto(vv, n as nat));
    out
}

/// The active gate: `state=.. gate=.. requires=.. next=..`, with up to four
/// allowed transitions.
pub open spec fn spec_summarize_state_contract(panel: JVal) -> Option<Seq<char>> {
    match object_member(panel, "state_contract"@) {
        Some(c) => match text_at(c, seq!["state"@]) {
            Some(state) => {
                let allowed = take_upto(member_strings(c, "allowed_next_transitions"@), 4);
                Some(
                    "state="@ + underscores_to_dashes(state) + " gate="@ + underscores_to_dashes(
                        text_or(text_at(c, seq!["active_gate"@]), "unknown"@),
                    ) + " requires="@ + underscores_to_dashes(
                        text_or(text_at(c, seq!["required_artifact"@]), "unspecified"@),
                    ) + " next="@ + underscores_to_dashes(
                        text_or(text_at(c, seq!["next_step"@]), "unknown"@),
                    ) + if allowed.len() == 0 {
                        Seq::empty()
                    } else {
                        " allowed="@ + join_with(allowed, ","@)
                    },
                )
            },
            None => None,
        },
        None => None,
    }
}

pub fn summarize_state_contract(app_panel: &Json) -> (r: Option<String>)
    ensures
        opt_string_view(r) == spec_summarize_state_contract(jview(*app_panel)),
{
    let c = match object_member_ref(app_panel, "state_contract") {
        Some(c) => c,
        None => return None,
    };
    let state = match text1(c, "state") {
        Some(s) => s,
        None => return None,
    };
    let allowed = first_strings(member_string_list(c, "allowed_next_transitions"), 4);
    let mut line = to_owned("state=");
    push_str(&mut line, dashed(state).as_str());
    push_str(&mut line, " gate=");
    push_str(&mut line, dashed(or_text(text1(c, "active_gate"), "unknown")).as_str());
    push_str(&mut line, " requires=");
    push_str(&mut line, dashed(or_text(text1(c, "required_artifact"), "unspecified")).as_str());
    push_str(&mut line, " next=");
    push_str(&mut line, dashed(or_text(text1(c, "next_step"), "unknown")).as_str());
    if allowed.len() > 0 {
        push_str(&mut line, " allowed=");
        push_str(&mut line, join_strings(&allowed, ",").as_str());
    }
    Some(line)
}

/// The checkpoint: gate, task, role, agent, delegated work, resume action,
/// continuation command and late output.
pub open spec fn spec_summarize_active_checkpoint(panel: JVal) -> Option<Seq<char>> {
    match object_member(panel, "active_checkpoint"@) {
        Some(cp) => Some(
            "gate="@ + underscores_to_dashes(text_or(text_at(cp, seq!["current_gate"@]), "unknown"@))
                + " task="@ + text_or(text_at(cp, seq!["task_card_id"@]), "unknown"@) + " role="@
                + spec_status_display_role(text_or(text_at(cp, seq!["assigned_role"@]), "unassigned"@))
                + " agent="@ + spec_status_display_agent(
                text_or(text_at(cp, seq!["assigned_agent_id"@]), "unassigned"@),
            ) + " "@ + text_or(text_at(cp, seq!["delegated_work"@, "summary"@]), "delegated=0"@)
                + " resume="@ + underscores_to_dashes(
                text_or(text_at(cp, seq!["resume_action"@]), "unknown"@),
            ) + " continue=\""@ + text_or(
                text_at(cp, seq!["continuation_command"@]),
                "$cap continue <run_id>"@,
            ) + "\" late="@ + underscores_to_dashes(
                text_or(text_at(cp, seq!["late_output"@, "state"@]), "none"@),
            ) + "("@ + decimal(count_at(cp, seq!["late_output"@, "count"@])) + ")"@,
        ),
        None => None,
    }
}

pub fn summarize_active_checkpoint(app_panel: &Json) -> (r: Option<String>)
    ensures
        opt_string_view(r) == spec_summarize_active_checkpoint(jview(*app_panel)),
{
    let cp = match object_member_ref(app_panel, "active_checkpoint") {
        Some(c) => c,
        None => return None,
    };
    let late_keys: [&str; 2] = ["late_output", "count"];
    let lk = late_keys.as_slice();
    assert(lk@.map_values(|k: &str| k@) =~= seq!["late_output"@, "count"@]);
    let mut line = to_owned("gate=");
    push_str(&mut line, dashed(or_text(text1(cp, "current_gate"), "unknown")).as_str());
    push_str(&mut line, " task=");
    push_str(&mut line, or_text(text1(cp, "task_card_id"), "unknown"));
    push_str(&mut line, " role=");
    push_str(&mut line, status_display_role(or_text(text1(cp, "assigned_role"), "unassigned")).as_str());
    push_str(&mut line, " agent=");
    push_str(
        &mut line,
        status_display_agent(or_text(text1(cp, "assigned_agent_id"), "unassigned")).as_str(),
    );
    push_str(&mut line, " ");
    push_str(&mut line, or_text(text2(cp, "delegated_work", "summary"), "delegated=0"));
    push_str(&mut line, " resume=");
    push_str(&mut line, dashed(or_text(text1(cp, "resume_action"), "unknown")).as_str());
    push_str(&mut line, " continue=\"");
    push_str(&mut line, or_text(text1(cp, "continuation_command"), "$cap continue <run_id>"));
    push_str(&mut line, "\" late=");
    push_str(&mut line, dashed(or_text(text2(cp, "late_output", "state"), "none")).as_str());
    push_str(&mut line, "(");
    push_decimal(&mut line, count_path(cp, lk));
    push_str(&mut line, ")");
    Some(line)
}

/// The recovery lane: status, recommended and reclaim actions, operator
/// attention, target count and a short summary.
pub open spec fn spec_summarize_recovery_lane(panel: JVal) -> Option<Seq<char>> {
    match object_member(panel, "recovery_lane"@) {
        Some(rl) => match text_at(rl, seq!["status"@]) {
            Some(status) => Some(
                "status="@ + underscores_to_dashes(status) + " action="@ + underscores_to_dashes(
                    text_or(text_at(rl, seq!["recommended_action"@]), "none"@),
                ) + " reclaim="@ + underscores_to_dashes(
                    text_or(text_at(rl, seq!["reclaim_replan_action"@]), "none"@),
                ) + " attention="@ + bool_text(flag(rl, seq!["needs_operator_attention"@]))
                    + " targets="@ + decimal(count_at(rl, seq!["target_count"@])) + match text_at(
                    rl,
                    seq!["summary"@],
                ) {
                    Some(v) => " summary=\""@ + summary_of(v, 140) + "\""@,
                    None => Seq::empty(),
                },
            ),
            None => None,
        },
        None => None,
    }
}

pub fn summarize_recovery_lane(app_panel: &Json) -> (r: Option<String>)
    ensures
        opt_string_view(r) == spec_summarize_recovery_lane(jview(*app_panel)),
{
    let rl = match object_member_ref(app_panel, "recovery_lane") {
        Some(c) => c,
        None => return None,
    };
    let status = match text1(rl, "status") {
        Some(s) => s,
        None => return None,
    };
    let attention_keys: [&str; 1] = ["needs_operator_attention"];
    let ak = attention_keys.as_slice();
    assert(ak@.map_values(|k: &str| k@) =~= seq!["needs_operator_attention"@]);
    let mut line = to_owned("status=");
    push_str(&mut line, dashed(status).as_str());
    push_str(&mut line, " action=");
    push_str(&mut line, dashed(or_text(text1(rl, "recommended_action"), "none")).as_str());
    push_str(&mut line, " reclaim=");
    push_str(&mut line, dashed(or_text(text1(rl, "reclaim_replan_action"), "none")).as_str());
    push_str(&mut line, " attention=");
    push_bool(&mut line, flag_path(rl, ak));
    push_str(&mut line, " targets=");
    push_decimal(&mut line, count1(rl, "target_count"));
    match text1(rl, "summary") {
        Some(v) => {
            push_str(&mut line, " summary=\"");
            push_str(&mut line, summarize_text_for_visibility(v, 140).as_str());
            push_str(&mut line, "\"");
        },
        None => {},
    }
    Some(line)
}

/// The lifecycle hooks: status, active tiers and failure count.
pub open spec fn spec_summarize_lifecycle_hooks(panel: JVal) -> Option<Seq<char>> {
    match object_member(panel, "lifecycle_hooks"@) {
        Some(h) => match text_at(h, seq!["status"@]) {
            Some(status) => {
                let active = member_strings(h, "active_tiers"@);
                Some(
                    "status="@ + underscores_to_dashes(status) + " active="@ + if active.len() == 0 {
                        "none"@
                    } else {
                        join_with(active, ","@)
                    } + " failures="@ + decimal(count_at(h, seq!["failure_count"@])) + " internal=true"@,
                )
            },
            None => None,
        },
        None => None,
    }
}

pub fn summarize_lifecycle_hooks(app_panel: &Json) -> (r: Option<String>)
    ensures
        opt_string_view(r) == spec_summarize_lifecycle_hooks(jview(*app_panel)),
{
    let h = match object_member_ref(app_panel, "lifecycle_hooks") {
        Some(c) => c,
        None => return None,
    };
    let status = match text1(h, "status") {
        Some(s) => s,
        None => return None,
    };
    let active = member_string_list(h, "active_tiers");
    let mut line = to_owned("status=");
    push_str(&mut line, dashed(status).as_str());
    push_str(&mut line, " active=");
    if active.len() == 0 {
        push_str(&mut line, "none");
    } else {
        push_str(&mut line, join_strings(&active, ",").as_str());
    }
    push_str(&mut line, " failures=");
    push_decimal(&mut line, count1(h, "failure_count"));
    push_str(&mut line, " internal=true");
    Some(line)
}

/// A workflow stage as `label:status` (none without a label).
pub open spec fn spec_stage_summary(item: JVal) -> Option<Seq<char>> {
    match text_at(item, seq!["label"@]) {
        Some(label) => Some(
            replace_char(label, ' ', '-') + ":"@ + underscores_to_dashes(
                text_or(text_at(item, seq!["status"@]), "unknown"@),
            ),
        ),
        None => None,
    }
}

/// The workflow loop: status, current stage and the stages.
pub open spec fn spec_summarize_workflow_loop(panel: JVal) -> Option<Seq<char>> {
    match object_member(panel, "workflow_loop"@) {
        Some(w) => match text_at(w, seq!["current_stage"@]) {
            Some(current) => {
                let stages = match jget(w, "stages"@) {
                    Some(JVal::Array(items)) => items.filter_map(|it: JVal| spec_stage_summary(it)),
                    _ => Seq::empty(),
                };
                Some(
                    "status="@ + underscores_to_dashes(text_or(text_at(w, seq!["status"@]), "active"@))
                        + " current="@ + underscores_to_dashes(current) + " stages="@ + if stages.len()
                        == 0 {
                        "none"@
                    } else {
                        join_with(stages, ">"@)
                    },
                )
            },
            None => None,
        },
        None => None,
    }
}

fn stage_summary(item: &Json) -> (r: Option<String>)
    ensures
        opt_string_view(r) == spec_stage_summary(jview(*item)),
{
    match text1(item, "label") {
        Some(label) => {
            let mut s = replace_char_string(label, ' ', '-');
            push_str(&mut s, ":");
            push_str(&mut s, dashed(or_text(text1(item, "status"), "unknown")).as_str());
            Some(s)
        },
        None => None,
    }
}

pub fn summarize_workflow_loop(app_panel: &Json) -> (r: Option<String>)
    ensures
        opt_string_view(r) == spec_summarize_workflow_loop(jview(*app_panel)),
{
    let w = match object_member_ref(app_panel, "workflow_loop") {
        Some(c) => c,
        None => return None,
    };
    let current = match text1(w, "current_stage") {
        Some(s) => s,
        None => return None,
    };
    let mut stages: Vec<String> = Vec::new();
    match w.get("stages") {
        Some(Json::Array(items)) => {
            let ghost iv = jviews(items@);
            proof {
                crate::json::lemma_array_view(*items);
            }
            let mut i: usize = 0;
            assert(iv.take(0).filter_map(|it: JVal| spec_stage_summary(it)) =~= Seq::<Seq<char>>::empty());
            assert(string_views(stages@) =~= Seq::<Seq<char>>::empty());
            while i < items.len()
                invariant
                    i <= items.len(),
                    iv == jviews(items@),
                    string_views(stages@) == iv.take(i as int).filter_map(|it: JVal| spec_stage_summary(it)),
                decreases items.len() - i,
            {
                proof {
                    iv.lemma_filter_map_take_succ(|it: JVal| spec_stage_summary(it), i as int);
                }
                let ghost before = string_views(stages@);
                assert(iv[i as int] == jview(items@[i as int]));
                match stage_summary(&items[i]) {
                    Some(s) => {
                        let ghost sv = s@;
                        stages.push(s);
                        assert(string_views(stages@) =~= before + seq![sv]);
                    },
                    None => {},
                }
                assert(string_views(stages@) =~= iv.take(i + 1).filter_map(|it: JVal| spec_stage_summary(it)));
                i = i + 1;
            }
            assert(iv.take(items.len() as int) =~= iv);
        },
        _ => {
            assert(string_views(stages@) =~= Seq::<Seq<char>>::empty());
        },
    }
    let mut line = to_owned("status=");
    push_str(&mut line, dashed(or_text(text1(w, "status"), "active")).as_str());
    push_str(&mut line, " current=");
    push_str(&mut line, dashed(current).as_str());
    push_str(&mut line, " stages=");
    if stages.len() == 0 {
        push_str(&mut line, "none");
    } else {
        push_str(&mut line, join_strings(&stages, ">").as_str());
    }
    Some(line)
}

/// The captain's direct mutation guard: state, changed path count and up to
/// three changed paths.
pub open spec fn spec_summarize_mutation_guard(panel: JVal) -> Option<Seq<char>> {
    match object_member(panel, "captain_direct_mutation_guard"@) {
        Some(g) => match nonblank(jstr_field(g, "state"@)) {
            Some(state) => {
                let paths = take_upto(member_strings(g, "changed_paths"@), 3);
                Some(
                    "- state="@ + underscores_to_dashes(state) + " changed_paths="@ + decimal(
                        count_at(g, seq!["changed_path_count"@]),
                    ) + if paths.len() == 0 {
                        Seq::empty()
                    } else {
                        " paths="@ + join_with(paths, ","@)
                    },
                )
            },
            None => None,
        },
        None => None,
    }
}

pub fn summarize_mutation_guard(app_panel: &Json) -> (r: Option<String>)
    ensures
        opt_string_view(r) == spec_summarize_mutation_guard(jview(*app_panel)),
{
    let g = match object_member_ref(app_panel, "captain_direct_mutation_guard") {
        Some(c) => c,
        None => return None,
    };
    let state = match g.str_field("state") {
        Some(s) => if is_blank(s) {
            return None;
        } else {
            s
        },
        None => return None,
    };
    let paths = first_strings(member_string_list(g, "changed_paths"), 3);
    let mut line = to_owned("- state=");
    push_str(&mut line, dashed(state).as_str());
    push_str(&mut line, " changed_paths=");
    push_decimal(&mut line, count1(g, "changed_path_count"));
    if paths.len() > 0 {
        push_str(&mut line, " paths=");
        push_str(&mut line, join_strings(&paths, ",").as_str());
    }
    Some(line)
}


pub(crate) fn text4<'a>(j: &'a Json, a: &str, b: &str, c: &str, d: &str) -> (r: Option<&'a str>)
    ensures
        opt_view(r) == text_at(jview(*j), seq![a@, b@, c@, d@]),
{
    let keys: [&str; 4] = [a, b, c, d];
    let ks = keys.as_slice();
    assert(ks@.map_values(|k: &str| k@) =~= seq![a@, b@, c@, d@]);
    match j.str_at(ks) {
        Some(s) => if is_blank(s) {
            None
        } else {
            Some(s)
        },
        None => None,
    }
}

/// A mirrored Tolaria note of a workspace section (`graph` or `memory`):
/// its state and note path, when enabled.
pub open spec fn spec_summarize_tolaria_state(panel: JVal, section: Seq<char>) -> Option<Seq<char>> {
    match text_at(panel, seq!["workspace_state"@, section, "tolaria"@, "state"@]) {
        Some(state) => if flag(panel, seq!["workspace_state"@, section, "tolaria"@, "enabled"@]) {
            Some(
                state + prefixed(
                    " "@,
                    text_at(panel, seq!["workspace_state"@, section, "tolaria"@, "relative_note_path"@]),
                ),
            )
        } else {
            None
        },
        None => None,
    }
}

pub fn summarize_tolaria_state(app_panel: &Json, section: &str) -> (r: Option<String>)
    ensures
        opt_string_view(r) == spec_summarize_tolaria_state(jview(*app_panel), section@),
{
    let state = match text4(app_panel, "workspace_state", section, "tolaria", "state") {
        Some(s) => s,
        None => return None,
    };
    let keys: [&str; 4] = ["workspace_state", section, "tolaria", "enabled"];
    let ks = keys.as_slice();
    assert(ks@.map_values(|k: &str| k@) =~= seq!["workspace_state"@, section@, "tolaria"@, "enabled"@]);
    if !flag_path(app_panel, ks) {
        return None;
    }
    let mut line = to_owned(state);
    match text4(app_panel, "workspace_state", section, "tolaria", "relative_note_path") {
        Some(note) => {
            push_str(&mut line, " ");
            push_str(&mut line, note);
        },
        None => {},
    }
    Some(line)
}

/// The code graph: availability, file count and mirror (none when the
/// graph is unavailable and nothing is mirrored).
pub open spec fn spec_summarize_graph_state(panel: JVal) -> Option<Seq<char>> {
    let available = flag(panel, seq!["workspace_state"@, "graph"@, "available"@]);
    let tolaria = spec_summarize_tolaria_state(panel, "graph"@);
    if !available && tolaria is None {
        None
    } else {
        Some(
            "Graph: available="@ + bool_text(available) + " files="@ + decimal(
                count_at(panel, seq!["workspace_state"@, "graph"@, "file_count"@]),
            ) + prefixed(" mirror="@, tolaria),
        )
    }
}

pub fn summarize_graph_state(app_panel: &Json) -> (r: Option<String>)
    ensures
        opt_string_view(r) == spec_summarize_graph_state(jview(*app_panel)),
{
    let k1: [&str; 3] = ["workspace_state", "graph", "available"];
    let k2: [&str; 3] = ["workspace_state", "graph", "file_count"];
    assert(k1@.map_values(|k: &str| k@) =~= seq!["workspace_state"@, "graph"@, "available"@]);
    assert(k2@.map_values(|k: &str| k@) =~= seq!["workspace_state"@, "graph"@, "file_count"@]);
    let available = flag_path(app_panel, k1.as_slice());
    let tolaria = summarize_tolaria_state(app_panel, "graph");
    if !available && tolaria.is_none() {
        return None;
    }
    let mut line = to_owned("Graph: available=");
    push_bool(&mut line, available);
    push_str(&mut line, " files=");
    push_decimal(&mut line, count_path(app_panel, k2.as_slice()));
    match tolaria {
        Some(t) => {
            push_str(&mut line, " mirror=");
            push_str(&mut line, t.as_str());
        },
        None => {},
    }
    Some(line)
}

/// A string member, or `fallback`.
pub open spec fn str_or(j: JVal, key: Seq<char>, fallback: Seq<char>) -> Seq<char> {
    text_or(jstr_field(j, key), fallback)
}

pub(crate) fn str_member_or<'a>(j: &'a Json, key: &str, fallback: &'a str) -> (r: &'a str)
    ensures
        r@ == str_or(jview(*j), key@, fallback@),
{
    match j.str_field(key) {
        Some(s) => s,
        None => fallback,
    }
}

/// Graph context readiness: provider, readiness, fallback and artifacts.
pub open spec fn spec_summarize_graph_context_state(panel: JVal) -> Option<Seq<char>> {
    match jget_path(panel, seq!["workspace_state"@, "graph_context"@]) {
        Some(gc) => if gc is Object {
            match nonblank(jstr_field(gc, "readiness"@)) {
                Some(readiness) => Some(
                    "Graph Context: provider="@ + str_or(gc, "provider"@, "graphify"@) + " readiness="@
                        + readiness + " fallback="@ + str_or(gc, "fallback"@, "none"@) + " artifacts="@
                        + str_or(gc, "artifact_state"@, "unknown"@),
                ),
                None => None,
            }
        } else {
            None
        },
        None => None,
    }
}

pub fn summarize_graph_context_state(app_panel: &Json) -> (r: Option<String>)
    ensures
        opt_string_view(r) == spec_summarize_graph_context_state(jview(*app_panel)),
{
    let gc = match at2(app_panel, "workspace_state", "graph_context") {
        Some(v) => if v.is_object() {
            v
        } else {
            return None;
        },
        None => return None,
    };
    let readiness = match gc.str_field("readiness") {
        Some(s) => if is_blank(s) {
            return None;
        } else {
            s
        },
        None => return None,
    };
    let mut line = to_owned("Graph Context: provider=");
    push_str(&mut line, str_member_or(gc, "provider", "graphify"));
    push_str(&mut line, " readiness=");
    push_str(&mut line, readiness);
    push_str(&mut line, " fallback=");
    push_str(&mut line, str_member_or(gc, "fallback", "none"));
    push_str(&mut line, " artifacts=");
    push_str(&mut line, str_member_or(gc, "artifact_state", "unknown"));
    Some(line)
}

/// Memory: enabled flag, entry count and mirror (none when memory is
/// neither available nor enabled and nothing is mirrored).
pub open spec fn spec_summarize_memory_state(panel: JVal) -> Option<Seq<char>> {
    let available = flag(panel, seq!["workspace_state"@, "memory"@, "available"@]);
    let enabled = flag(panel, seq!["workspace_state"@, "memory"@, "enabled"@]);
    let tolaria = spec_summarize_tolaria_state(panel, "memory"@);
    if !available && !enabled && tolaria is None {
        None
    } else {
        Some(
            "Memory: enabled="@ + bool_text(enabled) + " entries="@ + decimal(
                count_at(panel, seq!["workspace_state"@, "memory"@, "entry_count"@]),
            ) + prefixed(" mirror="@, tolaria),
        )
    }
}

pub fn summarize_memory_state(app_panel: &Json) -> (r: Option<String>)
    ensures
        opt_string_view(r) == spec_summarize_memory_state(jview(*app_panel)),
{
    let k1: [&str; 3] = ["workspace_state", "memory", "available"];
    let k2: [&str; 3] = ["workspace_state", "memory", "enabled"];
    let k3: [&str; 3] = ["workspace_state", "memory", "entry_count"];
    assert(k1@.map_values(|k: &str| k@) =~= seq!["workspace_state"@, "memory"@, "available"@]);
    assert(k2@.map_values(|k: &str| k@) =~= seq!["workspace_state"@, "memory"@, "enabled"@]);
    assert(k3@.map_values(|k: &str| k@) =~= seq!["workspace_state"@, "memory"@, "entry_count"@]);
    let available = flag_path(app_panel, k1.as_slice());
    let enabled = flag_path(app_panel, k2.as_slice());
    let tolaria = summarize_tolaria_state(app_panel, "memory");
    if !available && !enabled && tolaria.is_none() {
        return None;
    }
    let mut line = to_owned("Memory: enabled=");
    push_bool(&mut line, enabled);
    push_str(&mut line, " entries=");
    push_decimal(&mut line, count_path(app_panel, k3.as_slice()));
    match tolaria {
        Some(t) => {
            push_str(&mut line, " mirror=");
            push_str(&mut line, t.as_str());
        },
        None => {},
    }
    Some(line)
}

/// The registry evidence: agent, status and skill manifest status (none
/// without evidence).
pub open spec fn spec_summarize_registry_state(panel: JVal) -> Option<Seq<char>> {
    match jget(panel, "registry_evidence"@) {
        Some(reg) => if reg is Null {
            None
        } else {
            let ssl = match jstr_field(reg, "manifest_status"@) {
                Some(s) => s,
                None => text_or(jstr_at(reg, seq!["skill_ssl_manifest"@, "status"@]), "missing"@),
            };
            Some(
                "Registry: "@ + spec_status_display_agent(
                    text_or(nonblank(jstr_field(reg, "agent_name"@)), "agent"@),
                ) + " status="@ + str_or(reg, "status"@, "missing"@) + " ssl="@ + ssl,
            )
        },
        None => None,
    }
}

pub fn summarize_registry_state(app_panel: &Json) -> (r: Option<String>)
    ensures
        opt_string_view(r) == spec_summarize_registry_state(jview(*app_panel)),
{
    let reg = match app_panel.get("registry_evidence") {
        Some(v) => if v.is_null() {
            return None;
        } else {
            v
        },
        None => return None,
    };
    let agent: &str = match reg.str_field("agent_name") {
        Some(s) => if is_blank(s) {
            "agent"
        } else {
            s
        },
        None => "agent",
    };
    let ssl: &str = match reg.str_field("manifest_status") {
        Some(s) => s,
        None => match at2(reg, "skill_ssl_manifest", "status") {
            Some(v) => match v.as_str() {
                Some(s) => s,
                None => "missing",
            },
            None => "missing",
        },
    };
    let mut line = to_owned("Registry: ");
    push_str(&mut line, status_display_agent(agent).as_str());
    push_str(&mut line, " status=");
    push_str(&mut line, str_member_or(reg, "status", "missing"));
    push_str(&mut line, " ssl=");
    push_str(&mut line, ssl);
    Some(line)
}

/// The present values of a list.
pub open spec fn present(items: Seq<Option<Seq<char>>>) -> Seq<Seq<char>> {
    items.filter_map(|o: Option<Seq<char>>| o)
}

/// The workspace state lines: graph, graph context, registry and memory.
pub open spec fn spec_summarize_workspace_state(panel: JVal) -> Seq<Seq<char>> {
    present(
        seq![
            spec_summarize_graph_state(panel),
            spec_summarize_graph_context_state(panel),
            spec_summarize_registry_state(panel),
            spec_summarize_memory_state(panel),
        ],
    )
}

pub(crate) fn push_opt(lines: &mut Vec<String>, o: Option<String>)
    ensures
        string_views(final(lines)@) == string_views(old(lines)@) + match opt_string_view(o) {
            Some(s) => seq![s],
            None => Seq::<Seq<char>>::empty(),
        },
{
    let ghost before = string_views(lines@);
    match o {
        Some(s) => {
            let ghost sv = s@;
            lines.push(s);
            assert(string_views(lines@) =~= before + seq![sv]);
        },
        None => {
            assert(string_views(lines@) =~= before + Seq::<Seq<char>>::empty());
        },
    }
}

pub fn summarize_workspace_state(app_panel: &Json) -> (r: Vec<String>)
    ensures
        string_views(r@) == spec_summarize_workspace_state(jview(*app_panel)),
{
    let ghost p = jview(*app_panel);
    let mut lines: Vec<String> = Vec::new();
    assert(string_views(lines@) =~= Seq::<Seq<char>>::empty());
    push_opt(&mut lines, summarize_graph_state(app_panel));
    push_opt(&mut lines, summarize_graph_context_state(app_panel));
    push_opt(&mut lines, summarize_registry_state(app_panel));
    push_opt(&mut lines, summarize_memory_state(app_panel));
    proof {
        let s = seq![
            spec_summarize_graph_state(p),
            spec_summarize_graph_context_state(p),
            spec_summarize_registry_state(p),
            spec_summarize_memory_state(p),
        ];
        let f = |o: Option<Seq<char>>| o;
        s.lemma_filter_map_take_succ(f, 0);
        s.lemma_filter_map_take_succ(f, 1);
        s.lemma_filter_map_take_succ(f, 2);
        s.lemma_filter_map_take_succ(f, 3);
        assert(s.take(0).filter_map(f) =~= Seq::<Seq<char>>::empty());
        assert(s.take(4) =~= s);
    }
    lines
}

/// Rows as a Markdown list, or the empty-state line.
pub open spec fn markdown_list(rows: Seq<Seq<char>>, empty: Seq<char>) -> Seq<char> {
    if rows.len() == 0 {
        empty
    } else {
        join_with(rows.map_values(|r: Seq<char>| "- "@ + r), "\n"@)
    }
}

fn markdown_list_text(rows: &Vec<String>, empty: &str) -> (r: String)
    ensures
        r@ == markdown_list(string_views(rows@), empty@),
{
    if rows.len() == 0 {
        return to_owned(empty);
    }
    let mut items: Vec<String> = Vec::new();
    let ghost rv = string_views(rows@);
    let mut i: usize = 0;
    while i < rows.len()
        invariant
            i <= rows.len(),
            rv == string_views(rows@),
            string_views(items@) == rv.take(i as int).map_values(|r: Seq<char>| "- "@ + r),
        decreases rows.len() - i,
    {
        let ghost before = string_views(items@);
        let mut item = to_owned("- ");
        push_str(&mut item, rows[i].as_str());
        let ghost iv = item@;
        items.push(item);
        assert(string_views(items@) =~= before.push(iv));
        assert(rv.take(i + 1).map_values(|r: Seq<char>| "- "@ + r) =~= rv.take(i as int).map_values(
            |r: Seq<char>| "- "@ + r,
        ).push("- "@ + rv[i as int]));
        i = i + 1;
    }
    assert(rv.take(rows.len() as int) =~= rv);
    join_strings(&items, "\n")
}

/// The workspace state as a Markdown list.
pub open spec fn spec_markdown_workspace_state(panel: JVal) -> Seq<char> {
    markdown_list(spec_summarize_workspace_state(panel), "- _No graph or memory state available._"@)
}

pub fn markdown_workspace_state(app_panel: &Json) -> (r: String)
    ensures
        r@ == spec_markdown_workspace_state(jview(*app_panel)),
{
    markdown_list_text(&summarize_workspace_state(app_panel), "- _No graph or memory state available._")
}


/// The target workspace asks for its root to be confirmed.
pub open spec fn spec_target_root_confirmation_required(panel: JVal) -> bool {
    flag(panel, seq!["target_workspace"@, "confirmation_required"@])
}

pub fn target_root_confirmation_required(app_panel: &Json) -> (r: bool)
    ensures
        r == spec_target_root_confirmation_required(jview(*app_panel)),
{
    let keys: [&str; 2] = ["target_workspace", "confirmation_required"];
    assert(keys@.map_values(|k: &str| k@) =~= seq!["target_workspace"@, "confirmation_required"@]);
    flag_path(app_panel, keys.as_slice())
}

/// The target workspace's root candidates (none unless a list).
pub open spec fn root_candidates(panel: JVal) -> Seq<JVal> {
    match jget_path(panel, seq!["target_workspace"@, "candidates"@]) {
        Some(JVal::Array(items)) => items,
        _ => Seq::empty(),
    }
}

/// The line asking to confirm the target root.
pub open spec fn spec_summarize_target_root_confirmation(panel: JVal) -> Option<Seq<char>> {
    if !spec_target_root_confirmation_required(panel) {
        None
    } else {
        let count = match opt_u64(jget_path(panel, seq!["target_workspace"@, "candidate_count"@])) {
            Some(n) => n as nat,
            None => match jget_path(panel, seq!["target_workspace"@, "candidates"@]) {
                Some(JVal::Array(items)) => items.len(),
                _ => 0,
            },
        };
        Some(
            "[!] Confirm target path ("@ + text_or(
                text_at(panel, seq!["target_workspace"@, "root_kind"@]),
                "unknown"@,
            ) + ", confidence="@ + text_or(
                text_at(panel, seq!["target_workspace"@, "confidence"@]),
                "unknown"@,
            ) + ", candidates="@ + decimal(count) + ")"@,
        )
    }
}

pub fn summarize_target_root_confirmation(app_panel: &Json) -> (r: Option<String>)
    ensures
        opt_string_view(r) == spec_summarize_target_root_confirmation(jview(*app_panel)),
{
    if !target_root_confirmation_required(app_panel) {
        return None;
    }
    let count: u64 = match at2(app_panel, "target_workspace", "candidate_count") {
        Some(v) => match v.as_u64() {
            Some(n) => n,
            None => candidate_list_len(app_panel),
        },
        None => candidate_list_len(app_panel),
    };
    let mut line = to_owned("[!] Confirm target path (");
    push_str(&mut line, or_text(text2(app_panel, "target_workspace", "root_kind"), "unknown"));
    push_str(&mut line, ", confidence=");
    push_str(&mut line, or_text(text2(app_panel, "target_workspace", "confidence"), "unknown"));
    push_str(&mut line, ", candidates=");
    push_decimal(&mut line, count);
    push_str(&mut line, ")");
    Some(line)
}

fn candidate_list_len(app_panel: &Json) -> (r: u64)
    ensures
        r == match jget_path(jview(*app_panel), seq!["target_workspace"@, "candidates"@]) {
            Some(JVal::Array(items)) => items.len(),
            _ => 0,
        },
{
    match at2(app_panel, "target_workspace", "candidates") {
        Some(Json::Array(items)) => {
            proof {
                crate::json::lemma_array_view(*items);
            }
            items.len() as u64
        },
        _ => 0,
    }
}

/// `    <n>. <label> -> <candidate>` for the string candidates among the
/// first `k`, numbered by position.
pub open spec fn candidate_lines(items: Seq<JVal>, k: nat) -> Seq<Seq<char>>
    decreases k,
{
    if k == 0 {
        Seq::empty()
    } else {
        candidate_lines(items, (k - 1) as nat) + match items[k - 1] {
            JVal::Str(c) => seq![
                "    "@ + decimal(k) + ". "@ + spec_target_root_candidate_label(c) + " -> "@ + c,
            ],
            _ => Seq::empty(),
        }
    }
}

/// The numbered root candidates (up to `limit`), when the root must be
/// confirmed.
pub open spec fn spec_summarize_target_root_candidates(panel: JVal, limit: nat) -> Seq<Seq<char>> {
    if !spec_target_root_confirmation_required(panel) {
        Seq::empty()
    } else {
        let items = root_candidates(panel);
        candidate_lines(items, if items.len() <= limit { items.len() } else { limit })
    }
}

pub fn summarize_target_root_candidates(app_panel: &Json, limit: usize) -> (r: Vec<String>)
    ensures
        string_views(r@) == spec_summarize_target_root_candidates(jview(*app_panel), limit as nat),
{
    let mut out: Vec<String> = Vec::new();
    assert(string_views(out@) =~= Seq::<Seq<char>>::empty());
    if !target_root_confirmation_required(app_panel) {
        return out;
    }
    match at2(app_panel, "target_workspace", "candidates") {
        Some(Json::Array(items)) => {
            let ghost iv = jviews(items@);
            proof {
                crate::json::lemma_array_view(*items);
            }
            let n: usize = if items.len() <= limit { items.len() } else { limit };
            let mut i: usize = 0;
            while i < n
                invariant
                    i <= n,
                    n <= items.len(),
                    iv == jviews(items@),
                    string_views(out@) == candidate_lines(iv, i as nat),
                decreases n - i,
            {
                let ghost before = string_views(out@);
                assert(iv[i as int] == jview(items@[i as int]));
                match items[i].as_str() {
                    Some(c) => {
                        let mut line = to_owned("    ");
                        push_decimal(&mut line, (i + 1) as u64);
                        push_str(&mut line, ". ");
                        push_str(&mut line, target_root_candidate_label(c).as_str());
                        push_str(&mut line, " -> ");
                        push_str(&mut line, c);
                        let ghost lv = line@;
                        out.push(line);
                        assert(string_views(out@) =~= before + seq![lv]);
                    },
                    None => {
                        assert(string_views(out@) =~= before + Seq::<Seq<char>>::empty());
                    },
                }
                i = i + 1;
            }
        },
        _ => {},
    }
    out
}

/// The retry prompt with the first root candidate, when the root must be
/// confirmed.
pub open spec fn spec_target_root_follow_up_hint(panel: JVal) -> Option<Seq<char>> {
    if !spec_target_root_confirmation_required(panel) {
        None
    } else {
        let items = root_candidates(panel);
        if items.len() > 0 {
            match items[0] {
                JVal::Str(c) => Some(
                    "Retry: $cap Use target_paths=[\""@ + c + "\"] and continue this LongWay."@,
                ),
                _ => None,
            }
        } else {
            None
        }
    }
}

pub fn target_root_follow_up_hint(app_panel: &Json) -> (r: Option<String>)
    ensures
        opt_string_view(r) == spec_target_root_follow_up_hint(jview(*app_panel)),
{
    if !target_root_confirmation_required(app_panel) {
        return None;
    }
    match at2(app_panel, "target_workspace", "candidates") {
        Some(Json::Array(items)) => {
            proof {
                crate::json::lemma_array_view(*items);
            }
            if items.len() == 0 {
                return None;
            }
            assert(jviews(items@)[0] == jview(items@[0]));
            match items[0].as_str() {
                Some(c) => {
                    let mut line = to_owned("Retry: $cap Use target_paths=[\"");
                    push_str(&mut line, c);
                    push_str(&mut line, "\"] and continue this LongWay.");
                    Some(line)
                },
                None => None,
            }
        },
        _ => None,
    }
}


/// The list at a path (empty unless a list).
pub open spec fn list_at(j: JVal, keys: Seq<Seq<char>>) -> Seq<JVal> {
    match jget_path(j, keys) {
        Some(JVal::Array(items)) => items,
        _ => Seq::empty(),
    }
}

/// A checklist row: symbol, title, status and owner (none without a title).
pub open spec fn spec_longway_row_line(row: JVal) -> Option<Seq<char>> {
    match text_at(row, seq!["title"@]) {
        Some(title) => {
            let status = text_or(text_at(row, seq!["status"@]), "unknown"@);
            Some(
                spec_status_symbol(status) + " "@ + title + " ("@ + status + match text_at(
                    row,
                    seq!["owner_agent"@],
                ) {
                    Some(o) => ", owner="@ + spec_status_display_agent(o) + ")"@,
                    None => ")"@,
                },
            )
        },
        None => None,
    }
}

/// The checklist rows (up to `limit`).
pub open spec fn spec_summarize_longway_rows(panel: JVal, limit: nat) -> Seq<Seq<char>> {
    take_upto(list_at(panel, seq!["longway_progress"@, "rows"@]), limit).filter_map(
        |r: JVal| spec_longway_row_line(r),
    )
}

fn longway_row_line(row: &Json) -> (r: Option<String>)
    ensures
        opt_string_view(r) == spec_longway_row_line(jview(*row)),
{
    let title = match text1(row, "title") {
        Some(t) => t,
        None => return None,
    };
    let status = or_text(text1(row, "status"), "unknown");
    let mut line = to_owned(status_symbol(status));
    push_str(&mut line, " ");
    push_str(&mut line, title);
    push_str(&mut line, " (");
    push_str(&mut line, status);
    match text1(row, "owner_agent") {
        Some(o) => {
            push_str(&mut line, ", owner=");
            push_str(&mut line, status_display_agent(o).as_str());
            push_str(&mut line, ")");
        },
        None => {
            push_str(&mut line, ")");
        },
    }
    Some(line)
}

pub fn summarize_longway_rows(app_panel: &Json, limit: usize) -> (r: Vec<String>)
    ensures
        string_views(r@) == spec_summarize_longway_rows(jview(*app_panel), limit as nat),
{
    let mut out: Vec<String> = Vec::new();
    let ghost f = |r: JVal| spec_longway_row_line(r);
    match at2(app_panel, "longway_progress", "rows") {
        Some(Json::Array(items)) => {
            let ghost iv = jviews(items@);
            proof {
                crate::json::lemma_array_view(*items);
            }
            let n: usize = if items.len() <= limit { items.len() } else { limit };
            let ghost t = take_upto(iv, limit as nat);
            assert(t =~= iv.take(n as int));
            assert(t.take(0).filter_map(f) =~= Seq::<Seq<char>>::empty());
            assert(string_views(out@) =~= Seq::<Seq<char>>::empty());
            let mut i: usize = 0;
            while i < n
                invariant
                    i <= n,
                    n <= items.len(),
                    iv == jviews(items@),
                    t == iv.take(n as int),
                    f == (|r: JVal| spec_longway_row_line(r)),
                    string_views(out@) == t.take(i as int).filter_map(f),
                decreases n - i,
            {
                proof {
                    t.lemma_filter_map_take_succ(f, i as int);
                }
                let ghost before = string_views(out@);
                assert(t[i as int] == jview(items@[i as int]));
                match longway_row_line(&items[i]) {
                    Some(line) => {
                        let ghost lv = line@;
                        out.push(line);
                        assert(string_views(out@) =~= before + seq![lv]);
                    },
                    None => {},
                }
                assert(string_views(out@) =~= t.take(i + 1).filter_map(f));
                i = i + 1;
            }
            assert(t.take(n as int) =~= t);
        },
        _ => {
            assert(take_upto(Seq::<JVal>::empty(), limit as nat).filter_map(f) =~= Seq::<Seq<char>>::empty());
            assert(string_views(out@) =~= Seq::<Seq<char>>::empty());
        },
    }
    out
}

/// A subagent activity line (none without a child agent id).
pub open spec fn spec_subagent_activity_line(item: JVal) -> Option<Seq<char>> {
    match text_at(item, seq!["child_agent_id"@]) {
        Some(child) => Some(
            spec_status_display_agent(child) + " "@ + text_or(text_at(item, seq!["status"@]), "unknown"@)
                + " role="@ + spec_status_display_role(
                text_or(text_at(item, seq!["assigned_role"@]), "unassigned"@),
            ) + " model="@ + text_or(text_at(item, seq!["model"@]), "unknown"@) + " variant="@
                + text_or(text_at(item, seq!["variant"@]), "unknown"@) + prefixed(
                " lane="@,
                text_at(item, seq!["lane_id"@]),
            ) + " task=\""@ + text_or(text_at(item, seq!["task_title"@]), "task"@) + "\""@ + prefixed(
                " next="@,
                text_at(item, seq!["next_action"@]),
            ),
        ),
        None => None,
    }
}

/// The subagent activity lines (up to `limit`).
pub open spec fn spec_summarize_subagent_activity(panel: JVal, limit: nat) -> Seq<Seq<char>> {
    take_upto(list_at(panel, seq!["specialist_lanes"@, "subagent_activity"@]), limit).filter_map(
        |it: JVal| spec_subagent_activity_line(it),
    )
}

pub(crate) fn push_prefixed(out: &mut String, prefix: &str, o: Option<&str>)
    ensures
        final(out)@ == old(out)@ + prefixed(prefix@, opt_view(o)),
{
    match o {
        Some(s) => {
            push_str(out, prefix);
            push_str(out, s);
        },
        None => {
            assert(old(out)@ + prefixed(prefix@, opt_view(o)) =~= old(out)@);
        },
    }
}

fn subagent_activity_line(item: &Json) -> (r: Option<String>)
    ensures
        opt_string_view(r) == spec_subagent_activity_line(jview(*item)),
{
    let child = match text1(item, "child_agent_id") {
        Some(c) => c,
        None => return None,
    };
    let mut line = status_display_agent(child);
    push_str(&mut line, " ");
    push_str(&mut line, or_text(text1(item, "status"), "unknown"));
    push_str(&mut line, " role=");
    push_str(&mut line, status_display_role(or_text(text1(item, "assigned_role"), "unassigned")).as_str());
    push_str(&mut line, " model=");
    push_str(&mut line, or_text(text1(item, "model"), "unknown"));
    push_str(&mut line, " variant=");
    push_str(&mut line, or_text(text1(item, "variant"), "unknown"));
    push_prefixed(&mut line, " lane=", text1(item, "lane_id"));
    push_str(&mut line, " task=\"");
    push_str(&mut line, or_text(text1(item, "task_title"), "task"));
    push_str(&mut line, "\"");
    push_prefixed(&mut line, " next=", text1(item, "next_action"));
    Some(line)
}

pub fn summarize_subagent_activity(app_panel: &Json, limit: usize) -> (r: Vec<String>)
    ensures
        string_views(r@) == spec_summarize_subagent_activity(jview(*app_panel), limit as nat),
{
    let mut out: Vec<String> = Vec::new();
    let ghost f = |it: JVal| spec_subagent_activity_line(it);
    match at2(app_panel, "specialist_lanes", "subagent_activity") {
        Some(Json::Array(items)) => {
            let ghost iv = jviews(items@);
            proof {
                crate::json::lemma_array_view(*items);
            }
            let n: usize = if items.len() <= limit { items.len() } else { limit };
            let ghost t = take_upto(iv, limit as nat);
            assert(t =~= iv.take(n as int));
            assert(t.take(0).filter_map(f) =~= Seq::<Seq<char>>::empty());
            assert(string_views(out@) =~= Seq::<Seq<char>>::empty());
            let mut i: usize = 0;
            while i < n
                invariant
                    i <= n,
                    n <= items.len(),
                    iv == jviews(items@),
                    t == iv.take(n as int),
                    f == (|it: JVal| spec_subagent_activity_line(it)),
                    string_views(out@) == t.take(i as int).filter_map(f),
                decreases n - i,
            {
                proof {
                    t.lemma_filter_map_take_succ(f, i as int);
                }
                let ghost before = string_views(out@);
                assert(t[i as int] == jview(items@[i as int]));
                match subagent_activity_line(&items[i]) {
                    Some(line) => {
                        let ghost lv = line@;
                        out.push(line);
                        assert(string_views(out@) =~= before + seq![lv]);
                    },
                    None => {},
                }
                assert(string_views(out@) =~= t.take(i + 1).filter_map(f));
                i = i + 1;
            }
            assert(t.take(n as int) =~= t);
        },
        _ => {
            assert(take_upto(Seq::<JVal>::empty(), limit as nat).filter_map(f) =~= Seq::<Seq<char>>::empty());
            assert(string_views(out@) =~= Seq::<Seq<char>>::empty());
        },
    }
    out
}

/// ` recovered=<mode>` with the reason and primary status of a recovered
/// planned row (nothing without a recovery object).
pub open spec fn spec_planned_row_recovery_summary(item: JVal) -> Seq<char> {
    match object_member(item, "recovery"@) {
        Some(r) => " recovered="@ + text_or(text_at(r, seq!["mode"@]), "fallback"@) + match text_at(
            r,
            seq!["reason"@],
        ) {
            Some(v) => " reason="@ + underscores_to_dashes(v),
            None => Seq::empty(),
        } + match text_at(r, seq!["primary_status"@]) {
            Some(v) => " primary="@ + underscores_to_dashes(v),
            None => Seq::empty(),
        },
        None => Seq::empty(),
    }
}

pub fn planned_row_recovery_summary(item: &Json) -> (r: String)
    ensures
        r@ == spec_planned_row_recovery_summary(jview(*item)),
{
    let r = match object_member_ref(item, "recovery") {
        Some(r) => r,
        None => return String::new(),
    };
    let mut line = to_owned(" recovered=");
    push_str(&mut line, or_text(text1(r, "mode"), "fallback"));
    match text1(r, "reason") {
        Some(v) => {
            push_str(&mut line, " reason=");
            push_str(&mut line, dashed(v).as_str());
        },
        None => {},
    }
    match text1(r, "primary_status") {
        Some(v) => {
            push_str(&mut line, " primary=");
            push_str(&mut line, dashed(v).as_str());
        },
        None => {},
    }
    line
}

/// Where a planned row's agent, model and reasoning came from.
pub open spec fn spec_planned_row_source_summary(item: JVal) -> Seq<char> {
    let agent_source = match text_at(item, seq!["agent_source"@]) {
        Some(s) => s,
        None => text_or(text_at(item, seq!["display_source"@]), "unknown"@),
    };
    "sources=agent:"@ + agent_source + ",model:"@ + text_or(text_at(item, seq!["model_source"@]), "unknown"@)
        + ",reasoning:"@ + text_or(text_at(item, seq!["reasoning_source"@]), "unknown"@)
}

pub fn planned_row_source_summary(item: &Json) -> (r: String)
    ensures
        r@ == spec_planned_row_source_summary(jview(*item)),
{
    let agent_source = match text1(item, "agent_source") {
        Some(s) => s,
        None => or_text(text1(item, "display_source"), "unknown"),
    };
    let mut line = to_owned("sources=agent:");
    push_str(&mut line, agent_source);
    push_str(&mut line, ",model:");
    push_str(&mut line, or_text(text1(item, "model_source"), "unknown"));
    push_str(&mut line, ",reasoning:");
    push_str(&mut line, or_text(text1(item, "reasoning_source"), "unknown"));
    line
}

/// The agent a planned row line shows: its display agent, else its
/// planned agent, unless unassigned.
pub open spec fn spec_planned_row_agent(item: JVal) -> Option<Seq<char>> {
    let agent = match text_at(item, seq!["display_agent_id"@]) {
        Some(a) => Some(a),
        None => text_at(item, seq!["planned_agent_id"@]),
    };
    match agent {
        Some(a) => if a != "unassigned"@ {
            Some(a)
        } else {
            None
        },
        None => None,
    }
}

/// A planned row's model, reasoning, recovery and sources.
pub open spec fn spec_planned_row_tail(item: JVal) -> Seq<char> {
    let reasoning = match text_at(item, seq!["reasoning"@]) {
        Some(r) => r,
        None => text_or(text_at(item, seq!["variant"@]), "unknown"@),
    };
    "model="@ + text_or(text_at(item, seq!["model"@]), "unknown"@) + " reasoning="@ + reasoning
        + spec_planned_row_recovery_summary(item) + " "@ + spec_planned_row_source_summary(item)
}

/// A planned row line: symbol, title and route (none without a title).
pub open spec fn spec_planned_row_line(item: JVal) -> Option<Seq<char>> {
    match text_at(item, seq!["title"@]) {
        Some(title) => Some(
            spec_status_symbol(text_or(text_at(item, seq!["status"@]), "planned"@)) + " "@ + title
                + " -> "@ + match spec_planned_row_agent(item) {
                Some(a) => spec_status_display_agent(a) + " "@,
                None => Seq::empty(),
            } + spec_planned_row_tail(item),
        ),
        None => None,
    }
}

/// The planned row lines (up to `limit`).
pub open spec fn spec_summarize_planned_rows(panel: JVal, limit: nat) -> Seq<Seq<char>> {
    take_upto(list_at(panel, seq!["longway_progress"@, "planned_rows"@]), limit).filter_map(
        |it: JVal| spec_planned_row_line(it),
    )
}

fn planned_row_agent<'a>(item: &'a Json) -> (r: Option<&'a str>)
    ensures
        opt_view(r) == spec_planned_row_agent(jview(*item)),
{
    let agent = match text1(item, "display_agent_id") {
        Some(a) => Some(a),
        None => text1(item, "planned_agent_id"),
    };
    match agent {
        Some(a) => if crate::strings::str_eq(a, "unassigned") {
            None
        } else {
            Some(a)
        },
        None => None,
    }
}

fn planned_row_tail(item: &Json) -> (r: String)
    ensures
        r@ == spec_planned_row_tail(jview(*item)),
{
    let reasoning = match text1(item, "reasoning") {
        Some(r) => r,
        None => or_text(text1(item, "variant"), "unknown"),
    };
    let mut line = to_owned("model=");
    push_str(&mut line, or_text(text1(item, "model"), "unknown"));
    push_str(&mut line, " reasoning=");
    push_str(&mut line, reasoning);
    push_str(&mut line, planned_row_recovery_summary(item).as_str());
    push_str(&mut line, " ");
    push_str(&mut line, planned_row_source_summary(item).as_str());
    line
}

fn planned_row_line(item: &Json) -> (r: Option<String>)
    ensures
        opt_string_view(r) == spec_planned_row_line(jview(*item)),
{
    let title = match text1(item, "title") {
        Some(t) => t,
        None => return None,
    };
    let mut line = to_owned(status_symbol(or_text(text1(item, "status"), "planned")));
    push_str(&mut line, " ");
    push_str(&mut line, title);
    push_str(&mut line, " -> ");
    match planned_row_agent(item) {
        Some(a) => {
            push_str(&mut line, status_display_agent(a).as_str());
            push_str(&mut line, " ");
        },
        None => {},
    }
    push_str(&mut line, planned_row_tail(item).as_str());
    Some(line)
}

pub fn summarize_planned_rows(app_panel: &Json, limit: usize) -> (r: Vec<String>)
    ensures
        string_views(r@) == spec_summarize_planned_rows(jview(*app_panel), limit as nat),
{
    let mut out: Vec<String> = Vec::new();
    let ghost f = |it: JVal| spec_planned_row_line(it);
    match at2(app_panel, "longway_progress", "planned_rows") {
        Some(Json::Array(items)) => {
            let ghost iv = jviews(items@);
            proof {
                crate::json::lemma_array_view(*items);
            }
            let n: usize = if items.len() <= limit { items.len() } else { limit };
            let ghost t = take_upto(iv, limit as nat);
            assert(t =~= iv.take(n as int));
            assert(t.take(0).filter_map(f) =~= Seq::<Seq<char>>::empty());
            assert(string_views(out@) =~= Seq::<Seq<char>>::empty());
            let mut i: usize = 0;
            while i < n
                invariant
                    i <= n,
                    n <= items.len(),
                    iv == jviews(items@),
                    t == iv.take(n as int),
                    f == (|it: JVal| spec_planned_row_line(it)),
                    string_views(out@) == t.take(i as int).filter_map(f),
                decreases n - i,
            {
                proof {
                    t.lemma_filter_map_take_succ(f, i as int);
                }
                let ghost before = string_views(out@);
                assert(t[i as int] == jview(items@[i as int]));
                match planned_row_line(&items[i]) {
                    Some(line) => {
                        let ghost lv = line@;
                        out.push(line);
                        assert(string_views(out@) =~= before + seq![lv]);
                    },
                    None => {},
                }
                assert(string_views(out@) =~= t.take(i + 1).filter_map(f));
                i = i + 1;
            }
            assert(t.take(n as int) =~= t);
        },
        _ => {
            assert(take_upto(Seq::<JVal>::empty(), limit as nat).filter_map(f) =~= Seq::<Seq<char>>::empty());
            assert(string_views(out@) =~= Seq::<Seq<char>>::empty());
        },
    }
    out
}


/// A list item's label and status: `label (status)`, or the label alone
/// (none without a label, kind or lane id).
pub open spec fn spec_item_line(item: JVal, label_key: Seq<char>) -> Option<Seq<char>> {
    let label = match text_at(item, seq![label_key]) {
        Some(l) => Some(l),
        None => match text_at(item, seq!["kind"@]) {
            Some(l) => Some(l),
            None => text_at(item, seq!["lane_id"@]),
        },
    };
    let status = match text_at(item, seq!["status"@]) {
        Some(s) => Some(s),
        None => match text_at(item, seq!["fan_in_status"@]) {
            Some(s) => Some(s),
            None => text_at(item, seq!["recommended_action"@]),
        },
    };
    match label {
        Some(l) => Some(
            match status {
                Some(s) => l + " ("@ + s + ")"@,
                None => l,
            },
        ),
        None => None,
    }
}

/// The lines of a list member's items (up to `limit`).
pub open spec fn spec_summarize_items(value: JVal, key: Seq<char>, label_key: Seq<char>, limit: nat) -> Seq<
    Seq<char>,
> {
    take_upto(list_at(value, seq![key]), limit).filter_map(|it: JVal| spec_item_line(it, label_key))
}

fn item_line(item: &Json, label_key: &str) -> (r: Option<String>)
    ensures
        opt_string_view(r) == spec_item_line(jview(*item), label_key@),
{
    let label = match text1(item, label_key) {
        Some(l) => l,
        None => match text1(item, "kind") {
            Some(l) => l,
            None => match text1(item, "lane_id") {
                Some(l) => l,
                None => return None,
            },
        },
    };
    let status = match text1(item, "status") {
        Some(s) => Some(s),
        None => match text1(item, "fan_in_status") {
            Some(s) => Some(s),
            None => text1(item, "recommended_action"),
        },
    };
    let mut line = to_owned(label);
    match status {
        Some(s) => {
            push_str(&mut line, " (");
            push_str(&mut line, s);
            push_str(&mut line, ")");
        },
        None => {},
    }
    Some(line)
}

pub fn summarize_items(value: &Json, key: &str, label_key: &str, limit: usize) -> (r: Vec<String>)
    ensures
        string_views(r@) == spec_summarize_items(jview(*value), key@, label_key@, limit as nat),
{
    let mut out: Vec<String> = Vec::new();
    let ghost f = |it: JVal| spec_item_line(it, label_key@);
    let keys: [&str; 1] = [key];
    let ks = keys.as_slice();
    assert(ks@.map_values(|k: &str| k@) =~= seq![key@]);
    match value.get_path(ks) {
        Some(Json::Array(items)) => {
            let ghost iv = jviews(items@);
            proof {
                crate::json::lemma_array_view(*items);
            }
            let n: usize = if items.len() <= limit { items.len() } else { limit };
            let ghost t = take_upto(iv, limit as nat);
            assert(t =~= iv.take(n as int));
            assert(t.take(0).filter_map(f) =~= Seq::<Seq<char>>::empty());
            assert(string_views(out@) =~= Seq::<Seq<char>>::empty());
            let mut i: usize = 0;
            while i < n
                invariant
                    i <= n,
                    n <= items.len(),
                    iv == jviews(items@),
                    t == iv.take(n as int),
                    f == (|it: JVal| spec_item_line(it, label_key@)),
                    string_views(out@) == t.take(i as int).filter_map(f),
                decreases n - i,
            {
                proof {
                    t.lemma_filter_map_take_succ(f, i as int);
                }
                let ghost before = string_views(out@);
                assert(t[i as int] == jview(items@[i as int]));
                match item_line(&items[i], label_key) {
                    Some(line) => {
                        let ghost lv = line@;
                        out.push(line);
                        assert(string_views(out@) =~= before + seq![lv]);
                    },
                    None => {},
                }
                assert(string_views(out@) =~= t.take(i + 1).filter_map(f));
                i = i + 1;
            }
            assert(t.take(n as int) =~= t);
        },
        _ => {
            assert(take_upto(Seq::<JVal>::empty(), limit as nat).filter_map(f) =~= Seq::<Seq<char>>::empty());
            assert(string_views(out@) =~= Seq::<Seq<char>>::empty());
        },
    }
    out
}

/// The checklist as a Markdown list: LongWay rows, then planned rows.
pub open spec fn spec_markdown_checklist_rows(panel: JVal, limit: nat) -> Seq<char> {
    let planned = spec_summarize_planned_rows(panel, limit);
    markdown_list(
        spec_summarize_longway_rows(panel, limit) + if planned.len() == 0 {
            Seq::empty()
        } else {
            seq!["_Planned rows_"@] + planned
        },
        "- _No checklist rows available._"@,
    )
}

fn append_lines(out: &mut Vec<String>, more: Vec<String>)
    ensures
        string_views(final(out)@) == string_views(old(out)@) + string_views(more@),
{
    let ghost start = string_views(out@);
    let ghost mv = string_views(more@);
    let mut i: usize = 0;
    while i < more.len()
        invariant
            i <= more.len(),
            mv == string_views(more@),
            string_views(out@) == start + mv.take(i as int),
        decreases more.len() - i,
    {
        let ghost before = string_views(out@);
        assert(mv[i as int] == more@[i as int]@);
        out.push(to_owned(more[i].as_str()));
        assert(string_views(out@) =~= before.push(mv[i as int]));
        assert(start + mv.take(i + 1) =~= (start + mv.take(i as int)).push(mv[i as int]));
        i = i + 1;
    }
    assert(mv.take(more.len() as int) =~= mv);
}

pub fn markdown_checklist_rows(app_panel: &Json, limit: usize) -> (r: String)
    ensures
        r@ == spec_markdown_checklist_rows(jview(*app_panel), limit as nat),
{
    let mut rows = summarize_longway_rows(app_panel, limit);
    let planned = summarize_planned_rows(app_panel, limit);
    let ghost before = string_views(rows@);
    let ghost pv = string_views(planned@);
    if planned.len() > 0 {
        rows.push(to_owned("_Planned rows_"));
        let ghost mid = string_views(rows@);
        assert(mid =~= before + seq!["_Planned rows_"@]);
        append_lines(&mut rows, planned);
        assert(string_views(rows@) =~= before + (seq!["_Planned rows_"@] + pv));
    } else {
        assert(string_views(rows@) =~= before + Seq::<Seq<char>>::empty());
    }
    markdown_list_text(&rows, "- _No checklist rows available._")
}

/// The subagents as a Markdown list.
pub open spec fn spec_markdown_subagent_rows(panel: JVal, limit: nat) -> Seq<char> {
    markdown_list(spec_summarize_subagent_activity(panel, limit), "- _No active or recent subagents._"@)
}

pub fn markdown_subagent_rows(app_panel: &Json, limit: usize) -> (r: String)
    ensures
        r@ == spec_markdown_subagent_rows(jview(*app_panel), limit as nat),
{
    markdown_list_text(&summarize_subagent_activity(app_panel, limit), "- _No active or recent subagents._")
}

/// The warnings as a Markdown list.
pub open spec fn spec_markdown_warning_rows(panel: JVal, limit: nat) -> Seq<char> {
    markdown_list(spec_summarize_items(panel, "warnings"@, "kind"@, limit), "- _No warnings._"@)
}

pub fn markdown_warning_rows(app_panel: &Json, limit: usize) -> (r: String)
    ensures
        r@ == spec_markdown_warning_rows(jview(*app_panel), limit as nat),
{
    markdown_list_text(&summarize_items(app_panel, "warnings", "kind", limit), "- _No warnings._")
}


/// A count as text, `-` when it is not a `u64`.
pub open spec fn count_text(j: JVal, keys: Seq<Seq<char>>) -> Seq<char> {
    match opt_u64(jget_path(j, keys)) {
        Some(n) => decimal(n as nat),
        None => "-"@,
    }
}

fn count_text_at(j: &Json, a: &str, b: &str) -> (r: String)
    ensures
        r@ == count_text(jview(*j), seq![a@, b@]),
{
    match at2(j, a, b) {
        Some(v) => match v.as_u64() {
            Some(n) => u64_to_string(n),
            None => to_owned("-"),
        },
        None => to_owned("-"),
    }
}

/// The completed and total phase counts of the panel (0 when not a `u64`).
pub open spec fn panel_completed(panel: JVal) -> nat {
    count_at(panel, seq!["longway_progress"@, "completed_phase_count"@])
}

pub open spec fn panel_total(panel: JVal) -> nat {
    count_at(panel, seq!["longway_progress"@, "phase_count"@])
}

/// The progress gauge's arithmetic fits the machine: the clamped completed
/// count times the gauge width (24) plus half the total fits in `usize`, and
/// times 100 in `u64`.
pub open spec fn spec_panel_gauge_fits(panel: JVal) -> bool {
    let c = panel_completed(panel);
    let t = panel_total(panel);
    let clamped = if c <= t { c } else { t };
    &&& t <= usize::MAX
    &&& clamped * 24 + t / 2 <= usize::MAX
    &&& clamped * 100 <= u64::MAX
}

pub fn panel_gauge_fits(app_panel: &Json) -> (r: bool)
    ensures
        r == spec_panel_gauge_fits(jview(*app_panel)),
{
    let k1: [&str; 2] = ["longway_progress", "completed_phase_count"];
    let k2: [&str; 2] = ["longway_progress", "phase_count"];
    assert(k1@.map_values(|k: &str| k@) =~= seq!["longway_progress"@, "completed_phase_count"@]);
    assert(k2@.map_values(|k: &str| k@) =~= seq!["longway_progress"@, "phase_count"@]);
    let c = count_path(app_panel, k1.as_slice());
    let t = count_path(app_panel, k2.as_slice());
    let clamped: u64 = if c <= t { c } else { t };
    if t as u128 > usize::MAX as u128 {
        return false;
    }
    if clamped as u128 * 24 + (t / 2) as u128 > usize::MAX as u128 {
        return false;
    }
    clamped as u128 * 100 <= u64::MAX as u128
}

/// A titled line, when there is one.
pub open spec fn section(title: Seq<char>, o: Option<Seq<char>>) -> Seq<Seq<char>> {
    match o {
        Some(x) => seq![title, x],
        None => Seq::empty(),
    }
}

/// Titled lines, when there are any.
pub open spec fn list_section(title: Seq<char>, rows: Seq<Seq<char>>) -> Seq<Seq<char>> {
    if rows.len() == 0 {
        Seq::empty()
    } else {
        seq![title] + rows
    }
}

/// The target root section: the confirmation line, the candidates and the
/// retry prompt.
pub open spec fn spec_target_root_section(panel: JVal) -> Seq<Seq<char>> {
    match spec_summarize_target_root_confirmation(panel) {
        Some(t) => seq!["Target Root:"@, t] + spec_summarize_target_root_candidates(panel, 3) + match spec_target_root_follow_up_hint(panel) {
            Some(h) => seq![h],
            None => Seq::empty(),
        },
        None => Seq::empty(),
    }
}

/// The lines of the boxed panel.
pub open spec fn spec_app_panel_lines(panel: JVal) -> Seq<Seq<char>> {
    let c = panel_completed(panel);
    let t = panel_total(panel);
    seq![
        "CCC LongWay"@,
        "Progress: "@ + count_text(panel, seq!["longway_progress"@, "completed_phase_count"@]) + "/"@
            + count_text(panel, seq!["longway_progress"@, "phase_count"@]) + " completed"@,
        "Gauge: "@ + spec_progress_gauge(c, t, 24),
    ] + spec_target_root_section(panel) + list_section(
        "Workspace State:"@,
        spec_summarize_workspace_state(panel),
    ) + section("Active Gate:"@, spec_summarize_state_contract(panel)) + section(
        "Checkpoint:"@,
        spec_summarize_active_checkpoint(panel),
    ) + section("Recovery:"@, spec_summarize_recovery_lane(panel)) + section(
        "Workflow Loop:"@,
        spec_summarize_workflow_loop(panel),
    ) + section("Lifecycle Hooks:"@, spec_summarize_lifecycle_hooks(panel)) + section(
        "Mutation Guard:"@,
        spec_summarize_mutation_guard(panel),
    ) + list_section("Checklist:"@, spec_summarize_longway_rows(panel, 5)) + list_section(
        "Planned Rows:"@,
        spec_summarize_planned_rows(panel, 8),
    ) + list_section("Subagents:"@, spec_summarize_subagent_activity(panel, 4))
}

/// The app panel as a boxed text panel.
pub open spec fn spec_codex_app_panel_text(panel: JVal) -> Seq<char> {
    spec_boxed_text_panel(spec_app_panel_lines(panel))
}

fn push_section(lines: &mut Vec<String>, title: &str, o: Option<String>)
    ensures
        string_views(final(lines)@) == string_views(old(lines)@) + section(title@, opt_string_view(o)),
{
    let ghost before = string_views(lines@);
    match o {
        Some(x) => {
            let ghost xv = x@;
            lines.push(to_owned(title));
            lines.push(x);
            assert(string_views(lines@) =~= before + seq![title@, xv]);
        },
        None => {
            assert(string_views(lines@) =~= before + Seq::<Seq<char>>::empty());
        },
    }
}

fn push_list_section(lines: &mut Vec<String>, title: &str, rows: Vec<String>)
    ensures
        string_views(final(lines)@) == string_views(old(lines)@) + list_section(title@, string_views(rows@)),
{
    let ghost before = string_views(lines@);
    let ghost rv = string_views(rows@);
    if rows.len() == 0 {
        assert(string_views(lines@) =~= before + Seq::<Seq<char>>::empty());
        return;
    }
    lines.push(to_owned(title));
    assert(string_views(lines@) =~= before + seq![title@]);
    append_lines(lines, rows);
    assert(string_views(lines@) =~= before + (seq![title@] + rv));
}

fn push_target_root_section(lines: &mut Vec<String>, app_panel: &Json)
    ensures
        string_views(final(lines)@) == string_views(old(lines)@) + spec_target_root_section(jview(*app_panel)),
{
    let ghost before = string_views(lines@);
    match summarize_target_root_confirmation(app_panel) {
        Some(t) => {
            let ghost tv = t@;
            lines.push(to_owned("Target Root:"));
            lines.push(t);
            assert(string_views(lines@) =~= before + seq!["Target Root:"@, tv]);
            let cands = summarize_target_root_candidates(app_panel, 3);
            let ghost cv = string_views(cands@);
            append_lines(lines, cands);
            let ghost mid = string_views(lines@);
            match target_root_follow_up_hint(app_panel) {
                Some(h) => {
                    let ghost hv = h@;
                    lines.push(h);
                    assert(string_views(lines@) =~= mid + seq![hv]);
                    assert(string_views(lines@) =~= before + (seq!["Target Root:"@, tv] + cv + seq![hv]));
                },
                None => {
                    assert(string_views(lines@) =~= before + (seq!["Target Root:"@, tv] + cv
                        + Seq::<Seq<char>>::empty()));
                },
            }
        },
        None => {
            assert(string_views(lines@) =~= before + Seq::<Seq<char>>::empty());
        },
    }
}

fn panel_head_lines(app_panel: &Json) -> (r: Vec<String>)
    requires
        spec_panel_gauge_fits(jview(*app_panel)),
    ensures
        string_views(r@) == spec_app_panel_lines(jview(*app_panel)).take(3),
{
    let k1: [&str; 2] = ["longway_progress", "completed_phase_count"];
    let k2: [&str; 2] = ["longway_progress", "phase_count"];
    assert(k1@.map_values(|k: &str| k@) =~= seq!["longway_progress"@, "completed_phase_count"@]);
    assert(k2@.map_values(|k: &str| k@) =~= seq!["longway_progress"@, "phase_count"@]);
    let c = count_path(app_panel, k1.as_slice());
    let t = count_path(app_panel, k2.as_slice());
    let mut progress = to_owned("Progress: ");
    push_str(&mut progress, count_text_at(app_panel, "longway_progress", "completed_phase_count").as_str());
    push_str(&mut progress, "/");
    push_str(&mut progress, count_text_at(app_panel, "longway_progress", "phase_count").as_str());
    push_str(&mut progress, " completed");
    let mut gauge = to_owned("Gauge: ");
    push_str(&mut gauge, progress_gauge(c, t, 24).as_str());
    let mut lines: Vec<String> = Vec::new();
    lines.push(to_owned("CCC LongWay"));
    lines.push(progress);
    lines.push(gauge);
    assert(string_views(lines@) =~= spec_app_panel_lines(jview(*app_panel)).take(3));
    lines
}

pub fn create_codex_app_panel_text(app_panel: &Json) -> (r: String)
    requires
        spec_panel_gauge_fits(jview(*app_panel)),
    ensures
        r@ == spec_codex_app_panel_text(jview(*app_panel)),
{
    let ghost p = jview(*app_panel);
    let mut lines = panel_head_lines(app_panel);
    let ghost head = string_views(lines@);
    push_target_root_section(&mut lines, app_panel);
    push_list_section(&mut lines, "Workspace State:", summarize_workspace_state(app_panel));
    push_section(&mut lines, "Active Gate:", summarize_state_contract(app_panel));
    push_section(&mut lines, "Checkpoint:", summarize_active_checkpoint(app_panel));
    push_section(&mut lines, "Recovery:", summarize_recovery_lane(app_panel));
    push_section(&mut lines, "Workflow Loop:", summarize_workflow_loop(app_panel));
    push_section(&mut lines, "Lifecycle Hooks:", summarize_lifecycle_hooks(app_panel));
    push_section(&mut lines, "Mutation Guard:", summarize_mutation_guard(app_panel));
    push_list_section(&mut lines, "Checklist:", summarize_longway_rows(app_panel, 5));
    push_list_section(&mut lines, "Planned Rows:", summarize_planned_rows(app_panel, 8));
    push_list_section(&mut lines, "Subagents:", summarize_subagent_activity(app_panel, 4));
    proof {
        let all = spec_app_panel_lines(p);
        assert(all =~= all.take(3) + (all.skip(3)));
        assert(string_views(lines@) =~= all);
    }
    boxed_text_panel(lines.as_slice())
}


/// A Markdown section with a fenced line, when there is one.
pub open spec fn fenced_section(title: Seq<char>, o: Option<Seq<char>>) -> Seq<char> {
    match o {
        Some(line) => "## "@ + title + "\n\n```\n"@ + line + "\n```\n\n"@,
        None => Seq::empty(),
    }
}

/// The run part of the Markdown panel.
pub open spec fn spec_markdown_run(panel: JVal) -> Seq<char> {
    "# CCC LongWay Panel\n\n## Run\n\n- Run: `"@ + text_or(text_at(panel, seq!["run"@, "run_id"@]), "unknown"@)
        + "`\n- Status: `"@ + text_or(text_at(panel, seq!["run"@, "status"@]), "unknown"@) + "` / `"@
        + text_or(text_at(panel, seq!["run"@, "stage"@]), "unknown"@) + "`\n- Next: `"@ + text_or(
        text_at(panel, seq!["run"@, "next_step"@]),
        "unknown"@,
    ) + "`\n\n"@ + fenced_section("Active Gate"@, spec_summarize_state_contract(panel)) + fenced_section(
        "Checkpoint"@,
        spec_summarize_active_checkpoint(panel),
    ) + fenced_section("Recovery"@, spec_summarize_recovery_lane(panel))
}

/// The LongWay, workspace and checklist part of the Markdown panel.
pub open spec fn spec_markdown_longway(panel: JVal) -> Seq<char> {
    "## LongWay\n\n- Progress: `"@ + count_text(panel, seq!["longway_progress"@, "completed_phase_count"@])
        + "/"@ + count_text(panel, seq!["longway_progress"@, "phase_count"@]) + "`\n- Lifecycle: `"@
        + text_or(text_at(panel, seq!["longway_progress"@, "lifecycle_state"@]), "unknown"@)
        + "`\n\n## Workspace State\n\n"@ + spec_markdown_workspace_state(panel) + "\n\n## Checklist\n\n"@
        + spec_markdown_checklist_rows(panel, 12) + "\n\n"@
}

/// The current task, subagent and warning part of the Markdown panel.
pub open spec fn spec_markdown_task(panel: JVal) -> Seq<char> {
    "## Current Task\n\n- `"@ + spec_status_display_role(
        text_or(text_at(panel, seq!["current_task"@, "assigned_role"@]), "unassigned"@),
    ) + "` / `"@ + spec_status_display_agent(
        text_or(text_at(panel, seq!["current_task"@, "assigned_agent_id"@]), "unassigned"@),
    ) + "`\n- Model: `"@ + text_or(text_at(panel, seq!["current_task"@, "model"@]), "unknown"@)
        + "` / `"@ + text_or(text_at(panel, seq!["current_task"@, "variant"@]), "unknown"@)
        + "`\n- Task: "@ + text_or(text_at(panel, seq!["current_task"@, "title"@]), "none"@)
        + "\n- Next Captain Action: `"@ + text_or(
        text_at(panel, seq!["next_captain_action"@, "allowed_action"@]),
        "unknown"@,
    ) + "`\n\n## Subagents\n\n"@ + spec_markdown_subagent_rows(panel, 8) + "\n\n## Warnings\n\n"@
        + spec_markdown_warning_rows(panel, 8) + "\n\n"@
}

/// The app panel as Markdown: the run, LongWay, workspace, checklist,
/// current task, subagents and warnings, the boxed text panel, and the
/// panel's JSON text.
pub open spec fn spec_codex_app_panel_markdown(panel: JVal, panel_json_text: Seq<char>) -> Seq<char> {
    spec_markdown_run(panel) + spec_markdown_longway(panel) + spec_markdown_task(panel)
        + "## Compact Status\n\n```text\n"@ + spec_codex_app_panel_text(panel)
        + "\n```\n\n## JSON Payload\n\n```json\n"@ + panel_json_text + "\n```\n"@
}

fn push_fenced_section(out: &mut String, title: &str, o: Option<String>)
    ensures
        final(out)@ == old(out)@ + fenced_section(title@, opt_string_view(o)),
{
    match o {
        Some(line) => {
            push_str(out, "## ");
            push_str(out, title);
            push_str(out, "\n\n```\n");
            push_str(out, line.as_str());
            push_str(out, "\n```\n\n");
        },
        None => {
            assert(old(out)@ + fenced_section(title@, opt_string_view(o)) =~= old(out)@);
        },
    }
}

fn markdown_run(app_panel: &Json) -> (r: String)
    ensures
        r@ == spec_markdown_run(jview(*app_panel)),
{
    let mut out = to_owned("# CCC LongWay Panel\n\n## Run\n\n- Run: `");
    push_str(&mut out, or_text(text2(app_panel, "run", "run_id"), "unknown"));
    push_str(&mut out, "`\n- Status: `");
    push_str(&mut out, or_text(text2(app_panel, "run", "status"), "unknown"));
    push_str(&mut out, "` / `");
    push_str(&mut out, or_text(text2(app_panel, "run", "stage"), "unknown"));
    push_str(&mut out, "`\n- Next: `");
    push_str(&mut out, or_text(text2(app_panel, "run", "next_step"), "unknown"));
    push_str(&mut out, "`\n\n");
    push_fenced_section(&mut out, "Active Gate", summarize_state_contract(app_panel));
    push_fenced_section(&mut out, "Checkpoint", summarize_active_checkpoint(app_panel));
    push_fenced_section(&mut out, "Recovery", summarize_recovery_lane(app_panel));
    out
}

fn markdown_longway(app_panel: &Json) -> (r: String)
    ensures
        r@ == spec_markdown_longway(jview(*app_panel)),
{
    let mut out = to_owned("## LongWay\n\n- Progress: `");
    push_str(&mut out, count_text_at(app_panel, "longway_progress", "completed_phase_count").as_str());
    push_str(&mut out, "/");
    push_str(&mut out, count_text_at(app_panel, "longway_progress", "phase_count").as_str());
    push_str(&mut out, "`\n- Lifecycle: `");
    push_str(&mut out, or_text(text2(app_panel, "longway_progress", "lifecycle_state"), "unknown"));
    push_str(&mut out, "`\n\n## Workspace State\n\n");
    push_str(&mut out, markdown_workspace_state(app_panel).as_str());
    push_str(&mut out, "\n\n## Checklist\n\n");
    push_str(&mut out, markdown_checklist_rows(app_panel, 12).as_str());
    push_str(&mut out, "\n\n");
    out
}

fn markdown_task(app_panel: &Json) -> (r: String)
    ensures
        r@ == spec_markdown_task(jview(*app_panel)),
{
    let mut out = to_owned("## Current Task\n\n- `");
    push_str(
        &mut out,
        status_display_role(or_text(text2(app_panel, "current_task", "assigned_role"), "unassigned")).as_str(),
    );
    push_str(&mut out, "` / `");
    push_str(
        &mut out,
        status_display_agent(or_text(text2(app_panel, "current_task", "assigned_agent_id"), "unassigned")).as_str(),
    );
    push_str(&mut out, "`\n- Model: `");
    push_str(&mut out, or_text(text2(app_panel, "current_task", "model"), "unknown"));
    push_str(&mut out, "` / `");
    push_str(&mut out, or_text(text2(app_panel, "current_task", "variant"), "unknown"));
    push_str(&mut out, "`\n- Task: ");
    push_str(&mut out, or_text(text2(app_panel, "current_task", "title"), "none"));
    push_str(&mut out, "\n- Next Captain Action: `");
    push_str(&mut out, or_text(text2(app_panel, "next_captain_action", "allowed_action"), "unknown"));
    push_str(&mut out, "`\n\n## Subagents\n\n");
    push_str(&mut out, markdown_subagent_rows(app_panel, 8).as_str());
    push_str(&mut out, "\n\n## Warnings\n\n");
    push_str(&mut out, markdown_warning_rows(app_panel, 8).as_str());
    push_str(&mut out, "\n\n");
    out
}

/// The Markdown panel; `panel_json_text` is the panel's pretty-printed JSON.
pub fn create_codex_app_panel_markdown(app_panel: &Json, panel_json_text: &str) -> (r: String)
    requires
        spec_panel_gauge_fits(jview(*app_panel)),
    ensures
        r@ == spec_codex_app_panel_markdown(jview(*app_panel), panel_json_text@),
{
    let mut out = markdown_run(app_panel);
    push_str(&mut out, markdown_longway(app_panel).as_str());
    push_str(&mut out, markdown_task(app_panel).as_str());
    push_str(&mut out, "## Compact Status\n\n```text\n");
    push_str(&mut out, create_codex_app_panel_text(app_panel).as_str());
    push_str(&mut out, "\n```\n\n## JSON Payload\n\n```json\n");
    push_str(&mut out, panel_json_text);
    push_str(&mut out, "\n```\n");
    out
}


/// A titled LongWay row of the app panel opens with the checklist box of
/// its status (`unknown` when it has none), so a failed row reads `[!]` and
/// only a done row reads `[x]` (see `lemma_status_symbol_classes`); an
/// untitled row is not listed.
pub proof fn lemma_longway_row_line_boxes_status(row: JVal)
    ensures
        match spec_longway_row_line(row) {
            Some(l) => crate::strings::has_prefix(
                l,
                crate::status_text::spec_status_symbol(text_or(text_at(row, seq!["status"@]), "unknown"@)),
            ),
            None => text_at(row, seq!["title"@]) is None,
        },
{
    match spec_longway_row_line(row) {
        Some(l) => {
            let sym = crate::status_text::spec_status_symbol(text_or(text_at(row, seq!["status"@]), "unknown"@));
            assert(l.take(sym.len() as int) =~= sym);
        },
        None => {},
    }
}

} // verus!
