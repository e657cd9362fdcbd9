//! The subagent rows of a status (parallel lanes, else host subagent
//! activity) and the operator's LongWay projection text, in English or
//! Korean.

use vstd::prelude::*;
use crate::app_panel_text::{flag, text_or, take_upto};
use crate::json::{jget, jget_path, jstr_at, jstr_field, jview, JVal, Json};
use crate::operator_text::{
    build_active_checkpoint_line, build_captain_direct_mutation_guard_line, build_delegated_ownership_line,
    build_lifecycle_hooks_line, build_recovery_lane_line, build_routing_trace_line, build_state_contract_line,
    build_task_session_state_line, build_verification_capsule_line, build_workflow_loop_line, compact_at,
    compact_text_field, compact_text_pointer, opt_part, or_else, push_opt_part, spec_active_checkpoint_line,
    spec_captain_direct_mutation_guard_line, spec_delegated_ownership_line, spec_lifecycle_hooks_line,
    spec_recovery_lane_line, spec_routing_trace_line, spec_state_contract_line, spec_task_session_state_line,
    spec_verification_capsule_line, spec_workflow_loop_line,
};
use crate::roles::{spec_status_display_agent, spec_status_display_role, status_display_agent, status_display_role};
use crate::skill_manifest::{join_strings, string_views};
use crate::status_text::{dashed, is_korean_char, spec_subagent_status_marker, subagent_status_marker, underscores_to_dashes};
use crate::strings::{opt_string_view, push_str, str_eq, to_owned};
use crate::text_utils::{summarize_text_for_visibility, summary_of};
use crate::worker_events::join_with;
use crate::worker_fleet::jviews;

verus! {

/// The subagent heading.
pub open spec fn heading_label(korean: bool) -> Seq<char> {
    if korean { "서브에이전트"@ } else { "Subagents"@ }
}

/// The label of a row's child agent.
pub open spec fn child_label(korean: bool) -> Seq<char> {
    if korean { "자식"@ } else { "child"@ }
}

/// The label of a row's role.
pub open spec fn role_label(korean: bool) -> Seq<char> {
    if korean { "역할"@ } else { "role"@ }
}

/// The label of a row's task.
pub open spec fn task_label_word(korean: bool) -> Seq<char> {
    if korean { "작업"@ } else { "task"@ }
}

/// The label of a row's task card.
pub open spec fn task_card_label(korean: bool) -> Seq<char> {
    if korean { "작업카드"@ } else { "task_card"@ }
}

/// The row shown when no subagent lane is active.
pub open spec fn no_activity_label(korean: bool) -> Seq<char> {
    if korean { "[ ] 서브에이전트 lane 활동 없음"@ } else { "[ ] no subagent lane activity"@ }
}

fn heading_text(korean: bool) -> (r: &'static str)
    ensures
        r@ == heading_label(korean),
{
    if korean { "서브에이전트" } else { "Subagents" }
}

fn child_text(korean: bool) -> (r: &'static str)
    ensures
        r@ == child_label(korean),
{
    if korean { "자식" } else { "child" }
}

fn role_text(korean: bool) -> (r: &'static str)
    ensures
        r@ == role_label(korean),
{
    if korean { "역할" } else { "role" }
}

fn task_text(korean: bool) -> (r: &'static str)
    ensures
        r@ == task_label_word(korean),
{
    if korean { "작업" } else { "task" }
}

fn task_card_text(korean: bool) -> (r: &'static str)
    ensures
        r@ == task_card_label(korean),
{
    if korean { "작업카드" } else { "task_card" }
}

fn no_activity_text(korean: bool) -> (r: &'static str)
    ensures
        r@ == no_activity_label(korean),
{
    if korean { "[ ] 서브에이전트 lane 활동 없음" } else { "[ ] no subagent lane activity" }
}

/// `label=value` for an optional value.
pub open spec fn labelled(label: Seq<char>, o: Option<Seq<char>>) -> Option<Seq<char>> {
    match o {
        Some(v) => Some(label + "="@ + v),
        None => None,
    }
}

/// A quoted, shortened task title.
pub open spec fn quoted_title(korean: bool, o: Option<Seq<char>>) -> Option<Seq<char>> {
    match o {
        Some(v) => Some(task_label_word(korean) + "=\""@ + summary_of(v, 72) + "\""@),
        None => None,
    }
}

fn labelled_text(label: &str, o: Option<String>) -> (r: Option<String>)
    ensures
        opt_string_view(r) == labelled(label@, opt_string_view(o)),
{
    match o {
        Some(v) => {
            let mut s = to_owned(label);
            push_str(&mut s, "=");
            push_str(&mut s, v.as_str());
            Some(s)
        },
        None => None,
    }
}

fn quoted_title_text(korean: bool, o: Option<String>) -> (r: Option<String>)
    ensures
        opt_string_view(r) == quoted_title(korean, opt_string_view(o)),
{
    match o {
        Some(v) => {
            let mut s = to_owned(task_text(korean));
            push_str(&mut s, "=\"");
            push_str(&mut s, summarize_text_for_visibility(v.as_str(), 72).as_str());
            push_str(&mut s, "\"");
            Some(s)
        },
        None => None,
    }
}

/// A task's label: its quoted title, else its task card.
pub open spec fn spec_compact_task_label(task: JVal, korean: bool) -> Option<Seq<char>> {
    or_else(
        quoted_title(korean, compact_at(task, seq!["title"@])),
        labelled(task_card_label(korean), compact_at(task, seq!["task_card_id"@])),
    )
}

pub fn compact_task_label(task: &Json, korean: bool) -> (r: Option<String>)
    ensures
        opt_string_view(r) == spec_compact_task_label(jview(*task), korean),
{
    match quoted_title_text(korean, compact_text_field(task, "title")) {
        Some(s) => Some(s),
        None => labelled_text(task_card_text(korean), compact_text_field(task, "task_card_id")),
    }
}

/// A subagent row: marker, lane, status, child agent, role and task.
pub open spec fn subagent_row(
    korean: bool,
    lane_id: Seq<char>,
    status: Seq<char>,
    child: Seq<char>,
    role: Seq<char>,
    task: Seq<char>,
) -> Seq<char> {
    "["@ + spec_subagent_status_marker(status) + "] "@ + lane_id + " "@ + underscores_to_dashes(status) + " "@
        + child_label(korean) + "="@ + spec_status_display_agent(child) + " "@ + role_label(korean) + "="@
        + spec_status_display_role(role) + " "@ + task
}

fn subagent_row_text(korean: bool, lane_id: &str, status: &str, child: &str, role: &str, task: &str) -> (r: String)
    ensures
        r@ == subagent_row(korean, lane_id@, status@, child@, role@, task@),
{
    let mut s = to_owned("[");
    push_str(&mut s, subagent_status_marker(status));
    push_str(&mut s, "] ");
    push_str(&mut s, lane_id);
    push_str(&mut s, " ");
    push_str(&mut s, dashed(status).as_str());
    push_str(&mut s, " ");
    push_str(&mut s, child_text(korean));
    push_str(&mut s, "=");
    push_str(&mut s, status_display_agent(child).as_str());
    push_str(&mut s, " ");
    push_str(&mut s, role_text(korean));
    push_str(&mut s, "=");
    push_str(&mut s, status_display_role(role).as_str());
    push_str(&mut s, " ");
    push_str(&mut s, task);
    s
}

/// The row of a parallel lane (none without a lane id).
pub open spec fn spec_parallel_lane_row(payload: JVal, task: JVal, lane: JVal, korean: bool) -> Option<Seq<char>> {
    match compact_at(lane, seq!["lane_id"@]) {
        Some(lane_id) => Some(
            subagent_row(
                korean,
                lane_id,
                text_or(
                    or_else(compact_at(lane, seq!["fan_in"@, "status"@]), compact_at(lane, seq!["lifecycle"@, "status"@])),
                    "not_started"@,
                ),
                text_or(
                    or_else(
                        compact_at(lane, seq!["fan_in"@, "child_agent_id"@]),
                        compact_at(lane, seq!["lifecycle"@, "child_agent_id"@]),
                    ),
                    "unassigned"@,
                ),
                text_or(
                    or_else(
                        compact_at(lane, seq!["assigned_role"@]),
                        or_else(
                            compact_at(lane, seq!["fan_in"@, "assigned_role"@]),
                            or_else(
                                compact_at(lane, seq!["lifecycle"@, "assigned_role"@]),
                                compact_at(task, seq!["assigned_role"@]),
                            ),
                        ),
                    ),
                    "unassigned"@,
                ),
                text_or(
                    or_else(
                        spec_compact_task_label(task, korean),
                        or_else(
                            labelled(task_card_label(korean), compact_at(lane, seq!["task_card_id"@])),
                            labelled(task_card_label(korean), compact_at(payload, seq!["task_card_id"@])),
                        ),
                    ),
                    task_label_word(korean) + "=task"@,
                ),
            ),
        ),
        None => None,
    }
}

fn compact2(v: &Json, a: &str, b: &str) -> (r: Option<String>)
    ensures
        opt_string_view(r) == compact_at(jview(*v), seq![a@, b@]),
{
    let keys: [&str; 2] = [a, b];
    assert(keys@.map_values(|k: &str| k@) =~= seq![a@, b@]);
    compact_text_pointer(v, keys.as_slice())
}

fn first_of(a: Option<String>, b: Option<String>) -> (r: Option<String>)
    ensures
        opt_string_view(r) == or_else(opt_string_view(a), opt_string_view(b)),
{
    match a {
        Some(s) => Some(s),
        None => b,
    }
}

fn text_or_string(o: Option<String>, fallback: String) -> (r: String)
    ensures
        r@ == text_or(opt_string_view(o), fallback@),
{
    match o {
        Some(s) => s,
        None => fallback,
    }
}

pub fn render_parallel_lane_row(payload: &Json, task: &Json, lane: &Json, korean: bool) -> (r: Option<String>)
    ensures
        opt_string_view(r) == spec_parallel_lane_row(jview(*payload), jview(*task), jview(*lane), korean),
{
    let lane_id = match compact_text_field(lane, "lane_id") {
        Some(l) => l,
        None => return None,
    };
    let status = text_or_string(
        first_of(compact2(lane, "fan_in", "status"), compact2(lane, "lifecycle", "status")),
        to_owned("not_started"),
    );
    let child = text_or_string(
        first_of(compact2(lane, "fan_in", "child_agent_id"), compact2(lane, "lifecycle", "child_agent_id")),
        to_owned("unassigned"),
    );
    let role = text_or_string(
        first_of(
            compact_text_field(lane, "assigned_role"),
            first_of(
                compact2(lane, "fan_in", "assigned_role"),
                first_of(compact2(lane, "lifecycle", "assigned_role"), compact_text_field(task, "assigned_role")),
            ),
        ),
        to_owned("unassigned"),
    );
    let mut fallback = to_owned(task_text(korean));
    push_str(&mut fallback, "=task");
    let label = text_or_string(
        first_of(
            compact_task_label(task, korean),
            first_of(
                labelled_text(task_card_text(korean), compact_text_field(lane, "task_card_id")),
                labelled_text(task_card_text(korean), compact_text_field(payload, "task_card_id")),
            ),
        ),
        fallback,
    );
    Some(subagent_row_text(korean, lane_id.as_str(), status.as_str(), child.as_str(), role.as_str(), label.as_str()))
}

/// The row of a host subagent (none without a child agent).
pub open spec fn spec_host_subagent_activity_row(item: JVal, korean: bool) -> Option<Seq<char>> {
    match compact_at(item, seq!["child_agent_id"@]) {
        Some(child) => Some(
            subagent_row(
                korean,
                text_or(compact_at(item, seq!["lane_id"@]), "subagent"@),
                text_or(compact_at(item, seq!["status"@]), "unknown"@),
                child,
                text_or(compact_at(item, seq!["assigned_role"@]), "unassigned"@),
                text_or(
                    or_else(
                        quoted_title(korean, compact_at(item, seq!["task_title"@])),
                        labelled(task_card_label(korean), compact_at(item, seq!["task_card_id"@])),
                    ),
                    task_label_word(korean) + "=task"@,
                ),
            ),
        ),
        None => None,
    }
}

pub fn render_host_subagent_activity_row(item: &Json, korean: bool) -> (r: Option<String>)
    ensures
        opt_string_view(r) == spec_host_subagent_activity_row(jview(*item), korean),
{
    let child = match compact_text_field(item, "child_agent_id") {
        Some(c) => c,
        None => return None,
    };
    let lane_id = text_or_string(compact_text_field(item, "lane_id"), to_owned("subagent"));
    let status = text_or_string(compact_text_field(item, "status"), to_owned("unknown"));
    let role = text_or_string(compact_text_field(item, "assigned_role"), to_owned("unassigned"));
    let mut fallback = to_owned(task_text(korean));
    push_str(&mut fallback, "=task");
    let label = text_or_string(
        first_of(
            quoted_title_text(korean, compact_text_field(item, "task_title")),
            labelled_text(task_card_text(korean), compact_text_field(item, "task_card_id")),
        ),
        fallback,
    );
    Some(subagent_row_text(korean, lane_id.as_str(), status.as_str(), child.as_str(), role.as_str(), label.as_str()))
}

/// The current task card (`null` when there is none).
pub open spec fn current_task(payload: JVal) -> JVal {
    crate::app_panel::or_null(jget(payload, "current_task_card"@))
}

/// The parallel lanes of the current task card, else of the payload.
pub open spec fn lanes_of(payload: JVal) -> Seq<JVal> {
    match or_else_val(
        jget_path(current_task(payload), seq!["parallel_fanout"@, "lanes"@]),
        jget_path(payload, seq!["parallel_fanout"@, "lanes"@]),
    ) {
        Some(JVal::Array(items)) => items,
        _ => Seq::empty(),
    }
}

/// The first of two optional values that is present.
pub open spec fn or_else_val(a: Option<JVal>, b: Option<JVal>) -> Option<JVal> {
    match a {
        Some(v) => Some(v),
        None => b,
    }
}

/// The rows of the parallel lanes.
pub open spec fn spec_parallel_fanout_lane_rows(payload: JVal, korean: bool) -> Seq<Seq<char>> {
    lanes_of(payload).filter_map(|l: JVal| spec_parallel_lane_row(payload, current_task(payload), l, korean))
}

/// The host subagents' activity (else their active list).
pub open spec fn host_items_of(payload: JVal) -> Seq<JVal> {
    match or_else_val(
        jget_path(payload, seq!["host_subagent_state"@, "subagent_activity"@]),
        jget_path(payload, seq!["host_subagent_state"@, "active_subagents"@]),
    ) {
        Some(JVal::Array(items)) => items,
        _ => Seq::empty(),
    }
}

/// The rows of the host subagents.
pub open spec fn spec_host_subagent_activity_rows(payload: JVal, korean: bool) -> Seq<Seq<char>> {
    host_items_of(payload).filter_map(|it: JVal| spec_host_subagent_activity_row(it, korean))
}

fn items_or_empty<'a>(v: Option<&'a Json>, empty: &'a Vec<Json>) -> (r: &'a Vec<Json>)
    requires
        empty@.len() == 0,
    ensures
        jviews(r@) == match crate::worker_events::opt_jview_ref(v) {
            Some(JVal::Array(items)) => items,
            _ => Seq::<JVal>::empty(),
        },
{
    match v {
        Some(Json::Array(items)) => {
            proof {
                crate::json::lemma_array_view(*items);
            }
            items
        },
        _ => {
            assert(jviews(empty@) =~= Seq::<JVal>::empty());
            empty
        },
    }
}

pub fn parallel_fanout_lane_rows(payload: &Json, korean: bool) -> (r: Vec<String>)
    ensures
        string_views(r@) == spec_parallel_fanout_lane_rows(jview(*payload), korean),
{
    let null = Json::Null;
    let task: &Json = match payload.get("current_task_card") {
        Some(t) => t,
        None => &null,
    };
    let found = match crate::app_panel::at2(task, "parallel_fanout", "lanes") {
        Some(v) => Some(v),
        None => crate::app_panel::at2(payload, "parallel_fanout", "lanes"),
    };
    let empty: Vec<Json> = Vec::new();
    let lanes = items_or_empty(found, &empty);
    let ghost lv = jviews(lanes@);
    let ghost pv = jview(*payload);
    let ghost tv = jview(*task);
    assert(tv == current_task(pv));
    assert(lv == lanes_of(pv));
    let mut out: Vec<String> = Vec::new();
    let mut i: usize = 0;
    assert(lv.take(0).filter_map(|l: JVal| spec_parallel_lane_row(pv, tv, l, korean)) =~= Seq::<Seq<char>>::empty());
    assert(string_views(out@) =~= Seq::<Seq<char>>::empty());
    while i < lanes.len()
        invariant
            i <= lanes.len(),
            lv == jviews(lanes@),
            pv == jview(*payload),
            tv == jview(*task),
            string_views(out@) == lv.take(i as int).filter_map(|l: JVal| spec_parallel_lane_row(pv, tv, l, korean)),
        decreases lanes.len() - i,
    {
        proof {
            lv.lemma_filter_map_take_succ(|l: JVal| spec_parallel_lane_row(pv, tv, l, korean), i as int);
        }
        let ghost before = string_views(out@);
        assert(lv[i as int] == jview(lanes@[i as int]));
        match render_parallel_lane_row(payload, task, &lanes[i], korean) {
            Some(t) => {
                let ghost sv = t@;
                out.push(t);
                assert(string_views(out@) =~= before + seq![sv]);
            },
            None => {
                assert(string_views(out@) =~= before);
            },
        }
        i = i + 1;
    }
    assert(lv.take(lanes.len() as int) =~= lv);
    out
}

pub fn host_subagent_activity_rows(payload: &Json, korean: bool) -> (r: Vec<String>)
    ensures
        string_views(r@) == spec_host_subagent_activity_rows(jview(*payload), korean),
{
    let found = match crate::app_panel::at2(payload, "host_subagent_state", "subagent_activity") {
        Some(v) => Some(v),
        None => crate::app_panel::at2(payload, "host_subagent_state", "active_subagents"),
    };
    let empty: Vec<Json> = Vec::new();
    let items = items_or_empty(found, &empty);
    let ghost iv = jviews(items@);
    assert(iv == host_items_of(jview(*payload)));
    let mut out: Vec<String> = Vec::new();
    let mut i: usize = 0;
    assert(iv.take(0).filter_map(|it: JVal| spec_host_subagent_activity_row(it, korean)) =~= Seq::<Seq<char>>::empty());
    assert(string_views(out@) =~= Seq::<Seq<char>>::empty());
    while i < items.len()
        invariant
            i <= items.len(),
            iv == jviews(items@),
            string_views(out@) == iv.take(i as int).filter_map(|it: JVal| spec_host_subagent_activity_row(it, korean)),
        decreases items.len() - i,
    {
        proof {
            iv.lemma_filter_map_take_succ(|it: JVal| spec_host_subagent_activity_row(it, korean), i as int);
        }
        let ghost before = string_views(out@);
        assert(iv[i as int] == jview(items@[i as int]));
        match render_host_subagent_activity_row(&items[i], korean) {
            Some(t) => {
                let ghost sv = t@;
                out.push(t);
                assert(string_views(out@) =~= before + seq![sv]);
            },
            None => {
                assert(string_views(out@) =~= before);
            },
        }
        i = i + 1;
    }
    assert(iv.take(items.len() as int) =~= iv);
    out
}

/// Whether a text holds Korean.
pub open spec fn text_is_korean(t: Seq<char>) -> bool {
    exists|i: int| 0 <= i < t.len() && is_korean_char(#[trigger] t[i])
}

/// The texts that tell the operator's language.
pub open spec fn language_paths() -> Seq<Seq<Seq<char>>> {
    seq![
        seq!["current_task_card"@, "execution_prompt"@],
        seq!["current_task_card"@, "prompt"@],
        seq!["current_task_card"@, "request"@],
        seq!["current_task_card"@, "intent"@],
        seq!["current_task_card"@, "scope"@],
        seq!["longway"@, "prompt"@],
        seq!["longway"@, "request"@],
        seq!["request"@],
        seq!["prompt"@],
        seq!["goal"@],
    ]
}

/// Whether the payload should be shown in Korean: its operator language
/// says so, or one of its request texts holds Korean.
pub open spec fn spec_payload_appears_korean(payload: JVal) -> bool {
    let lang = compact_at(payload, seq!["operator_language"@]);
    lang == Some("ko"@) || lang == Some("korean"@) || exists|k: int|
        0 <= k < language_paths().len() && match jstr_at(payload, #[trigger] language_paths()[k]) {
            Some(t) => text_is_korean(t),
            None => false,
        }
}

fn language_path_korean(payload: &Json, keys: &[&str]) -> (r: bool)
    ensures
        r == match jstr_at(jview(*payload), keys@.map_values(|k: &str| k@)) {
            Some(t) => text_is_korean(t),
            None => false,
        },
{
    match payload.str_at(keys) {
        Some(t) => crate::status_text::text_appears_korean(t),
        None => false,
    }
}

pub fn payload_appears_korean(payload: &Json) -> (r: bool)
    ensures
        r == spec_payload_appears_korean(jview(*payload)),
{
    let lang = compact_text_field(payload, "operator_language");
    let lang_says = match &lang {
        Some(l) => str_eq(l.as_str(), "ko") || str_eq(l.as_str(), "korean"),
        None => false,
    };
    if lang_says {
        return true;
    }
    let ghost pv = jview(*payload);
    let ghost ps = language_paths();
    let p0: [&str; 2] = ["current_task_card", "execution_prompt"];
    let p1: [&str; 2] = ["current_task_card", "prompt"];
    let p2: [&str; 2] = ["current_task_card", "request"];
    let p3: [&str; 2] = ["current_task_card", "intent"];
    let p4: [&str; 2] = ["current_task_card", "scope"];
    let p5: [&str; 2] = ["longway", "prompt"];
    let p6: [&str; 2] = ["longway", "request"];
    let p7: [&str; 1] = ["request"];
    let p8: [&str; 1] = ["prompt"];
    let p9: [&str; 1] = ["goal"];
    assert(p0@.map_values(|k: &str| k@) =~= ps[0]);
    assert(p1@.map_values(|k: &str| k@) =~= ps[1]);
    assert(p2@.map_values(|k: &str| k@) =~= ps[2]);
    assert(p3@.map_values(|k: &str| k@) =~= ps[3]);
    assert(p4@.map_values(|k: &str| k@) =~= ps[4]);
    assert(p5@.map_values(|k: &str| k@) =~= ps[5]);
    assert(p6@.map_values(|k: &str| k@) =~= ps[6]);
    assert(p7@.map_values(|k: &str| k@) =~= ps[7]);
    assert(p8@.map_values(|k: &str| k@) =~= ps[8]);
    assert(p9@.map_values(|k: &str| k@) =~= ps[9]);
    let r = language_path_korean(payload, p0.as_slice()) || language_path_korean(payload, p1.as_slice())
        || language_path_korean(payload, p2.as_slice()) || language_path_korean(payload, p3.as_slice())
        || language_path_korean(payload, p4.as_slice()) || language_path_korean(payload, p5.as_slice())
        || language_path_korean(payload, p6.as_slice()) || language_path_korean(payload, p7.as_slice())
        || language_path_korean(payload, p8.as_slice()) || language_path_korean(payload, p9.as_slice());
    proof {
        let f = |k: int|
            match jstr_at(pv, ps[k]) {
                Some(t) => text_is_korean(t),
                None => false,
            };
        assert(r == (f(0) || f(1) || f(2) || f(3) || f(4) || f(5) || f(6) || f(7) || f(8) || f(9)));
        if exists|k: int| 0 <= k < ps.len() && match jstr_at(pv, #[trigger] ps[k]) {
            Some(t) => text_is_korean(t),
            None => false,
        } {
            let k = choose|k: int| 0 <= k < ps.len() && match jstr_at(pv, #[trigger] ps[k]) {
                Some(t) => text_is_korean(t),
                None => false,
            };
            assert(f(k));
            assert(0 <= k < 10);
            assert(r);
        }
    }
    r
}

/// The row that says how many rows were left out.
pub open spec fn omitted_row(korean: bool, omitted: nat) -> Seq<char> {
    if korean {
        "[ ] ... "@ + crate::format::decimal(omitted) + "개 항목 생략"@
    } else {
        "[ ] ... "@ + crate::format::decimal(omitted) + " more rows omitted"@
    }
}

/// The subagent rows shown: the lane rows, else the host subagent rows; at
/// most `max_rows` of them (when it is positive) and a row for the rest.
pub open spec fn shown_subagent_rows(payload: JVal, korean: bool, max_rows: Option<usize>) -> Seq<Seq<char>> {
    let lane_rows = spec_parallel_fanout_lane_rows(payload, korean);
    let rows = if lane_rows.len() == 0 {
        spec_host_subagent_activity_rows(payload, korean)
    } else {
        lane_rows
    };
    match max_rows {
        Some(m) => if m > 0 && rows.len() > m {
            rows.take(m as int).push(omitted_row(spec_payload_appears_korean(payload), (rows.len() - m) as nat))
        } else {
            rows
        },
        None => rows,
    }
}

/// The subagent text: the heading, then the rows (or the no-activity row).
#[verifier::opaque]
pub open spec fn spec_subagents_text(payload: JVal, korean: bool, max_rows: Option<usize>) -> Seq<char> {
    let rows = shown_subagent_rows(payload, korean, max_rows);
    join_with(
        seq![heading_label(korean)] + if rows.len() == 0 {
            seq![no_activity_label(korean)]
        } else {
            rows
        },
        "\n"@,
    )
}

fn omitted_row_text(korean: bool, omitted: usize) -> (r: String)
    ensures
        r@ == omitted_row(korean, omitted as nat),
{
    let mut s = to_owned("[ ] ... ");
    crate::format::push_decimal(&mut s, omitted as u64);
    if korean {
        push_str(&mut s, "개 항목 생략");
    } else {
        push_str(&mut s, " more rows omitted");
    }
    s
}

pub fn create_subagents_text_with_labels_limit(payload: &Json, korean: bool, max_rows: Option<usize>) -> (r: String)
    ensures
        r@ == spec_subagents_text(jview(*payload), korean, max_rows),
{
    reveal(spec_subagents_text);
    let mut rows = parallel_fanout_lane_rows(payload, korean);
    if rows.len() == 0 {
        rows = host_subagent_activity_rows(payload, korean);
    }
    let ghost rv = string_views(rows@);
    let mut shown: Vec<String> = Vec::new();
    let n = match max_rows {
        Some(m) => if m > 0 && rows.len() > m {
            m
        } else {
            rows.len()
        },
        None => rows.len(),
    };
    let mut i: usize = 0;
    while i < n
        invariant
            i <= n,
            n <= rows.len(),
            rv == string_views(rows@),
            string_views(shown@) == rv.take(i as int),
        decreases n - i,
    {
        assert(rv[i as int] == rows@[i as int]@);
        let s = to_owned(rows[i].as_str());
        let ghost before = string_views(shown@);
        let ghost sv = s@;
        shown.push(s);
        assert(string_views(shown@) =~= before.push(sv));
        assert(string_views(shown@) =~= rv.take(i + 1));
        i = i + 1;
    }
    if n < rows.len() {
        let omitted = omitted_row_text(payload_appears_korean(payload), rows.len() - n);
        let ghost before = string_views(shown@);
        let ghost ov = omitted@;
        shown.push(omitted);
        assert(string_views(shown@) =~= before.push(ov));
    } else {
        assert(rv.take(n as int) =~= rv);
    }
    assert(string_views(shown@) =~= shown_subagent_rows(jview(*payload), korean, max_rows));
    let mut lines: Vec<String> = Vec::new();
    lines.push(to_owned(heading_text(korean)));
    if shown.len() == 0 {
        lines.push(to_owned(no_activity_text(korean)));
        assert(string_views(lines@) =~= seq![heading_label(korean)] + seq![no_activity_label(korean)]);
    } else {
        let ghost head = string_views(lines@);
        let ghost sv = string_views(shown@);
        let mut k: usize = 0;
        while k < shown.len()
            invariant
                k <= shown.len(),
                sv == string_views(shown@),
                head == seq![heading_label(korean)],
                string_views(lines@) == head + sv.take(k as int),
            decreases shown.len() - k,
        {
            assert(sv[k as int] == shown@[k as int]@);
            let s = to_owned(shown[k].as_str());
            let ghost before = string_views(lines@);
            let ghost x = s@;
            lines.push(s);
            assert(string_views(lines@) =~= before.push(x));
            assert(string_views(lines@) =~= head + sv.take(k + 1));
            k = k + 1;
        }
        assert(sv.take(shown.len() as int) =~= sv);
    }
    join_strings(&lines, "\n")
}

/// The English subagent text with every row.
pub fn create_subagents_text(payload: &Json) -> (r: String)
    ensures
        r@ == spec_subagents_text(jview(*payload), false, None),
{
    create_subagents_text_with_labels_limit(payload, false, None)
}

/// The next step shown in the projection: the payload's, else the
/// scheduler's, else the run state's next command.
pub open spec fn projection_next_step(payload: JVal) -> Option<Seq<char>> {
    or_else(
        compact_at(payload, seq!["next_step"@]),
        or_else(
            compact_at(payload, seq!["scheduler"@, "next_step"@]),
            compact_at(payload, seq!["run_state"@, "next_action"@, "command"@]),
        ),
    )
}

/// The state lines of the projection, each when present.
#[verifier::opaque]
pub open spec fn projection_state_lines(payload: JVal) -> Seq<Seq<char>> {
    opt_part(spec_state_contract_line(payload)) + opt_part(spec_active_checkpoint_line(payload)) + opt_part(
        spec_task_session_state_line(payload),
    ) + opt_part(spec_verification_capsule_line(payload)) + opt_part(spec_delegated_ownership_line(payload))
        + opt_part(spec_recovery_lane_line(payload)) + opt_part(spec_workflow_loop_line(payload)) + opt_part(
        spec_lifecycle_hooks_line(payload),
    ) + opt_part(spec_routing_trace_line(payload)) + opt_part(spec_captain_direct_mutation_guard_line(payload))
}

/// Whether the LongWay waits for the operator's approval.
pub open spec fn awaits_longway_approval(payload: JVal) -> bool {
    jstr_field(payload, "approval_state"@) == Some("pending_longway_approval"@) || jstr_at(
        payload,
        seq!["run_state"@, "next_action"@, "command"@],
    ) == Some("await_longway_approval"@)
}

/// The approval lines.
pub open spec fn approval_lines(korean: bool) -> Seq<Seq<char>> {
    if korean {
        seq![
            "승인 대기"@,
            "[ ] 이 LongWay 계획으로 작업을 진행할지 확인 필요"@,
            "승인: ccc orchestrate --quiet --json '{\"approve_longway\":true,...}'"@,
            Seq::empty(),
        ]
    } else {
        seq![
            "Approval"@,
            "[ ] Confirm whether to execute this LongWay plan"@,
            "Approve: ccc orchestrate --quiet --json '{\"approve_longway\":true,...}'"@,
            Seq::empty(),
        ]
    }
}

/// The head of the projection: its title, run and next step.
#[verifier::opaque]
pub open spec fn projection_head(payload: JVal, korean: bool) -> Seq<Seq<char>> {
    seq![if korean { "LongWay 투영"@ } else { "LongWay Projection"@ }] + opt_part(
        match compact_at(payload, seq!["run_id"@]) {
            Some(r) => Some((if korean { "실행"@ } else { "Run"@ }) + ": "@ + r),
            None => None,
        },
    ) + opt_part(
        match projection_next_step(payload) {
            Some(n) => Some((if korean { "다음"@ } else { "Next"@ }) + ": "@ + n),
            None => None,
        },
    )
}

/// The operator's LongWay projection: head, state lines, the checklist,
/// the approval request when one is pending, and the subagents (at most
/// twelve rows).
#[verifier::opaque]
pub open spec fn spec_operator_longway_projection_text(payload: JVal) -> Seq<char> {
    let korean = spec_payload_appears_korean(payload);
    join_with(
        projection_head(payload, korean) + projection_state_lines(payload) + seq![Seq::empty()] + match crate::checklist_text::spec_longway_checklist_block(
            payload,
        ) {
            Some(c) => seq![c, Seq::empty()],
            None => Seq::empty(),
        } + if awaits_longway_approval(payload) {
            approval_lines(korean)
        } else {
            Seq::empty()
        } + seq![spec_subagents_text(payload, korean, Some(12))],
        "\n"@,
    )
}

fn push_line(lines: &mut Vec<String>, s: String)
    ensures
        string_views(final(lines)@) == string_views(old(lines)@).push(s@),
{
    let ghost before = string_views(lines@);
    let ghost sv = s@;
    lines.push(s);
    assert(string_views(lines@) =~= before.push(sv));
}

fn push_projection_head(lines: &mut Vec<String>, payload: &Json, korean: bool)
    ensures
        string_views(final(lines)@) == string_views(old(lines)@) + projection_head(jview(*payload), korean),
{
    reveal(projection_head);
    let ghost start = string_views(lines@);
    push_line(lines, to_owned(if korean { "LongWay 투영" } else { "LongWay Projection" }));
    let run = match compact_text_field(payload, "run_id") {
        Some(r) => {
            let mut s = to_owned(if korean { "실행" } else { "Run" });
            push_str(&mut s, ": ");
            push_str(&mut s, r.as_str());
            Some(s)
        },
        None => None,
    };
    push_opt_part(lines, run);
    let k2: [&str; 2] = ["scheduler", "next_step"];
    let k3: [&str; 3] = ["run_state", "next_action", "command"];
    assert(k2@.map_values(|k: &str| k@) =~= seq!["scheduler"@, "next_step"@]);
    assert(k3@.map_values(|k: &str| k@) =~= seq!["run_state"@, "next_action"@, "command"@]);
    let next = first_of(
        compact_text_field(payload, "next_step"),
        first_of(compact_text_pointer(payload, k2.as_slice()), compact_text_pointer(payload, k3.as_slice())),
    );
    let next_line = match next {
        Some(n) => {
            let mut s = to_owned(if korean { "다음" } else { "Next" });
            push_str(&mut s, ": ");
            push_str(&mut s, n.as_str());
            Some(s)
        },
        None => None,
    };
    push_opt_part(lines, next_line);
    assert(string_views(lines@) =~= start + projection_head(jview(*payload), korean));
}

fn push_projection_state_lines(lines: &mut Vec<String>, payload: &Json)
    ensures
        string_views(final(lines)@) == string_views(old(lines)@) + projection_state_lines(jview(*payload)),
{
    reveal(projection_state_lines);
    let ghost start = string_views(lines@);
    let mut more: Vec<String> = Vec::new();
    push_opt_part(&mut more, build_state_contract_line(payload));
    push_opt_part(&mut more, build_active_checkpoint_line(payload));
    push_opt_part(&mut more, build_task_session_state_line(payload));
    push_opt_part(&mut more, build_verification_capsule_line(payload));
    push_opt_part(&mut more, build_delegated_ownership_line(payload));
    push_opt_part(&mut more, build_recovery_lane_line(payload));
    push_opt_part(&mut more, build_workflow_loop_line(payload));
    push_opt_part(&mut more, build_lifecycle_hooks_line(payload));
    push_opt_part(&mut more, build_routing_trace_line(payload));
    push_opt_part(&mut more, build_captain_direct_mutation_guard_line(payload));
    assert(string_views(more@) =~= projection_state_lines(jview(*payload)));
    let ghost mv = string_views(more@);
    let mut i: usize = 0;
    while i < more.len()
        invariant
            i <= more.len(),
            mv == string_views(more@),
            string_views(lines@) == start + mv.take(i as int),
        decreases more.len() - i,
    {
        assert(mv[i as int] == more@[i as int]@);
        push_line(lines, to_owned(more[i].as_str()));
        assert(string_views(lines@) =~= start + mv.take(i + 1));
        i = i + 1;
    }
    assert(mv.take(more.len() as int) =~= mv);
}

fn push_approval_lines(lines: &mut Vec<String>, korean: bool)
    ensures
        string_views(final(lines)@) == string_views(old(lines)@) + approval_lines(korean),
{
    let ghost start = string_views(lines@);
    if korean {
        push_line(lines, to_owned("승인 대기"));
        push_line(lines, to_owned("[ ] 이 LongWay 계획으로 작업을 진행할지 확인 필요"));
        push_line(lines, to_owned("승인: ccc orchestrate --quiet --json '{\"approve_longway\":true,...}'"));
    } else {
        push_line(lines, to_owned("Approval"));
        push_line(lines, to_owned("[ ] Confirm whether to execute this LongWay plan"));
        push_line(lines, to_owned("Approve: ccc orchestrate --quiet --json '{\"approve_longway\":true,...}'"));
    }
    push_line(lines, String::new());
    assert(string_views(lines@) =~= start + approval_lines(korean));
}

pub fn create_operator_longway_projection_text(payload: &Json) -> (r: String)
    ensures
        r@ == spec_operator_longway_projection_text(jview(*payload)),
{
    let korean = payload_appears_korean(payload);
    let mut lines: Vec<String> = Vec::new();
    push_projection_head(&mut lines, payload, korean);
    push_projection_state_lines(&mut lines, payload);
    push_line(&mut lines, String::new());
    let ghost mid = string_views(lines@);
    let checklist = crate::checklist_text::build_longway_checklist_block(payload);
    match checklist {
        Some(c) => {
            push_line(&mut lines, c);
            push_line(&mut lines, String::new());
        },
        None => {},
    }
    let ghost after_checklist = string_views(lines@);
    let keys: [&str; 3] = ["run_state", "next_action", "command"];
    assert(keys@.map_values(|k: &str| k@) =~= seq!["run_state"@, "next_action"@, "command"@]);
    let awaiting = crate::strings::opt_str_is(payload.str_field("approval_state"), "pending_longway_approval")
        || crate::strings::opt_str_is(payload.str_at(keys.as_slice()), "await_longway_approval");
    if awaiting {
        push_approval_lines(&mut lines, korean);
    }
    push_line(&mut lines, create_subagents_text_with_labels_limit(payload, korean, Some(12)));
    proof {
        reveal(spec_operator_longway_projection_text);
    }
    assert(string_views(lines@) =~= projection_head(jview(*payload), korean) + projection_state_lines(jview(*payload))
        + seq![Seq::<char>::empty()] + match crate::checklist_text::spec_longway_checklist_block(jview(*payload)) {
        Some(c) => seq![c, Seq::<char>::empty()],
        None => Seq::<Seq<char>>::empty(),
    } + if awaits_longway_approval(jview(*payload)) {
        approval_lines(korean)
    } else {
        Seq::<Seq<char>>::empty()
    } + seq![spec_subagents_text(jview(*payload), korean, Some(12))]);
    join_strings(&lines, "\n")
}

} // verus!
