//! The LongWay checklist as text: one block per phase row (its line, its
//! lifecycle details and the planned rows under it), then the planned rows
//! that no phase row shows.

use vstd::prelude::*;
use crate::app_panel_text::{member_string_list, member_strings, object_member, object_member_ref, or_text, text1, text2, text_at, text_or, take_upto};
use crate::custom_agent::{spec_trimmed_nonblank, trimmed_nonblank};
use crate::format::{decimal, push_decimal};
use crate::json::{jget, jstr_at, jstr_field, jview, opt_u64, JVal, Json};
use crate::longway::member_list;
use crate::operator_text::{compact_at, compact_text_field, or_else};
use crate::roles::{spec_status_display_agent, spec_status_display_role, status_display_agent, status_display_role};
use crate::skill_manifest::{join_strings, string_views};
use crate::status_text::{dashed, underscores_to_dashes};
use crate::strings::{opt_string_view, opt_view, push_str, str_eq, to_owned};
use crate::text_utils::{summarize_text_for_visibility, summary_of};
use crate::worker_events::join_with;
use crate::worker_fleet::jviews;

verus! {

/// The task unit labels a row shows: its non-blank labels, trimmed, the
/// first `limit` of them, each shortened to `max_chars`.
pub open spec fn spec_row_task_unit_labels(row: JVal, limit: nat, max_chars: nat) -> Seq<Seq<char>> {
    take_upto(
        member_strings(row, "task_unit_labels"@).filter_map(|s: Seq<char>| spec_trimmed_nonblank(Some(s))),
        limit,
    ).map_values(|s: Seq<char>| summary_of(s, max_chars))
}

pub fn compact_row_task_unit_labels(row: &Json, limit: usize, max_chars: usize) -> (r: Vec<String>)
    ensures
        string_views(r@) == spec_row_task_unit_labels(jview(*row), limit as nat, max_chars as nat),
{
    let all = member_string_list(row, "task_unit_labels");
    let ghost av = string_views(all@);
    let ghost f = |s: Seq<char>| spec_trimmed_nonblank(Some(s));
    let mut kept: Vec<String> = Vec::new();
    let mut i: usize = 0;
    assert(av.take(0).filter_map(f) =~= Seq::<Seq<char>>::empty());
    assert(string_views(kept@) =~= Seq::<Seq<char>>::empty());
    while i < all.len()
        invariant
            i <= all.len(),
            av == string_views(all@),
            f == (|s: Seq<char>| spec_trimmed_nonblank(Some(s))),
            string_views(kept@) == av.take(i as int).filter_map(f),
        decreases all.len() - i,
    {
        proof {
            av.lemma_filter_map_take_succ(f, i as int);
        }
        let ghost before = string_views(kept@);
        assert(av[i as int] == all@[i as int]@);
        match trimmed_nonblank(Some(all[i].as_str())) {
            Some(t) => {
                let ghost tv = t@;
                kept.push(t);
                assert(string_views(kept@) =~= before + seq![tv]);
            },
            None => {
                assert(string_views(kept@) =~= before);
            },
        }
        i = i + 1;
    }
    assert(av.take(all.len() as int) =~= av);
    let ghost kv = string_views(kept@);
    let ghost tk = take_upto(kv, limit as nat);
    let mut out: Vec<String> = Vec::new();
    let mut j: usize = 0;
    let n = if kept.len() <= limit {
        kept.len()
    } else {
        limit
    };
    assert(tk.len() == n);
    while j < n
        invariant
            j <= n,
            n <= kept.len(),
            kv == string_views(kept@),
            tk == take_upto(kv, limit as nat),
            tk.len() == n,
            string_views(out@) == tk.take(j as int).map_values(|s: Seq<char>| summary_of(s, max_chars as nat)),
        decreases n - j,
    {
        let ghost before = string_views(out@);
        assert(tk[j as int] == kv[j as int]);
        assert(kv[j as int] == kept@[j as int]@);
        let s = summarize_text_for_visibility(kept[j].as_str(), max_chars);
        let ghost sv = s@;
        out.push(s);
        assert(string_views(out@) =~= before.push(sv));
        assert(string_views(out@) =~= tk.take(j + 1).map_values(|s: Seq<char>| summary_of(s, max_chars as nat)));
        j = j + 1;
    }
    assert(tk.take(n as int) =~= tk);
    out
}

/// ` units=...` for a row with task unit labels.
pub open spec fn spec_row_task_unit_suffix(row: JVal) -> Seq<char> {
    let labels = spec_row_task_unit_labels(row, 4, 64);
    if labels.len() == 0 {
        Seq::empty()
    } else {
        " units="@ + join_with(labels, ","@)
    }
}

fn row_task_unit_suffix(row: &Json) -> (r: String)
    ensures
        r@ == spec_row_task_unit_suffix(jview(*row)),
{
    let labels = compact_row_task_unit_labels(row, 4, 64);
    if labels.len() == 0 {
        String::new()
    } else {
        let mut s = to_owned(" units=");
        push_str(&mut s, join_strings(&labels, ",").as_str());
        s
    }
}

/// ` lifecycle=...` for a row whose lifecycle has started.
pub open spec fn spec_row_lifecycle_suffix(row: JVal) -> Seq<char> {
    match text_at(row, seq!["lifecycle_sync"@, "status"@]) {
        Some(s) => if s == "not_started"@ {
            Seq::empty()
        } else {
            " lifecycle="@ + s
        },
        None => Seq::empty(),
    }
}

fn row_lifecycle_suffix(row: &Json) -> (r: String)
    ensures
        r@ == spec_row_lifecycle_suffix(jview(*row)),
{
    match text2(row, "lifecycle_sync", "status") {
        Some(s) => if str_eq(s, "not_started") {
            String::new()
        } else {
            let mut out = to_owned(" lifecycle=");
            push_str(&mut out, s);
            out
        },
        None => String::new(),
    }
}

/// The part of a lifecycle detail line after its label and status:
/// summary, evidence count and confidence.
pub open spec fn detail_tail(d: JVal) -> Seq<char> {
    (match compact_at(d, seq!["summary"@]) {
        Some(s) => " "@ + summary_of(s, 96),
        None => Seq::empty(),
    }) + match opt_u64(jget(d, "evidence_count"@)) {
        Some(n) => if n > 0 {
            " evidence="@ + decimal(n as nat)
        } else {
            Seq::empty()
        },
        None => Seq::empty(),
    } + match compact_at(d, seq!["confidence"@]) {
        Some(c) => " confidence="@ + c,
        None => Seq::empty(),
    }
}

/// A lifecycle detail line: label and status, the child agent (when it is
/// not the label), summary, evidence count and confidence (none without a
/// label and a status).
pub open spec fn spec_lifecycle_detail_line(d: JVal) -> Option<Seq<char>> {
    match (compact_at(d, seq!["label"@]), compact_at(d, seq!["status"@])) {
        (Some(label), Some(status)) => Some(
            "- "@ + label + " "@ + underscores_to_dashes(status) + match compact_at(d, seq!["child_agent_id"@]) {
                Some(c) => if c == label {
                    Seq::empty()
                } else {
                    " "@ + spec_status_display_agent(c)
                },
                None => Seq::empty(),
            } + detail_tail(d),
        ),
        _ => None,
    }
}

fn push_detail_tail(line: &mut String, detail: &Json)
    ensures
        final(line)@ == old(line)@ + detail_tail(jview(*detail)),
{
    let ghost start = line@;
    let mut tail = String::new();
    match compact_text_field(detail, "summary") {
        Some(s) => {
            push_str(&mut tail, " ");
            push_str(&mut tail, summarize_text_for_visibility(s.as_str(), 96).as_str());
        },
        None => {},
    }
    match detail.get("evidence_count") {
        Some(v) => match v.as_u64() {
            Some(n) => if n > 0 {
                push_str(&mut tail, " evidence=");
                push_decimal(&mut tail, n);
            },
            None => {},
        },
        None => {},
    }
    match compact_text_field(detail, "confidence") {
        Some(c) => {
            push_str(&mut tail, " confidence=");
            push_str(&mut tail, c.as_str());
        },
        None => {},
    }
    assert(tail@ =~= detail_tail(jview(*detail)));
    push_str(line, tail.as_str());
}

pub fn render_lifecycle_detail_line(detail: &Json) -> (r: Option<String>)
    ensures
        opt_string_view(r) == spec_lifecycle_detail_line(jview(*detail)),
{
    let label = match compact_text_field(detail, "label") {
        Some(l) => l,
        None => return None,
    };
    let status = match compact_text_field(detail, "status") {
        Some(s) => s,
        None => return None,
    };
    let mut line = to_owned("- ");
    push_str(&mut line, label.as_str());
    push_str(&mut line, " ");
    push_str(&mut line, dashed(status.as_str()).as_str());
    match compact_text_field(detail, "child_agent_id") {
        Some(c) => if !str_eq(c.as_str(), label.as_str()) {
            push_str(&mut line, " ");
            push_str(&mut line, status_display_agent(c.as_str()).as_str());
        },
        None => {},
    }
    push_detail_tail(&mut line, detail);
    Some(line)
}

/// The list at a path (none when it is not a list).
pub open spec fn list_at2(j: JVal, a: Seq<char>, b: Seq<char>) -> Seq<JVal> {
    crate::app_panel_text::list_at(j, seq![a, b])
}

/// The lifecycle detail lines of a row.
pub open spec fn spec_row_lifecycle_detail_lines(row: JVal) -> Seq<Seq<char>> {
    list_at2(row, "lifecycle_sync"@, "details"@).filter_map(|d: JVal| spec_lifecycle_detail_line(d))
}

fn list_ref2<'a>(j: &'a Json, a: &str, b: &str, empty: &'a Vec<Json>) -> (r: &'a Vec<Json>)
    requires
        empty@.len() == 0,
    ensures
        jviews(r@) == list_at2(jview(*j), a@, b@),
{
    match crate::app_panel::at2(j, a, b) {
        Some(Json::Array(items)) => {
            proof {
                crate::json::lemma_array_view(*items);
            }
            items
        },
        _ => {
            assert(jviews(empty@) =~= Seq::<JVal>::empty());
            empty
        },
    }
}

fn row_lifecycle_detail_lines(row: &Json) -> (r: Vec<String>)
    ensures
        string_views(r@) == spec_row_lifecycle_detail_lines(jview(*row)),
{
    let empty: Vec<Json> = Vec::new();
    let items = list_ref2(row, "lifecycle_sync", "details", &empty);
    let ghost iv = jviews(items@);
    let mut out: Vec<String> = Vec::new();
    let mut i: usize = 0;
    assert(iv.take(0).filter_map(|d: JVal| spec_lifecycle_detail_line(d)) =~= Seq::<Seq<char>>::empty());
    assert(string_views(out@) =~= Seq::<Seq<char>>::empty());
    while i < items.len()
        invariant
            i <= items.len(),
            iv == jviews(items@),
            string_views(out@) == iv.take(i as int).filter_map(|d: JVal| spec_lifecycle_detail_line(d)),
        decreases items.len() - i,
    {
        proof {
            iv.lemma_filter_map_take_succ(|d: JVal| spec_lifecycle_detail_line(d), i as int);
        }
        let ghost before = string_views(out@);
        assert(iv[i as int] == jview(items@[i as int]));
        match render_lifecycle_detail_line(&items[i]) {
            Some(t) => {
                let ghost tv = t@;
                out.push(t);
                assert(string_views(out@) =~= before + seq![tv]);
            },
            None => {
                assert(string_views(out@) =~= before);
            },
        }
        i = i + 1;
    }
    assert(iv.take(items.len() as int) =~= iv);
    out
}

/// A planned row's agent or role: its own value, else its display value
/// (`unassigned` when neither is set).
pub open spec fn spec_planned_row_display_value(row: JVal, primary_key: Seq<char>, display_key: Seq<char>) -> Seq<char> {
    match compact_at(row, seq![primary_key]) {
        Some(v) => if v == "unassigned"@ {
            text_or(
                match compact_at(row, seq![display_key]) {
                    Some(d) => if d == "unassigned"@ {
                        None
                    } else {
                        Some(d)
                    },
                    None => None,
                },
                "unassigned"@,
            )
        } else {
            v
        },
        None => text_or(
            match compact_at(row, seq![display_key]) {
                Some(d) => if d == "unassigned"@ {
                    None
                } else {
                    Some(d)
                },
                None => None,
            },
            "unassigned"@,
        ),
    }
}

pub fn planned_row_display_value(row: &Json, primary_key: &str, display_key: &str) -> (r: String)
    ensures
        r@ == spec_planned_row_display_value(jview(*row), primary_key@, display_key@),
{
    match compact_text_field(row, primary_key) {
        Some(v) => if !str_eq(v.as_str(), "unassigned") {
            return v;
        },
        None => {},
    }
    match compact_text_field(row, display_key) {
        Some(d) => if str_eq(d.as_str(), "unassigned") {
            to_owned("unassigned")
        } else {
            d
        },
        None => to_owned("unassigned"),
    }
}

/// ` recovered=...` for a planned row with a recovery.
pub open spec fn spec_planned_row_recovery_suffix(row: JVal) -> Seq<char> {
    match object_member(row, "recovery"@) {
        Some(r) => " recovered="@ + text_or(text_at(r, seq!["mode"@]), "fallback"@) + match text_at(
            r,
            seq!["reason"@],
        ) {
            Some(v) => " reason="@ + underscores_to_dashes(v),
            None => Seq::empty(),
        } + match text_at(r, seq!["primary_status"@]) {
            Some(v) => " primary="@ + underscores_to_dashes(v),
            None => Seq::empty(),
        },
        None => Seq::empty(),
    }
}

pub fn planned_row_recovery_suffix(row: &Json) -> (r: String)
    ensures
        r@ == spec_planned_row_recovery_suffix(jview(*row)),
{
    let rec = match object_member_ref(row, "recovery") {
        Some(r) => r,
        None => return String::new(),
    };
    let mut s = to_owned(" recovered=");
    push_str(&mut s, or_text(text1(rec, "mode"), "fallback"));
    match text1(rec, "reason") {
        Some(v) => {
            push_str(&mut s, " reason=");
            push_str(&mut s, dashed(v).as_str());
        },
        None => {},
    }
    match text1(rec, "primary_status") {
        Some(v) => {
            push_str(&mut s, " primary=");
            push_str(&mut s, dashed(v).as_str());
        },
        None => {},
    }
    s
}

/// The agent and role part of a planned row line.
pub open spec fn planned_row_assignment(row: JVal) -> Seq<char> {
    " ["@ + spec_status_display_agent(spec_planned_row_display_value(row, "planned_agent_id"@, "display_agent_id"@))
        + "] role="@ + spec_status_display_role(spec_planned_row_display_value(row, "planned_role"@, "display_role"@))
}

fn push_planned_row_assignment(line: &mut String, row: &Json)
    ensures
        final(line)@ == old(line)@ + planned_row_assignment(jview(*row)),
{
    push_str(line, " [");
    push_str(line, status_display_agent(planned_row_display_value(row, "planned_agent_id", "display_agent_id").as_str()).as_str());
    push_str(line, "] role=");
    push_str(line, status_display_role(planned_row_display_value(row, "planned_role", "display_role").as_str()).as_str());
}

/// A planned row under a phase row: title, agent, role, original status
/// and recovery (none without a title).
pub open spec fn spec_nested_planned_row_metadata(row: JVal) -> Option<Seq<char>> {
    match text_at(row, seq!["title"@]) {
        Some(title) => Some(
            "plan: "@ + summary_of(title, 96) + planned_row_assignment(row) + " original_status="@ + text_or(
                text_at(row, seq!["status"@]),
                "planned"@,
            ) + spec_planned_row_recovery_suffix(row),
        ),
        None => None,
    }
}

pub fn render_nested_planned_row_metadata(row: &Json) -> (r: Option<String>)
    ensures
        opt_string_view(r) == spec_nested_planned_row_metadata(jview(*row)),
{
    let title = match text1(row, "title") {
        Some(t) => t,
        None => return None,
    };
    let mut line = to_owned("plan: ");
    push_str(&mut line, summarize_text_for_visibility(title, 96).as_str());
    push_planned_row_assignment(&mut line, row);
    push_str(&mut line, " original_status=");
    push_str(&mut line, or_text(text1(row, "status"), "planned"));
    push_str(&mut line, planned_row_recovery_suffix(row).as_str());
    Some(line)
}

/// The checklist mark of a planned row's status.
pub open spec fn planned_row_mark(status: Option<Seq<char>>) -> Seq<char> {
    match status {
        Some(s) => if s == "materialized"@ {
            "x"@
        } else if s == "blocked"@ {
            "!"@
        } else if s == "cancelled"@ || s == "skipped"@ {
            "-"@
        } else if s == "ready"@ {
            ">"@
        } else {
            " "@
        },
        None => " "@,
    }
}

/// A planned row of the LongWay: mark, title, agent, role, task card and
/// recovery (none without a title).
pub open spec fn spec_longway_planned_row_line(row: JVal) -> Option<Seq<char>> {
    match text_at(row, seq!["title"@]) {
        Some(title) => Some(
            "["@ + planned_row_mark(jstr_field(row, "status"@)) + "] Planned: "@ + summary_of(title, 96)
                + planned_row_assignment(row) + match text_at(row, seq!["task_card_id"@]) {
                Some(t) => " task_card="@ + t,
                None => Seq::empty(),
            } + spec_planned_row_recovery_suffix(row),
        ),
        None => None,
    }
}

fn planned_mark(status: Option<&str>) -> (r: &'static str)
    ensures
        r@ == planned_row_mark(opt_view(status)),
{
    match status {
        Some(s) => if str_eq(s, "materialized") {
            "x"
        } else if str_eq(s, "blocked") {
            "!"
        } else if str_eq(s, "cancelled") || str_eq(s, "skipped") {
            "-"
        } else if str_eq(s, "ready") {
            ">"
        } else {
            " "
        },
        None => " ",
    }
}

pub fn render_longway_planned_row(row: &Json) -> (r: Option<String>)
    ensures
        opt_string_view(r) == spec_longway_planned_row_line(jview(*row)),
{
    let title = match text1(row, "title") {
        Some(t) => t,
        None => return None,
    };
    let mut line = to_owned("[");
    push_str(&mut line, planned_mark(row.str_field("status")));
    push_str(&mut line, "] Planned: ");
    push_str(&mut line, summarize_text_for_visibility(title, 96).as_str());
    push_planned_row_assignment(&mut line, row);
    match text1(row, "task_card_id") {
        Some(t) => {
            push_str(&mut line, " task_card=");
            push_str(&mut line, t);
        },
        None => {},
    }
    push_str(&mut line, planned_row_recovery_suffix(row).as_str());
    Some(line)
}

/// The planned rows of a phase row, indented.
pub open spec fn spec_row_planned_row_lines(row: JVal) -> Seq<Seq<char>> {
    member_list(row, "planned_rows"@).filter_map(
        |r: JVal|
            match spec_nested_planned_row_metadata(r) {
                Some(l) => Some("  "@ + l),
                None => None,
            },
    )
}

fn row_planned_row_lines(row: &Json) -> (r: Vec<String>)
    ensures
        string_views(r@) == spec_row_planned_row_lines(jview(*row)),
{
    let empty: Vec<Json> = Vec::new();
    let items: &Vec<Json> = match crate::run_health::array_items(row.get("planned_rows")) {
        Some(it) => it,
        None => &empty,
    };
    let ghost iv = jviews(items@);
    let ghost f = |r: JVal|
        match spec_nested_planned_row_metadata(r) {
            Some(l) => Some("  "@ + l),
            None => None,
        };
    assert(iv == member_list(jview(*row), "planned_rows"@));
    let mut out: Vec<String> = Vec::new();
    let mut i: usize = 0;
    assert(iv.take(0).filter_map(f) =~= Seq::<Seq<char>>::empty());
    assert(string_views(out@) =~= Seq::<Seq<char>>::empty());
    while i < items.len()
        invariant
            i <= items.len(),
            iv == jviews(items@),
            f == (|r: JVal|
                match spec_nested_planned_row_metadata(r) {
                    Some(l) => Some("  "@ + l),
                    None => None,
                }),
            string_views(out@) == iv.take(i as int).filter_map(f),
        decreases items.len() - i,
    {
        proof {
            iv.lemma_filter_map_take_succ(f, i as int);
        }
        let ghost before = string_views(out@);
        assert(iv[i as int] == jview(items@[i as int]));
        match render_nested_planned_row_metadata(&items[i]) {
            Some(t) => {
                let mut l = to_owned("  ");
                push_str(&mut l, t.as_str());
                let ghost lv = l@;
                out.push(l);
                assert(string_views(out@) =~= before + seq![lv]);
            },
            None => {
                assert(string_views(out@) =~= before);
            },
        }
        i = i + 1;
    }
    assert(iv.take(items.len() as int) =~= iv);
    out
}

/// The planned rows of the payload's LongWay.
pub open spec fn spec_longway_planned_rows(payload: JVal) -> Seq<Seq<char>> {
    list_at2(payload, "longway"@, "planned_rows"@).filter_map(|r: JVal| spec_longway_planned_row_line(r))
}

pub fn build_longway_planned_rows(payload: &Json) -> (r: Vec<String>)
    ensures
        string_views(r@) == spec_longway_planned_rows(jview(*payload)),
{
    let empty: Vec<Json> = Vec::new();
    let items = list_ref2(payload, "longway", "planned_rows", &empty);
    let ghost iv = jviews(items@);
    let mut out: Vec<String> = Vec::new();
    let mut i: usize = 0;
    assert(iv.take(0).filter_map(|r: JVal| spec_longway_planned_row_line(r)) =~= Seq::<Seq<char>>::empty());
    assert(string_views(out@) =~= Seq::<Seq<char>>::empty());
    while i < items.len()
        invariant
            i <= items.len(),
            iv == jviews(items@),
            string_views(out@) == iv.take(i as int).filter_map(|r: JVal| spec_longway_planned_row_line(r)),
        decreases items.len() - i,
    {
        proof {
            iv.lemma_filter_map_take_succ(|r: JVal| spec_longway_planned_row_line(r), i as int);
        }
        let ghost before = string_views(out@);
        assert(iv[i as int] == jview(items@[i as int]));
        match render_longway_planned_row(&items[i]) {
            Some(t) => {
                let ghost tv = t@;
                out.push(t);
                assert(string_views(out@) =~= before + seq![tv]);
            },
            None => {
                assert(string_views(out@) =~= before);
            },
        }
        i = i + 1;
    }
    assert(iv.take(items.len() as int) =~= iv);
    out
}

/// A phase row's line: mark, work item, owner, task units and lifecycle.
pub open spec fn spec_longway_phase_row(mark: Seq<char>, work_item: Seq<char>, owner: Option<Seq<char>>, row: JVal) -> Seq<char> {
    "["@ + mark + "] "@ + work_item + match owner {
        Some(o) => " ["@ + spec_status_display_agent(o) + "]"@,
        None => Seq::empty(),
    } + spec_row_task_unit_suffix(row) + spec_row_lifecycle_suffix(row)
}

pub fn render_longway_phase_row(status: &str, work_item: &str, owner_agent: Option<&str>, row: &Json) -> (r: String)
    ensures
        r@ == spec_longway_phase_row(status@, work_item@, opt_view(owner_agent), jview(*row)),
{
    let mut line = to_owned("[");
    push_str(&mut line, status);
    push_str(&mut line, "] ");
    push_str(&mut line, work_item);
    match owner_agent {
        Some(o) => {
            push_str(&mut line, " [");
            push_str(&mut line, status_display_agent(o).as_str());
            push_str(&mut line, "]");
        },
        None => {},
    }
    push_str(&mut line, row_task_unit_suffix(row).as_str());
    push_str(&mut line, row_lifecycle_suffix(row).as_str());
    line
}

/// A phase row's block: its line, its lifecycle details and its planned
/// rows, one per line.
pub open spec fn spec_longway_phase_row_block(
    mark: Seq<char>,
    work_item: Seq<char>,
    owner: Option<Seq<char>>,
    row: JVal,
) -> Seq<char> {
    join_with(
        seq![spec_longway_phase_row(mark, work_item, owner, row)] + spec_row_lifecycle_detail_lines(row)
            + spec_row_planned_row_lines(row),
        "\n"@,
    )
}

pub fn render_longway_phase_row_block(status: &str, work_item: &str, owner_agent: Option<&str>, row: &Json) -> (r: String)
    ensures
        r@ == spec_longway_phase_row_block(status@, work_item@, opt_view(owner_agent), jview(*row)),
{
    let mut lines: Vec<String> = Vec::new();
    let head = render_longway_phase_row(status, work_item, owner_agent, row);
    let ghost hv = head@;
    lines.push(head);
    assert(string_views(lines@) =~= seq![hv]);
    let details = row_lifecycle_detail_lines(row);
    let planned = row_planned_row_lines(row);
    let ghost first = string_views(lines@);
    let ghost dv = string_views(details@);
    let ghost pv = string_views(planned@);
    let mut i: usize = 0;
    while i < details.len()
        invariant
            i <= details.len(),
            dv == string_views(details@),
            string_views(lines@) == first + dv.take(i as int),
        decreases details.len() - i,
    {
        assert(dv[i as int] == details@[i as int]@);
        let s = to_owned(details[i].as_str());
        let ghost before = string_views(lines@);
        let ghost sv = s@;
        lines.push(s);
        assert(string_views(lines@) =~= before.push(sv));
        assert(string_views(lines@) =~= first + dv.take(i + 1));
        i = i + 1;
    }
    assert(dv.take(details.len() as int) =~= dv);
    let ghost mid = string_views(lines@);
    let mut k: usize = 0;
    while k < planned.len()
        invariant
            k <= planned.len(),
            pv == string_views(planned@),
            string_views(lines@) == mid + pv.take(k as int),
        decreases planned.len() - k,
    {
        assert(pv[k as int] == planned@[k as int]@);
        let s = to_owned(planned[k].as_str());
        let ghost before = string_views(lines@);
        let ghost sv = s@;
        lines.push(s);
        assert(string_views(lines@) =~= before.push(sv));
        assert(string_views(lines@) =~= mid + pv.take(k + 1));
        k = k + 1;
    }
    assert(pv.take(planned.len() as int) =~= pv);
    assert(string_views(lines@) =~= seq![hv] + dv + pv);
    join_strings(&lines, "\n")
}

/// The value of a string of decimal digits.
pub open spec fn digits_value(s: Seq<char>) -> nat
    decreases s.len(),
{
    if s.len() == 0 {
        0
    } else {
        digits_value(s.drop_last()) * 10 + ((s.last() as int) - ('0' as int)) as nat
    }
}

/// A string made only of decimal digits.
pub open spec fn all_digits(s: Seq<char>) -> bool {
    forall|i: int| 0 <= i < s.len() ==> crate::strings::is_ascii_digit(#[trigger] s[i])
}

/// `str::parse::<usize>`: an optional `+`, then one or more digits whose
/// value fits in a `usize`.
pub open spec fn spec_parse_usize(s: Seq<char>) -> Option<nat> {
    let d = if s.len() > 0 && s[0] == '+' {
        s.drop_first()
    } else {
        s
    };
    if d.len() > 0 && all_digits(d) && digits_value(d) <= usize::MAX {
        Some(digits_value(d))
    } else {
        None
    }
}

proof fn lemma_digits_value_grows(d: Seq<char>, k: int)
    requires
        0 <= k <= d.len(),
        all_digits(d),
    ensures
        digits_value(d.take(k)) <= digits_value(d),
    decreases d.len() - k,
{
    if k < d.len() {
        lemma_digits_value_grows(d, k + 1);
        assert(d.take(k + 1).drop_last() =~= d.take(k));
        assert(d.take(k + 1).last() == d[k]);
        assert(crate::strings::is_ascii_digit(d[k]));
    } else {
        assert(d.take(k) =~= d);
    }
}

fn parse_usize_text(s: &str) -> (r: Option<usize>)
    ensures
        match r {
            Some(n) => spec_parse_usize(s@) == Some(n as nat),
            None => spec_parse_usize(s@) is None,
        },
{
    let cs = crate::strings::chars_of(s);
    let start: usize = if cs.len() > 0 && cs[0] == '+' {
        1
    } else {
        0
    };
    let ghost d = if s@.len() > 0 && s@[0] == '+' {
        s@.drop_first()
    } else {
        s@
    };
    assert(d =~= cs@.skip(start as int));
    if start == cs.len() {
        return None;
    }
    let mut v: usize = 0;
    let mut i: usize = start;
    assert(d.take(0) =~= Seq::<char>::empty());
    while i < cs.len()
        invariant
            start <= i <= cs.len(),
            d == cs@.skip(start as int),
            cs@ == s@,
            d == (if s@.len() > 0 && s@[0] == '+' {
                s@.drop_first()
            } else {
                s@
            }),
            v as nat == digits_value(d.take(i - start)),
            all_digits(d.take(i - start)),
        decreases cs.len() - i,
    {
        let c = cs[i];
        assert(d[i - start] == c);
        if !('0' <= c && c <= '9') {
            assert(!crate::strings::is_ascii_digit(d[(i - start) as int]));
            assert(!all_digits(d));
            assert(spec_parse_usize(s@) is None);
            return None;
        }
        let digit: usize = ((c as u32) - ('0' as u32)) as usize;
        assert(digit as int == (c as int) - ('0' as int));
        assert(d.take(i - start + 1).drop_last() =~= d.take(i - start));
        assert(d.take(i - start + 1).last() == c);
        assert(digits_value(d.take(i - start + 1)) == digits_value(d.take(i - start)) * 10 + digit);
        assert(all_digits(d.take(i - start + 1)));
        match v.checked_mul(10) {
            Some(m) => match m.checked_add(digit) {
                Some(n) => {
                    v = n;
                },
                None => {
                    proof {
                        if all_digits(d) {
                            lemma_digits_value_grows(d, i - start + 1);
                        }
                    }
                    return None;
                },
            },
            None => {
                proof {
                    if all_digits(d) {
                        lemma_digits_value_grows(d, i - start + 1);
                    }
                }
                return None;
            },
        }
        i = i + 1;
    }
    assert(d.take(cs.len() - start) =~= d);
    Some(v)
}

/// The index of the LongWay's current item (`item-<n>`, counted from 1).
pub open spec fn spec_current_index(longway: JVal) -> Option<nat> {
    match jstr_field(longway, "current_item"@) {
        Some(t) => match crate::strings::strip_prefix_spec(t, "item-"@) {
            Some(rest) => match spec_parse_usize(rest) {
                Some(n) => if n >= 1 {
                    Some((n - 1) as nat)
                } else {
                    None
                },
                None => None,
            },
            None => None,
        },
        None => None,
    }
}

fn current_index(longway: &Json) -> (r: Option<usize>)
    ensures
        match r {
            Some(n) => spec_current_index(jview(*longway)) == Some(n as nat),
            None => spec_current_index(jview(*longway)) is None,
        },
{
    let t = match longway.str_field("current_item") {
        Some(t) => t,
        None => return None,
    };
    let rest = match crate::strings::strip_prefix(t, "item-") {
        Some(r) => r,
        None => return None,
    };
    match parse_usize_text(rest.as_str()) {
        Some(n) => if n >= 1 {
            Some(n - 1)
        } else {
            None
        },
        None => None,
    }
}

/// The checklist mark of a phase row.
pub open spec fn checklist_mark(status: Option<Seq<char>>, is_current: bool) -> Seq<char> {
    match status {
        Some(s) => if s == "completed"@ {
            "x"@
        } else if s == "failed"@ {
            "!"@
        } else if s == "cancelled"@ || s == "canceled"@ {
            "-"@
        } else if s == "in_progress"@ || s == "running"@ || s == "active"@ {
            ">"@
        } else if s == "pending"@ && is_current {
            ">"@
        } else {
            " "@
        },
        None => " "@,
    }
}

/// What a phase row shows as its work item: its title, label or phase name,
/// shortened (`item` without any).
pub open spec fn checklist_work_item(row: JVal) -> Seq<char> {
    match or_else(text_at(row, seq!["title"@]), or_else(text_at(row, seq!["label"@]), text_at(row, seq!["phase_name"@]))) {
        Some(v) => summary_of(v, 96),
        None => "item"@,
    }
}

/// The block of the phase row at `index`.
pub open spec fn checklist_row_block(row: JVal, index: nat, current: Option<nat>) -> Seq<char> {
    spec_longway_phase_row_block(
        checklist_mark(jstr_field(row, "status"@), current == Some(index)),
        checklist_work_item(row),
        text_at(row, seq!["owner_agent"@]),
        row,
    )
}

fn mark_of(status: Option<&str>, is_current: bool) -> (r: &'static str)
    ensures
        r@ == checklist_mark(opt_view(status), is_current),
{
    match status {
        Some(s) => if str_eq(s, "completed") {
            "x"
        } else if str_eq(s, "failed") {
            "!"
        } else if str_eq(s, "cancelled") || str_eq(s, "canceled") {
            "-"
        } else if str_eq(s, "in_progress") || str_eq(s, "running") || str_eq(s, "active") {
            ">"
        } else if str_eq(s, "pending") && is_current {
            ">"
        } else {
            " "
        },
        None => " ",
    }
}

fn checklist_row_text(row: &Json, index: usize, current: Option<usize>) -> (r: String)
    ensures
        r@ == checklist_row_block(
            jview(*row),
            index as nat,
            match current {
                Some(c) => Some(c as nat),
                None => None,
            },
        ),
{
    let is_current = match current {
        Some(c) => c == index,
        None => false,
    };
    let item = match text1(row, "title") {
        Some(v) => Some(v),
        None => match text1(row, "label") {
            Some(v) => Some(v),
            None => text1(row, "phase_name"),
        },
    };
    let work_item = match item {
        Some(v) => summarize_text_for_visibility(v, 96),
        None => to_owned("item"),
    };
    render_longway_phase_row_block(
        mark_of(row.str_field("status"), is_current),
        work_item.as_str(),
        text1(row, "owner_agent"),
        row,
    )
}

/// The rows a checklist shows: its phase rows, else its phases.
pub open spec fn checklist_source_rows(longway: JVal) -> Option<Seq<JVal>> {
    match jget(longway, "phase_rows"@) {
        Some(JVal::Array(rows)) => Some(rows),
        _ => match jget(longway, "phases"@) {
            Some(JVal::Array(rows)) => Some(rows),
            _ => None,
        },
    }
}

/// A stand-in row for a checklist that only counts its phases: the current
/// one (the first when none is named) shows the active phase, the others
/// are pending.
pub open spec fn synthetic_row(payload: JVal, longway: JVal, index: nat, current: Option<nat>) -> JVal {
    let is_current = match current {
        Some(c) => c == index,
        None => index == 0,
    };
    let name = text_or(text_at(longway, seq!["active_phase_name"@]), "item"@);
    let status = text_or(text_at(longway, seq!["active_phase_status"@]), "pending"@);
    let title = text_or(text_at(payload, seq!["current_task_card"@, "title"@]), name);
    JVal::Object(
        seq![
            ("status"@, JVal::Str(if is_current { status } else { "pending"@ })),
            ("title"@, JVal::Str(if is_current { title } else { name })),
        ],
    )
}

/// The rows a checklist renders (none when it has neither rows nor a phase
/// count).
pub open spec fn spec_checklist_rows(payload: JVal, longway: JVal) -> Option<Seq<JVal>> {
    match checklist_source_rows(longway) {
        Some(rows) if rows.len() > 0 => Some(rows),
        _ => {
            let n = count_at_member(longway, "phase_count"@);
            if n == 0 {
                None
            } else {
                Some(Seq::new(n, |i: int| synthetic_row(payload, longway, i as nat, spec_current_index(longway))))
            }
        },
    }
}

/// The `u64` member, or 0.
pub open spec fn count_at_member(j: JVal, key: Seq<char>) -> nat {
    match opt_u64(jget(j, key)) {
        Some(n) => n as nat,
        None => 0,
    }
}

/// Whether a line names a planned row.
pub open spec fn mentions_planned(line: Seq<char>) -> bool {
    crate::strings::contains_seq(line, "Planned:"@) || crate::strings::contains_seq(line, "plan:"@)
}

/// The checklist lines: the heading and one block per row, then the
/// LongWay's planned rows unless a block already shows planned rows.
pub open spec fn checklist_lines(payload: JVal, rows: Seq<JVal>, current: Option<nat>) -> Seq<Seq<char>> {
    let lines = seq!["LongWay"@] + Seq::new(rows.len(), |i: int| checklist_row_block(rows[i], i as nat, current));
    let planned = spec_longway_planned_rows(payload);
    if planned.len() > 0 && !(exists|i: int| 0 <= i < lines.len() && mentions_planned(#[trigger] lines[i])) {
        lines + planned
    } else {
        lines
    }
}

/// The LongWay checklist block of a payload with a LongWay.
pub open spec fn spec_longway_checklist_block(payload: JVal) -> Option<Seq<char>> {
    match jget(payload, "longway"@) {
        Some(lw) => match spec_checklist_rows(payload, lw) {
            Some(rows) => Some(join_with(checklist_lines(payload, rows, spec_current_index(lw)), "\n"@)),
            None => Some(join_with(seq!["LongWay"@] + spec_longway_planned_rows(payload), "\n"@)),
        },
        None => None,
    }
}

fn synthetic_rows(payload: &Json, longway: &Json, n: u64, current: Option<usize>) -> (r: Vec<Json>)
    requires
        current matches Some(c) ==> spec_current_index(jview(*longway)) == Some(c as nat),
        current is None ==> spec_current_index(jview(*longway)) is None,
    ensures
        jviews(r@) == Seq::new(
            n as nat,
            |i: int| synthetic_row(jview(*payload), jview(*longway), i as nat, spec_current_index(jview(*longway))),
        ),
{
    let ghost f = |i: int| synthetic_row(jview(*payload), jview(*longway), i as nat, spec_current_index(jview(*longway)));
    let name = or_text(text1(longway, "active_phase_name"), "item");
    let status = or_text(text1(longway, "active_phase_status"), "pending");
    let title = or_text(text2(payload, "current_task_card", "title"), name);
    let mut out: Vec<Json> = Vec::new();
    let mut i: u64 = 0;
    while i < n
        invariant
            i <= n,
            f == (|i: int| synthetic_row(jview(*payload), jview(*longway), i as nat, spec_current_index(jview(*longway)))),
            name@ == text_or(text_at(jview(*longway), seq!["active_phase_name"@]), "item"@),
            status@ == text_or(text_at(jview(*longway), seq!["active_phase_status"@]), "pending"@),
            title@ == text_or(text_at(jview(*payload), seq!["current_task_card"@, "title"@]), name@),
            current matches Some(c) ==> spec_current_index(jview(*longway)) == Some(c as nat),
            current is None ==> spec_current_index(jview(*longway)) is None,
            jviews(out@) == Seq::new(i as nat, f),
        decreases n - i,
    {
        let is_current = match current {
            Some(c) => (c as u64) == i,
            None => i == 0,
        };
        let mut m: Vec<(String, Json)> = Vec::new();
        m.push(crate::json::member("status", crate::json::jstr(if is_current { status } else { "pending" })));
        m.push(crate::json::member("title", crate::json::jstr(if is_current { title } else { name })));
        assert(crate::json::members_view(m@) =~= f(i as int)->Object_0);
        let row = crate::json::object_of(m);
        assert(jview(row) == f(i as int));
        let ghost before = jviews(out@);
        out.push(row);
        assert(jviews(out@) =~= before.push(f(i as int)));
        assert(jviews(out@) =~= Seq::new((i + 1) as nat, f));
        i = i + 1;
    }
    out
}

fn checklist_text_lines(payload: &Json, rows: &Vec<Json>, current: Option<usize>) -> (r: Vec<String>)
    ensures
        string_views(r@) == checklist_lines(
            jview(*payload),
            jviews(rows@),
            match current {
                Some(c) => Some(c as nat),
                None => None,
            },
        ),
{
    let ghost rv = jviews(rows@);
    let ghost cur = match current {
        Some(c) => Some(c as nat),
        None => None::<nat>,
    };
    let ghost g = |i: int| checklist_row_block(rv[i], i as nat, cur);
    let mut lines: Vec<String> = Vec::new();
    lines.push(to_owned("LongWay"));
    let mut found = false;
    assert(string_views(lines@) =~= seq!["LongWay"@]);
    assert(!mentions_planned("LongWay"@)) by {
        reveal_strlit("LongWay");
        reveal_strlit("Planned:");
        reveal_strlit("plan:");
        assert forall|k: int| !crate::strings::occurs_at("LongWay"@, "Planned:"@, k) by {
            if crate::strings::occurs_at("LongWay"@, "Planned:"@, k) {
                assert("LongWay"@.subrange(k, k + 8)[0] == 'P');
            }
        }
        assert forall|k: int| !crate::strings::occurs_at("LongWay"@, "plan:"@, k) by {
            if crate::strings::occurs_at("LongWay"@, "plan:"@, k) {
                assert("LongWay"@.subrange(k, k + 5)[4] == ':');
            }
        }
    }
    let mut i: usize = 0;
    while i < rows.len()
        invariant
            i <= rows.len(),
            rv == jviews(rows@),
            cur == (match current {
                Some(c) => Some(c as nat),
                None => None::<nat>,
            }),
            g == (|i: int| checklist_row_block(rv[i], i as nat, cur)),
            string_views(lines@) == seq!["LongWay"@] + Seq::new(i as nat, g),
            found == (exists|k: int| 0 <= k < lines@.len() && mentions_planned(#[trigger] string_views(lines@)[k])),
        decreases rows.len() - i,
    {
        assert(rv[i as int] == jview(rows@[i as int]));
        let block = checklist_row_text(&rows[i], i, current);
        let hit = crate::strings::contains(block.as_str(), "Planned:") || crate::strings::contains(block.as_str(), "plan:");
        let ghost before = string_views(lines@);
        let ghost bv = block@;
        lines.push(block);
        assert(string_views(lines@) =~= before.push(bv));
        assert(string_views(lines@) =~= seq!["LongWay"@] + Seq::new((i + 1) as nat, g));
        let ghost after = string_views(lines@);
        assert((found || hit) == (exists|k: int| 0 <= k < lines@.len() && mentions_planned(#[trigger] after[k]))) by {
            if found {
                let k = choose|k: int| 0 <= k < before.len() && mentions_planned(#[trigger] before[k]);
                assert(after[k] == before[k]);
            }
            if hit {
                assert(after[before.len() as int] == bv);
            }
            if exists|k: int| 0 <= k < lines@.len() && mentions_planned(#[trigger] after[k]) {
                let k = choose|k: int| 0 <= k < lines@.len() && mentions_planned(#[trigger] after[k]);
                if k < before.len() {
                    assert(after[k] == before[k]);
                } else {
                    assert(after[k] == bv);
                }
            }
        }
        found = found || hit;
        i = i + 1;
    }
    let planned = build_longway_planned_rows(payload);
    assert(string_views(lines@) =~= seq!["LongWay"@] + Seq::new(rv.len(), |i: int| checklist_row_block(rv[i], i as nat, cur)));
    if planned.len() > 0 && !found {
        let ghost mid = string_views(lines@);
        let ghost pv = string_views(planned@);
        let mut k: usize = 0;
        while k < planned.len()
            invariant
                k <= planned.len(),
                pv == string_views(planned@),
                string_views(lines@) == mid + pv.take(k as int),
            decreases planned.len() - k,
        {
            assert(pv[k as int] == planned@[k as int]@);
            let s = to_owned(planned[k].as_str());
            let ghost before = string_views(lines@);
            let ghost sv = s@;
            lines.push(s);
            assert(string_views(lines@) =~= before.push(sv));
            assert(string_views(lines@) =~= mid + pv.take(k + 1));
            k = k + 1;
        }
        assert(pv.take(planned.len() as int) =~= pv);
    }
    lines
}

pub fn build_longway_checklist_block(payload: &Json) -> (r: Option<String>)
    ensures
        opt_string_view(r) == spec_longway_checklist_block(jview(*payload)),
{
    let lw = match payload.get("longway") {
        Some(l) => l,
        None => return None,
    };
    let current = current_index(lw);
    let source: Option<&Vec<Json>> = match lw.get("phase_rows") {
        Some(Json::Array(rows)) => {
            proof {
                crate::json::lemma_array_view(*rows);
            }
            Some(rows)
        },
        _ => match lw.get("phases") {
            Some(Json::Array(rows)) => {
                proof {
                    crate::json::lemma_array_view(*rows);
                }
                Some(rows)
            },
            _ => None,
        },
    };
    match source {
        Some(rows) => if rows.len() > 0 {
            let lines = checklist_text_lines(payload, rows, current);
            return Some(join_strings(&lines, "\n"));
        },
        None => {},
    }
    let n: u64 = match lw.get("phase_count") {
        Some(v) => match v.as_u64() {
            Some(n) => n,
            None => 0,
        },
        None => 0,
    };
    if n == 0 {
        let planned = build_longway_planned_rows(payload);
        let mut lines: Vec<String> = Vec::new();
        lines.push(to_owned("LongWay"));
        let ghost pv = string_views(planned@);
        let ghost head = string_views(lines@);
        assert(head =~= seq!["LongWay"@]);
        let mut k: usize = 0;
        while k < planned.len()
            invariant
                k <= planned.len(),
                pv == string_views(planned@),
                string_views(lines@) == head + pv.take(k as int),
            decreases planned.len() - k,
        {
            assert(pv[k as int] == planned@[k as int]@);
            let s = to_owned(planned[k].as_str());
            let ghost before = string_views(lines@);
            let ghost sv = s@;
            lines.push(s);
            assert(string_views(lines@) =~= before.push(sv));
            assert(string_views(lines@) =~= head + pv.take(k + 1));
            k = k + 1;
        }
        assert(pv.take(planned.len() as int) =~= pv);
        return Some(join_strings(&lines, "\n"));
    }
    let rows = synthetic_rows(payload, lw, n, current);
    let lines = checklist_text_lines(payload, &rows, current);
    Some(join_strings(&lines, "\n"))
}

/// The checklist status words and marks, spelled out.
proof fn lemma_checklist_words_spelled()
    ensures
        " "@.len() == 1,
        " "@[0] == ' ',
        "!"@.len() == 1,
        "!"@[0] == '!',
        "-"@.len() == 1,
        "-"@[0] == '-',
        ">"@.len() == 1,
        ">"@[0] == '>',
        "active"@.len() == 6,
        "active"@[0] == 'a',
        "blocked"@.len() == 7,
        "blocked"@[0] == 'b',
        "canceled"@.len() == 8,
        "cancelled"@.len() == 9,
        "cancelled"@[0] == 'c',
        "cancelled"@[1] == 'a',
        "completed"@.len() == 9,
        "completed"@[0] == 'c',
        "completed"@[1] == 'o',
        "failed"@.len() == 6,
        "failed"@[0] == 'f',
        "in_progress"@.len() == 11,
        "materialized"@.len() == 12,
        "pending"@.len() == 7,
        "pending"@[0] == 'p',
        "ready"@.len() == 5,
        "running"@.len() == 7,
        "running"@[0] == 'r',
        "skipped"@.len() == 7,
        "skipped"@[0] == 's',
        "x"@.len() == 1,
        "x"@[0] == 'x',
{
    reveal_strlit(" ");
    reveal_strlit("!");
    reveal_strlit("-");
    reveal_strlit(">");
    reveal_strlit("active");
    reveal_strlit("blocked");
    reveal_strlit("canceled");
    reveal_strlit("cancelled");
    reveal_strlit("completed");
    reveal_strlit("failed");
    reveal_strlit("in_progress");
    reveal_strlit("materialized");
    reveal_strlit("pending");
    reveal_strlit("ready");
    reveal_strlit("running");
    reveal_strlit("skipped");
    reveal_strlit("x");
}

/// A LongWay phase is checked off (`x`) exactly when it completed, flagged
/// (`!`) exactly when it failed, struck (`-`) exactly when it was
/// cancelled, marked `>` exactly when it runs (or is the current pending
/// phase), and left blank otherwise: completed, failed, cancelled and
/// in-progress phases never share a mark.
pub proof fn lemma_checklist_mark_classes(s: Seq<char>, is_current: bool)
    ensures
        checklist_mark(Some(s), is_current) == "x"@ <==> (s == "completed"@),
        checklist_mark(Some(s), is_current) == "!"@ <==> (s == "failed"@),
        checklist_mark(Some(s), is_current) == "-"@ <==> (s == "cancelled"@ || s == "canceled"@),
        checklist_mark(Some(s), is_current) == ">"@ <==> ((s == "in_progress"@ || s == "running"@ || s == "active"@) || (s == "pending"@ && is_current)),
        checklist_mark(Some(s), is_current) == " "@ <==> !((s == "completed"@) || (s == "failed"@) || (s == "cancelled"@ || s == "canceled"@) || ((s == "in_progress"@ || s == "running"@ || s == "active"@) || (s == "pending"@ && is_current))),
        checklist_mark(None, is_current) == " "@,
{
    lemma_checklist_words_spelled();
}

/// A planned LongWay row is checked off exactly when it was materialized,
/// flagged exactly when it is blocked, struck exactly when it was cancelled
/// or skipped, marked `>` exactly when it is ready, and blank otherwise.
pub proof fn lemma_planned_row_mark_classes(s: Seq<char>)
    ensures
        planned_row_mark(Some(s)) == "x"@ <==> (s == "materialized"@),
        planned_row_mark(Some(s)) == "!"@ <==> (s == "blocked"@),
        planned_row_mark(Some(s)) == "-"@ <==> (s == "cancelled"@ || s == "skipped"@),
        planned_row_mark(Some(s)) == ">"@ <==> (s == "ready"@),
        planned_row_mark(Some(s)) == " "@ <==> !((s == "materialized"@) || (s == "blocked"@) || (s == "cancelled"@ || s == "skipped"@) || (s == "ready"@)),
        planned_row_mark(None) == " "@,
{
    lemma_checklist_words_spelled();
}


proof fn lemma_join_with_has_item(items: Seq<Seq<char>>, sep: Seq<char>, k: int)
    requires
        0 <= k < items.len(),
    ensures
        crate::strings::contains_seq(join_with(items, sep), items[k]),
    decreases items.len(),
{
    if items.len() == 1 {
        assert(join_with(items, sep).subrange(0, items[0].len() as int) =~= items[0]);
        assert(crate::strings::occurs_at(join_with(items, sep), items[k], 0));
    } else {
        let j = join_with(items.drop_last(), sep);
        let whole = join_with(items, sep);
        assert(whole == j + sep + items.last());
        if k == items.len() - 1 {
            let a: int = (j.len() + sep.len()) as int;
            assert(whole.subrange(a, a + items[k].len()) =~= items[k]);
            assert(crate::strings::occurs_at(whole, items[k], a));
        } else {
            lemma_join_with_has_item(items.drop_last(), sep, k);
            assert(items.drop_last()[k] == items[k]);
            let i = choose|i: int| crate::strings::occurs_at(j, items[k], i);
            assert(whole.subrange(i, i + items[k].len()) =~= j.subrange(i, i + items[k].len()));
            assert(crate::strings::occurs_at(whole, items[k], i));
        }
    }
}

proof fn lemma_join_with_first_prefix(items: Seq<Seq<char>>, sep: Seq<char>)
    requires
        items.len() > 0,
    ensures
        crate::strings::has_prefix(join_with(items, sep), items[0]),
    decreases items.len(),
{
    if items.len() == 1 {
        assert(join_with(items, sep).take(items[0].len() as int) =~= items[0]);
    } else {
        lemma_join_with_first_prefix(items.drop_last(), sep);
        let j = join_with(items.drop_last(), sep);
        assert(items.drop_last()[0] == items[0]);
        assert((j + sep + items.last()).take(items[0].len() as int) =~= j.take(items[0].len() as int));
    }
}

/// Every phase row of the LongWay shows up in its checklist block, and the
/// row's line opens with its mark in brackets: `[!] ` for a failed phase,
/// `[x] ` for a completed one (see `lemma_checklist_mark_classes`).
pub proof fn lemma_longway_block_marks_each_row(payload: JVal, i: int)
    requires
        jget(payload, "longway"@) is Some,
        spec_checklist_rows(payload, jget(payload, "longway"@)->0) is Some,
        0 <= i < spec_checklist_rows(payload, jget(payload, "longway"@)->0)->0.len(),
    ensures
        ({
            let lw = jget(payload, "longway"@)->0;
            let rows = spec_checklist_rows(payload, lw)->0;
            let cur = spec_current_index(lw);
            let row_block = checklist_row_block(rows[i], i as nat, cur);
            let mark = checklist_mark(jstr_field(rows[i], "status"@), cur == Some(i as nat));
            &&& spec_longway_checklist_block(payload) is Some
            &&& crate::strings::contains_seq(spec_longway_checklist_block(payload)->0, row_block)
            &&& crate::strings::has_prefix(row_block, "["@ + mark + "] "@)
        }),
{
    let lw = jget(payload, "longway"@)->0;
    let rows = spec_checklist_rows(payload, lw)->0;
    let cur = spec_current_index(lw);
    let lines0 = seq!["LongWay"@] + Seq::new(rows.len(), |j: int| checklist_row_block(rows[j], j as nat, cur));
    let lines = checklist_lines(payload, rows, cur);
    assert(lines0[i + 1] == checklist_row_block(rows[i], i as nat, cur));
    assert(lines[i + 1] == lines0[i + 1]);
    lemma_join_with_has_item(lines, "\n"@, i + 1);
    let mark = checklist_mark(jstr_field(rows[i], "status"@), cur == Some(i as nat));
    let head = spec_longway_phase_row(mark, checklist_work_item(rows[i]), text_at(rows[i], seq!["owner_agent"@]), rows[i]);
    let parts = seq![head] + spec_row_lifecycle_detail_lines(rows[i]) + spec_row_planned_row_lines(rows[i]);
    assert(parts[0] == head);
    lemma_join_with_first_prefix(parts, "\n"@);
    let pre = "["@ + mark + "] "@;
    assert(head.take(pre.len() as int) =~= pre);
    let rb = join_with(parts, "\n"@);
    assert(rb.take(pre.len() as int) =~= head.take(pre.len() as int));
}

} // verus!
