//! The scheduler's view of a run: how many LongWay planned rows are pending
//! or materialized, where the current selection came from, which state the
//! scheduler is in, which action it takes, and the state contract that the
//! captain decision imposes.

use vstd::prelude::*;
use crate::json::{
    get_or, jbool, jget, jget_or, jget_path, jinsert, jint, juint, jremove, jstr, jstr_array, jstr_field, jstring, jview,
    lemma_array_view, member, members_view, object_of, remove_member, JVal, Json,
};
use crate::strings::{is_blank, opt_str_is, str_eq, trim, trim_string};
use crate::status_templates::{first_nonblank_field, jpath_or, path_or, trace_member};
use crate::text_utils::{summarize_text_for_visibility, summary_of};
use crate::worker_fleet::{count_where, jviews};
use crate::json::lemma_jmember_index_scan;
use crate::captain_decision::{
    spec_decision_kind, spec_decision_texts, spec_post_fan_in_payload, spec_role_gate_family,
    spec_run_is_terminal, spec_run_status, CaptainDecisionKind,
};

verus! {

/// The LongWay's planned rows, when it has an array of them.
pub open spec fn planned_rows_of(longway: JVal) -> Option<Seq<JVal>> {
    match jget(longway, "planned_rows"@) {
        Some(JVal::Array(rows)) => Some(rows),
        _ => None,
    }
}

fn planned_rows(longway: &Json) -> (r: Option<&Vec<Json>>)
    ensures
        match r {
            Some(rows) => planned_rows_of(jview(*longway)) == Some(jviews(rows@)),
            None => planned_rows_of(jview(*longway)) is None,
        },
{
    match longway.get("planned_rows") {
        Some(v) => match v {
            Json::Array(rows) => {
                proof {
                    lemma_array_view(*rows);
                }
                Some(rows)
            },
            _ => None,
        },
        None => None,
    }
}

/// The row has a task card id that is not blank.
pub open spec fn row_has_task_card(row: JVal) -> bool {
    match jstr_field(row, "task_card_id"@) {
        Some(s) => trim(s).len() > 0,
        None => false,
    }
}

fn has_task_card(row: &Json) -> (r: bool)
    ensures
        r == row_has_task_card(jview(*row)),
{
    match row.str_field("task_card_id") {
        Some(s) => !is_blank(s),
        None => false,
    }
}

/// How many planned rows have status `status`.
pub open spec fn spec_count_planned_rows_with_status(longway: JVal, status: Seq<char>) -> nat {
    match planned_rows_of(longway) {
        Some(rows) => count_where(rows, |r: JVal| jstr_field(r, "status"@) == Some(status)),
        None => 0,
    }
}

pub fn count_planned_rows_with_status(longway: &Json, status: &str) -> (r: usize)
    ensures
        r == spec_count_planned_rows_with_status(jview(*longway), status@),
{
    let rows = match planned_rows(longway) {
        Some(rows) => rows,
        None => {
            return 0;
        },
    };
    let ghost wv = jviews(rows@);
    let ghost f = |w: JVal| jstr_field(w, "status"@) == Some(status@);
    let mut n: usize = 0;
    let mut i: usize = 0;
    assert(wv.take(0) =~= Seq::<JVal>::empty());
    while i < rows.len()
        invariant
            i <= rows.len(),
            wv == jviews(rows@),
            f == (|w: JVal| jstr_field(w, "status"@) == Some(status@)),
            n == count_where(wv.take(i as int), f),
            n <= i,
        decreases rows.len() - i,
    {
        proof {
            assert(wv.take(i + 1).drop_last() =~= wv.take(i as int));
            assert(wv.take(i + 1).last() == jview(rows@[i as int]));
        }
        if opt_str_is(rows[i].str_field("status"), status) {
            n = n + 1;
        }
        i = i + 1;
    }
    assert(wv.take(rows.len() as int) =~= wv);
    n
}

/// The row has been materialized into a task card or has moved past
/// planning: it has a task card id, or its status is materialized, running,
/// completed, passed or merged.
pub open spec fn row_materialized_or_completed(row: JVal) -> bool {
    let s = jstr_field(row, "status"@);
    row_has_task_card(row) || s == Some("materialized"@) || s == Some("running"@) || s == Some(
        "completed"@,
    ) || s == Some("passed"@) || s == Some("merged"@)
}

/// How many planned rows are materialized or past planning.
pub open spec fn spec_count_materialized_or_completed(longway: JVal) -> nat {
    match planned_rows_of(longway) {
        Some(rows) => count_where(rows, |r: JVal| row_materialized_or_completed(r)),
        None => 0,
    }
}

fn is_materialized_or_completed(row: &Json) -> (r: bool)
    ensures
        r == row_materialized_or_completed(jview(*row)),
{
    let s = row.str_field("status");
    has_task_card(row) || opt_str_is(s, "materialized") || opt_str_is(s, "running") || opt_str_is(
        s,
        "completed",
    ) || opt_str_is(s, "passed") || opt_str_is(s, "merged")
}

pub fn count_materialized_or_completed_planned_rows(longway: &Json) -> (r: usize)
    ensures
        r == spec_count_materialized_or_completed(jview(*longway)),
{
    let rows = match planned_rows(longway) {
        Some(rows) => rows,
        None => {
            return 0;
        },
    };
    let ghost wv = jviews(rows@);
    let ghost f = |w: JVal| row_materialized_or_completed(w);
    let mut n: usize = 0;
    let mut i: usize = 0;
    assert(wv.take(0) =~= Seq::<JVal>::empty());
    while i < rows.len()
        invariant
            i <= rows.len(),
            wv == jviews(rows@),
            f == (|w: JVal| row_materialized_or_completed(w)),
            n == count_where(wv.take(i as int), f),
            n <= i,
        decreases rows.len() - i,
    {
        proof {
            assert(wv.take(i + 1).drop_last() =~= wv.take(i as int));
            assert(wv.take(i + 1).last() == jview(rows@[i as int]));
        }
        if is_materialized_or_completed(&rows[i]) {
            n = n + 1;
        }
        i = i + 1;
    }
    assert(wv.take(rows.len() as int) =~= wv);
    n
}

/// A row still waiting to be materialized: planned, with no task card.
pub open spec fn row_is_pending(row: JVal) -> bool {
    jstr_field(row, "status"@) == Some("planned"@) && !row_has_task_card(row)
}

/// The first row that satisfies `f`.
pub open spec fn first_where(rows: Seq<JVal>, f: spec_fn(JVal) -> bool) -> Option<JVal>
    decreases rows.len(),
{
    if rows.len() == 0 {
        None
    } else if f(rows[0]) {
        Some(rows[0])
    } else {
        first_where(rows.drop_first(), f)
    }
}

/// The first pending planned row, or `null`.
pub open spec fn spec_next_pending_planned_row(longway: JVal) -> JVal {
    match planned_rows_of(longway) {
        Some(rows) => match first_where(rows, |r: JVal| row_is_pending(r)) {
            Some(r) => r,
            None => JVal::Null,
        },
        None => JVal::Null,
    }
}

pub fn next_pending_planned_row(longway: &Json) -> (r: Json)
    ensures
        jview(r) == spec_next_pending_planned_row(jview(*longway)),
{
    let rows = match planned_rows(longway) {
        Some(rows) => rows,
        None => {
            return Json::Null;
        },
    };
    let ghost wv = jviews(rows@);
    let ghost f = |w: JVal| row_is_pending(w);
    let mut i: usize = 0;
    assert(wv.skip(0) =~= wv);
    while i < rows.len()
        invariant
            i <= rows.len(),
            wv == jviews(rows@),
            f == (|w: JVal| row_is_pending(w)),
            first_where(wv, f) == first_where(wv.skip(i as int), f),
            planned_rows_of(jview(*longway)) == Some(wv),
        decreases rows.len() - i,
    {
        proof {
            assert(wv.skip(i as int)[0] == jview(rows@[i as int]));
            assert(wv.skip(i as int).drop_first() =~= wv.skip(i + 1));
        }
        if opt_str_is(rows[i].str_field("status"), "planned") && !has_task_card(&rows[i]) {
            proof {
                assert(row_is_pending(jview(rows@[i as int])));
                assert(f(wv.skip(i as int)[0]));
                assert(wv.skip(i as int).len() > 0);
                assert(first_where(wv.skip(i as int), f) == Some(wv.skip(i as int)[0]));
                assert(first_where(wv, f) == Some(jview(rows@[i as int])));
                assert(f =~= (|r: JVal| row_is_pending(r)));
                assert(planned_rows_of(jview(*longway)) == Some(wv));
                assert(first_where(wv, |r: JVal| row_is_pending(r)) == Some(jview(rows@[i as int])));
            }
            let out = rows[i].deep_clone();
            assert(jview(out) == jview(rows@[i as int]));
            return out;
        }
        i = i + 1;
    }
    assert(wv.skip(i as int).len() == 0);
    assert(f =~= (|r: JVal| row_is_pending(r)));
    Json::Null
}

/// Where the scheduler's current selection came from: a materialized planned
/// row, a bounded parallel fan-out, the fan-in barrier, a pending LongWay
/// approval, or else the approved LongWay task cards.
pub open spec fn spec_scheduler_decision_source(task: JVal, next_step: Seq<char>, fan_in_ready: bool) -> Seq<
    char,
> {
    if jget(task, "planned_longway_row"@) matches Some(JVal::Object(_)) {
        "planned_row_materialization"@
    } else if jget(task, "parallel_fanout"@) matches Some(JVal::Object(_)) {
        "bounded_parallel_fanout"@
    } else if fan_in_ready || next_step == "await_fan_in"@ {
        "fan_in_barrier"@
    } else if next_step == "await_longway_approval"@ {
        "pending_longway_approval"@
    } else {
        "approved_longway_task_cards"@
    }
}

fn member_is_object(j: &Json, key: &str) -> (r: bool)
    ensures
        r == (jget(jview(*j), key@) matches Some(JVal::Object(_))),
{
    match j.get(key) {
        Some(v) => v.is_object(),
        None => false,
    }
}

pub fn scheduler_decision_source(current_task_card: &Json, next_step: &str, fan_in_ready: bool) -> (r:
    &'static str)
    ensures
        r@ == spec_scheduler_decision_source(jview(*current_task_card), next_step@, fan_in_ready),
{
    if member_is_object(current_task_card, "planned_longway_row") {
        "planned_row_materialization"
    } else if member_is_object(current_task_card, "parallel_fanout") {
        "bounded_parallel_fanout"
    } else if fan_in_ready || str_eq(next_step, "await_fan_in") {
        "fan_in_barrier"
    } else if str_eq(next_step, "await_longway_approval") {
        "pending_longway_approval"
    } else {
        "approved_longway_task_cards"
    }
}

/// The scheduler's state: terminal for a finished run status, blocked on a
/// LongWay approval, waiting for fan-in, running a parallel fan-out, holding
/// a selected task, able to select the next one, or at a checkpoint.
pub open spec fn spec_scheduler_state(
    status: JVal,
    next_step: Seq<char>,
    can_advance: bool,
    fan_in_ready: bool,
    task: JVal,
) -> Seq<char> {
    if status == JVal::Str("completed"@) || status == JVal::Str("failed"@) || status == JVal::Str(
        "cancelled"@,
    ) || status == JVal::Str("blocked"@) {
        "terminal"@
    } else if next_step == "await_longway_approval"@ {
        "blocked"@
    } else if fan_in_ready || next_step == "await_fan_in"@ {
        "await_fan_in"@
    } else if jget(task, "parallel_fanout"@) matches Some(JVal::Object(_)) {
        "parallel"@
    } else if next_step == "execute_task"@ {
        "selected"@
    } else if can_advance || next_step == "advance"@ {
        "select_next"@
    } else {
        "checkpoint"@
    }
}

pub fn scheduler_state(
    status: &Json,
    next_step: &str,
    can_advance: bool,
    fan_in_ready: bool,
    current_task_card: &Json,
) -> (r: &'static str)
    ensures
        r@ == spec_scheduler_state(
            jview(*status),
            next_step@,
            can_advance,
            fan_in_ready,
            jview(*current_task_card),
        ),
{
    let s = status.as_str();
    if opt_str_is(s, "completed") || opt_str_is(s, "failed") || opt_str_is(s, "cancelled")
        || opt_str_is(s, "blocked") {
        "terminal"
    } else if str_eq(next_step, "await_longway_approval") {
        "blocked"
    } else if fan_in_ready || str_eq(next_step, "await_fan_in") {
        "await_fan_in"
    } else if member_is_object(current_task_card, "parallel_fanout") {
        "parallel"
    } else if str_eq(next_step, "execute_task") {
        "selected"
    } else if can_advance || str_eq(next_step, "advance") {
        "select_next"
    } else {
        "checkpoint"
    }
}

/// The captain decision precedences whose scheduler action the scheduler
/// follows.
pub open spec fn is_canonical_precedence(p: Seq<char>) -> bool {
    p == "terminal"@ || p == "operator"@ || p == "longway_approval"@ || p == "review_pass_cap"@ || p
        == "review_needs_work"@ || p == "review_gate"@ || p == "recovery"@ || p
        == "mutation_evidence"@
}

/// The kind and reason of the scheduler action. Unless the selection came
/// from a parallel fan-out or a materialized row, a blocking captain decision
/// (terminal, operator, approval, review, recovery or mutation evidence)
/// dictates it through its scheduler action; otherwise the decision source,
/// the state and the next step do.
pub open spec fn spec_scheduler_action_kind_reason(
    state: Seq<char>,
    source: Seq<char>,
    next_step: Seq<char>,
    can_advance: bool,
    fan_in_ready: bool,
    decision: JVal,
) -> (Seq<char>, Seq<char>) {
    let precedence = match jstr_field(decision, "precedence"@) {
        Some(p) => p,
        None => ""@,
    };
    let preserve = source == "bounded_parallel_fanout"@ || source == "planned_row_materialization"@;
    if !preserve && is_canonical_precedence(precedence) {
        match jget(decision, "scheduler_action"@) {
            Some(JVal::Object(am)) => (
                match jstr_field(JVal::Object(am), "kind"@) {
                    Some(k) => k,
                    None => "checkpoint"@,
                },
                match jstr_field(JVal::Object(am), "reason"@) {
                    Some(r) => r,
                    None => "scheduler followed the canonical post-fan-in captain decision"@,
                },
            ),
            _ => ("checkpoint"@, "scheduler followed the canonical post-fan-in captain decision"@),
        }
    } else if source == "bounded_parallel_fanout"@ {
        if fan_in_ready {
            (
                "parallel_fan_in_ready"@,
                "all required parallel lanes are terminal and compact fan-in can be consumed"@,
            )
        } else if next_step == "await_fan_in"@ {
            (
                "await_parallel_fan_in"@,
                "bounded parallel fan-out is waiting for all required lanes to return fan-in"@,
            )
        } else {
            ("bounded_parallel_fanout"@, "scheduler selected bounded parallel fan-out for the active task"@)
        }
    } else if source == "planned_row_materialization"@ {
        (
            "materialized_planned_row"@,
            "scheduler selected the active task from a materialized LongWay planned row"@,
        )
    } else if source == "fan_in_barrier"@ {
        ("await_fan_in"@, "scheduler is waiting for compact fan-in before selecting the next task"@)
    } else if source == "pending_longway_approval"@ {
        ("await_longway_approval"@, "scheduler is blocked until the pending LongWay is approved"@)
    } else if state == "terminal"@ {
        ("terminal"@, "scheduler observed a terminal run state"@)
    } else if next_step == "execute_task"@ {
        (
            "dispatch_selected_task"@,
            "scheduler selected the current approved task for specialist dispatch"@,
        )
    } else if can_advance || next_step == "advance"@ {
        ("select_next"@, "scheduler can advance captain selection to the next bounded action"@)
    } else {
        ("checkpoint"@, "scheduler recorded a non-dispatch checkpoint"@)
    }
}

fn str_or<'a>(o: Option<&'a str>, fallback: &'a str) -> (r: &'a str)
    ensures
        r@ == match crate::strings::opt_view(o) {
            Some(s) => s,
            None => fallback@,
        },
{
    match o {
        Some(s) => s,
        None => fallback,
    }
}

fn scheduler_action_kind_reason<'a>(
    state: &str,
    decision_source: &str,
    next_step: &str,
    can_advance: bool,
    fan_in_ready: bool,
    decision: &'a Json,
) -> (r: (&'a str, &'a str))
    ensures
        (r.0@, r.1@) == spec_scheduler_action_kind_reason(
            state@,
            decision_source@,
            next_step@,
            can_advance,
            fan_in_ready,
            jview(*decision),
        ),
{
    let precedence = str_or(decision.str_field("precedence"), "");
    let preserve = str_eq(decision_source, "bounded_parallel_fanout") || str_eq(
        decision_source,
        "planned_row_materialization",
    );
    let canonical = str_eq(precedence, "terminal") || str_eq(precedence, "operator") || str_eq(
        precedence,
        "longway_approval",
    ) || str_eq(precedence, "review_pass_cap") || str_eq(precedence, "review_needs_work") || str_eq(
        precedence,
        "review_gate",
    ) || str_eq(precedence, "recovery") || str_eq(precedence, "mutation_evidence");
    if !preserve && canonical {
        match decision.get("scheduler_action") {
            Some(action) => {
                if action.is_object() {
                    return (
                        str_or(action.str_field("kind"), "checkpoint"),
                        str_or(
                            action.str_field("reason"),
                            "scheduler followed the canonical post-fan-in captain decision",
                        ),
                    );
                }
            },
            None => {},
        }
        ("checkpoint", "scheduler followed the canonical post-fan-in captain decision")
    } else if str_eq(decision_source, "bounded_parallel_fanout") {
        if fan_in_ready {
            (
                "parallel_fan_in_ready",
                "all required parallel lanes are terminal and compact fan-in can be consumed",
            )
        } else if str_eq(next_step, "await_fan_in") {
            (
                "await_parallel_fan_in",
                "bounded parallel fan-out is waiting for all required lanes to return fan-in",
            )
        } else {
            ("bounded_parallel_fanout", "scheduler selected bounded parallel fan-out for the active task")
        }
    } else if str_eq(decision_source, "planned_row_materialization") {
        (
            "materialized_planned_row",
            "scheduler selected the active task from a materialized LongWay planned row",
        )
    } else if str_eq(decision_source, "fan_in_barrier") {
        ("await_fan_in", "scheduler is waiting for compact fan-in before selecting the next task")
    } else if str_eq(decision_source, "pending_longway_approval") {
        ("await_longway_approval", "scheduler is blocked until the pending LongWay is approved")
    } else if str_eq(state, "terminal") {
        ("terminal", "scheduler observed a terminal run state")
    } else if str_eq(next_step, "execute_task") {
        ("dispatch_selected_task", "scheduler selected the current approved task for specialist dispatch")
    } else if can_advance || str_eq(next_step, "advance") {
        ("select_next", "scheduler can advance captain selection to the next bounded action")
    } else {
        ("checkpoint", "scheduler recorded a non-dispatch checkpoint")
    }
}

/// The scheduler action: its kind and reason, the next step, whether the run
/// can advance, the selected task card and the captain decision's
/// precedence.
pub open spec fn spec_scheduler_status_action(
    state: Seq<char>,
    source: Seq<char>,
    next_step: Seq<char>,
    can_advance: bool,
    fan_in_ready: bool,
    task: JVal,
    decision: JVal,
) -> JVal {
    let kr = spec_scheduler_action_kind_reason(state, source, next_step, can_advance, fan_in_ready, decision);
    JVal::Object(
        seq![
            ("kind"@, JVal::Str(kr.0)),
            ("reason"@, JVal::Str(kr.1)),
            ("next_step"@, JVal::Str(next_step)),
            ("can_advance"@, JVal::Bool(can_advance)),
            ("selected_task_card_id"@, jget_or(task, "task_card_id"@, JVal::Null)),
            ("captain_decision_precedence"@, jget_or(decision, "precedence"@, JVal::Null)),
        ],
    )
}

pub fn scheduler_status_action(
    state: &str,
    decision_source: &str,
    next_step: &str,
    can_advance: bool,
    fan_in_ready: bool,
    current_task_card: &Json,
    post_fan_in_captain_decision: &Json,
) -> (r: Json)
    ensures
        jview(r) == spec_scheduler_status_action(
            state@,
            decision_source@,
            next_step@,
            can_advance,
            fan_in_ready,
            jview(*current_task_card),
            jview(*post_fan_in_captain_decision),
        ),
{
    let (kind, reason) = scheduler_action_kind_reason(
        state,
        decision_source,
        next_step,
        can_advance,
        fan_in_ready,
        post_fan_in_captain_decision,
    );
    let mut m: Vec<(String, Json)> = Vec::new();
    m.push(member("kind", jstr(kind)));
    m.push(member("reason", jstr(reason)));
    m.push(member("next_step", jstr(next_step)));
    m.push(member("can_advance", jbool(can_advance)));
    m.push(member("selected_task_card_id", get_or(current_task_card, "task_card_id", Json::Null)));
    m.push(
        member(
            "captain_decision_precedence",
            get_or(post_fan_in_captain_decision, "precedence", Json::Null),
        ),
    );
    let r = object_of(m);
    assert(members_view(m@) =~= spec_scheduler_status_action(
        state@,
        decision_source@,
        next_step@,
        can_advance,
        fan_in_ready,
        jview(*current_task_card),
        jview(*post_fan_in_captain_decision),
    )->Object_0);
    r
}

/// The transitions the state contract allows after a decision of the given
/// precedence.
pub open spec fn spec_allowed_next_transitions(precedence: Seq<char>) -> Seq<Seq<char>> {
    if precedence == "terminal"@ {
        seq!["report_terminal_status"@]
    } else if precedence == "operator"@ {
        seq!["answer_way_clarification"@]
    } else if precedence == "longway_approval"@ {
        seq!["approve_longway"@]
    } else if precedence == "review_pass_cap"@ || precedence == "review_needs_work"@ || precedence
        == "review_gate"@ {
        seq!["accept_review"@, "repair"@, "reassign"@, "block"@]
    } else if precedence == "recovery"@ {
        seq!["retry"@, "reassign"@, "record_fallback"@, "close_host_thread"@]
    } else if precedence == "await_fan_in"@ {
        seq!["record_fan_in"@, "record_fallback"@]
    } else if precedence == "dispatch"@ {
        seq!["dispatch_specialist"@, "record_fan_in"@, "record_fallback"@]
    } else {
        seq!["report"@, "dispatch_next"@, "retry"@, "reassign"@, "block"@]
    }
}

fn allowed_next_transitions(precedence: &str) -> (r: Vec<&'static str>)
    ensures
        r@.map_values(|s: &str| s@) == spec_allowed_next_transitions(precedence@),
{
    let r: Vec<&'static str> = if str_eq(precedence, "terminal") {
        vec!["report_terminal_status"]
    } else if str_eq(precedence, "operator") {
        vec!["answer_way_clarification"]
    } else if str_eq(precedence, "longway_approval") {
        vec!["approve_longway"]
    } else if str_eq(precedence, "review_pass_cap") || str_eq(precedence, "review_needs_work")
        || str_eq(precedence, "review_gate") {
        vec!["accept_review", "repair", "reassign", "block"]
    } else if str_eq(precedence, "recovery") {
        vec!["retry", "reassign", "record_fallback", "close_host_thread"]
    } else if str_eq(precedence, "await_fan_in") {
        vec!["record_fan_in", "record_fallback"]
    } else if str_eq(precedence, "dispatch") {
        vec!["dispatch_specialist", "record_fan_in", "record_fallback"]
    } else {
        vec!["report", "dispatch_next", "retry", "reassign", "block"]
    };
    assert(r@.map_values(|s: &str| s@) =~= spec_allowed_next_transitions(precedence@));
    r
}

/// The precedence of a captain decision, `advance` when it names none.
pub open spec fn spec_decision_precedence(decision: JVal) -> Seq<char> {
    match jstr_field(decision, "precedence"@) {
        Some(p) => p,
        None => "advance"@,
    }
}

/// The state contract: the decision's state, gate and artifact (with the
/// captain-decision defaults), the next step, the transitions its precedence
/// allows, the captain's required and allowed actions, the task's identity,
/// its mutation evidence gate and the decision.
pub open spec fn spec_state_contract(
    task: JVal,
    next_step: Seq<char>,
    can_advance: bool,
    contract: JVal,
    decision: JVal,
) -> JVal {
    JVal::Object(
        seq![
            ("schema"@, JVal::Str("ccc.state_contract.v1"@)),
            ("source"@, JVal::Str("status_payload"@)),
            (
                "state"@,
                JVal::Str(
                    match jstr_field(decision, "state"@) {
                        Some(s) => s,
                        None => "decision_pending"@,
                    },
                ),
            ),
            (
                "active_gate"@,
                JVal::Str(
                    match jstr_field(decision, "active_gate"@) {
                        Some(s) => s,
                        None => "captain_decision"@,
                    },
                ),
            ),
            (
                "required_artifact"@,
                JVal::Str(
                    match jstr_field(decision, "required_artifact"@) {
                        Some(s) => s,
                        None => "captain_decision_envelope"@,
                    },
                ),
            ),
            ("next_step"@, JVal::Str(next_step)),
            ("can_advance"@, JVal::Bool(can_advance)),
            (
                "allowed_next_transitions"@,
                JVal::Array(
                    spec_allowed_next_transitions(spec_decision_precedence(decision)).map_values(
                        |s: Seq<char>| JVal::Str(s),
                    ),
                ),
            ),
            ("captain_required_action"@, jget_or(contract, "required_action"@, JVal::Null)),
            ("captain_allowed_action"@, jget_or(contract, "allowed_action"@, JVal::Null)),
            ("task_card_id"@, jget_or(task, "task_card_id"@, JVal::Null)),
            ("assigned_role"@, jget_or(task, "assigned_role"@, JVal::Null)),
            ("assigned_agent_id"@, jget_or(task, "assigned_agent_id"@, JVal::Null)),
            ("mutation_evidence_gate"@, jget_or(task, "mutation_evidence_gate"@, JVal::Null)),
            ("post_fan_in_captain_decision"@, decision),
        ],
    )
}

pub fn create_state_contract_payload(
    current_task_card: &Json,
    next_step: &str,
    can_advance: bool,
    captain_action_contract: &Json,
    post_fan_in_captain_decision: &Json,
) -> (r: Json)
    ensures
        jview(r) == spec_state_contract(
            jview(*current_task_card),
            next_step@,
            can_advance,
            jview(*captain_action_contract),
            jview(*post_fan_in_captain_decision),
        ),
{
    let d = post_fan_in_captain_decision;
    let transitions = allowed_next_transitions(str_or(d.str_field("precedence"), "advance"));
    let arr = jstr_array(&transitions);
    proof {
        assert(jview(arr)->Array_0 =~= spec_allowed_next_transitions(spec_decision_precedence(jview(*d))).map_values(
            |s: Seq<char>| JVal::Str(s),
        ));
    }
    let mut m: Vec<(String, Json)> = Vec::new();
    m.push(member("schema", jstr("ccc.state_contract.v1")));
    m.push(member("source", jstr("status_payload")));
    m.push(member("state", jstr(str_or(d.str_field("state"), "decision_pending"))));
    m.push(member("active_gate", jstr(str_or(d.str_field("active_gate"), "captain_decision"))));
    m.push(
        member(
            "required_artifact",
            jstr(str_or(d.str_field("required_artifact"), "captain_decision_envelope")),
        ),
    );
    m.push(member("next_step", jstr(next_step)));
    m.push(member("can_advance", jbool(can_advance)));
    m.push(member("allowed_next_transitions", arr));
    m.push(
        member("captain_required_action", get_or(captain_action_contract, "required_action", Json::Null)),
    );
    m.push(
        member("captain_allowed_action", get_or(captain_action_contract, "allowed_action", Json::Null)),
    );
    m.push(member("task_card_id", get_or(current_task_card, "task_card_id", Json::Null)));
    m.push(member("assigned_role", get_or(current_task_card, "assigned_role", Json::Null)));
    m.push(member("assigned_agent_id", get_or(current_task_card, "assigned_agent_id", Json::Null)));
    m.push(
        member(
            "mutation_evidence_gate",
            get_or(current_task_card, "mutation_evidence_gate", Json::Null),
        ),
    );
    m.push(member("post_fan_in_captain_decision", d.deep_clone()));
    let r = object_of(m);
    assert(members_view(m@) =~= spec_state_contract(
        jview(*current_task_card),
        next_step@,
        can_advance,
        jview(*captain_action_contract),
        jview(*post_fan_in_captain_decision),
    )->Object_0);
    r
}

/// The captain decisions that block the scheduler's own selection.
pub open spec fn is_blocking_decision(k: CaptainDecisionKind) -> bool {
    !(k == CaptainDecisionKind::Advance || k == CaptainDecisionKind::AwaitFanIn || k
        == CaptainDecisionKind::Dispatch || k == CaptainDecisionKind::Checkpoint)
}

/// Where the decision's named members stand in the post-fan-in payload.
proof fn lemma_decision_payload_members(d: JVal)
    requires
        d is Object,
        d->Object_0.len() == 14,
        d->Object_0[0].0 == "schema"@,
        d->Object_0[1].0 == "source"@,
        d->Object_0[2].0 == "precedence"@,
        d->Object_0[3].0 == "state"@,
        d->Object_0[4].0 == "active_gate"@,
        d->Object_0[5].0 == "required_artifact"@,
        d->Object_0[6].0 == "allowed_action"@,
        d->Object_0[7].0 == "required_action"@,
        d->Object_0[8].0 == "denied_action_reason"@,
    ensures
        jget(d, "precedence"@) == Some(d->Object_0[2].1),
        jget(d, "scheduler_action"@) == Some(d->Object_0[9].1) <== d->Object_0[9].0
            == "scheduler_action"@,
{
    reveal_strlit("schema");
    reveal_strlit("source");
    reveal_strlit("precedence");
    reveal_strlit("state");
    reveal_strlit("active_gate");
    reveal_strlit("required_artifact");
    reveal_strlit("allowed_action");
    reveal_strlit("required_action");
    reveal_strlit("denied_action_reason");
    reveal_strlit("scheduler_action");
    let m = d->Object_0;
    assert forall|i: int| 0 <= i < 2 implies m[i].0 != "precedence"@ by {
        assert(m[i].0.len() != "precedence"@.len());
    }
    lemma_jmember_index_scan(m, "precedence"@, 2);
    if m[9].0 == "scheduler_action"@ {
        assert forall|i: int| 0 <= i < 9 implies m[i].0 != "scheduler_action"@ by {
            assert(m[i].0.len() != "scheduler_action"@.len());
        }
        lemma_jmember_index_scan(m, "scheduler_action"@, 9);
    }
}

/// Whatever the fan-in state, a terminal run's state contract allows only
/// reporting the terminal status.
pub proof fn lemma_terminal_run_allows_only_terminal_report(
    run_record: JVal,
    longway: JVal,
    task: JVal,
    host: JVal,
    next_step: Seq<char>,
    can_advance: bool,
    fan_in_ready: bool,
    worker_active: u64,
    host_subagent_active: u64,
    contract: JVal,
)
    requires
        spec_run_is_terminal(spec_run_status(run_record), next_step),
    ensures
        ({
            let d = spec_post_fan_in_payload(
                run_record,
                longway,
                task,
                host,
                next_step,
                can_advance,
                fan_in_ready,
                worker_active,
                host_subagent_active,
            );
            jget(spec_state_contract(task, next_step, can_advance, contract, d), "allowed_next_transitions"@)
                == Some(JVal::Array(seq![JVal::Str("report_terminal_status"@)]))
        }),
{
    let d = spec_post_fan_in_payload(
        run_record,
        longway,
        task,
        host,
        next_step,
        can_advance,
        fan_in_ready,
        worker_active,
        host_subagent_active,
    );
    lemma_decision_payload_members(d);
    assert(spec_decision_precedence(d) == "terminal"@);
    let c = spec_state_contract(task, next_step, can_advance, contract, d);
    reveal_strlit("schema");
    reveal_strlit("source");
    reveal_strlit("state");
    reveal_strlit("active_gate");
    reveal_strlit("required_artifact");
    reveal_strlit("next_step");
    reveal_strlit("can_advance");
    reveal_strlit("allowed_next_transitions");
    let cm = c->Object_0;
    assert forall|i: int| 0 <= i < 7 implies cm[i].0 != "allowed_next_transitions"@ by {
        assert(cm[i].0.len() != "allowed_next_transitions"@.len());
    }
    lemma_jmember_index_scan(cm, "allowed_next_transitions"@, 7);
    assert(seq!["report_terminal_status"@].map_values(|s: Seq<char>| JVal::Str(s)) =~= seq![
        JVal::Str("report_terminal_status"@),
    ]);
}

/// Unless the selection came from a parallel fan-out or a materialized
/// planned row, the scheduler takes the kind and reason of its action from a
/// blocking post-fan-in captain decision (terminal, operator, approval,
/// review, recovery or mutation evidence).
pub proof fn lemma_scheduler_follows_blocking_decision(
    run_record: JVal,
    longway: JVal,
    task: JVal,
    host: JVal,
    next_step: Seq<char>,
    can_advance: bool,
    fan_in_ready: bool,
    worker_active: u64,
    host_subagent_active: u64,
    state: Seq<char>,
    source: Seq<char>,
)
    requires
        source != "bounded_parallel_fanout"@,
        source != "planned_row_materialization"@,
        is_blocking_decision(
            spec_decision_kind(
                run_record,
                longway,
                task,
                host,
                next_step,
                can_advance,
                fan_in_ready,
                worker_active,
                host_subagent_active,
            ),
        ),
    ensures
        ({
            let k = spec_decision_kind(
                run_record,
                longway,
                task,
                host,
                next_step,
                can_advance,
                fan_in_ready,
                worker_active,
                host_subagent_active,
            );
            let t = spec_decision_texts(k, spec_role_gate_family(task));
            let d = spec_post_fan_in_payload(
                run_record,
                longway,
                task,
                host,
                next_step,
                can_advance,
                fan_in_ready,
                worker_active,
                host_subagent_active,
            );
            spec_scheduler_action_kind_reason(state, source, next_step, can_advance, fan_in_ready, d)
                == (t[7], t[8])
        }),
{
    let k = spec_decision_kind(
        run_record,
        longway,
        task,
        host,
        next_step,
        can_advance,
        fan_in_ready,
        worker_active,
        host_subagent_active,
    );
    let t = spec_decision_texts(k, spec_role_gate_family(task));
    let d = spec_post_fan_in_payload(
        run_record,
        longway,
        task,
        host,
        next_step,
        can_advance,
        fan_in_ready,
        worker_active,
        host_subagent_active,
    );
    lemma_decision_payload_members(d);
    assert(is_canonical_precedence(t[0]));
    let a = d->Object_0[9].1;
    reveal_strlit("kind");
    reveal_strlit("reason");
    let am = a->Object_0;
    lemma_jmember_index_scan(am, "kind"@, 0);
    assert(am[0].0.len() != "reason"@.len());
    lemma_jmember_index_scan(am, "reason"@, 1);
}

/// Appends the compact member `output_key` built from the first of `keys`
/// that holds a non-blank string, summarized to `max_chars`.
pub fn push_first_nonblank(
    obj: &Json,
    out: &mut Vec<(String, Json)>,
    output_key: &str,
    keys: &[&str],
    max_chars: usize,
)
    ensures
        members_view(final(out)@) == members_view(old(out)@) + trace_member(
            jview(*obj),
            output_key@,
            keys@.map_values(|k: &str| k@),
            max_chars as nat,
        ),
{
    let ghost ks = keys@.map_values(|k: &str| k@);
    let mut i: usize = 0;
    let mut found: Option<String> = None;
    assert(ks.skip(0) =~= ks);
    while i < keys.len()
        invariant_except_break
            found is None,
        invariant
            i <= keys.len(),
            ks == keys@.map_values(|k: &str| k@),
            first_nonblank_field(jview(*obj), ks) == first_nonblank_field(
                jview(*obj),
                ks.skip(i as int),
            ),
        ensures
            found matches Some(v) ==> first_nonblank_field(jview(*obj), ks) == Some(v@),
            found is None ==> first_nonblank_field(jview(*obj), ks) is None,
        decreases keys.len() - i,
    {
        proof {
            assert(ks.skip(i as int)[0] == keys@[i as int]@);
            assert(ks.skip(i as int).drop_first() =~= ks.skip(i + 1));
        }
        match obj.str_field(keys[i]) {
            Some(s) => {
                let t = trim_string(s);
                if t.as_str().unicode_len() > 0 {
                    found = Some(t);
                    break;
                }
            },
            None => {},
        }
        i = i + 1;
        proof {
            if i == keys.len() {
                assert(ks.skip(i as int).len() == 0);
            }
        }
    }
    let ghost before = out@;
    match found {
        Some(v) => {
            out.push(member(output_key, jstring(summarize_text_for_visibility(v.as_str(), max_chars))));
            assert(members_view(out@) =~= members_view(before) + trace_member(
                jview(*obj),
                output_key@,
                ks,
                max_chars as nat,
            ));
        },
        None => {
            assert(members_view(out@) =~= members_view(before) + trace_member(
                jview(*obj),
                output_key@,
                ks,
                max_chars as nat,
            ));
        },
    }
}

/// The bounded members of a selected planned row's routing trace; each
/// takes the first non-blank of its keys.
pub open spec fn spec_scheduler_trace_members(t: JVal) -> Seq<(Seq<char>, JVal)> {
    trace_member(t, "selected_category"@, seq!["selected_category"@, "category"@], 80) + trace_member(
        t,
        "selected_skill_id"@,
        seq!["selected_skill_id"@, "skill_id"@, "skill"@],
        120,
    ) + trace_member(t, "selected_skill_name"@, seq!["selected_skill_name"@, "skill_name"@], 120)
        + trace_member(t, "risk"@, seq!["risk"@], 40) + trace_member(
        t,
        "evidence_need"@,
        seq!["evidence_need"@],
        120,
    ) + trace_member(t, "verification_need"@, seq!["verification_need"@], 120) + trace_member(
        t,
        "selected_role"@,
        seq!["selected_role"@, "role"@],
        80,
    ) + trace_member(
        t,
        "selected_agent_id"@,
        seq!["selected_agent_id"@, "agent_id"@, "agent"@],
        80,
    ) + trace_member(t, "reason"@, seq!["reason"@, "rationale"@], 240) + trace_member(
        t,
        "summary"@,
        seq!["summary"@],
        240,
    )
}

/// The bounded routing trace of a selected planned row: none unless the row
/// has an object trace with at least one usable member.
pub open spec fn spec_bounded_scheduler_trace(row: JVal) -> Option<JVal> {
    match jget(row, "routing_trace"@) {
        Some(JVal::Object(tm)) => if spec_scheduler_trace_members(JVal::Object(tm)).len() == 0 {
            None
        } else {
            Some(JVal::Object(spec_scheduler_trace_members(JVal::Object(tm))))
        },
        _ => None,
    }
}

pub fn bounded_scheduler_planned_row_routing_trace(row: &Json) -> (r: Option<Json>)
    ensures
        match r {
            Some(t) => spec_bounded_scheduler_trace(jview(*row)) == Some(jview(t)),
            None => spec_bounded_scheduler_trace(jview(*row)) is None,
        },
{
    let trace = match row.get("routing_trace") {
        Some(t) => {
            if !t.is_object() {
                return None;
            }
            t
        },
        None => {
            return None;
        },
    };
    let mut m: Vec<(String, Json)> = Vec::new();
    assert(members_view(m@) =~= Seq::<(Seq<char>, JVal)>::empty());
    let k1: [&str; 2] = ["selected_category", "category"];
    let k2: [&str; 3] = ["selected_skill_id", "skill_id", "skill"];
    let k3: [&str; 2] = ["selected_skill_name", "skill_name"];
    let k4: [&str; 1] = ["risk"];
    let k5: [&str; 1] = ["evidence_need"];
    let k6: [&str; 1] = ["verification_need"];
    let k7: [&str; 2] = ["selected_role", "role"];
    let k8: [&str; 3] = ["selected_agent_id", "agent_id", "agent"];
    let k9: [&str; 2] = ["reason", "rationale"];
    let k10: [&str; 1] = ["summary"];
    push_first_nonblank(trace, &mut m, "selected_category", k1.as_slice(), 80);
    push_first_nonblank(trace, &mut m, "selected_skill_id", k2.as_slice(), 120);
    push_first_nonblank(trace, &mut m, "selected_skill_name", k3.as_slice(), 120);
    push_first_nonblank(trace, &mut m, "risk", k4.as_slice(), 40);
    push_first_nonblank(trace, &mut m, "evidence_need", k5.as_slice(), 120);
    push_first_nonblank(trace, &mut m, "verification_need", k6.as_slice(), 120);
    push_first_nonblank(trace, &mut m, "selected_role", k7.as_slice(), 80);
    push_first_nonblank(trace, &mut m, "selected_agent_id", k8.as_slice(), 80);
    push_first_nonblank(trace, &mut m, "reason", k9.as_slice(), 240);
    push_first_nonblank(trace, &mut m, "summary", k10.as_slice(), 240);
    proof {
        assert(k1@.map_values(|k: &str| k@) =~= seq!["selected_category"@, "category"@]);
        assert(k2@.map_values(|k: &str| k@) =~= seq!["selected_skill_id"@, "skill_id"@, "skill"@]);
        assert(k3@.map_values(|k: &str| k@) =~= seq!["selected_skill_name"@, "skill_name"@]);
        assert(k4@.map_values(|k: &str| k@) =~= seq!["risk"@]);
        assert(k5@.map_values(|k: &str| k@) =~= seq!["evidence_need"@]);
        assert(k6@.map_values(|k: &str| k@) =~= seq!["verification_need"@]);
        assert(k7@.map_values(|k: &str| k@) =~= seq!["selected_role"@, "role"@]);
        assert(k8@.map_values(|k: &str| k@) =~= seq!["selected_agent_id"@, "agent_id"@, "agent"@]);
        assert(k9@.map_values(|k: &str| k@) =~= seq!["reason"@, "rationale"@]);
        assert(k10@.map_values(|k: &str| k@) =~= seq!["summary"@]);
        assert(members_view(m@) =~= spec_scheduler_trace_members(jview(*trace)));
    }
    if m.len() == 0 {
        None
    } else {
        Some(object_of(m))
    }
}

/// A planned row as the scheduler shows it: a non-object row as it is;
/// otherwise its routing summary (when not blank) trimmed and summarized to
/// 240 characters, and its routing trace bounded, or removed when nothing of
/// it is usable.
pub open spec fn spec_sanitized_scheduler_row(row: JVal) -> JVal {
    match row {
        JVal::Object(_) => {
            let with_summary = match jstr_field(row, "routing_summary"@) {
                Some(s) => if trim(s).len() > 0 {
                    jinsert(row, "routing_summary"@, JVal::Str(summary_of(trim(s), 240)))
                } else {
                    row
                },
                None => row,
            };
            match spec_bounded_scheduler_trace(row) {
                Some(t) => jinsert(with_summary, "routing_trace"@, t),
                None => jremove(with_summary, "routing_trace"@),
            }
        },
        _ => row,
    }
}

pub fn sanitize_scheduler_selected_planned_row(row: &Json) -> (r: Json)
    ensures
        jview(r) == spec_sanitized_scheduler_row(jview(*row)),
{
    if !row.is_object() {
        return row.deep_clone();
    }
    let mut sanitized = row.deep_clone();
    match row.str_field("routing_summary") {
        Some(s) => {
            let t = trim_string(s);
            if t.as_str().unicode_len() > 0 {
                sanitized.insert(
                    "routing_summary",
                    jstring(summarize_text_for_visibility(t.as_str(), 240)),
                );
            }
        },
        None => {},
    }
    match bounded_scheduler_planned_row_routing_trace(row) {
        Some(trace) => {
            sanitized.insert("routing_trace", trace);
            sanitized
        },
        None => remove_member(sanitized, "routing_trace"),
    }
}

/// A scheduler transition with its selected planned row sanitized; any other
/// value as it is.
pub open spec fn spec_sanitized_transition(transition: JVal) -> JVal {
    match transition {
        JVal::Object(_) => match jget(transition, "selected_planned_row"@) {
            Some(row) => jinsert(transition, "selected_planned_row"@, spec_sanitized_scheduler_row(row)),
            None => transition,
        },
        _ => transition,
    }
}

pub fn sanitize_scheduler_transition_payload(transition: Json) -> (r: Json)
    ensures
        jview(r) == spec_sanitized_transition(jview(transition)),
{
    if !transition.is_object() {
        return transition;
    }
    let sanitized_row = match transition.get("selected_planned_row") {
        Some(row) => Some(sanitize_scheduler_selected_planned_row(row)),
        None => None,
    };
    let mut out = transition;
    match sanitized_row {
        Some(row) => {
            out.insert("selected_planned_row", row);
        },
        None => {},
    }
    out
}

/// The scheduler's reason text for a decision source.
pub open spec fn spec_scheduler_reason(source: Seq<char>) -> Seq<char> {
    if source == "planned_row_materialization"@ {
        "Scheduler selected the active task from a materialized LongWay planned row."@
    } else if source == "bounded_parallel_fanout"@ {
        "Scheduler selected bounded parallel fan-out for the active task."@
    } else if source == "fan_in_barrier"@ {
        "Scheduler is waiting for compact fan-in before selecting the next task."@
    } else if source == "pending_longway_approval"@ {
        "Scheduler is blocked until the pending LongWay is approved."@
    } else {
        "Scheduler selected the current task from approved LongWay task cards."@
    }
}

fn scheduler_reason(source: &str) -> (r: &'static str)
    ensures
        r@ == spec_scheduler_reason(source@),
{
    if str_eq(source, "planned_row_materialization") {
        "Scheduler selected the active task from a materialized LongWay planned row."
    } else if str_eq(source, "bounded_parallel_fanout") {
        "Scheduler selected bounded parallel fan-out for the active task."
    } else if str_eq(source, "fan_in_barrier") {
        "Scheduler is waiting for compact fan-in before selecting the next task."
    } else if str_eq(source, "pending_longway_approval") {
        "Scheduler is blocked until the pending LongWay is approved."
    } else {
        "Scheduler selected the current task from approved LongWay task cards."
    }
}

/// The length of an array value, if it is one.
pub open spec fn array_len(v: Option<JVal>) -> Option<nat> {
    match v {
        Some(JVal::Array(items)) => Some(items.len()),
        _ => None,
    }
}

/// How many parallel lanes are candidates: the required lane ids, else the
/// fan-out's lanes, else none.
pub open spec fn spec_parallel_candidate_count(task: JVal) -> nat {
    let ids = jpath_or(task, seq!["parallel_fanout"@, "required_lane_ids"@], JVal::Array(Seq::empty()));
    match array_len(Some(ids)) {
        Some(n) => n,
        None => match array_len(jget_path(task, seq!["parallel_fanout"@, "lanes"@])) {
            Some(n) => n,
            None => 0,
        },
    }
}

/// The scheduler status of a run. `latest_transition` is the latest recorded
/// scheduler transition as read from the run (`null` when there is none or it
/// cannot be read); it is shown sanitized.
pub open spec fn spec_scheduler_status_payload(
    run_record: JVal,
    longway: JVal,
    task: JVal,
    host: JVal,
    contract: JVal,
    decision: JVal,
    next_step: Seq<char>,
    can_advance: bool,
    fan_in_ready: bool,
    latest_transition: JVal,
) -> JVal {
    let state = spec_scheduler_state(
        jget_or(run_record, "status"@, JVal::Null),
        next_step,
        can_advance,
        fan_in_ready,
        task,
    );
    let source = spec_scheduler_decision_source(task, next_step, fan_in_ready);
    JVal::Object(
        seq![
            ("schema"@, JVal::Str("ccc.scheduler.v1"@)),
            ("state"@, JVal::Str(state)),
            ("decision_source"@, JVal::Str(source)),
            ("reason"@, JVal::Str(spec_scheduler_reason(source))),
            (
                "action"@,
                spec_scheduler_status_action(
                    state,
                    source,
                    next_step,
                    can_advance,
                    fan_in_ready,
                    task,
                    decision,
                ),
            ),
            ("post_fan_in_captain_decision"@, decision),
            ("next_step"@, JVal::Str(next_step)),
            ("can_advance"@, JVal::Bool(can_advance)),
            (
                "selected_task_card_id"@,
                match jget(task, "task_card_id"@) {
                    Some(v) => v,
                    None => jget_or(run_record, "active_task_card_id"@, JVal::Null),
                },
            ),
            ("selected_role"@, jget_or(task, "assigned_role"@, JVal::Null)),
            ("selected_agent_id"@, jget_or(task, "assigned_agent_id"@, JVal::Null)),
            (
                "selected_planned_row"@,
                match jget(task, "planned_longway_row"@) {
                    Some(row) => spec_sanitized_scheduler_row(row),
                    None => JVal::Null,
                },
            ),
            ("latest_transition"@, spec_sanitized_transition(latest_transition)),
            (
                "planned_rows"@,
                JVal::Object(
                    seq![
                        (
                            "total"@,
                            JVal::Num(
                                match planned_rows_of(longway) {
                                    Some(rows) => rows.len() as int,
                                    None => 0,
                                },
                            ),
                        ),
                        (
                            "planned"@,
                            JVal::Num(spec_count_planned_rows_with_status(longway, "planned"@) as int),
                        ),
                        (
                            "materialized"@,
                            JVal::Num(spec_count_materialized_or_completed(longway) as int),
                        ),
                        ("next"@, spec_next_pending_planned_row(longway)),
                    ],
                ),
            ),
            (
                "parallel"@,
                JVal::Object(
                    seq![
                        ("candidate_count"@, JVal::Num(spec_parallel_candidate_count(task) as int)),
                        (
                            "mode"@,
                            jpath_or(task, seq!["parallel_fanout"@, "mode"@], JVal::Null),
                        ),
                        (
                            "required_lane_ids"@,
                            jpath_or(
                                task,
                                seq!["parallel_fanout"@, "required_lane_ids"@],
                                JVal::Array(Seq::empty()),
                            ),
                        ),
                        (
                            "fan_in_ready"@,
                            jpath_or(
                                host,
                                seq!["parallel_lane_state"@, "fan_in_ready"@],
                                JVal::Bool(false),
                            ),
                        ),
                        (
                            "active_lane_count"@,
                            jpath_or(
                                host,
                                seq!["parallel_lane_state"@, "active_lane_count"@],
                                JVal::Num(0),
                            ),
                        ),
                        (
                            "terminal_lane_count"@,
                            jpath_or(
                                host,
                                seq!["parallel_lane_state"@, "terminal_lane_count"@],
                                JVal::Num(0),
                            ),
                        ),
                    ],
                ),
            ),
            (
                "blocked"@,
                JVal::Object(
                    seq![
                        ("blocked"@, JVal::Bool(state == "blocked"@)),
                        (
                            "reason"@,
                            if state == "blocked"@ {
                                jget_or(
                                    contract,
                                    "denied_action_reason"@,
                                    JVal::Str("Scheduler is blocked."@),
                                )
                            } else {
                                JVal::Null
                            },
                        ),
                    ],
                ),
            ),
            (
                "owns"@,
                JVal::Object(
                    seq![
                        ("next_task_selection"@, JVal::Bool(true)),
                        ("planned_row_materialization"@, JVal::Bool(true)),
                        ("bounded_parallel_fanout"@, JVal::Bool(true)),
                        ("blocked_work"@, JVal::Bool(true)),
                        ("pending_card_updates"@, JVal::Bool(true)),
                    ],
                ),
            ),
        ],
    )
}

fn json_array_len(v: &Json) -> (r: Option<usize>)
    ensures
        match r {
            Some(n) => array_len(Some(jview(*v))) == Some(n as nat),
            None => array_len(Some(jview(*v))) is None,
        },
{
    match v {
        Json::Array(items) => {
            proof {
                lemma_array_view(*items);
            }
            Some(items.len())
        },
        _ => None,
    }
}

pub fn create_scheduler_status_payload(
    run_record: &Json,
    longway: &Json,
    current_task_card: &Json,
    host_subagent_state: &Json,
    captain_action_contract: &Json,
    post_fan_in_captain_decision: &Json,
    next_step: &str,
    can_advance: bool,
    fan_in_ready: bool,
    latest_transition: Json,
) -> (r: Json)
    ensures
        jview(r) == spec_scheduler_status_payload(
            jview(*run_record),
            jview(*longway),
            jview(*current_task_card),
            jview(*host_subagent_state),
            jview(*captain_action_contract),
            jview(*post_fan_in_captain_decision),
            next_step@,
            can_advance,
            fan_in_ready,
            jview(latest_transition),
        ),
{
    let ghost transition_view = jview(latest_transition);
    let task = current_task_card;
    let host = host_subagent_state;
    let planned_row_count: usize = match planned_rows(longway) {
        Some(rows) => rows.len(),
        None => 0,
    };
    let planned_pending_count = count_planned_rows_with_status(longway, "planned");
    let planned_materialized_count = count_materialized_or_completed_planned_rows(longway);
    let next_planned_row = next_pending_planned_row(longway);
    let empty_ids: Vec<Json> = Vec::new();
    proof {
        lemma_array_view(empty_ids);
        assert(empty_ids@.map_values(|x: Json| jview(x)) =~= Seq::<JVal>::empty());
    }
    let lane_ids = path_or(task, "parallel_fanout", "required_lane_ids", Json::Array(empty_ids));
    let candidate_count: usize = match json_array_len(&lane_ids) {
        Some(n) => n,
        None => {
            let lanes_keys: [&str; 2] = ["parallel_fanout", "lanes"];
            let lk = lanes_keys.as_slice();
            assert(lk@.map_values(|k: &str| k@) =~= seq!["parallel_fanout"@, "lanes"@]);
            match task.get_path(lk) {
                Some(v) => match json_array_len(v) {
                    Some(n) => n,
                    None => 0,
                },
                None => 0,
            }
        },
    };
    let status = get_or(run_record, "status", Json::Null);
    let state = scheduler_state(&status, next_step, can_advance, fan_in_ready, task);
    let source = scheduler_decision_source(task, next_step, fan_in_ready);
    let action = scheduler_status_action(
        state,
        source,
        next_step,
        can_advance,
        fan_in_ready,
        task,
        post_fan_in_captain_decision,
    );
    let is_blocked = str_eq(state, "blocked");
    let blocked_reason = if is_blocked {
        get_or(captain_action_contract, "denied_action_reason", jstr("Scheduler is blocked."))
    } else {
        Json::Null
    };
    let selected_row = match task.get("planned_longway_row") {
        Some(row) => sanitize_scheduler_selected_planned_row(row),
        None => Json::Null,
    };
    let selected_id = match task.get("task_card_id") {
        Some(v) => v.deep_clone(),
        None => get_or(run_record, "active_task_card_id", Json::Null),
    };
    let mut pr: Vec<(String, Json)> = Vec::new();
    pr.push(member("total", juint(planned_row_count as u64)));
    pr.push(member("planned", juint(planned_pending_count as u64)));
    pr.push(member("materialized", juint(planned_materialized_count as u64)));
    pr.push(member("next", next_planned_row));
    let planned = object_of(pr);
    let mut pa: Vec<(String, Json)> = Vec::new();
    pa.push(member("candidate_count", juint(candidate_count as u64)));
    pa.push(member("mode", path_or(task, "parallel_fanout", "mode", Json::Null)));
    pa.push(member("required_lane_ids", lane_ids));
    pa.push(member("fan_in_ready", path_or(host, "parallel_lane_state", "fan_in_ready", jbool(false))));
    pa.push(
        member("active_lane_count", path_or(host, "parallel_lane_state", "active_lane_count", jint(0))),
    );
    pa.push(
        member(
            "terminal_lane_count",
            path_or(host, "parallel_lane_state", "terminal_lane_count", jint(0)),
        ),
    );
    let parallel = object_of(pa);
    let mut bl: Vec<(String, Json)> = Vec::new();
    bl.push(member("blocked", jbool(is_blocked)));
    bl.push(member("reason", blocked_reason));
    let blocked = object_of(bl);
    let mut ow: Vec<(String, Json)> = Vec::new();
    ow.push(member("next_task_selection", jbool(true)));
    ow.push(member("planned_row_materialization", jbool(true)));
    ow.push(member("bounded_parallel_fanout", jbool(true)));
    ow.push(member("blocked_work", jbool(true)));
    ow.push(member("pending_card_updates", jbool(true)));
    let owns = object_of(ow);
    let mut m: Vec<(String, Json)> = Vec::new();
    m.push(member("schema", jstr("ccc.scheduler.v1")));
    m.push(member("state", jstr(state)));
    m.push(member("decision_source", jstr(source)));
    m.push(member("reason", jstr(scheduler_reason(source))));
    m.push(member("action", action));
    m.push(member("post_fan_in_captain_decision", post_fan_in_captain_decision.deep_clone()));
    m.push(member("next_step", jstr(next_step)));
    m.push(member("can_advance", jbool(can_advance)));
    m.push(member("selected_task_card_id", selected_id));
    m.push(member("selected_role", get_or(task, "assigned_role", Json::Null)));
    m.push(member("selected_agent_id", get_or(task, "assigned_agent_id", Json::Null)));
    m.push(member("selected_planned_row", selected_row));
    m.push(member("latest_transition", sanitize_scheduler_transition_payload(latest_transition)));
    m.push(member("planned_rows", planned));
    m.push(member("parallel", parallel));
    m.push(member("blocked", blocked));
    m.push(member("owns", owns));
    let r = object_of(m);
    proof {
        let s = spec_scheduler_status_payload(
            jview(*run_record),
            jview(*longway),
            jview(*current_task_card),
            jview(*host_subagent_state),
            jview(*captain_action_contract),
            jview(*post_fan_in_captain_decision),
            next_step@,
            can_advance,
            fan_in_ready,
            transition_view,
        );
        assert(members_view(pr@) =~= s->Object_0[13].1->Object_0);
        assert(members_view(pa@) =~= s->Object_0[14].1->Object_0);
        assert(members_view(bl@) =~= s->Object_0[15].1->Object_0);
        assert(members_view(ow@) =~= s->Object_0[16].1->Object_0);
        assert(members_view(m@) =~= s->Object_0);
    }
    r
}

/// The scheduler as the compact status shows it: its selected planned row
/// (and that of its latest transition, when the transition is an object)
/// sanitized; anything but an object as it is.
pub open spec fn spec_compact_scheduler_payload(scheduler: JVal) -> JVal {
    match scheduler {
        JVal::Object(_) => {
            let with_row = match crate::json::jget(scheduler, "selected_planned_row"@) {
                Some(row) => crate::json::jinsert(scheduler, "selected_planned_row"@, spec_sanitized_scheduler_row(row)),
                None => scheduler,
            };
            match crate::json::jget(scheduler, "latest_transition"@) {
                Some(t) => if t is Object {
                    let t2 = match crate::json::jget(t, "selected_planned_row"@) {
                        Some(row) => crate::json::jinsert(t, "selected_planned_row"@, spec_sanitized_scheduler_row(row)),
                        None => t,
                    };
                    crate::json::jinsert(with_row, "latest_transition"@, t2)
                } else {
                    with_row
                },
                None => with_row,
            }
        },
        _ => scheduler,
    }
}

pub fn compact_scheduler_payload(scheduler: &Json) -> (r: Json)
    ensures
        jview(r) == spec_compact_scheduler_payload(jview(*scheduler)),
{
    if !scheduler.is_object() {
        return scheduler.deep_clone();
    }
    let mut compact = scheduler.deep_clone();
    match scheduler.get("selected_planned_row") {
        Some(row) => compact.insert("selected_planned_row", sanitize_scheduler_selected_planned_row(row)),
        None => {},
    }
    match scheduler.get("latest_transition") {
        Some(t) => if t.is_object() {
            let mut t2 = t.deep_clone();
            match t.get("selected_planned_row") {
                Some(row) => t2.insert("selected_planned_row", sanitize_scheduler_selected_planned_row(row)),
                None => {},
            }
            compact.insert("latest_transition", t2);
        },
        None => {},
    }
    compact
}

} // verus!
