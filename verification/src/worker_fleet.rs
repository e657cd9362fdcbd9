//! The workers of a task card seen together: their visibility counts, the
//! reclaim plan, whether any is still active, and the terminal fan-in.

use vstd::prelude::*;
use crate::json::{
    get_or_null, jbool, jget, jget_or_null, jget_path, jinsert, jstr, jstr_at, jstr_field,
    jstring_array, juint, jview, lemma_array_view, lemma_jinsert_twice, member, members_view, object_of, opt_bool,
    opt_u64, take_member, JVal, Json,
};
use crate::clock::{utc_now_millis, utc_now_rfc3339_millis};
use crate::config_defaults::jstrs;
use crate::format::{decimal, push_decimal};
use crate::strings::{
    ascii_lowercase, is_blank, opt_str_is, opt_view, push_str, str_eq, to_ascii_lowercase,
    to_owned, trim, trim_string,
};
use crate::worker_lifecycle::{child_status, create_worker_lifecycle_view_at, lifecycle_view_spec};

verus! {

/// The views of a list of values.
pub open spec fn jviews(items: Seq<Json>) -> Seq<JVal> {
    items.map_values(|j: Json| jview(j))
}

/// The views of an optional list of values.
pub open spec fn opt_jviews(items: Option<&[Json]>) -> Option<Seq<JVal>> {
    match items {
        Some(ds) => Some(jviews(ds@)),
        None => None,
    }
}

/// How many of `ws` satisfy `f`.
pub open spec fn count_where(ws: Seq<JVal>, f: spec_fn(JVal) -> bool) -> nat
    decreases ws.len(),
{
    if ws.len() == 0 {
        0
    } else {
        count_where(ws.drop_last(), f) + if f(ws.last()) {
            1nat
        } else {
            0nat
        }
    }
}

/// The members of `ws` that satisfy `f`, in order.
pub open spec fn select_where(ws: Seq<JVal>, f: spec_fn(JVal) -> bool) -> Seq<JVal>
    decreases ws.len(),
{
    if ws.len() == 0 {
        Seq::empty()
    } else {
        let prev = select_where(ws.drop_last(), f);
        if f(ws.last()) {
            prev.push(ws.last())
        } else {
            prev
        }
    }
}

/// The visible lifecycle state of a worker entry.
pub open spec fn worker_state(w: JVal) -> Option<Seq<char>> {
    jstr_at(w, seq!["worker_lifecycle"@, "state"@])
}

/// Whether a worker entry is marked for reclaim.
pub open spec fn worker_reclaim_needed(w: JVal) -> bool {
    jstr_at(w, seq!["worker_lifecycle"@, "reclaim_state"@]) == Some("reclaim_needed"@)
}

/// Whether a worker entry is in one of the active lifecycle states.
pub open spec fn worker_is_active(w: JVal) -> bool {
    match worker_state(w) {
        Some(s) => s == "queued"@ || s == "launching"@ || s == "running"@ || s == "running_active"@
            || s == "running_quiet"@ || s == "stale"@ || s == "timed_out"@,
        None => false,
    }
}

/// Whether a delegation belongs to the task card `id`.
pub open spec fn delegation_of_task(d: JVal, id: Seq<char>) -> bool {
    jstr_field(d, "task_card_id"@) == Some(id)
}

/// The child agent's status of a delegation, or `null`.
pub open spec fn child_status_or_null(d: JVal) -> JVal {
    match jget_path(d, seq!["child_agent"@, "status"@]) {
        Some(v) => v,
        None => JVal::Null,
    }
}

/// The visible entry of one worker.
pub open spec fn spec_worker_entry(d: JVal, runtime: JVal, now: int) -> JVal {
    JVal::Object(
        seq![
            ("delegation_id"@, jget_or_null(d, "delegation_id"@)),
            ("child_agent"@, jget_or_null(d, "child_agent"@)),
            ("summary"@, jget_or_null(d, "summary"@)),
            ("worker_lifecycle"@, lifecycle_view_spec(d, runtime, now)),
            ("status"@, child_status_or_null(d)),
        ],
    )
}

/// The entries of the workers of task card `id`, in the order of the
/// delegations.
pub open spec fn spec_task_workers(id: Seq<char>, ds: Seq<JVal>, runtime: JVal, now: int) -> Seq<
    JVal,
>
    decreases ds.len(),
{
    if ds.len() == 0 {
        Seq::empty()
    } else {
        let prev = spec_task_workers(id, ds.drop_last(), runtime, now);
        if delegation_of_task(ds.last(), id) {
            prev.push(spec_worker_entry(ds.last(), runtime, now))
        } else {
            prev
        }
    }
}

/// How many workers are in lifecycle state `s`.
pub open spec fn count_in_state(ws: Seq<JVal>, s: Seq<char>) -> nat {
    count_where(ws, |w: JVal| worker_state(w) == Some(s))
}

/// How many workers have child status `s`.
pub open spec fn count_with_status(ws: Seq<JVal>, s: Seq<char>) -> nat {
    count_where(ws, |w: JVal| jstr_field(w, "status"@) == Some(s))
}

/// How many workers are marked for reclaim.
pub open spec fn count_reclaim_needed(ws: Seq<JVal>) -> nat {
    count_where(ws, |w: JVal| worker_reclaim_needed(w))
}

/// The active workers.
pub open spec fn active_workers(ws: Seq<JVal>) -> Seq<JVal> {
    select_where(ws, |w: JVal| worker_is_active(w))
}

/// The visibility payload over the given worker entries.
pub open spec fn spec_visibility_of_workers(id: Seq<char>, ws: Seq<JVal>) -> JVal {
    JVal::Object(
        seq![
            ("task_card_id"@, JVal::Str(id)),
            ("total_worker_count"@, JVal::Num(ws.len() as int)),
            ("active_worker_count"@, JVal::Num(active_workers(ws).len() as int)),
            ("queued_worker_count"@, JVal::Num(count_in_state(ws, "queued"@) as int)),
            ("launching_worker_count"@, JVal::Num(count_in_state(ws, "launching"@) as int)),
            (
                "running_worker_count"@,
                JVal::Num((count_in_state(ws, "running"@) + count_in_state(ws, "running_active"@)) as int),
            ),
            ("running_quiet_worker_count"@, JVal::Num(count_in_state(ws, "running_quiet"@) as int)),
            ("returned_worker_count"@, JVal::Num(count_in_state(ws, "returned"@) as int)),
            ("completed_worker_count"@, JVal::Num(count_with_status(ws, "completed"@) as int)),
            ("failed_worker_count"@, JVal::Num(count_with_status(ws, "failed"@) as int)),
            ("cancelled_worker_count"@, JVal::Num(count_with_status(ws, "cancelled"@) as int)),
            ("stale_worker_count"@, JVal::Num(count_in_state(ws, "stale"@) as int)),
            ("timed_out_worker_count"@, JVal::Num(count_in_state(ws, "timed_out"@) as int)),
            ("reclaim_needed_worker_count"@, JVal::Num(count_reclaim_needed(ws) as int)),
            ("workers"@, JVal::Array(ws)),
            ("active_workers"@, JVal::Array(active_workers(ws))),
        ],
    )
}

/// The worker visibility of task card `id` at time `now`: `null` without a
/// task card (or with a blank one) or without a delegations directory.
pub open spec fn spec_worker_visibility(
    id: Option<Seq<char>>,
    ds: Option<Seq<JVal>>,
    runtime: JVal,
    now: int,
) -> JVal {
    match id {
        Some(i) => if trim(i).len() == 0 {
            JVal::Null
        } else {
            match ds {
                Some(d) => spec_visibility_of_workers(i, spec_task_workers(i, d, runtime, now)),
                None => JVal::Null,
            }
        },
        None => JVal::Null,
    }
}

fn worker_entry(d: &Json, runtime_config: &Json, now_ms: i64) -> (r: Json)
    ensures
        jview(r) == spec_worker_entry(jview(*d), jview(*runtime_config), now_ms as int),
{
    let path: Vec<&str> = vec!["child_agent", "status"];
    assert(path@.map_values(|k: &str| k@) =~= seq!["child_agent"@, "status"@]);
    let status = match d.get_path(path.as_slice()) {
        Some(v) => v.deep_clone(),
        None => Json::Null,
    };
    let mut m: Vec<(String, Json)> = Vec::new();
    m.push(member("delegation_id", get_or_null(d, "delegation_id")));
    m.push(member("child_agent", get_or_null(d, "child_agent")));
    m.push(member("summary", get_or_null(d, "summary")));
    m.push(member("worker_lifecycle", create_worker_lifecycle_view_at(d, runtime_config, now_ms)));
    m.push(member("status", status));
    let r = object_of(m);
    assert(members_view(m@) =~= spec_worker_entry(
        jview(*d),
        jview(*runtime_config),
        now_ms as int,
    )->Object_0);
    r
}

fn is_task_delegation(d: &Json, task_card_id: &str) -> (r: bool)
    ensures
        r == delegation_of_task(jview(*d), task_card_id@),
{
    opt_str_is(d.str_field("task_card_id"), task_card_id)
}

fn task_workers(task_card_id: &str, delegations: &[Json], runtime_config: &Json, now_ms: i64) -> (r:
    Vec<Json>)
    ensures
        jviews(r@) == spec_task_workers(
            task_card_id@,
            jviews(delegations@),
            jview(*runtime_config),
            now_ms as int,
        ),
{
    let ghost dv = jviews(delegations@);
    let mut workers: Vec<Json> = Vec::new();
    let mut i: usize = 0;
    assert(dv.take(0) =~= Seq::<JVal>::empty());
    assert(jviews(workers@) =~= Seq::<JVal>::empty());
    while i < delegations.len()
        invariant
            i <= delegations.len(),
            dv == jviews(delegations@),
            jviews(workers@) == spec_task_workers(
                task_card_id@,
                dv.take(i as int),
                jview(*runtime_config),
                now_ms as int,
            ),
        decreases delegations.len() - i,
    {
        proof {
            assert(dv.take(i + 1).drop_last() =~= dv.take(i as int));
            assert(dv.take(i + 1).last() == jview(delegations@[i as int]));
        }
        let d = &delegations[i];
        if is_task_delegation(d, task_card_id) {
            let ghost before = jviews(workers@);
            let w = worker_entry(d, runtime_config, now_ms);
            workers.push(w);
            assert(jviews(workers@) =~= before.push(jview(w)));
        }
        i = i + 1;
    }
    assert(dv.take(delegations.len() as int) =~= dv);
    workers
}

fn state_is(w: &Json, state: &str) -> (r: bool)
    ensures
        r == (worker_state(jview(*w)) == Some(state@)),
{
    let path: Vec<&str> = vec!["worker_lifecycle", "state"];
    assert(path@.map_values(|k: &str| k@) =~= seq!["worker_lifecycle"@, "state"@]);
    opt_str_is(w.str_at(path.as_slice()), state)
}

fn reclaim_needed(w: &Json) -> (r: bool)
    ensures
        r == worker_reclaim_needed(jview(*w)),
{
    let path: Vec<&str> = vec!["worker_lifecycle", "reclaim_state"];
    assert(path@.map_values(|k: &str| k@) =~= seq!["worker_lifecycle"@, "reclaim_state"@]);
    opt_str_is(w.str_at(path.as_slice()), "reclaim_needed")
}

fn is_active(w: &Json) -> (r: bool)
    ensures
        r == worker_is_active(jview(*w)),
{
    let path: Vec<&str> = vec!["worker_lifecycle", "state"];
    assert(path@.map_values(|k: &str| k@) =~= seq!["worker_lifecycle"@, "state"@]);
    match w.str_at(path.as_slice()) {
        Some(s) => str_eq(s, "queued") || str_eq(s, "launching") || str_eq(s, "running") || str_eq(
            s,
            "running_active",
        ) || str_eq(s, "running_quiet") || str_eq(s, "stale") || str_eq(s, "timed_out"),
        None => false,
    }
}

fn count_in_state_exec(workers: &Vec<Json>, state: &str) -> (r: usize)
    ensures
        r == count_in_state(jviews(workers@), state@),
        r <= workers.len(),
{
    let ghost wv = jviews(workers@);
    let ghost f = |w: JVal| worker_state(w) == Some(state@);
    let mut n: usize = 0;
    let mut i: usize = 0;
    assert(wv.take(0) =~= Seq::<JVal>::empty());
    while i < workers.len()
        invariant
            i <= workers.len(),
            wv == jviews(workers@),
            f == (|w: JVal| worker_state(w) == Some(state@)),
            n == count_where(wv.take(i as int), f),
            n <= i,
        decreases workers.len() - i,
    {
        proof {
            assert(wv.take(i + 1).drop_last() =~= wv.take(i as int));
            assert(wv.take(i + 1).last() == jview(workers@[i as int]));
        }
        if state_is(&workers[i], state) {
            n = n + 1;
        }
        i = i + 1;
    }
    assert(wv.take(workers.len() as int) =~= wv);
    n
}

fn count_with_status_exec(workers: &Vec<Json>, status: &str) -> (r: usize)
    ensures
        r == count_with_status(jviews(workers@), status@),
        r <= workers.len(),
{
    let ghost wv = jviews(workers@);
    let ghost f = |w: JVal| jstr_field(w, "status"@) == Some(status@);
    let mut n: usize = 0;
    let mut i: usize = 0;
    assert(wv.take(0) =~= Seq::<JVal>::empty());
    while i < workers.len()
        invariant
            i <= workers.len(),
            wv == jviews(workers@),
            f == (|w: JVal| jstr_field(w, "status"@) == Some(status@)),
            n == count_where(wv.take(i as int), f),
            n <= i,
        decreases workers.len() - i,
    {
        proof {
            assert(wv.take(i + 1).drop_last() =~= wv.take(i as int));
            assert(wv.take(i + 1).last() == jview(workers@[i as int]));
        }
        if opt_str_is(workers[i].str_field("status"), status) {
            n = n + 1;
        }
        i = i + 1;
    }
    assert(wv.take(workers.len() as int) =~= wv);
    n
}

fn count_reclaim_needed_exec(workers: &Vec<Json>) -> (r: usize)
    ensures
        r == count_reclaim_needed(jviews(workers@)),
        r <= workers.len(),
{
    let ghost wv = jviews(workers@);
    let ghost f = |w: JVal| worker_reclaim_needed(w);
    let mut n: usize = 0;
    let mut i: usize = 0;
    assert(wv.take(0) =~= Seq::<JVal>::empty());
    while i < workers.len()
        invariant
            i <= workers.len(),
            wv == jviews(workers@),
            f == (|w: JVal| worker_reclaim_needed(w)),
            n == count_where(wv.take(i as int), f),
            n <= i,
        decreases workers.len() - i,
    {
        proof {
            assert(wv.take(i + 1).drop_last() =~= wv.take(i as int));
            assert(wv.take(i + 1).last() == jview(workers@[i as int]));
        }
        if reclaim_needed(&workers[i]) {
            n = n + 1;
        }
        i = i + 1;
    }
    assert(wv.take(workers.len() as int) =~= wv);
    n
}

fn active_workers_exec(workers: &Vec<Json>) -> (r: Vec<Json>)
    ensures
        jviews(r@) == active_workers(jviews(workers@)),
        r.len() <= workers.len(),
{
    let ghost wv = jviews(workers@);
    let ghost f = |w: JVal| worker_is_active(w);
    let mut out: Vec<Json> = Vec::new();
    let mut i: usize = 0;
    assert(wv.take(0) =~= Seq::<JVal>::empty());
    assert(jviews(out@) =~= Seq::<JVal>::empty());
    while i < workers.len()
        invariant
            i <= workers.len(),
            wv == jviews(workers@),
            f == (|w: JVal| worker_is_active(w)),
            jviews(out@) == select_where(wv.take(i as int), f),
            out.len() <= i,
        decreases workers.len() - i,
    {
        proof {
            assert(wv.take(i + 1).drop_last() =~= wv.take(i as int));
            assert(wv.take(i + 1).last() == jview(workers@[i as int]));
        }
        if is_active(&workers[i]) {
            let ghost before = jviews(out@);
            let c = workers[i].deep_clone();
            out.push(c);
            assert(jviews(out@) =~= before.push(jview(c)));
        }
        i = i + 1;
    }
    assert(wv.take(workers.len() as int) =~= wv);
    out
}

proof fn lemma_two_states_fit(ws: Seq<JVal>, a: Seq<char>, b: Seq<char>)
    requires
        a != b,
    ensures
        count_in_state(ws, a) + count_in_state(ws, b) <= ws.len(),
    decreases ws.len(),
{
    if ws.len() > 0 {
        lemma_two_states_fit(ws.drop_last(), a, b);
    }
}

pub fn array_of(items: Vec<Json>) -> (r: Json)
    ensures
        jview(r) == JVal::Array(jviews(items@)),
{
    proof {
        lemma_array_view(items);
    }
    Json::Array(items)
}

/// The visibility payload over the entries of a task card's workers.
pub fn visibility_of_workers(task_card_id: &str, workers: Vec<Json>) -> (r: Json)
    ensures
        jview(r) == spec_visibility_of_workers(task_card_id@, jviews(workers@)),
{
    let ghost wv = jviews(workers@);
    let total = workers.len();
    let active = active_workers_exec(&workers);
    let queued = count_in_state_exec(&workers, "queued");
    let launching = count_in_state_exec(&workers, "launching");
    let running = count_in_state_exec(&workers, "running");
    let running_active = count_in_state_exec(&workers, "running_active");
    let running_quiet = count_in_state_exec(&workers, "running_quiet");
    let returned = count_in_state_exec(&workers, "returned");
    let completed = count_with_status_exec(&workers, "completed");
    let failed = count_with_status_exec(&workers, "failed");
    let cancelled = count_with_status_exec(&workers, "cancelled");
    let stale = count_in_state_exec(&workers, "stale");
    let timed_out = count_in_state_exec(&workers, "timed_out");
    let reclaim = count_reclaim_needed_exec(&workers);
    let active_count = active.len();
    proof {
        reveal_strlit("running");
        reveal_strlit("running_active");
        assert("running"@.len() != "running_active"@.len());
        lemma_two_states_fit(wv, "running"@, "running_active"@);
    }
    let mut m: Vec<(String, Json)> = Vec::new();
    m.push(member("task_card_id", jstr(task_card_id)));
    m.push(member("total_worker_count", juint(total as u64)));
    m.push(member("active_worker_count", juint(active_count as u64)));
    m.push(member("queued_worker_count", juint(queued as u64)));
    m.push(member("launching_worker_count", juint(launching as u64)));
    m.push(member("running_worker_count", juint(running as u64 + running_active as u64)));
    m.push(member("running_quiet_worker_count", juint(running_quiet as u64)));
    m.push(member("returned_worker_count", juint(returned as u64)));
    m.push(member("completed_worker_count", juint(completed as u64)));
    m.push(member("failed_worker_count", juint(failed as u64)));
    m.push(member("cancelled_worker_count", juint(cancelled as u64)));
    m.push(member("stale_worker_count", juint(stale as u64)));
    m.push(member("timed_out_worker_count", juint(timed_out as u64)));
    m.push(member("reclaim_needed_worker_count", juint(reclaim as u64)));
    m.push(member("workers", array_of(workers)));
    m.push(member("active_workers", array_of(active)));
    let r = object_of(m);
    assert(members_view(m@) =~= spec_visibility_of_workers(task_card_id@, wv)->Object_0);
    r
}

/// The worker visibility of a task card at time `now_ms`, over the
/// delegations read from its run (`None`: the run has no delegations
/// directory).
pub fn create_worker_visibility_payload_at(
    active_task_card_id: Option<&str>,
    delegations: Option<&[Json]>,
    runtime_config: &Json,
    now_ms: i64,
) -> (r: Json)
    ensures
        jview(r) == spec_worker_visibility(
            opt_view(active_task_card_id),
            opt_jviews(delegations),
            jview(*runtime_config),
            now_ms as int,
        ),
{
    let task_card_id = match active_task_card_id {
        Some(id) => id,
        None => {
            return Json::Null;
        },
    };
    if is_blank(task_card_id) {
        return Json::Null;
    }
    match delegations {
        Some(ds) => {
            let workers = task_workers(task_card_id, ds, runtime_config, now_ms);
            visibility_of_workers(task_card_id, workers)
        },
        None => Json::Null,
    }
}

/// The worker visibility of a task card now (the time is read from the
/// clock).
pub fn create_worker_visibility_payload(
    active_task_card_id: Option<&str>,
    delegations: Option<&[Json]>,
    runtime_config: &Json,
) -> (r: Json)
    ensures
        exists|now: int|
            i64::MIN <= now <= i64::MAX && jview(r) == #[trigger] spec_worker_visibility(
                opt_view(active_task_card_id),
                opt_jviews(delegations),
                jview(*runtime_config),
                now,
            ),
{
    let now = utc_now_millis();
    create_worker_visibility_payload_at(active_task_card_id, delegations, runtime_config, now)
}

/// The worker entries listed by a visibility payload (none when `workers`
/// is not an array).
pub open spec fn spec_listed_workers(v: JVal) -> Seq<JVal> {
    match jget(v, "workers"@) {
        Some(JVal::Array(ws)) => ws,
        _ => Seq::empty(),
    }
}

/// The reclaim target of a worker marked for reclaim.
pub open spec fn spec_reclaim_target(w: JVal) -> JVal {
    let l = jget_or_null(w, "worker_lifecycle"@);
    JVal::Object(
        seq![
            ("delegation_id"@, jget_or_null(w, "delegation_id"@)),
            ("state"@, jget_or_null(l, "state"@)),
            ("process_id"@, jget_or_null(l, "process_id"@)),
            ("last_progress_at"@, jget_or_null(l, "last_progress_at"@)),
            ("elapsed_since_progress_ms"@, jget_or_null(l, "elapsed_since_progress_ms"@)),
            ("summary"@, jget_or_null(l, "summary"@)),
        ],
    )
}

/// The reclaim targets: the workers marked for reclaim, in order.
pub open spec fn spec_reclaim_targets(ws: Seq<JVal>) -> Seq<JVal> {
    select_where(ws, |w: JVal| worker_reclaim_needed(w)).map_values(|w: JVal| spec_reclaim_target(w))
}

/// The text of a reclaim plan.
pub open spec fn spec_reclaim_summary(n: nat, stale: nat, timed_out: nat, auto: bool) -> Seq<char> {
    if n == 0 {
        "No worker reclaim is currently needed."@
    } else {
        decimal(n) + " worker(s) need reclaim according to persisted heartbeat truth ("@ + decimal(
            stale,
        ) + " stale, "@ + decimal(timed_out) + " timed out). Auto reclaim is "@ + if auto {
            "enabled."@
        } else {
            "disabled."@
        }
    }
}

/// An unsigned count field of a payload, 0 when absent.
pub open spec fn count_field(v: JVal, key: Seq<char>) -> nat {
    match opt_u64(jget(v, key)) {
        Some(n) => n as nat,
        None => 0,
    }
}

/// The reclaim plan of a worker visibility payload: `null` for a `null`
/// payload; else the workers marked for reclaim, their count, whether auto
/// reclaim is on (it is unless the runtime config turns it off), and a
/// summary.
pub open spec fn spec_reclaim_plan(v: JVal, runtime: JVal) -> JVal {
    if v is Null {
        JVal::Null
    } else {
        let auto = match opt_bool(jget(runtime, "worker_auto_reclaim_enabled"@)) {
            Some(b) => b,
            None => true,
        };
        let targets = spec_reclaim_targets(spec_listed_workers(v));
        JVal::Object(
            seq![
                ("worker_auto_reclaim_enabled"@, JVal::Bool(auto)),
                ("reclaim_needed_worker_count"@, JVal::Num(targets.len() as int)),
                ("targets"@, JVal::Array(targets)),
                (
                    "summary"@,
                    JVal::Str(
                        spec_reclaim_summary(
                            targets.len(),
                            count_field(v, "stale_worker_count"@),
                            count_field(v, "timed_out_worker_count"@),
                            auto,
                        ),
                    ),
                ),
            ],
        )
    }
}

fn reclaim_target(w: &Json) -> (r: Json)
    ensures
        jview(r) == spec_reclaim_target(jview(*w)),
{
    let l = get_or_null(w, "worker_lifecycle");
    let mut m: Vec<(String, Json)> = Vec::new();
    m.push(member("delegation_id", get_or_null(w, "delegation_id")));
    m.push(member("state", get_or_null(&l, "state")));
    m.push(member("process_id", get_or_null(&l, "process_id")));
    m.push(member("last_progress_at", get_or_null(&l, "last_progress_at")));
    m.push(member("elapsed_since_progress_ms", get_or_null(&l, "elapsed_since_progress_ms")));
    m.push(member("summary", get_or_null(&l, "summary")));
    let r = object_of(m);
    assert(members_view(m@) =~= spec_reclaim_target(jview(*w))->Object_0);
    r
}

fn reclaim_targets(workers: &Vec<Json>) -> (r: Vec<Json>)
    ensures
        jviews(r@) == spec_reclaim_targets(jviews(workers@)),
        r.len() <= workers.len(),
{
    let ghost wv = jviews(workers@);
    let ghost f = |w: JVal| worker_reclaim_needed(w);
    let ghost g = |w: JVal| spec_reclaim_target(w);
    let mut out: Vec<Json> = Vec::new();
    let mut i: usize = 0;
    assert(wv.take(0) =~= Seq::<JVal>::empty());
    assert(jviews(out@) =~= select_where(wv.take(0), f).map_values(g));
    while i < workers.len()
        invariant
            i <= workers.len(),
            wv == jviews(workers@),
            f == (|w: JVal| worker_reclaim_needed(w)),
            g == (|w: JVal| spec_reclaim_target(w)),
            jviews(out@) == select_where(wv.take(i as int), f).map_values(g),
            out.len() <= i,
        decreases workers.len() - i,
    {
        proof {
            assert(wv.take(i + 1).drop_last() =~= wv.take(i as int));
            assert(wv.take(i + 1).last() == jview(workers@[i as int]));
        }
        if reclaim_needed(&workers[i]) {
            let ghost prev = select_where(wv.take(i as int), f);
            let t = reclaim_target(&workers[i]);
            out.push(t);
            assert(prev.push(jview(workers@[i as int])).map_values(g) =~= prev.map_values(g).push(
                jview(t),
            ));
            assert(jviews(out@) =~= prev.map_values(g).push(jview(t)));
        }
        i = i + 1;
    }
    assert(wv.take(workers.len() as int) =~= wv);
    out
}

fn push_reclaim_summary(out: &mut String, n: u64, stale: u64, timed_out: u64, auto: bool)
    requires
        n > 0,
    ensures
        final(out)@ == old(out)@ + spec_reclaim_summary(
            n as nat,
            stale as nat,
            timed_out as nat,
            auto,
        ),
{
    push_decimal(out, n);
    push_str(out, " worker(s) need reclaim according to persisted heartbeat truth (");
    push_decimal(out, stale);
    push_str(out, " stale, ");
    push_decimal(out, timed_out);
    push_str(out, " timed out). Auto reclaim is ");
    if auto {
        push_str(out, "enabled.");
    } else {
        push_str(out, "disabled.");
    }
    assert(final(out)@ =~= old(out)@ + spec_reclaim_summary(
        n as nat,
        stale as nat,
        timed_out as nat,
        auto,
    ));
}

fn count_field_exec(v: &Json, key: &str) -> (r: u64)
    ensures
        r == count_field(jview(*v), key@),
{
    match v.u64_field(key) {
        Some(n) => n,
        None => 0,
    }
}

/// The reclaim plan of a worker visibility payload.
pub fn create_reclaim_plan_payload(worker_visibility: &Json, runtime_config: &Json) -> (r: Json)
    ensures
        jview(r) == spec_reclaim_plan(jview(*worker_visibility), jview(*runtime_config)),
{
    if worker_visibility.is_null() {
        return Json::Null;
    }
    let auto = match runtime_config.bool_field("worker_auto_reclaim_enabled") {
        Some(b) => b,
        None => true,
    };
    let empty: Vec<Json> = Vec::new();
    assert(jviews(empty@) =~= Seq::<JVal>::empty());
    let targets = match worker_visibility.get("workers") {
        Some(w) => match w {
            Json::Array(ws) => {
                proof {
                    lemma_array_view(*ws);
                }
                reclaim_targets(ws)
            },
            _ => reclaim_targets(&empty),
        },
        None => reclaim_targets(&empty),
    };
    let n = targets.len() as u64;
    let stale = count_field_exec(worker_visibility, "stale_worker_count");
    let timed_out = count_field_exec(worker_visibility, "timed_out_worker_count");
    let mut summary = String::new();
    if n == 0 {
        push_str(&mut summary, "No worker reclaim is currently needed.");
    } else {
        push_reclaim_summary(&mut summary, n, stale, timed_out, auto);
    }
    let mut m: Vec<(String, Json)> = Vec::new();
    m.push(member("worker_auto_reclaim_enabled", jbool(auto)));
    m.push(member("reclaim_needed_worker_count", juint(n)));
    m.push(member("targets", array_of(targets)));
    m.push(member("summary", Json::Str(summary)));
    let r = object_of(m);
    assert(members_view(m@) =~= spec_reclaim_plan(
        jview(*worker_visibility),
        jview(*runtime_config),
    )->Object_0);
    r
}

proof fn lemma_select_len(ws: Seq<JVal>, f: spec_fn(JVal) -> bool)
    ensures
        select_where(ws, f).len() == count_where(ws, f),
    decreases ws.len(),
{
    if ws.len() > 0 {
        lemma_select_len(ws.drop_last(), f);
    }
}

/// The names of a visibility payload are apart from one another.
proof fn lemma_visibility_names()
    ensures
        forall|k: int|
            0 <= k < 13 ==> (#[trigger] spec_visibility_of_workers(
                Seq::empty(),
                Seq::empty(),
            )->Object_0[k]).0 != "reclaim_needed_worker_count"@,
        forall|k: int|
            0 <= k < 14 ==> (#[trigger] spec_visibility_of_workers(
                Seq::empty(),
                Seq::empty(),
            )->Object_0[k]).0 != "workers"@,
{
    reveal_strlit("task_card_id");
    reveal_strlit("total_worker_count");
    reveal_strlit("active_worker_count");
    reveal_strlit("queued_worker_count");
    reveal_strlit("launching_worker_count");
    reveal_strlit("running_worker_count");
    reveal_strlit("running_quiet_worker_count");
    reveal_strlit("returned_worker_count");
    reveal_strlit("completed_worker_count");
    reveal_strlit("failed_worker_count");
    reveal_strlit("cancelled_worker_count");
    reveal_strlit("stale_worker_count");
    reveal_strlit("timed_out_worker_count");
    reveal_strlit("reclaim_needed_worker_count");
    reveal_strlit("workers");
    reveal_strlit("active_workers");
    assert("task_card_id"@.len() == 12);
    assert("total_worker_count"@.len() == 18);
    assert("active_worker_count"@.len() == 19);
    assert("queued_worker_count"@.len() == 19);
    assert("launching_worker_count"@.len() == 22);
    assert("running_worker_count"@.len() == 20);
    assert("running_quiet_worker_count"@.len() == 26);
    assert("returned_worker_count"@.len() == 21);
    assert("completed_worker_count"@.len() == 22);
    assert("failed_worker_count"@.len() == 19);
    assert("cancelled_worker_count"@.len() == 22);
    assert("stale_worker_count"@.len() == 18);
    assert("timed_out_worker_count"@.len() == 22);
    assert("reclaim_needed_worker_count"@.len() == 27);
    assert("workers"@.len() == 7);
    assert("active_workers"@.len() == 14);
}

/// The reclaim plan of a task's worker visibility names exactly as many
/// targets as the visibility counts workers needing reclaim.
pub proof fn lemma_reclaim_plan_counts_visibility(
    id: Seq<char>,
    ds: Seq<JVal>,
    runtime: JVal,
    now: int,
)
    requires
        crate::strings::trim(id).len() > 0,
    ensures
        ({
            let v = spec_worker_visibility(Some(id), Some(ds), runtime, now);
            jget(spec_reclaim_plan(v, runtime), "reclaim_needed_worker_count"@) == jget(
                v,
                "reclaim_needed_worker_count"@,
            )
        }),
{
    let ws = spec_task_workers(id, ds, runtime, now);
    let v = spec_worker_visibility(Some(id), Some(ds), runtime, now);
    let m = v->Object_0;
    let m0 = spec_visibility_of_workers(Seq::empty(), Seq::empty())->Object_0;
    lemma_visibility_names();
    assert forall|k: int| 0 <= k < 14 implies m[k].0 == (#[trigger] m0[k]).0 by {}
    crate::json::lemma_jmember_index_scan(m, "reclaim_needed_worker_count"@, 13);
    crate::json::lemma_jmember_index_scan(m, "workers"@, 14);
    assert(spec_listed_workers(v) == ws);
    lemma_select_len(ws, |w: JVal| worker_reclaim_needed(w));
    let p = spec_reclaim_plan(v, runtime)->Object_0;
    reveal_strlit("worker_auto_reclaim_enabled");
    reveal_strlit("reclaim_needed_worker_count");
    assert("worker_auto_reclaim_enabled"@[0] != "reclaim_needed_worker_count"@[0]);
    crate::json::lemma_jmember_index_scan(p, "reclaim_needed_worker_count"@, 1);
}

/// Whether a delegation's child agent has not reached a terminal status.
pub open spec fn delegation_is_active(d: JVal) -> bool {
    let s = child_status(d);
    !(s == "completed"@ || s == "failed"@ || s == "cancelled"@)
}

/// Whether one of `ds` belongs to task card `id` and is still active.
pub open spec fn has_active_delegation(id: Seq<char>, ds: Seq<JVal>) -> bool {
    exists|k: int| 0 <= k < ds.len() && delegation_of_task(#[trigger] ds[k], id) && delegation_is_active(ds[k])
}

/// Whether task card `id` has a delegation whose worker is still active;
/// never without a task card (or with a blank one) or without delegations.
pub open spec fn spec_task_has_active_worker(id: Option<Seq<char>>, ds: Option<Seq<JVal>>) -> bool {
    match id {
        Some(i) => if trim(i).len() == 0 {
            false
        } else {
            match ds {
                Some(d) => has_active_delegation(i, d),
                None => false,
            }
        },
        None => false,
    }
}

fn child_status_exec(d: &Json) -> (r: &str)
    ensures
        r@ == child_status(jview(*d)),
{
    let path: Vec<&str> = vec!["child_agent", "status"];
    assert(path@.map_values(|k: &str| k@) =~= seq!["child_agent"@, "status"@]);
    match d.str_at(path.as_slice()) {
        Some(s) => s,
        None => "queued",
    }
}

/// Whether a task card has a delegation whose worker is still active, over
/// the delegations read from its run (`None`: no delegations directory).
pub fn task_has_active_worker_delegation(
    active_task_card_id: Option<&str>,
    delegations: Option<&[Json]>,
) -> (r: bool)
    ensures
        r == spec_task_has_active_worker(opt_view(active_task_card_id), opt_jviews(delegations)),
{
    let task_card_id = match active_task_card_id {
        Some(id) => id,
        None => {
            return false;
        },
    };
    if is_blank(task_card_id) {
        return false;
    }
    let ds = match delegations {
        Some(ds) => ds,
        None => {
            return false;
        },
    };
    let ghost dv = jviews(ds@);
    assert(opt_jviews(delegations) == Some(dv));
    let mut i: usize = 0;
    while i < ds.len()
        invariant
            i <= ds.len(),
            dv == jviews(ds@),
            opt_jviews(delegations) == Some(dv),
            opt_view(active_task_card_id) == Some(task_card_id@),
            trim(task_card_id@).len() > 0,
            forall|k: int|
                0 <= k < i ==> !(delegation_of_task(#[trigger] dv[k], task_card_id@)
                    && delegation_is_active(dv[k])),
        decreases ds.len() - i,
    {
        let d = &ds[i];
        if is_task_delegation(d, task_card_id) {
            let s = child_status_exec(d);
            if !(str_eq(s, "completed") || str_eq(s, "failed") || str_eq(s, "cancelled")) {
                assert(dv[i as int] == jview(ds@[i as int]));
                assert(delegation_of_task(dv[i as int], task_card_id@));
                assert(delegation_is_active(dv[i as int]));
                assert(has_active_delegation(task_card_id@, dv));
                return true;
            }
        }
        i = i + 1;
    }
    false
}

/// The counts of a task card's delegations for fan-in: matching, completed,
/// failed, cancelled, still active, and the thread ids of the completed
/// ones that recorded one.
pub open spec fn spec_fan_in_tally(id: Seq<char>, ds: Seq<JVal>) -> (
    nat,
    nat,
    nat,
    nat,
    nat,
    Seq<Seq<char>>,
)
    decreases ds.len(),
{
    if ds.len() == 0 {
        (0, 0, 0, 0, 0, Seq::empty())
    } else {
        let t = spec_fan_in_tally(id, ds.drop_last());
        let d = ds.last();
        if !delegation_of_task(d, id) {
            t
        } else {
            let s = child_status(d);
            if s == "completed"@ {
                (
                    t.0 + 1,
                    t.1 + 1,
                    t.2,
                    t.3,
                    t.4,
                    match jstr_at(d, seq!["worker_result"@, "thread_id"@]) {
                        Some(x) => t.5.push(x),
                        None => t.5,
                    },
                )
            } else if s == "failed"@ {
                (t.0 + 1, t.1, t.2 + 1, t.3, t.4, t.5)
            } else if s == "cancelled"@ {
                (t.0 + 1, t.1, t.2, t.3 + 1, t.4, t.5)
            } else {
                (t.0 + 1, t.1, t.2, t.3, t.4 + 1, t.5)
            }
        }
    }
}

/// A collapsed fan-in record.
pub open spec fn spec_fan_in_result(
    at: Seq<char>,
    id: Seq<char>,
    completed: nat,
    failed: nat,
    cancelled: nat,
    summary: Seq<char>,
    thread_ids: Seq<Seq<char>>,
) -> JVal {
    JVal::Object(
        seq![
            ("collapsed_at"@, JVal::Str(at)),
            ("task_card_id"@, JVal::Str(id)),
            ("completed"@, JVal::Num(completed as int)),
            ("failed"@, JVal::Num(failed as int)),
            ("cancelled"@, JVal::Num(cancelled as int)),
            ("summary"@, JVal::Str(summary)),
            ("thread_ids"@, jstrs(thread_ids)),
        ],
    )
}

/// The summary of a fan-in collapsed over worker delegations.
pub open spec fn spec_explicit_fan_in_summary(
    completed: nat,
    failed: nat,
    cancelled: nat,
    orchestrator_summary: Seq<char>,
) -> Seq<char> {
    if failed > 0 || cancelled > 0 {
        "Captain collapsed explicit fan-in after terminal worker results ("@ + decimal(completed)
            + " completed, "@ + decimal(failed) + " failed, "@ + decimal(cancelled)
            + " cancelled). "@ + orchestrator_summary
    } else {
        "Captain collapsed explicit fan-in after "@ + decimal(completed)
            + " completed worker result(s). "@ + orchestrator_summary
    }
}

/// The summary of a fan-in collapsed from the task card's own envelope.
pub open spec fn spec_task_card_fan_in_summary(
    completed: nat,
    failed: nat,
    cancelled: nat,
    envelope_summary: Seq<char>,
    orchestrator_summary: Seq<char>,
) -> Seq<char> {
    if failed > 0 || cancelled > 0 {
        "Captain collapsed task-card fan-in after terminal worker result ("@ + decimal(completed)
            + " completed, "@ + decimal(failed) + " failed, "@ + decimal(cancelled)
            + " cancelled). "@ + envelope_summary + " "@ + orchestrator_summary
    } else {
        "Captain collapsed task-card fan-in after "@ + decimal(completed)
            + " completed worker result(s). "@ + envelope_summary + " "@ + orchestrator_summary
    }
}

/// The completed, failed and cancelled counts of a terminal envelope status.
pub open spec fn spec_envelope_counts(status: Seq<char>) -> Option<(nat, nat, nat)> {
    let n = ascii_lowercase(trim(status));
    if n == "completed"@ || n == "passed"@ || n == "success"@ {
        Some((1, 0, 0))
    } else if n == "failed"@ || n == "error"@ {
        Some((0, 1, 0))
    } else if n == "cancelled"@ || n == "canceled"@ {
        Some((0, 0, 1))
    } else {
        None
    }
}

/// The envelope of a task card: its worker result envelope, else its
/// subagent fan-in.
pub open spec fn spec_task_card_envelope(task_card: JVal) -> Option<JVal> {
    match jget(task_card, "worker_result_envelope"@) {
        Some(e) => Some(e),
        None => jget(task_card, "subagent_fan_in"@),
    }
}

/// The fan-in collapsed from a task card's envelope when its status is
/// terminal; `None` otherwise.
pub open spec fn spec_task_card_fan_in(
    task_card: JVal,
    id: Seq<char>,
    orchestrator_summary: Seq<char>,
    at: Seq<char>,
) -> Option<JVal> {
    match spec_task_card_envelope(task_card) {
        None => None,
        Some(e) => match jstr_field(e, "status"@) {
            None => None,
            Some(status) => match spec_envelope_counts(status) {
                None => None,
                Some(c) => {
                    let s = match jstr_field(e, "summary"@) {
                        Some(x) => if trim(x).len() > 0 {
                            trim(x)
                        } else {
                            "Task card terminal fan-in is ready."@
                        },
                        None => "Task card terminal fan-in is ready."@,
                    };
                    Some(
                        spec_fan_in_result(
                            at,
                            id,
                            c.0,
                            c.1,
                            c.2,
                            spec_task_card_fan_in_summary(c.0, c.1, c.2, s, orchestrator_summary),
                            Seq::empty(),
                        ),
                    )
                },
            },
        },
    }
}

/// The terminal fan-in of a task card: `None` without a (non-blank) task
/// card id or while any of its workers is active; from the task card's own
/// envelope when it has no delegations; else the counts over its
/// delegations.
pub open spec fn spec_collapse_terminal_fan_in(
    task_card: JVal,
    ds: Option<Seq<JVal>>,
    orchestrator_summary: Seq<char>,
    at: Seq<char>,
) -> Option<JVal> {
    match jstr_field(task_card, "task_card_id"@) {
        Some(id) => if trim(id).len() == 0 {
            None
        } else {
            match ds {
                None => spec_task_card_fan_in(task_card, id, orchestrator_summary, at),
                Some(d) => {
                    let t = spec_fan_in_tally(id, d);
                    if t.0 == 0 {
                        spec_task_card_fan_in(task_card, id, orchestrator_summary, at)
                    } else if t.4 > 0 {
                        None
                    } else {
                        Some(
                            spec_fan_in_result(
                                at,
                                id,
                                t.1,
                                t.2,
                                t.3,
                                spec_explicit_fan_in_summary(t.1, t.2, t.3, orchestrator_summary),
                                t.5,
                            ),
                        )
                    }
                },
            }
        },
        None => None,
    }
}

/// The view of an optional value.
pub open spec fn opt_jview(o: Option<Json>) -> Option<JVal> {
    match o {
        Some(v) => Some(jview(v)),
        None => None,
    }
}

fn fan_in_result(
    at: &str,
    id: &str,
    completed: u64,
    failed: u64,
    cancelled: u64,
    summary: String,
    thread_ids: &[String],
) -> (r: Json)
    ensures
        jview(r) == spec_fan_in_result(
            at@,
            id@,
            completed as nat,
            failed as nat,
            cancelled as nat,
            summary@,
            thread_ids@.map_values(|s: String| s@),
        ),
{
    let ids = jstring_array(thread_ids);
    assert(thread_ids@.map_values(|s: String| JVal::Str(s@)) =~= thread_ids@.map_values(
        |s: String| s@,
    ).map_values(|s: Seq<char>| JVal::Str(s)));
    let mut m: Vec<(String, Json)> = Vec::new();
    m.push(member("collapsed_at", jstr(at)));
    m.push(member("task_card_id", jstr(id)));
    m.push(member("completed", juint(completed)));
    m.push(member("failed", juint(failed)));
    m.push(member("cancelled", juint(cancelled)));
    m.push(member("summary", Json::Str(summary)));
    m.push(member("thread_ids", ids));
    let r = object_of(m);
    assert(members_view(m@) =~= spec_fan_in_result(
        at@,
        id@,
        completed as nat,
        failed as nat,
        cancelled as nat,
        summary@,
        thread_ids@.map_values(|s: String| s@),
    )->Object_0);
    r
}

fn push_fan_in_counts(out: &mut String, completed: u64, failed: u64, cancelled: u64)
    ensures
        final(out)@ == old(out)@ + decimal(completed as nat) + " completed, "@ + decimal(
            failed as nat,
        ) + " failed, "@ + decimal(cancelled as nat) + " cancelled). "@,
{
    push_decimal(out, completed);
    push_str(out, " completed, ");
    push_decimal(out, failed);
    push_str(out, " failed, ");
    push_decimal(out, cancelled);
    push_str(out, " cancelled). ");
}

fn explicit_fan_in_summary(completed: u64, failed: u64, cancelled: u64, orchestrator_summary: &str) -> (r:
    String)
    ensures
        r@ == spec_explicit_fan_in_summary(
            completed as nat,
            failed as nat,
            cancelled as nat,
            orchestrator_summary@,
        ),
{
    let mut s = String::new();
    if failed > 0 || cancelled > 0 {
        push_str(&mut s, "Captain collapsed explicit fan-in after terminal worker results (");
        push_fan_in_counts(&mut s, completed, failed, cancelled);
    } else {
        push_str(&mut s, "Captain collapsed explicit fan-in after ");
        push_decimal(&mut s, completed);
        push_str(&mut s, " completed worker result(s). ");
    }
    push_str(&mut s, orchestrator_summary);
    assert(s@ =~= spec_explicit_fan_in_summary(
        completed as nat,
        failed as nat,
        cancelled as nat,
        orchestrator_summary@,
    ));
    s
}

fn task_card_fan_in_summary(
    completed: u64,
    failed: u64,
    cancelled: u64,
    envelope_summary: &str,
    orchestrator_summary: &str,
) -> (r: String)
    ensures
        r@ == spec_task_card_fan_in_summary(
            completed as nat,
            failed as nat,
            cancelled as nat,
            envelope_summary@,
            orchestrator_summary@,
        ),
{
    let mut s = String::new();
    if failed > 0 || cancelled > 0 {
        push_str(&mut s, "Captain collapsed task-card fan-in after terminal worker result (");
        push_fan_in_counts(&mut s, completed, failed, cancelled);
    } else {
        push_str(&mut s, "Captain collapsed task-card fan-in after ");
        push_decimal(&mut s, completed);
        push_str(&mut s, " completed worker result(s). ");
    }
    push_str(&mut s, envelope_summary);
    push_str(&mut s, " ");
    push_str(&mut s, orchestrator_summary);
    assert(s@ =~= spec_task_card_fan_in_summary(
        completed as nat,
        failed as nat,
        cancelled as nat,
        envelope_summary@,
        orchestrator_summary@,
    ));
    s
}

fn envelope_counts(status: &str) -> (r: Option<(u64, u64, u64)>)
    ensures
        match r {
            Some(c) => spec_envelope_counts(status@) == Some(
                (c.0 as nat, c.1 as nat, c.2 as nat),
            ),
            None => spec_envelope_counts(status@) is None,
        },
{
    let t = trim_string(status);
    let n = to_ascii_lowercase(t.as_str());
    let n = n.as_str();
    if str_eq(n, "completed") || str_eq(n, "passed") || str_eq(n, "success") {
        Some((1, 0, 0))
    } else if str_eq(n, "failed") || str_eq(n, "error") {
        Some((0, 1, 0))
    } else if str_eq(n, "cancelled") || str_eq(n, "canceled") {
        Some((0, 0, 1))
    } else {
        None
    }
}

/// The fan-in collapsed from a task card's envelope, stamped `collapsed_at`.
pub fn collapse_task_card_terminal_fan_in_at(
    task_card: &Json,
    task_card_id: &str,
    orchestrator_summary: &str,
    collapsed_at: &str,
) -> (r: Option<Json>)
    ensures
        opt_jview(r) == spec_task_card_fan_in(
            jview(*task_card),
            task_card_id@,
            orchestrator_summary@,
            collapsed_at@,
        ),
{
    let envelope = match task_card.get("worker_result_envelope") {
        Some(e) => e,
        None => match task_card.get("subagent_fan_in") {
            Some(e) => e,
            None => {
                return None;
            },
        },
    };
    let status = match envelope.str_field("status") {
        Some(s) => s,
        None => {
            return None;
        },
    };
    let counts = match envelope_counts(status) {
        Some(c) => c,
        None => {
            return None;
        },
    };
    let summary: String = match envelope.str_field("summary") {
        Some(x) => {
            let t = trim_string(x);
            if t.as_str().unicode_len() > 0 {
                t
            } else {
                to_owned("Task card terminal fan-in is ready.")
            }
        },
        None => to_owned("Task card terminal fan-in is ready."),
    };
    let text = task_card_fan_in_summary(
        counts.0,
        counts.1,
        counts.2,
        summary.as_str(),
        orchestrator_summary,
    );
    let empty: Vec<String> = Vec::new();
    assert(empty@.map_values(|s: String| s@) =~= Seq::<Seq<char>>::empty());
    Some(
        fan_in_result(
            collapsed_at,
            task_card_id,
            counts.0,
            counts.1,
            counts.2,
            text,
            empty.as_slice(),
        ),
    )
}

/// The fan-in collapsed from a task card's envelope now (the time is read
/// from the clock).
pub fn collapse_task_card_terminal_fan_in(
    task_card: &Json,
    task_card_id: &str,
    orchestrator_summary: &str,
) -> (r: Option<Json>)
    ensures
        exists|at: Seq<char>|
            opt_jview(r) == #[trigger] spec_task_card_fan_in(
                jview(*task_card),
                task_card_id@,
                orchestrator_summary@,
                at,
            ),
{
    let at = utc_now_rfc3339_millis();
    collapse_task_card_terminal_fan_in_at(task_card, task_card_id, orchestrator_summary, at.as_str())
}

fn fan_in_tally(task_card_id: &str, ds: &[Json]) -> (r: (u64, u64, u64, u64, u64, Vec<String>))
    ensures
        spec_fan_in_tally(task_card_id@, jviews(ds@)) == (
            r.0 as nat,
            r.1 as nat,
            r.2 as nat,
            r.3 as nat,
            r.4 as nat,
            r.5@.map_values(|s: String| s@),
        ),
{
    let ghost dv = jviews(ds@);
    let mut matching: u64 = 0;
    let mut completed: u64 = 0;
    let mut failed: u64 = 0;
    let mut cancelled: u64 = 0;
    let mut active: u64 = 0;
    let mut ids: Vec<String> = Vec::new();
    let mut i: usize = 0;
    assert(dv.take(0) =~= Seq::<JVal>::empty());
    assert(ids@.map_values(|s: String| s@) =~= Seq::<Seq<char>>::empty());
    while i < ds.len()
        invariant
            i <= ds.len(),
            dv == jviews(ds@),
            matching <= i,
            completed <= i,
            failed <= i,
            cancelled <= i,
            active <= i,
            spec_fan_in_tally(task_card_id@, dv.take(i as int)) == (
                matching as nat,
                completed as nat,
                failed as nat,
                cancelled as nat,
                active as nat,
                ids@.map_values(|s: String| s@),
            ),
        decreases ds.len() - i,
    {
        proof {
            assert(dv.take(i + 1).drop_last() =~= dv.take(i as int));
            assert(dv.take(i + 1).last() == jview(ds@[i as int]));
        }
        let d = &ds[i];
        if is_task_delegation(d, task_card_id) {
            matching = matching + 1;
            let s = child_status_exec(d);
            if str_eq(s, "completed") {
                completed = completed + 1;
                let path: Vec<&str> = vec!["worker_result", "thread_id"];
                assert(path@.map_values(|k: &str| k@) =~= seq!["worker_result"@, "thread_id"@]);
                match d.str_at(path.as_slice()) {
                    Some(t) => {
                        let ghost before = ids@.map_values(|s: String| s@);
                        ids.push(to_owned(t));
                        assert(ids@.map_values(|s: String| s@) =~= before.push(t@));
                    },
                    None => {},
                }
            } else if str_eq(s, "failed") {
                failed = failed + 1;
            } else if str_eq(s, "cancelled") {
                cancelled = cancelled + 1;
            } else {
                active = active + 1;
            }
        }
        i = i + 1;
    }
    assert(dv.take(ds.len() as int) =~= dv);
    (matching, completed, failed, cancelled, active, ids)
}

/// The terminal fan-in of a task card over the delegations read from its
/// run (`None`: no delegations directory), stamped `collapsed_at`.
pub fn collapse_terminal_fan_in_at(
    task_card: &Json,
    delegations: Option<&[Json]>,
    orchestrator_summary: &str,
    collapsed_at: &str,
) -> (r: Option<Json>)
    ensures
        opt_jview(r) == spec_collapse_terminal_fan_in(
            jview(*task_card),
            opt_jviews(delegations),
            orchestrator_summary@,
            collapsed_at@,
        ),
{
    let task_card_id = match task_card.str_field("task_card_id") {
        Some(id) => id,
        None => {
            return None;
        },
    };
    if is_blank(task_card_id) {
        return None;
    }
    let ds = match delegations {
        Some(ds) => ds,
        None => {
            return collapse_task_card_terminal_fan_in_at(
                task_card,
                task_card_id,
                orchestrator_summary,
                collapsed_at,
            );
        },
    };
    let t = fan_in_tally(task_card_id, ds);
    if t.0 == 0 {
        return collapse_task_card_terminal_fan_in_at(
            task_card,
            task_card_id,
            orchestrator_summary,
            collapsed_at,
        );
    }
    if t.4 > 0 {
        return None;
    }
    let summary = explicit_fan_in_summary(t.1, t.2, t.3, orchestrator_summary);
    Some(fan_in_result(collapsed_at, task_card_id, t.1, t.2, t.3, summary, t.5.as_slice()))
}

/// A delegation marked as collapsed into the fan-in at `collapsed_at`.
pub fn stamp_fan_in_collapsed(delegation: &mut Json, collapsed_at: &str)
    ensures
        jview(*final(delegation)) == jinsert(
            jinsert(jview(*old(delegation)), "updated_at"@, JVal::Str(collapsed_at@)),
            "fan_in_collapsed_at"@,
            JVal::Str(collapsed_at@),
        ),
{
    delegation.insert("updated_at", jstr(collapsed_at));
    delegation.insert("fan_in_collapsed_at", jstr(collapsed_at));
}

/// The grace period before a reclaimed worker is killed (2000 ms unless the
/// runtime config sets one).
pub open spec fn spec_worker_kill_grace_ms(runtime: JVal) -> nat {
    match opt_u64(jget(runtime, "worker_kill_grace_ms"@)) {
        Some(n) => n as nat,
        None => 2000,
    }
}

pub fn worker_kill_grace_ms(runtime_config: &Json) -> (r: u64)
    ensures
        r == spec_worker_kill_grace_ms(jview(*runtime_config)),
{
    match runtime_config.u64_field("worker_kill_grace_ms") {
        Some(n) => n,
        None => 2000,
    }
}

/// The lifecycle view of a delegation of task card `id` that needs reclaim
/// at time `now`; `None` for another task's delegation or one that needs no
/// reclaim.
pub open spec fn spec_worker_reclaim_view(id: Seq<char>, d: JVal, runtime: JVal, now: int) -> Option<
    JVal,
> {
    if !delegation_of_task(d, id) {
        None
    } else {
        let view = lifecycle_view_spec(d, runtime, now);
        let reclaim = match jstr_field(view, "reclaim_state"@) {
            Some(s) => s,
            None => "not_needed"@,
        };
        if reclaim == "reclaim_needed"@ {
            Some(view)
        } else {
            None
        }
    }
}

pub fn worker_reclaim_view_at(
    task_card_id: &str,
    delegation: &Json,
    runtime_config: &Json,
    now_ms: i64,
) -> (r: Option<Json>)
    ensures
        opt_jview(r) == spec_worker_reclaim_view(
            task_card_id@,
            jview(*delegation),
            jview(*runtime_config),
            now_ms as int,
        ),
{
    if !is_task_delegation(delegation, task_card_id) {
        return None;
    }
    let view = create_worker_lifecycle_view_at(delegation, runtime_config, now_ms);
    let needed = match view.str_field("reclaim_state") {
        Some(s) => str_eq(s, "reclaim_needed"),
        None => false,
    };
    proof {
        reveal_strlit("not_needed");
        reveal_strlit("reclaim_needed");
        assert("not_needed"@.len() != "reclaim_needed"@.len());
    }
    if needed {
        Some(view)
    } else {
        None
    }
}

/// The state a reclaimed worker is recorded in (`stale` unless the view
/// says otherwise).
pub open spec fn spec_reclaimed_state(view: JVal) -> Seq<char> {
    match jstr_field(view, "state"@) {
        Some(s) => s,
        None => "stale"@,
    }
}

pub fn reclaimed_state(view: &Json) -> (r: &str)
    ensures
        r@ == spec_reclaimed_state(jview(*view)),
{
    match view.str_field("state") {
        Some(s) => s,
        None => "stale",
    }
}

/// The process id recorded for a worker, as the process handle takes it
/// (the low 32 bits).
pub open spec fn spec_worker_process_id(d: JVal) -> Option<u32> {
    match opt_u64(jget_path(d, seq!["worker_lifecycle"@, "process_id"@])) {
        Some(n) => Some(n as u32),
        None => None,
    }
}

pub fn worker_process_id(delegation: &Json) -> (r: Option<u32>)
    ensures
        r == spec_worker_process_id(jview(*delegation)),
{
    let path: Vec<&str> = vec!["worker_lifecycle", "process_id"];
    assert(path@.map_values(|k: &str| k@) =~= seq!["worker_lifecycle"@, "process_id"@]);
    match delegation.get_path(path.as_slice()) {
        Some(v) => match v.as_u64() {
            Some(n) => Some(#[verifier::truncate] (n as u32)),
            None => None,
        },
        None => None,
    }
}

/// The failure summary of a reclaimed worker.
pub open spec fn spec_reclaim_failure_summary(
    state: Seq<char>,
    process_id: Option<u32>,
    termination: Seq<char>,
) -> Seq<char> {
    let p = match process_id {
        Some(n) => decimal(n as nat),
        None => "unknown"@,
    };
    if state == "timed_out"@ {
        "Worker process "@ + p + " exceeded the bounded timeout and was reclaimed by Rust CCC ("@
            + termination + ")."@
    } else {
        "Worker process "@ + p + " stopped making bounded progress and was reclaimed by Rust CCC ("@
            + termination + ")."@
    }
}

fn reclaim_failure_summary(state: &str, process_id: Option<u32>, termination: &str) -> (r: String)
    ensures
        r@ == spec_reclaim_failure_summary(state@, process_id, termination@),
{
    let mut s = String::new();
    push_str(&mut s, "Worker process ");
    match process_id {
        Some(n) => push_decimal(&mut s, n as u64),
        None => push_str(&mut s, "unknown"),
    }
    if str_eq(state, "timed_out") {
        push_str(&mut s, " exceeded the bounded timeout and was reclaimed by Rust CCC (");
    } else {
        push_str(&mut s, " stopped making bounded progress and was reclaimed by Rust CCC (");
    }
    push_str(&mut s, termination);
    push_str(&mut s, ").");
    assert(s@ =~= spec_reclaim_failure_summary(state@, process_id, termination@));
    s
}

/// A nested object's `status` set to `failed` (nothing changes where the
/// member is absent or not an object).
pub open spec fn spec_mark_member_failed(d: JVal, key: Seq<char>) -> JVal {
    match jget(d, key) {
        Some(c) => if c is Object {
            jinsert(d, key, jinsert(c, "status"@, JVal::Str("failed"@)))
        } else {
            d
        },
        None => d,
    }
}

fn mark_member_failed(d: &mut Json, key: &str)
    ensures
        jview(*final(d)) == spec_mark_member_failed(jview(*old(d)), key@),
{
    let is_obj = match d.get(key) {
        Some(c) => c.is_object(),
        None => false,
    };
    if !is_obj {
        return;
    }
    let ghost d0 = jview(*d);
    match take_member(d, key) {
        Some(mut c) => {
            c.insert("status", jstr("failed"));
            d.insert(key, c);
            proof {
                lemma_jinsert_twice(d0, key@, JVal::Null, jview(c));
            }
        },
        None => {},
    }
}

/// A reclaimed worker's lifecycle: in `state`, reclaimed, last seen and
/// returned at `at`, with the failure summary, and stamped stale or timed
/// out at `at` where it had no such time.
pub open spec fn spec_reclaimed_lifecycle(l: JVal, state: Seq<char>, at: Seq<char>, summary: Seq<char>) -> JVal {
    let l1 = jinsert(
        jinsert(
            jinsert(
                jinsert(
                    jinsert(l, "state"@, JVal::Str(state)),
                    "reclaim_state"@,
                    JVal::Str("reclaimed"@),
                ),
                "process_last_seen_at"@,
                JVal::Str(at),
            ),
            "returned_at"@,
            JVal::Str(at),
        ),
        "summary"@,
        JVal::Str(summary),
    );
    let l2 = if state == "stale"@ && jget_or_null(l1, "stale_at"@) is Null {
        jinsert(l1, "stale_at"@, JVal::Str(at))
    } else {
        l1
    };
    if state == "timed_out"@ && jget_or_null(l2, "timed_out_at"@) is Null {
        jinsert(l2, "timed_out_at"@, JVal::Str(at))
    } else {
        l2
    }
}

/// The failure record of a reclaimed worker.
pub open spec fn spec_reclaim_failure(at: Seq<char>, summary: Seq<char>) -> JVal {
    JVal::Object(
        seq![
            ("stage"@, JVal::Str("execution"@)),
            ("reason"@, JVal::Str("timeout"@)),
            ("summary"@, JVal::Str(summary)),
            ("recorded_at"@, JVal::Str(at)),
        ],
    )
}

/// A delegation after its worker is reclaimed.
pub open spec fn spec_reclaimed_delegation(
    d: JVal,
    state: Seq<char>,
    at: Seq<char>,
    summary: Seq<char>,
) -> JVal {
    let d1 = jinsert(
        jinsert(
            jinsert(
                jinsert(d, "updated_at"@, JVal::Str(at)),
                "completed_at"@,
                JVal::Str(at),
            ),
            "result_summary"@,
            JVal::Str(summary),
        ),
        "latest_failure"@,
        spec_reclaim_failure(at, summary),
    );
    let d2 = spec_mark_member_failed(spec_mark_member_failed(d1, "child_agent"@), "executor"@);
    match jget(d2, "worker_lifecycle"@) {
        Some(l) => if l is Object {
            jinsert(d2, "worker_lifecycle"@, spec_reclaimed_lifecycle(l, state, at, summary))
        } else {
            d2
        },
        None => d2,
    }
}

/// The record of one reclaim.
pub open spec fn spec_reclaim_record(
    d: JVal,
    state: Seq<char>,
    process_id: Option<u32>,
    termination: Seq<char>,
    summary: Seq<char>,
) -> JVal {
    JVal::Object(
        seq![
            ("delegation_id"@, jget_or_null(d, "delegation_id"@)),
            ("state"@, JVal::Str(state)),
            (
                "process_id"@,
                match process_id {
                    Some(n) => JVal::Num(n as int),
                    None => JVal::Null,
                },
            ),
            ("termination"@, JVal::Str(termination)),
            ("summary"@, JVal::Str(summary)),
        ],
    )
}

fn reclaim_failure(at: &str, summary: &str) -> (r: Json)
    ensures
        jview(r) == spec_reclaim_failure(at@, summary@),
{
    let mut m: Vec<(String, Json)> = Vec::new();
    m.push(member("stage", jstr("execution")));
    m.push(member("reason", jstr("timeout")));
    m.push(member("summary", jstr(summary)));
    m.push(member("recorded_at", jstr(at)));
    let r = object_of(m);
    assert(members_view(m@) =~= spec_reclaim_failure(at@, summary@)->Object_0);
    r
}

fn reclaim_lifecycle(l: &mut Json, state: &str, at: &str, summary: &str)
    ensures
        jview(*final(l)) == spec_reclaimed_lifecycle(jview(*old(l)), state@, at@, summary@),
{
    l.insert("state", jstr(state));
    l.insert("reclaim_state", jstr("reclaimed"));
    l.insert("process_last_seen_at", jstr(at));
    l.insert("returned_at", jstr(at));
    l.insert("summary", jstr(summary));
    if str_eq(state, "stale") && get_or_null(l, "stale_at").is_null() {
        l.insert("stale_at", jstr(at));
    }
    if str_eq(state, "timed_out") && get_or_null(l, "timed_out_at").is_null() {
        l.insert("timed_out_at", jstr(at));
    }
}

/// Records the reclaim of a worker in its delegation and returns the record
/// of the reclaim; `None`, with the delegation unchanged, when the
/// delegation is not an object.
pub fn reclaim_worker_delegation(
    delegation: &mut Json,
    state: &str,
    process_id: Option<u32>,
    termination: &str,
    reclaimed_at: &str,
) -> (r: Option<Json>)
    ensures
        ({
            let summary = spec_reclaim_failure_summary(state@, process_id, termination@);
            if jview(*old(delegation)) is Object {
                &&& jview(*final(delegation)) == spec_reclaimed_delegation(
                    jview(*old(delegation)),
                    state@,
                    reclaimed_at@,
                    summary,
                )
                &&& opt_jview(r) == Some(
                    spec_reclaim_record(
                        jview(*final(delegation)),
                        state@,
                        process_id,
                        termination@,
                        summary,
                    ),
                )
            } else {
                *final(delegation) == *old(delegation) && r is None
            }
        }),
{
    let summary = reclaim_failure_summary(state, process_id, termination);
    if !delegation.is_object() {
        return None;
    }
    delegation.insert("updated_at", jstr(reclaimed_at));
    delegation.insert("completed_at", jstr(reclaimed_at));
    delegation.insert("result_summary", jstr(summary.as_str()));
    delegation.insert("latest_failure", reclaim_failure(reclaimed_at, summary.as_str()));
    mark_member_failed(delegation, "child_agent");
    mark_member_failed(delegation, "executor");
    let is_obj = match delegation.get("worker_lifecycle") {
        Some(l) => l.is_object(),
        None => false,
    };
    if is_obj {
        let ghost d2 = jview(*delegation);
        match take_member(delegation, "worker_lifecycle") {
            Some(mut l) => {
                reclaim_lifecycle(&mut l, state, reclaimed_at, summary.as_str());
                delegation.insert("worker_lifecycle", l);
                proof {
                    lemma_jinsert_twice(d2, "worker_lifecycle"@, JVal::Null, jview(l));
                }
            },
            None => {},
        }
    }
    let pid = match process_id {
        Some(n) => juint(n as u64),
        None => Json::Null,
    };
    let mut m: Vec<(String, Json)> = Vec::new();
    m.push(member("delegation_id", get_or_null(delegation, "delegation_id")));
    m.push(member("state", jstr(state)));
    m.push(member("process_id", pid));
    m.push(member("termination", jstr(termination)));
    m.push(member("summary", Json::Str(summary)));
    let r = object_of(m);
    assert(members_view(m@) =~= spec_reclaim_record(
        jview(*delegation),
        state@,
        process_id,
        termination@,
        spec_reclaim_failure_summary(state@, process_id, termination@),
    )->Object_0);
    Some(r)
}

/// Looking a name up after an insert into an object.
proof fn lemma_get_after_insert(o: JVal, k: Seq<char>, v: JVal, key: Seq<char>)
    requires
        o is Object,
    ensures
        jinsert(o, k, v) is Object,
        jget(jinsert(o, k, v), key) == if k == key {
            Some(v)
        } else {
            jget(o, key)
        },
{
    if k == key {
        crate::json::lemma_jget_jinsert_same(o, k, v);
    } else {
        crate::json::lemma_jget_jinsert_other(o, k, v, key);
    }
}

proof fn lemma_reclaim_names()
    ensures
        "child_agent"@ != "updated_at"@,
        "child_agent"@ != "completed_at"@,
        "child_agent"@ != "result_summary"@,
        "child_agent"@ != "latest_failure"@,
        "child_agent"@ != "executor"@,
        "child_agent"@ != "worker_lifecycle"@,
        "worker_lifecycle"@ != "updated_at"@,
        "worker_lifecycle"@ != "completed_at"@,
        "worker_lifecycle"@ != "result_summary"@,
        "worker_lifecycle"@ != "latest_failure"@,
        "worker_lifecycle"@ != "executor"@,
        "reclaim_state"@ != "state"@,
        "reclaim_state"@ != "process_last_seen_at"@,
        "reclaim_state"@ != "returned_at"@,
        "reclaim_state"@ != "summary"@,
        "reclaim_state"@ != "stale_at"@,
        "reclaim_state"@ != "timed_out_at"@,
        "failed"@ != "running"@,
        "failed"@ != "completed"@,
        "reclaimed"@ != "reclaim_needed"@,
        "not_needed"@ != "reclaim_needed"@,
{
    reveal_strlit("updated_at");
    reveal_strlit("completed_at");
    reveal_strlit("result_summary");
    reveal_strlit("latest_failure");
    reveal_strlit("child_agent");
    reveal_strlit("executor");
    reveal_strlit("worker_lifecycle");
    reveal_strlit("status");
    reveal_strlit("state");
    reveal_strlit("reclaim_state");
    reveal_strlit("process_last_seen_at");
    reveal_strlit("returned_at");
    reveal_strlit("summary");
    reveal_strlit("stale_at");
    reveal_strlit("timed_out_at");
    reveal_strlit("reclaimed");
    reveal_strlit("reclaim_needed");
    reveal_strlit("failed");
    reveal_strlit("running");
    reveal_strlit("completed");
    reveal_strlit("not_needed");
    assert("updated_at"@.len() == 10);
    assert("completed_at"@.len() == 12);
    assert("result_summary"@.len() == 14);
    assert("latest_failure"@.len() == 14);
    assert("child_agent"@.len() == 11);
    assert("executor"@.len() == 8);
    assert("worker_lifecycle"@.len() == 16);
    assert("status"@.len() == 6);
    assert("state"@.len() == 5);
    assert("reclaim_state"@.len() == 13);
    assert("process_last_seen_at"@.len() == 20);
    assert("returned_at"@.len() == 11);
    assert("summary"@.len() == 7);
    assert("stale_at"@.len() == 8);
    assert("timed_out_at"@.len() == 12);
    assert("reclaimed"@.len() == 9);
    assert("reclaim_needed"@.len() == 14);
    assert("failed"@.len() == 6);
    assert("running"@.len() == 7);
    assert("completed"@.len() == 9);
    assert("not_needed"@.len() == 10);
}

/// A worker whose reclaim is recorded is not marked for reclaim again: its
/// child has failed and its lifecycle is reclaimed.
pub proof fn lemma_reclaimed_worker_needs_no_reclaim(
    id: Seq<char>,
    d: JVal,
    state: Seq<char>,
    at: Seq<char>,
    summary: Seq<char>,
    runtime: JVal,
    now: int,
)
    requires
        d is Object,
        jget(d, "child_agent"@) matches Some(c) && c is Object,
        jget(d, "worker_lifecycle"@) matches Some(l) && l is Object,
    ensures
        spec_worker_reclaim_view(id, spec_reclaimed_delegation(d, state, at, summary), runtime, now)
            is None,
{
    lemma_reclaim_names();
    let ca = "child_agent"@;
    let wl = "worker_lifecycle"@;
    let c = jget(d, ca)->0;
    let l = jget(d, wl)->0;
    let s_at = JVal::Str(at);
    let s_sum = JVal::Str(summary);
    let e1 = jinsert(d, "updated_at"@, s_at);
    lemma_get_after_insert(d, "updated_at"@, s_at, ca);
    lemma_get_after_insert(d, "updated_at"@, s_at, wl);
    let e2 = jinsert(e1, "completed_at"@, s_at);
    lemma_get_after_insert(e1, "completed_at"@, s_at, ca);
    lemma_get_after_insert(e1, "completed_at"@, s_at, wl);
    let e3 = jinsert(e2, "result_summary"@, s_sum);
    lemma_get_after_insert(e2, "result_summary"@, s_sum, ca);
    lemma_get_after_insert(e2, "result_summary"@, s_sum, wl);
    let d1 = jinsert(e3, "latest_failure"@, spec_reclaim_failure(at, summary));
    lemma_get_after_insert(e3, "latest_failure"@, spec_reclaim_failure(at, summary), ca);
    lemma_get_after_insert(e3, "latest_failure"@, spec_reclaim_failure(at, summary), wl);
    let c2 = jinsert(c, "status"@, JVal::Str("failed"@));
    let da = spec_mark_member_failed(d1, ca);
    lemma_get_after_insert(d1, ca, c2, ca);
    lemma_get_after_insert(d1, ca, c2, wl);
    let db = spec_mark_member_failed(da, "executor"@);
    match jget(da, "executor"@) {
        Some(x) => {
            if x is Object {
                let x2 = jinsert(x, "status"@, JVal::Str("failed"@));
                lemma_get_after_insert(da, "executor"@, x2, ca);
                lemma_get_after_insert(da, "executor"@, x2, wl);
            }
        },
        None => {},
    }
    let l1a = jinsert(l, "state"@, JVal::Str(state));
    let l1b = jinsert(l1a, "reclaim_state"@, JVal::Str("reclaimed"@));
    lemma_get_after_insert(l1a, "reclaim_state"@, JVal::Str("reclaimed"@), "reclaim_state"@);
    let l1c = jinsert(l1b, "process_last_seen_at"@, s_at);
    lemma_get_after_insert(l1b, "process_last_seen_at"@, s_at, "reclaim_state"@);
    let l1d = jinsert(l1c, "returned_at"@, s_at);
    lemma_get_after_insert(l1c, "returned_at"@, s_at, "reclaim_state"@);
    let l1 = jinsert(l1d, "summary"@, s_sum);
    lemma_get_after_insert(l1d, "summary"@, s_sum, "reclaim_state"@);
    lemma_get_after_insert(l1, "stale_at"@, s_at, "reclaim_state"@);
    let l2 = if state == "stale"@ && jget_or_null(l1, "stale_at"@) is Null {
        jinsert(l1, "stale_at"@, s_at)
    } else {
        l1
    };
    lemma_get_after_insert(l2, "timed_out_at"@, s_at, "reclaim_state"@);
    let lr = spec_reclaimed_lifecycle(l, state, at, summary);
    assert(jstr_field(lr, "reclaim_state"@) == Some("reclaimed"@));
    let dr = spec_reclaimed_delegation(d, state, at, summary);
    lemma_get_after_insert(db, wl, lr, wl);
    lemma_get_after_insert(db, wl, lr, ca);
    assert(jget(dr, ca) == Some(c2));
    lemma_get_after_insert(c, "status"@, JVal::Str("failed"@), "status"@);
    let ks = seq![ca, "status"@];
    assert(ks.drop_first() =~= seq!["status"@]);
    assert(seq!["status"@].drop_first() =~= Seq::<Seq<char>>::empty());
    assert(jget(c2, "status"@) == Some(JVal::Str("failed"@)));
    assert(seq!["status"@][0] == "status"@);
    assert(jget_path(JVal::Str("failed"@), seq!["status"@].drop_first()) == Some(JVal::Str("failed"@)));
    assert(jget_path(c2, seq!["status"@]) == Some(JVal::Str("failed"@)));
    assert(jget_path(dr, ks) == Some(JVal::Str("failed"@)));
    assert(child_status(dr) == "failed"@);
    let view = lifecycle_view_spec(dr, runtime, now);
    assert(jget_or_null(dr, wl) == lr);
    assert(crate::worker_lifecycle::recorded_reclaim_state(lr) == "reclaimed"@);
    let dec = crate::worker_lifecycle::lifecycle_decision(dr, lr, runtime, now);
    assert(dec.1 == "reclaimed"@);
    reveal_strlit("state");
    reveal_strlit("reclaim_state");
    crate::json::lemma_jmember_index_scan(view->Object_0, "reclaim_state"@, 1);
    assert(jstr_field(view, "reclaim_state"@) == Some("reclaimed"@));
}

proof fn lemma_finalize_names()
    ensures
        "child_agent"@ != "updated_at"@,
        "child_agent"@ != "completed_at"@,
        "child_agent"@ != "result_summary"@,
        "child_agent"@ != "worker_result"@,
        "child_agent"@ != "latest_failure"@,
        "child_agent"@ != "executor"@,
        "child_agent"@ != "worker_lifecycle"@,
        "worker_lifecycle"@ != "updated_at"@,
        "worker_lifecycle"@ != "completed_at"@,
        "worker_lifecycle"@ != "result_summary"@,
        "worker_lifecycle"@ != "worker_result"@,
        "worker_lifecycle"@ != "latest_failure"@,
        "worker_lifecycle"@ != "executor"@,
        "reclaim_state"@ != "state"@,
        "reclaim_state"@ != "process_last_seen_at"@,
        "reclaim_state"@ != "returned_at"@,
        "reclaim_state"@ != "last_progress_at"@,
        "reclaim_state"@ != "summary"@,
        "completed"@ != "running"@,
        "resumable"@ != "reclaimed"@,
{
    reveal_strlit("updated_at");
    reveal_strlit("completed_at");
    reveal_strlit("result_summary");
    reveal_strlit("worker_result");
    reveal_strlit("latest_failure");
    reveal_strlit("child_agent");
    reveal_strlit("executor");
    reveal_strlit("worker_lifecycle");
    reveal_strlit("status");
    reveal_strlit("state");
    reveal_strlit("reclaim_state");
    reveal_strlit("process_last_seen_at");
    reveal_strlit("returned_at");
    reveal_strlit("last_progress_at");
    reveal_strlit("summary");
    reveal_strlit("completed");
    reveal_strlit("running");
    reveal_strlit("resumable");
    reveal_strlit("reclaimed");
    assert("updated_at"@.len() == 10);
    assert("completed_at"@.len() == 12);
    assert("result_summary"@.len() == 14);
    assert("worker_result"@.len() == 13);
    assert("latest_failure"@.len() == 14);
    assert("child_agent"@.len() == 11);
    assert("executor"@.len() == 8);
    assert("worker_lifecycle"@.len() == 16);
    assert("status"@.len() == 6);
    assert("state"@.len() == 5);
    assert("reclaim_state"@.len() == 13);
    assert("process_last_seen_at"@.len() == 20);
    assert("returned_at"@.len() == 11);
    assert("last_progress_at"@.len() == 16);
    assert("summary"@.len() == 7);
    assert("completed"@.len() == 9);
    assert("running"@.len() == 7);
    assert("resumable"@.len() == 9);
    assert("reclaimed"@.len() == 9);
    assert("child_agent"@[0] != "worker_result"@[0]);
    assert("resumable"@[3] != "reclaimed"@[3]);
}

/// A worker recorded as finished with a completed status shows as returned
/// and resumable in its lifecycle view.
pub proof fn lemma_completed_worker_shows_returned(
    d: JVal,
    at: Seq<char>,
    summary: Seq<char>,
    worker_result: JVal,
    latest_failure: JVal,
    runtime: JVal,
    now: int,
)
    requires
        d is Object,
        jget(d, "child_agent"@) matches Some(c) && c is Object,
        jget(d, "worker_lifecycle"@) matches Some(l) && l is Object,
    ensures
        ({
            let f = crate::worker_lifecycle::spec_finalized_delegation(
                d,
                at,
                "completed"@,
                summary,
                worker_result,
                latest_failure,
            );
            let view = lifecycle_view_spec(f, runtime, now);
            jstr_field(view, "state"@) == Some("returned"@) && jstr_field(view, "reclaim_state"@)
                == Some("resumable"@)
        }),
{
    lemma_finalize_names();
    let ca = "child_agent"@;
    let wl = "worker_lifecycle"@;
    let c = jget(d, ca)->0;
    let l = jget(d, wl)->0;
    let s_at = JVal::Str(at);
    let e1 = jinsert(d, "updated_at"@, s_at);
    lemma_get_after_insert(d, "updated_at"@, s_at, ca);
    lemma_get_after_insert(d, "updated_at"@, s_at, wl);
    let e2 = jinsert(e1, "completed_at"@, s_at);
    lemma_get_after_insert(e1, "completed_at"@, s_at, ca);
    lemma_get_after_insert(e1, "completed_at"@, s_at, wl);
    let e3 = jinsert(e2, "result_summary"@, JVal::Str(summary));
    lemma_get_after_insert(e2, "result_summary"@, JVal::Str(summary), ca);
    lemma_get_after_insert(e2, "result_summary"@, JVal::Str(summary), wl);
    let e4 = jinsert(e3, "worker_result"@, worker_result);
    lemma_get_after_insert(e3, "worker_result"@, worker_result, ca);
    lemma_get_after_insert(e3, "worker_result"@, worker_result, wl);
    let d1 = jinsert(e4, "latest_failure"@, latest_failure);
    lemma_get_after_insert(e4, "latest_failure"@, latest_failure, ca);
    lemma_get_after_insert(e4, "latest_failure"@, latest_failure, wl);
    let c2 = jinsert(c, "status"@, JVal::Str("completed"@));
    let da = crate::worker_lifecycle::spec_set_member_status(d1, ca, "completed"@);
    lemma_get_after_insert(d1, ca, c2, ca);
    lemma_get_after_insert(d1, ca, c2, wl);
    let db = crate::worker_lifecycle::spec_set_member_status(da, "executor"@, "completed"@);
    match jget(da, "executor"@) {
        Some(x) => {
            if x is Object {
                let x2 = jinsert(x, "status"@, JVal::Str("completed"@));
                lemma_get_after_insert(da, "executor"@, x2, ca);
                lemma_get_after_insert(da, "executor"@, x2, wl);
            }
        },
        None => {},
    }
    let lr = crate::worker_lifecycle::spec_finished_lifecycle(l, true, at, summary);
    let la = jinsert(l, "state"@, JVal::Str("returned"@));
    let lb = jinsert(la, "reclaim_state"@, JVal::Str("resumable"@));
    lemma_get_after_insert(la, "reclaim_state"@, JVal::Str("resumable"@), "reclaim_state"@);
    let lc = jinsert(lb, "process_last_seen_at"@, s_at);
    lemma_get_after_insert(lb, "process_last_seen_at"@, s_at, "reclaim_state"@);
    let ld = jinsert(lc, "returned_at"@, s_at);
    lemma_get_after_insert(lc, "returned_at"@, s_at, "reclaim_state"@);
    let le = jinsert(ld, "last_progress_at"@, s_at);
    lemma_get_after_insert(ld, "last_progress_at"@, s_at, "reclaim_state"@);
    lemma_get_after_insert(le, "summary"@, JVal::Str(summary), "reclaim_state"@);
    assert(lr == jinsert(le, "summary"@, JVal::Str(summary)));
    assert(jstr_field(lr, "reclaim_state"@) == Some("resumable"@));
    let f = crate::worker_lifecycle::spec_finalized_delegation(
        d,
        at,
        "completed"@,
        summary,
        worker_result,
        latest_failure,
    );
    assert(f == jinsert(db, wl, lr));
    lemma_get_after_insert(db, wl, lr, wl);
    lemma_get_after_insert(db, wl, lr, ca);
    lemma_get_after_insert(c, "status"@, JVal::Str("completed"@), "status"@);
    let ks = seq![ca, "status"@];
    assert(ks.drop_first() =~= seq!["status"@]);
    assert(seq!["status"@].drop_first() =~= Seq::<Seq<char>>::empty());
    assert(seq!["status"@][0] == "status"@);
    assert(jget_path(JVal::Str("completed"@), seq!["status"@].drop_first()) == Some(
        JVal::Str("completed"@),
    ));
    assert(jget_path(c2, seq!["status"@]) == Some(JVal::Str("completed"@)));
    assert(jget_path(f, ks) == Some(JVal::Str("completed"@)));
    assert(child_status(f) == "completed"@);
    assert(jget_or_null(f, wl) == lr);
    assert(crate::worker_lifecycle::recorded_reclaim_state(lr) == "resumable"@);
    let view = lifecycle_view_spec(f, runtime, now);
    reveal_strlit("state");
    reveal_strlit("reclaim_state");
    crate::json::lemma_jmember_index_scan(view->Object_0, "state"@, 0);
    crate::json::lemma_jmember_index_scan(view->Object_0, "reclaim_state"@, 1);
}

} // verus!
