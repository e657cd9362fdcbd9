//! The visible lifecycle of delegated workers: which state a worker is in,
//! whether it needs reclaim, and the counts over a task's workers.

use vstd::prelude::*;
use crate::clock::{parse_rfc3339_millis, rfc3339_millis, utc_now_millis};
use crate::json::{
    get_or_null, jget, jget_or_null, jget_path, jinsert, jint, jstr, jstr_at, jstr_field, juint,
    jview, lemma_jinsert_twice, member, members_view, object_of, opt_i64, opt_str, take_member,
    JVal, Json,
};
use crate::strings::{opt_view, str_eq, to_owned};
use crate::status_text::{spec_worker_lifecycle_summary, summarize_visible_worker_lifecycle_state};

verus! {

/// The milliseconds of an RFC 3339 string value.
pub open spec fn spec_timestamp_millis(v: Option<JVal>) -> Option<int> {
    match opt_str(v) {
        Some(t) => rfc3339_millis(t),
        None => None,
    }
}

/// The epoch milliseconds of a timestamp value, when it is a string chrono
/// reads as RFC 3339.
pub fn parse_timestamp_millis(value: Option<&Json>) -> (r: Option<i64>)
    ensures
        match r {
            Some(n) => spec_timestamp_millis(
                match value {
                    Some(v) => Some(jview(*v)),
                    None => None,
                },
            ) == Some(n as int),
            None => spec_timestamp_millis(
                match value {
                    Some(v) => Some(jview(*v)),
                    None => None,
                },
            ) is None,
        },
{
    match value {
        Some(v) => match v.as_str() {
            Some(text) => parse_rfc3339_millis(text),
            None => None,
        },
        None => None,
    }
}

/// A positive integer setting.
pub open spec fn positive_setting(o: Option<JVal>) -> Option<int> {
    match opt_i64(o) {
        Some(n) => if n > 0 {
            Some(n)
        } else {
            None
        },
        None => None,
    }
}

pub open spec fn min_int(a: int, b: int) -> int {
    if a <= b {
        a
    } else {
        b
    }
}

/// The lifecycle's own stale threshold: its positive `stale_after_ms`, else 45 s.
pub open spec fn lifecycle_stale_after(lifecycle: JVal) -> int {
    match positive_setting(jget(lifecycle, "stale_after_ms"@)) {
        Some(n) => n,
        None => 45000,
    }
}

/// The effective stale threshold: the lifecycle's, lowered to the runtime's
/// positive `worker_stuck_after_ms` when that is smaller.
pub open spec fn stale_threshold(lifecycle: JVal, runtime: JVal) -> int {
    let own = lifecycle_stale_after(lifecycle);
    match positive_setting(jget(runtime, "worker_stuck_after_ms"@)) {
        Some(c) => min_int(c, own),
        None => own,
    }
}

/// The effective timeout threshold: the lifecycle's positive
/// `timeout_after_ms` (else its stale threshold), lowered likewise.
pub open spec fn timeout_threshold(lifecycle: JVal, runtime: JVal) -> int {
    let own = match positive_setting(jget(lifecycle, "timeout_after_ms"@)) {
        Some(n) => n,
        None => lifecycle_stale_after(lifecycle),
    };
    match positive_setting(jget(runtime, "worker_stuck_after_ms"@)) {
        Some(c) => min_int(c, own),
        None => own,
    }
}

/// Milliseconds since the last recorded progress, never negative.
pub open spec fn elapsed_since_progress(lifecycle: JVal, now: int) -> Option<int> {
    match spec_timestamp_millis(jget(lifecycle, "last_progress_at"@)) {
        Some(p) => Some(if now - p >= 0 { now - p } else { 0 }),
        None => None,
    }
}

/// The recorded state, `queued` when absent.
pub open spec fn recorded_state(lifecycle: JVal) -> Seq<char> {
    match jstr_field(lifecycle, "state"@) {
        Some(s) => s,
        None => "queued"@,
    }
}

/// The recorded reclaim state, defaulting by the recorded state.
pub open spec fn recorded_reclaim_state(lifecycle: JVal) -> Seq<char> {
    match jstr_field(lifecycle, "reclaim_state"@) {
        Some(s) => s,
        None => if recorded_state(lifecycle) == "returned"@ {
            "resumable"@
        } else {
            "not_needed"@
        },
    }
}

/// The child agent's status, `queued` when absent.
pub open spec fn child_status(delegation: JVal) -> Seq<char> {
    match jstr_at(delegation, seq!["child_agent"@, "status"@]) {
        Some(s) => s,
        None => "queued"@,
    }
}

/// The visible state, reclaim state, stale-at and timed-out-at values of a
/// worker. A running worker is timed out or stale once its progress is at
/// least that old (keeping any recorded time, else taking the progress time),
/// launching while launch was requested but it has not started, otherwise
/// running quietly or actively; a completed worker has returned (resumable
/// unless reclaimed), a failed one has failed unless it was reclaimed, and a
/// cancelled one is cancelled.
pub open spec fn lifecycle_decision(delegation: JVal, lifecycle: JVal, runtime: JVal, now: int) -> (
    Seq<char>,
    Seq<char>,
    JVal,
    JVal,
) {
    let state = recorded_state(lifecycle);
    let reclaim = recorded_reclaim_state(lifecycle);
    let stale_at = jget_or_null(lifecycle, "stale_at"@);
    let timed_out_at = jget_or_null(lifecycle, "timed_out_at"@);
    let progress_at = jget_or_null(lifecycle, "last_progress_at"@);
    let child = child_status(delegation);
    if child == "running"@ {
        match elapsed_since_progress(lifecycle, now) {
            Some(e) => if e >= timeout_threshold(lifecycle, runtime) {
                (
                    "timed_out"@,
                    "reclaim_needed"@,
                    stale_at,
                    if timed_out_at is Null {
                        progress_at
                    } else {
                        timed_out_at
                    },
                )
            } else if e >= stale_threshold(lifecycle, runtime) {
                (
                    "stale"@,
                    "reclaim_needed"@,
                    if stale_at is Null {
                        progress_at
                    } else {
                        stale_at
                    },
                    timed_out_at,
                )
            } else if jget(lifecycle, "launch_requested_at"@) is Some && jget_or_null(
                lifecycle,
                "started_at"@,
            ) is Null {
                ("launching"@, reclaim, stale_at, timed_out_at)
            } else if state != "running_active"@ {
                ("running_quiet"@, reclaim, stale_at, timed_out_at)
            } else {
                ("running_active"@, reclaim, stale_at, timed_out_at)
            },
            None => (state, reclaim, stale_at, timed_out_at),
        }
    } else if child == "completed"@ {
        (
            "returned"@,
            if reclaim != "reclaimed"@ {
                "resumable"@
            } else {
                reclaim
            },
            stale_at,
            timed_out_at,
        )
    } else if child == "failed"@ {
        if reclaim != "reclaimed"@ {
            ("failed"@, "not_needed"@, stale_at, timed_out_at)
        } else {
            (state, reclaim, stale_at, timed_out_at)
        }
    } else if child == "cancelled"@ {
        ("cancelled"@, "not_needed"@, stale_at, timed_out_at)
    } else {
        (state, reclaim, stale_at, timed_out_at)
    }
}

/// The lifecycle view of a delegation at time `now` (milliseconds): `null`
/// without a recorded lifecycle, else the decided state with the recorded
/// times and the effective thresholds.
pub open spec fn lifecycle_view_spec(delegation: JVal, runtime: JVal, now: int) -> JVal {
    let lifecycle = jget_or_null(delegation, "worker_lifecycle"@);
    if lifecycle is Null {
        JVal::Null
    } else {
        let d = lifecycle_decision(delegation, lifecycle, runtime, now);
        JVal::Object(
            seq![
                ("state"@, JVal::Str(d.0)),
                ("reclaim_state"@, JVal::Str(d.1)),
                ("queued_at"@, jget_or_null(lifecycle, "queued_at"@)),
                ("launch_requested_at"@, jget_or_null(lifecycle, "launch_requested_at"@)),
                ("started_at"@, jget_or_null(lifecycle, "started_at"@)),
                ("process_id"@, jget_or_null(lifecycle, "process_id"@)),
                ("process_started_at"@, jget_or_null(lifecycle, "process_started_at"@)),
                ("process_last_seen_at"@, jget_or_null(lifecycle, "process_last_seen_at"@)),
                ("process_alive"@, JVal::Null),
                ("last_progress_at"@, jget_or_null(lifecycle, "last_progress_at"@)),
                ("returned_at"@, jget_or_null(lifecycle, "returned_at"@)),
                ("stale_at"@, d.2),
                ("timed_out_at"@, d.3),
                ("stale_after_ms"@, JVal::Num(stale_threshold(lifecycle, runtime))),
                ("timeout_after_ms"@, JVal::Num(timeout_threshold(lifecycle, runtime))),
                (
                    "elapsed_since_progress_ms"@,
                    match elapsed_since_progress(lifecycle, now) {
                        Some(e) => JVal::Num(e),
                        None => JVal::Null,
                    },
                ),
                ("summary"@, JVal::Str(spec_worker_lifecycle_summary(d.0))),
            ],
        )
    }
}

fn positive_i64_field(j: &Json, key: &str) -> (r: Option<i64>)
    ensures
        match r {
            Some(n) => positive_setting(jget(jview(*j), key@)) == Some(n as int),
            None => positive_setting(jget(jview(*j), key@)) is None,
        },
{
    match j.i64_field(key) {
        Some(n) => if n > 0 {
            Some(n)
        } else {
            None
        },
        None => None,
    }
}

fn threshold_pair(lifecycle: &Json, runtime: &Json) -> (r: (i64, i64))
    ensures
        r.0 as int == stale_threshold(jview(*lifecycle), jview(*runtime)),
        r.1 as int == timeout_threshold(jview(*lifecycle), jview(*runtime)),
{
    let configured = positive_i64_field(runtime, "worker_stuck_after_ms");
    let own_stale: i64 = match positive_i64_field(lifecycle, "stale_after_ms") {
        Some(n) => n,
        None => 45000,
    };
    let own_timeout: i64 = match positive_i64_field(lifecycle, "timeout_after_ms") {
        Some(n) => n,
        None => own_stale,
    };
    match configured {
        Some(c) => (
            if c <= own_stale {
                c
            } else {
                own_stale
            },
            if c <= own_timeout {
                c
            } else {
                own_timeout
            },
        ),
        None => (own_stale, own_timeout),
    }
}

/// The lifecycle view at a given time.
pub fn create_worker_lifecycle_view_at(delegation: &Json, runtime_config: &Json, now_ms: i64) -> (r: Json)
    ensures
        jview(r) == lifecycle_view_spec(jview(*delegation), jview(*runtime_config), now_ms as int),
{
    let lifecycle = get_or_null(delegation, "worker_lifecycle");
    if lifecycle.is_null() {
        return Json::Null;
    }
    let ghost lv = jview(lifecycle);
    let ghost dv = jview(*delegation);
    let ghost rv = jview(*runtime_config);
    let path: Vec<&str> = vec!["child_agent", "status"];
    assert(path@.map_values(|k: &str| k@) =~= seq!["child_agent"@, "status"@]);
    let child: &str = match delegation.str_at(path.as_slice()) {
        Some(s) => s,
        None => "queued",
    };
    let progress_ms = parse_timestamp_millis(lifecycle.get("last_progress_at"));
    let elapsed: Option<i128> = match progress_ms {
        Some(p) => {
            let d = (now_ms as i128) - (p as i128);
            Some(
                if d >= 0 {
                    d
                } else {
                    0
                },
            )
        },
        None => None,
    };
    let (stale_after, timeout_after) = threshold_pair(&lifecycle, runtime_config);
    let recorded: &str = match lifecycle.str_field("state") {
        Some(s) => s,
        None => "queued",
    };
    let mut state: &str = recorded;
    let mut reclaim: &str = match lifecycle.str_field("reclaim_state") {
        Some(s) => s,
        None => if str_eq(recorded, "returned") {
            "resumable"
        } else {
            "not_needed"
        },
    };
    let mut stale_at = get_or_null(&lifecycle, "stale_at");
    let mut timed_out_at = get_or_null(&lifecycle, "timed_out_at");
    if str_eq(child, "running") {
        match elapsed {
            Some(e) => {
                if e >= timeout_after as i128 {
                    state = "timed_out";
                    reclaim = "reclaim_needed";
                    if timed_out_at.is_null() {
                        timed_out_at = get_or_null(&lifecycle, "last_progress_at");
                    }
                } else if e >= stale_after as i128 {
                    state = "stale";
                    reclaim = "reclaim_needed";
                    if stale_at.is_null() {
                        stale_at = get_or_null(&lifecycle, "last_progress_at");
                    }
                } else if lifecycle.get("launch_requested_at").is_some() && get_or_null(
                    &lifecycle,
                    "started_at",
                ).is_null() {
                    state = "launching";
                } else if !str_eq(recorded, "running_active") {
                    state = "running_quiet";
                } else {
                    state = "running_active";
                }
            },
            None => {},
        }
    } else if str_eq(child, "completed") {
        state = "returned";
        if !str_eq(reclaim, "reclaimed") {
            reclaim = "resumable";
        }
    } else if str_eq(child, "failed") {
        if !str_eq(reclaim, "reclaimed") {
            state = "failed";
            reclaim = "not_needed";
        }
    } else if str_eq(child, "cancelled") {
        state = "cancelled";
        reclaim = "not_needed";
    }
    let ghost d = lifecycle_decision(dv, lv, rv, now_ms as int);
    assert(state@ == d.0);
    assert(reclaim@ == d.1);
    assert(jview(stale_at) == d.2);
    assert(jview(timed_out_at) == d.3);
    let elapsed_json = match elapsed {
        Some(e) => if e <= 0x7fff_ffff_ffff_ffffi128 {
            jint(e as i64)
        } else {
            juint(e as u64)
        },
        None => Json::Null,
    };
    let mut m: Vec<(String, Json)> = Vec::new();
    m.push(member("state", jstr(state)));
    m.push(member("reclaim_state", jstr(reclaim)));
    m.push(member("queued_at", get_or_null(&lifecycle, "queued_at")));
    m.push(member("launch_requested_at", get_or_null(&lifecycle, "launch_requested_at")));
    m.push(member("started_at", get_or_null(&lifecycle, "started_at")));
    m.push(member("process_id", get_or_null(&lifecycle, "process_id")));
    m.push(member("process_started_at", get_or_null(&lifecycle, "process_started_at")));
    m.push(member("process_last_seen_at", get_or_null(&lifecycle, "process_last_seen_at")));
    m.push(member("process_alive", Json::Null));
    m.push(member("last_progress_at", get_or_null(&lifecycle, "last_progress_at")));
    m.push(member("returned_at", get_or_null(&lifecycle, "returned_at")));
    m.push(member("stale_at", stale_at));
    m.push(member("timed_out_at", timed_out_at));
    m.push(member("stale_after_ms", jint(stale_after)));
    m.push(member("timeout_after_ms", jint(timeout_after)));
    m.push(member("elapsed_since_progress_ms", elapsed_json));
    m.push(member("summary", jstr(summarize_visible_worker_lifecycle_state(state))));
    let r = object_of(m);
    assert(members_view(m@) =~= lifecycle_view_spec(dv, rv, now_ms as int)->Object_0);
    r
}

/// The lifecycle view now (the time is read from the clock).
pub fn create_worker_lifecycle_view(delegation: &Json, runtime_config: &Json) -> (r: Json)
    ensures
        exists|now: int|
            i64::MIN <= now <= i64::MAX && jview(r) == lifecycle_view_spec(
                jview(*delegation),
                jview(*runtime_config),
                now,
            ),
{
    let now = utc_now_millis();
    create_worker_lifecycle_view_at(delegation, runtime_config, now)
}

/// A delegation record that cannot be updated: it, or its lifecycle, is not
/// an object.
pub enum DelegationShapeError {
    DelegationNotObject,
    LifecycleNotObject,
}

impl DelegationShapeError {
    /// The message reported for the error.
    pub fn message(&self) -> (r: &'static str)
        ensures
            r@ == match self {
                DelegationShapeError::DelegationNotObject => "delegation artifact must be an object."@,
                DelegationShapeError::LifecycleNotObject => "delegation worker_lifecycle must be an object."@,
            },
    {
        match self {
            DelegationShapeError::DelegationNotObject => "delegation artifact must be an object.",
            DelegationShapeError::LifecycleNotObject => "delegation worker_lifecycle must be an object.",
        }
    }
}

/// A nested object's `status` set (nothing changes where the member is
/// absent or not an object).
pub open spec fn spec_set_member_status(d: JVal, key: Seq<char>, status: Seq<char>) -> JVal {
    match jget(d, key) {
        Some(c) => if c is Object {
            jinsert(d, key, jinsert(c, "status"@, JVal::Str(status)))
        } else {
            d
        },
        None => d,
    }
}

/// A finished worker's lifecycle: returned and resumable when it completed,
/// failed otherwise, last seen, returned and progressing at the completion
/// time, with the summary.
pub open spec fn spec_finished_lifecycle(l: JVal, completed: bool, at: Seq<char>, summary: Seq<char>) -> JVal {
    jinsert(
        jinsert(
            jinsert(
                jinsert(
                    jinsert(
                        jinsert(
                            l,
                            "state"@,
                            JVal::Str(
                                if completed {
                                    "returned"@
                                } else {
                                    "failed"@
                                },
                            ),
                        ),
                        "reclaim_state"@,
                        JVal::Str(
                            if completed {
                                "resumable"@
                            } else {
                                "not_needed"@
                            },
                        ),
                    ),
                    "process_last_seen_at"@,
                    JVal::Str(at),
                ),
                "returned_at"@,
                JVal::Str(at),
            ),
            "last_progress_at"@,
            JVal::Str(at),
        ),
        "summary"@,
        JVal::Str(summary),
    )
}

/// A delegation after its worker finished.
pub open spec fn spec_finalized_delegation(
    d: JVal,
    at: Seq<char>,
    status: Seq<char>,
    summary: Seq<char>,
    worker_result: JVal,
    latest_failure: JVal,
) -> JVal {
    let d1 = jinsert(
        jinsert(
            jinsert(
                jinsert(jinsert(d, "updated_at"@, JVal::Str(at)), "completed_at"@, JVal::Str(at)),
                "result_summary"@,
                JVal::Str(summary),
            ),
            "worker_result"@,
            worker_result,
        ),
        "latest_failure"@,
        latest_failure,
    );
    let d2 = spec_set_member_status(spec_set_member_status(d1, "child_agent"@, status), "executor"@, status);
    match jget(d2, "worker_lifecycle"@) {
        Some(l) => if l is Object {
            jinsert(
                d2,
                "worker_lifecycle"@,
                spec_finished_lifecycle(l, status == "completed"@, at, summary),
            )
        } else {
            d2
        },
        None => d2,
    }
}

fn set_member_status(d: &mut Json, key: &str, status: &str)
    ensures
        jview(*final(d)) == spec_set_member_status(jview(*old(d)), key@, status@),
{
    let is_obj = match d.get(key) {
        Some(c) => c.is_object(),
        None => false,
    };
    if !is_obj {
        return;
    }
    let ghost d0 = jview(*d);
    match take_member(d, key) {
        Some(mut c) => {
            c.insert("status", jstr(status));
            d.insert(key, c);
            proof {
                lemma_jinsert_twice(d0, key@, JVal::Null, jview(c));
            }
        },
        None => {},
    }
}

/// Records a finished worker in its delegation; a delegation that is not an
/// object is refused and left as it is.
pub fn finalize_delegation_with_completion(
    delegation: &mut Json,
    completed_at: &str,
    status: &str,
    summary: &str,
    worker_result: Json,
    latest_failure: Json,
) -> (r: Result<(), DelegationShapeError>)
    ensures
        jview(*old(delegation)) is Object ==> r is Ok && jview(*final(delegation))
            == spec_finalized_delegation(
            jview(*old(delegation)),
            completed_at@,
            status@,
            summary@,
            jview(worker_result),
            jview(latest_failure),
        ),
        !(jview(*old(delegation)) is Object) ==> r is Err && *final(delegation) == *old(delegation),
{
    if !delegation.is_object() {
        return Err(DelegationShapeError::DelegationNotObject);
    }
    delegation.insert("updated_at", jstr(completed_at));
    delegation.insert("completed_at", jstr(completed_at));
    delegation.insert("result_summary", jstr(summary));
    delegation.insert("worker_result", worker_result);
    delegation.insert("latest_failure", latest_failure);
    set_member_status(delegation, "child_agent", status);
    set_member_status(delegation, "executor", status);
    let is_obj = match delegation.get("worker_lifecycle") {
        Some(l) => l.is_object(),
        None => false,
    };
    if is_obj {
        let ghost d2 = jview(*delegation);
        match take_member(delegation, "worker_lifecycle") {
            Some(mut l) => {
                let completed = str_eq(status, "completed");
                l.insert(
                    "state",
                    jstr(
                        if completed {
                            "returned"
                        } else {
                            "failed"
                        },
                    ),
                );
                l.insert(
                    "reclaim_state",
                    jstr(
                        if completed {
                            "resumable"
                        } else {
                            "not_needed"
                        },
                    ),
                );
                l.insert("process_last_seen_at", jstr(completed_at));
                l.insert("returned_at", jstr(completed_at));
                l.insert("last_progress_at", jstr(completed_at));
                l.insert("summary", jstr(summary));
                delegation.insert("worker_lifecycle", l);
                proof {
                    lemma_jinsert_twice(d2, "worker_lifecycle"@, JVal::Null, jview(l));
                }
            },
            None => {},
        }
    }
    Ok(())
}

/// What refreshing a running delegation's heartbeat calls for.
pub enum HeartbeatAction {
    /// The delegation stays as it is.
    Keep,
    /// The worker is done: record its completion from its raw events.
    Finalize,
    /// Compare the raw events' modification time with the recorded progress.
    CheckProgress,
}

/// What a heartbeat refresh does: nothing unless the child is running and
/// its raw events file is known; finalize when the events show the turn
/// ended and the process is not known to be alive, or when the recorded
/// process is known to be gone and the events exist; otherwise check
/// progress.
pub open spec fn spec_heartbeat_action(
    delegation: JVal,
    raw_events_known: bool,
    raw_events_exist: bool,
    has_terminal_event: bool,
    process_alive: Option<bool>,
) -> HeartbeatAction {
    if child_status(delegation) != "running"@ || !raw_events_known {
        HeartbeatAction::Keep
    } else if raw_events_exist && has_terminal_event && process_alive != Some(true) {
        HeartbeatAction::Finalize
    } else if crate::worker_fleet::spec_worker_process_id(delegation) is Some && process_alive
        == Some(false) && raw_events_exist {
        HeartbeatAction::Finalize
    } else {
        HeartbeatAction::CheckProgress
    }
}

pub fn heartbeat_action(
    delegation: &Json,
    raw_events_known: bool,
    raw_events_exist: bool,
    has_terminal_event: bool,
    process_alive: Option<bool>,
) -> (r: HeartbeatAction)
    ensures
        r == spec_heartbeat_action(
            jview(*delegation),
            raw_events_known,
            raw_events_exist,
            has_terminal_event,
            process_alive,
        ),
{
    let path: Vec<&str> = vec!["child_agent", "status"];
    assert(path@.map_values(|k: &str| k@) =~= seq!["child_agent"@, "status"@]);
    let child: &str = match delegation.str_at(path.as_slice()) {
        Some(s) => s,
        None => "queued",
    };
    if !str_eq(child, "running") || !raw_events_known {
        return HeartbeatAction::Keep;
    }
    let alive_true = match process_alive {
        Some(a) => a,
        None => false,
    };
    let alive_false = match process_alive {
        Some(a) => !a,
        None => false,
    };
    if raw_events_exist && has_terminal_event && !alive_true {
        return HeartbeatAction::Finalize;
    }
    if crate::worker_fleet::worker_process_id(delegation).is_some() && alive_false
        && raw_events_exist {
        return HeartbeatAction::Finalize;
    }
    HeartbeatAction::CheckProgress
}

/// A lifecycle time that is unset (absent or `null`).
pub open spec fn unset(l: JVal, key: Seq<char>) -> bool {
    jget_or_null(l, key) is Null
}

/// A running worker's lifecycle after new progress at `at`: it progressed
/// and was seen then, is actively running, and any unset start, process
/// start or launch request time becomes `at`.
pub open spec fn spec_progressed_lifecycle(l: JVal, at: Seq<char>) -> JVal {
    let t = JVal::Str(at);
    let l1 = jinsert(
        jinsert(jinsert(l, "last_progress_at"@, t), "process_last_seen_at"@, t),
        "state"@,
        JVal::Str("running_active"@),
    );
    let l2 = if unset(l1, "started_at"@) {
        jinsert(l1, "started_at"@, t)
    } else {
        l1
    };
    let l3 = if unset(l2, "process_started_at"@) {
        jinsert(l2, "process_started_at"@, t)
    } else {
        l2
    };
    if unset(l3, "launch_requested_at"@) {
        jinsert(l3, "launch_requested_at"@, t)
    } else {
        l3
    }
}

/// The recorded progress of a delegation, in milliseconds (0 when unknown).
pub open spec fn spec_recorded_progress_ms(d: JVal) -> int {
    match spec_timestamp_millis(jget_path(d, seq!["worker_lifecycle"@, "last_progress_at"@])) {
        Some(n) => n,
        None => 0,
    }
}

/// Records progress seen at `modified_at` (`modified_at_ms` milliseconds)
/// when it is later than the recorded progress; reports whether it did. A
/// later time with a lifecycle that is not an object is refused and the
/// delegation left as it is.
pub fn record_heartbeat_progress(delegation: &mut Json, modified_at: &str, modified_at_ms: i64) -> (r:
    Result<bool, DelegationShapeError>)
    ensures
        modified_at_ms <= spec_recorded_progress_ms(jview(*old(delegation))) ==> r == Ok::<
            bool,
            DelegationShapeError,
        >(false) && *final(delegation) == *old(delegation),
        modified_at_ms > spec_recorded_progress_ms(jview(*old(delegation))) ==> match jget(
            jview(*old(delegation)),
            "worker_lifecycle"@,
        ) {
            Some(l) => if l is Object {
                r == Ok::<bool, DelegationShapeError>(true) && jview(*final(delegation)) == jinsert(
                    jinsert(
                        jview(*old(delegation)),
                        "worker_lifecycle"@,
                        spec_progressed_lifecycle(l, modified_at@),
                    ),
                    "updated_at"@,
                    JVal::Str(modified_at@),
                )
            } else {
                r is Err && *final(delegation) == *old(delegation)
            },
            None => r is Err && *final(delegation) == *old(delegation),
        },
{
    let path: Vec<&str> = vec!["worker_lifecycle", "last_progress_at"];
    assert(path@.map_values(|k: &str| k@) =~= seq!["worker_lifecycle"@, "last_progress_at"@]);
    let current = match parse_timestamp_millis(delegation.get_path(path.as_slice())) {
        Some(n) => n,
        None => 0,
    };
    if modified_at_ms <= current {
        return Ok(false);
    }
    let is_obj = match delegation.get("worker_lifecycle") {
        Some(l) => l.is_object(),
        None => false,
    };
    if !is_obj {
        return Err(DelegationShapeError::LifecycleNotObject);
    }
    let ghost d0 = jview(*delegation);
    match take_member(delegation, "worker_lifecycle") {
        Some(mut l) => {
            l.insert("last_progress_at", jstr(modified_at));
            l.insert("process_last_seen_at", jstr(modified_at));
            l.insert("state", jstr("running_active"));
            if get_or_null(&l, "started_at").is_null() {
                l.insert("started_at", jstr(modified_at));
            }
            if get_or_null(&l, "process_started_at").is_null() {
                l.insert("process_started_at", jstr(modified_at));
            }
            if get_or_null(&l, "launch_requested_at").is_null() {
                l.insert("launch_requested_at", jstr(modified_at));
            }
            delegation.insert("worker_lifecycle", l);
            proof {
                lemma_jinsert_twice(d0, "worker_lifecycle"@, JVal::Null, jview(l));
            }
        },
        None => {},
    }
    delegation.insert("updated_at", jstr(modified_at));
    Ok(true)
}

} // verus!
