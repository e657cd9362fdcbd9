//! The LongWay of a status: phase rows with the lifecycle of their task
//! cards, planned rows whose status follows their task card, and the
//! LongWay payload (counts, current item, rows grouped under phases).

use vstd::prelude::*;
use crate::app_panel_text::list_at;
use crate::config_defaults::jstrs;
use crate::json::{
    jas_str, jget, jget_path, jopt_str, jstr, jstr_at, jstr_field, jstring, jstring_array, jview,
    juint, lemma_array_view, member, members_view, object_of, opt_str, JVal, Json,
};
use crate::keyed_list::{
    entries_map, insert_text_entry, keys_sorted, lemma_sorted_entries_unique, sorted_entries,
    text_entries_view,
};
use crate::run_health::array_items;
use crate::status_text::{label_views, phase_row_lifecycle_summary, spec_phase_row_lifecycle_summary};
use crate::strings::{opt_string_view, opt_view, str_eq, to_owned};
use crate::task_lifecycle::{
    first_non_empty_string, phase_row_lifecycle_unit_labels, phase_row_task_item_unit_labels,
    spec_task_card_lifecycle_details, spec_task_card_unit_labels, task_card_lifecycle_details,
    task_card_lifecycle_unit_labels,
};
use crate::worker_fleet::jviews;

verus! {

/// A lane's id and status (its lifecycle status, else its fan-in status).
pub open spec fn spec_lane_status_pair(lane: JVal) -> Option<(Seq<char>, Seq<char>)> {
    match jstr_field(lane, "lane_id"@) {
        Some(id) => match (match jstr_at(lane, seq!["lifecycle"@, "status"@]) {
            Some(s) => Some(s),
            None => jstr_at(lane, seq!["fan_in"@, "status"@]),
        }) {
            Some(status) => Some((id, status)),
            None => None,
        },
        None => None,
    }
}

/// The map of a list of pairs (a later pair replaces an earlier one).
pub open spec fn text_map_of(pairs: Seq<(Seq<char>, Seq<char>)>) -> Map<Seq<char>, Seq<char>>
    decreases pairs.len(),
{
    if pairs.len() == 0 {
        Map::empty()
    } else {
        text_map_of(pairs.drop_last()).insert(pairs.last().0, pairs.last().1)
    }
}

/// The status of each parallel lane of a task card, by lane id.
pub open spec fn spec_phase_row_lane_statuses(task_card: JVal) -> Map<Seq<char>, Seq<char>> {
    text_map_of(
        list_at(task_card, seq!["parallel_fanout"@, "lanes"@]).filter_map(
            |l: JVal| spec_lane_status_pair(l),
        ),
    )
}

fn lane_status_pair(lane: &Json) -> (r: Option<(&str, &str)>)
    ensures
        match r {
            Some((a, b)) => spec_lane_status_pair(jview(*lane)) == Some((a@, b@)),
            None => spec_lane_status_pair(jview(*lane)) is None,
        },
{
    let id = match lane.str_field("lane_id") {
        Some(id) => id,
        None => return None,
    };
    let k1: [&str; 2] = ["lifecycle", "status"];
    let k2: [&str; 2] = ["fan_in", "status"];
    assert(k1@.map_values(|k: &str| k@) =~= seq!["lifecycle"@, "status"@]);
    assert(k2@.map_values(|k: &str| k@) =~= seq!["fan_in"@, "status"@]);
    let status = match lane.str_at(k1.as_slice()) {
        Some(s) => s,
        None => match lane.str_at(k2.as_slice()) {
            Some(s) => s,
            None => return None,
        },
    };
    Some((id, status))
}

/// The lane statuses of a task card in lane id order.
pub fn phase_row_lane_statuses(task_card: &Json) -> (r: Vec<(String, String)>)
    ensures
        keys_sorted(text_entries_view(r@)),
        entries_map(text_entries_view(r@)) == spec_phase_row_lane_statuses(jview(*task_card)),
{
    let mut out: Vec<(String, String)> = Vec::new();
    let ghost f = |l: JVal| spec_lane_status_pair(l);
    assert(text_entries_view(out@) =~= Seq::<(Seq<char>, Seq<char>)>::empty());
    assert(entries_map(text_entries_view(out@)) =~= Map::<Seq<char>, Seq<char>>::empty());
    let keys: [&str; 2] = ["parallel_fanout", "lanes"];
    assert(keys@.map_values(|k: &str| k@) =~= seq!["parallel_fanout"@, "lanes"@]);
    match array_items(task_card.get_path(keys.as_slice())) {
        Some(lanes) => {
            let ghost lv = jviews(lanes@);
            let mut i: usize = 0;
            assert(lv.take(0).filter_map(f) =~= Seq::<(Seq<char>, Seq<char>)>::empty());
            while i < lanes.len()
                invariant
                    i <= lanes.len(),
                    lv == jviews(lanes@),
                    f == (|l: JVal| spec_lane_status_pair(l)),
                    keys_sorted(text_entries_view(out@)),
                    entries_map(text_entries_view(out@)) == text_map_of(lv.take(i as int).filter_map(f)),
                decreases lanes.len() - i,
            {
                proof {
                    lv.lemma_filter_map_take_succ(f, i as int);
                }
                let ghost before = lv.take(i as int).filter_map(f);
                assert(lv[i as int] == jview(lanes@[i as int]));
                match lane_status_pair(&lanes[i]) {
                    Some((id, status)) => {
                        insert_text_entry(&mut out, id, status);
                        assert(lv.take(i + 1).filter_map(f) =~= before.push((id@, status@)));
                        assert(before.push((id@, status@)).drop_last() =~= before);
                    },
                    None => {
                        assert(lv.take(i + 1).filter_map(f) =~= before);
                    },
                }
                i = i + 1;
            }
            assert(lv.take(lanes.len() as int) =~= lv);
        },
        None => {},
    }
    out
}

/// A lane status that is still running.
pub open spec fn is_active_lane_status(s: Seq<char>) -> bool {
    s == "spawned"@ || s == "acknowledged"@ || s == "running"@
}

/// A lane status that is done.
pub open spec fn is_terminal_lane_status(s: Seq<char>) -> bool {
    s == "completed"@ || s == "failed"@ || s == "stalled"@ || s == "reclaimed"@ || s == "merged"@
}

/// How many entries have a status of the kind `f` picks.
pub open spec fn count_statuses(es: Seq<(Seq<char>, Seq<char>)>, f: spec_fn(Seq<char>) -> bool) -> nat
    decreases es.len(),
{
    if es.len() == 0 {
        0
    } else {
        count_statuses(es.drop_last(), f) + if f(es.last().1) {
            1nat
        } else {
            0nat
        }
    }
}

/// The lane statuses of a task card as an object in lane id order.
pub open spec fn lane_statuses_object(es: Seq<(Seq<char>, Seq<char>)>) -> JVal {
    JVal::Object(es.map_values(|e: (Seq<char>, Seq<char>)| (e.0, JVal::Str(e.1))))
}

/// The compact lifecycle status of a task card: its review, subagent or
/// fan-in status, else running or terminal by its lanes, else not started.
pub open spec fn spec_compact_lifecycle_status(task_card: JVal, active: nat, terminal: nat) -> Seq<char> {
    match jstr_at(task_card, seq!["review_lifecycle"@, "status"@]) {
        Some(s) => s,
        None => match jstr_at(task_card, seq!["subagent_lifecycle"@, "status"@]) {
            Some(s) => s,
            None => match spec_fan_in_status(task_card) {
                Some(s) => s,
                None => if active > 0 {
                    "running"@
                } else if terminal > 0 {
                    "terminal"@
                } else {
                    "not_started"@
                },
            },
        },
    }
}

/// The fan-in status of a task card (its subagent fan-in, else its review
/// fan-in).
pub open spec fn spec_fan_in_status(task_card: JVal) -> Option<Seq<char>> {
    opt_str(
        match jget_path(task_card, seq!["subagent_fan_in"@, "status"@]) {
            Some(v) => Some(v),
            None => jget_path(task_card, seq!["review_fan_in"@, "status"@]),
        },
    )
}

/// The lifecycle of a phase row's task card, as the phase row shows it:
/// unavailable when the task card could not be read; otherwise its compact
/// status and summary, its lifecycle statuses, lane counts and statuses,
/// lifecycle details and task unit labels. `file` is the task card's path.
pub open spec fn spec_phase_row_lifecycle_sync(task_card_id: Seq<char>, task_card: Option<JVal>, file: Seq<char>) -> JVal {
    match task_card {
        None => JVal::Object(
            seq![
                ("available"@, JVal::Bool(false)),
                ("task_card_id"@, JVal::Str(task_card_id)),
                ("reason"@, JVal::Str("task card not found"@)),
            ],
        ),
        Some(tc) => {
            let es = sorted_entries(spec_phase_row_lane_statuses(tc));
            let active = count_statuses(es, |s: Seq<char>| is_active_lane_status(s));
            let terminal = count_statuses(es, |s: Seq<char>| is_terminal_lane_status(s));
            let status = spec_compact_lifecycle_status(tc, active, terminal);
            JVal::Object(
                seq![
                    ("available"@, JVal::Bool(true)),
                    ("source"@, JVal::Str(file)),
                    ("task_card_id"@, JVal::Str(task_card_id)),
                    ("status"@, JVal::Str(status)),
                    ("summary"@, JVal::Str(spec_phase_row_lifecycle_summary(status, active, terminal, es.len()))),
                    ("subagent_status"@, jopt_str(jstr_at(tc, seq!["subagent_lifecycle"@, "status"@]))),
                    ("review_status"@, jopt_str(jstr_at(tc, seq!["review_lifecycle"@, "status"@]))),
                    ("fan_in_status"@, jopt_str(spec_fan_in_status(tc))),
                    ("active_lane_count"@, JVal::Num(active as int)),
                    ("terminal_lane_count"@, JVal::Num(terminal as int)),
                    ("lane_statuses"@, lane_statuses_object(es)),
                    ("details"@, JVal::Array(spec_task_card_lifecycle_details(tc))),
                    ("task_unit_labels"@, jstrs(spec_task_card_unit_labels(tc))),
                ],
            )
        },
    }
}

fn count_lane_statuses(es: &Vec<(String, String)>) -> (r: (usize, usize))
    ensures
        r.0 == count_statuses(text_entries_view(es@), |s: Seq<char>| is_active_lane_status(s)),
        r.1 == count_statuses(text_entries_view(es@), |s: Seq<char>| is_terminal_lane_status(s)),
{
    let ghost ev = text_entries_view(es@);
    let ghost fa = |s: Seq<char>| is_active_lane_status(s);
    let ghost ft = |s: Seq<char>| is_terminal_lane_status(s);
    let mut active: usize = 0;
    let mut terminal: usize = 0;
    let mut i: usize = 0;
    assert(ev.take(0) =~= Seq::<(Seq<char>, Seq<char>)>::empty());
    while i < es.len()
        invariant
            i <= es.len(),
            ev == text_entries_view(es@),
            fa == (|s: Seq<char>| is_active_lane_status(s)),
            ft == (|s: Seq<char>| is_terminal_lane_status(s)),
            active <= i,
            terminal <= i,
            active == count_statuses(ev.take(i as int), fa),
            terminal == count_statuses(ev.take(i as int), ft),
        decreases es.len() - i,
    {
        let s = es[i].1.as_str();
        assert(ev.take(i + 1).drop_last() =~= ev.take(i as int));
        assert(ev.take(i + 1).last() == ev[i as int]);
        assert(ev[i as int].1 == s@);
        if str_eq(s, "spawned") || str_eq(s, "acknowledged") || str_eq(s, "running") {
            active = active + 1;
        }
        if str_eq(s, "completed") || str_eq(s, "failed") || str_eq(s, "stalled") || str_eq(
            s,
            "reclaimed",
        ) || str_eq(s, "merged") {
            terminal = terminal + 1;
        }
        i = i + 1;
    }
    assert(ev.take(es.len() as int) =~= ev);
    (active, terminal)
}

fn lane_statuses_json(es: &Vec<(String, String)>) -> (r: Json)
    ensures
        jview(r) == lane_statuses_object(text_entries_view(es@)),
{
    let mut m: Vec<(String, Json)> = Vec::new();
    let mut i: usize = 0;
    let ghost ev = text_entries_view(es@);
    while i < es.len()
        invariant
            i <= es.len(),
            ev == text_entries_view(es@),
            members_view(m@) == ev.take(i as int).map_values(
                |e: (Seq<char>, Seq<char>)| (e.0, JVal::Str(e.1)),
            ),
        decreases es.len() - i,
    {
        let ghost before = members_view(m@);
        m.push(member(es[i].0.as_str(), jstr(es[i].1.as_str())));
        assert(members_view(m@) =~= before.push((ev[i as int].0, JVal::Str(ev[i as int].1))));
        assert(ev.take(i + 1).map_values(|e: (Seq<char>, Seq<char>)| (e.0, JVal::Str(e.1))) =~= ev.take(
            i as int,
        ).map_values(|e: (Seq<char>, Seq<char>)| (e.0, JVal::Str(e.1))).push(
            (ev[i as int].0, JVal::Str(ev[i as int].1)),
        ));
        i = i + 1;
    }
    assert(ev.take(es.len() as int) =~= ev);
    object_of(m)
}

fn fan_in_status(task_card: &Json) -> (r: Option<&str>)
    ensures
        opt_view(r) == spec_fan_in_status(jview(*task_card)),
{
    let k1: [&str; 2] = ["subagent_fan_in", "status"];
    let k2: [&str; 2] = ["review_fan_in", "status"];
    assert(k1@.map_values(|k: &str| k@) =~= seq!["subagent_fan_in"@, "status"@]);
    assert(k2@.map_values(|k: &str| k@) =~= seq!["review_fan_in"@, "status"@]);
    match task_card.get_path(k1.as_slice()) {
        Some(v) => v.as_str(),
        None => match task_card.get_path(k2.as_slice()) {
            Some(v) => v.as_str(),
            None => None,
        },
    }
}

fn str_at2<'a>(j: &'a Json, a: &str, b: &str) -> (r: Option<&'a str>)
    ensures
        opt_view(r) == jstr_at(jview(*j), seq![a@, b@]),
{
    let keys: [&str; 2] = [a, b];
    assert(keys@.map_values(|k: &str| k@) =~= seq![a@, b@]);
    j.str_at(keys.as_slice())
}

fn jopt_text(o: Option<&str>) -> (r: Json)
    ensures
        jview(r) == jopt_str(opt_view(o)),
{
    match o {
        Some(s) => jstr(s),
        None => Json::Null,
    }
}

pub fn create_phase_row_lifecycle_sync(task_card_id: &str, task_card: Option<&Json>, file: &str) -> (r: Json)
    ensures
        jview(r) == spec_phase_row_lifecycle_sync(
            task_card_id@,
            match task_card {
                Some(t) => Some(jview(*t)),
                None => None,
            },
            file@,
        ),
{
    let tc = match task_card {
        Some(t) => t,
        None => {
            let mut m: Vec<(String, Json)> = Vec::new();
            m.push(member("available", Json::Bool(false)));
            m.push(member("task_card_id", jstr(task_card_id)));
            m.push(member("reason", jstr("task card not found")));
            let r = object_of(m);
            assert(members_view(m@) =~= spec_phase_row_lifecycle_sync(task_card_id@, None, file@)->Object_0);
            return r;
        },
    };
    let ghost tv = jview(*tc);
    let es = phase_row_lane_statuses(tc);
    proof {
        lemma_sorted_entries_unique(text_entries_view(es@), sorted_entries(spec_phase_row_lane_statuses(tv)));
    }
    let (active, terminal) = count_lane_statuses(&es);
    let review = str_at2(tc, "review_lifecycle", "status");
    let subagent = str_at2(tc, "subagent_lifecycle", "status");
    let fan_in = fan_in_status(tc);
    let status: &str = match review {
        Some(s) => s,
        None => match subagent {
            Some(s) => s,
            None => match fan_in {
                Some(s) => s,
                None => if active > 0 {
                    "running"
                } else if terminal > 0 {
                    "terminal"
                } else {
                    "not_started"
                },
            },
        },
    };
    let labels = task_card_lifecycle_unit_labels(tc);
    let labels_json = jstring_array(labels.as_slice());
    assert(labels@.map_values(|s: String| JVal::Str(s@)) =~= label_views(labels@).map_values(
        |s: Seq<char>| JVal::Str(s),
    ));
    let details = task_card_lifecycle_details(tc);
    proof {
        lemma_array_view(details);
    }
    let mut m: Vec<(String, Json)> = Vec::new();
    m.push(member("available", Json::Bool(true)));
    m.push(member("source", jstr(file)));
    m.push(member("task_card_id", jstr(task_card_id)));
    m.push(member("status", jstr(status)));
    m.push(member("summary", jstring(phase_row_lifecycle_summary(status, active, terminal, es.len()))));
    m.push(member("subagent_status", jopt_text(subagent)));
    m.push(member("review_status", jopt_text(review)));
    m.push(member("fan_in_status", jopt_text(fan_in)));
    m.push(member("active_lane_count", juint(active as u64)));
    m.push(member("terminal_lane_count", juint(terminal as u64)));
    m.push(member("lane_statuses", lane_statuses_json(&es)));
    m.push(member("details", Json::Array(details)));
    m.push(member("task_unit_labels", labels_json));
    let r = object_of(m);
    assert(members_view(m@) =~= spec_phase_row_lifecycle_sync(task_card_id@, Some(tv), file@)->Object_0);
    r
}


/// The planned-row status a task card status stands for: done, failed or
/// blocked (kept as it is), or running.
pub open spec fn spec_projected_status(s: Seq<char>) -> Option<Seq<char>> {
    if s == "completed"@ || s == "passed"@ || s == "merged"@ {
        Some("completed"@)
    } else if s == "failed"@ || s == "blocked"@ || s == "stalled"@ || s == "cancelled"@ || s
        == "reclaimed"@ {
        Some(s)
    } else if s == "spawned"@ || s == "acknowledged"@ || s == "running"@ || s == "active"@ || s
        == "in_progress"@ {
        Some("running"@)
    } else {
        None
    }
}

/// The first candidate status that stands for a planned-row status.
pub open spec fn first_projected(cs: Seq<Option<JVal>>) -> Option<Seq<char>>
    decreases cs.len(),
{
    if cs.len() == 0 {
        None
    } else {
        match opt_str(cs[0]) {
            Some(s) => match spec_projected_status(s) {
                Some(x) => Some(x),
                None => first_projected(cs.drop_first()),
            },
            None => first_projected(cs.drop_first()),
        }
    }
}

/// Where a task card records status, most telling first: its worker result,
/// fan-ins, the latest delegate result, its lifecycles, its verification
/// state and its own status.
pub open spec fn status_candidates(task_card: JVal, latest_delegate_result: Option<JVal>) -> Seq<Option<JVal>> {
    seq![
        jget_path(task_card, seq!["worker_result_envelope"@, "status"@]),
        jget_path(task_card, seq!["subagent_fan_in"@, "status"@]),
        jget_path(task_card, seq!["review_fan_in"@, "status"@]),
        match latest_delegate_result {
            Some(l) => jget(l, "status"@),
            None => None,
        },
        jget_path(task_card, seq!["subagent_lifecycle"@, "status"@]),
        jget_path(task_card, seq!["review_lifecycle"@, "status"@]),
        jget(task_card, "verification_state"@),
        jget(task_card, "status"@),
    ]
}

/// The status a planned row shows for its task card.
pub open spec fn spec_projected_planned_row_status(task_card: JVal, latest_delegate_result: Option<JVal>) -> Option<
    Seq<char>,
> {
    first_projected(status_candidates(task_card, latest_delegate_result))
}

fn projected_status(s: &str) -> (r: Option<&'static str>)
    ensures
        opt_view(r) == spec_projected_status(s@),
{
    if str_eq(s, "completed") || str_eq(s, "passed") || str_eq(s, "merged") {
        Some("completed")
    } else if str_eq(s, "failed") {
        Some("failed")
    } else if str_eq(s, "blocked") {
        Some("blocked")
    } else if str_eq(s, "stalled") {
        Some("stalled")
    } else if str_eq(s, "cancelled") {
        Some("cancelled")
    } else if str_eq(s, "reclaimed") {
        Some("reclaimed")
    } else if str_eq(s, "spawned") || str_eq(s, "acknowledged") || str_eq(s, "running") || str_eq(
        s,
        "active",
    ) || str_eq(s, "in_progress") {
        Some("running")
    } else {
        None
    }
}

fn path2<'a>(j: &'a Json, a: &str, b: &str) -> (r: Option<&'a Json>)
    ensures
        crate::worker_events::opt_jview_ref(r) == jget_path(jview(*j), seq![a@, b@]),
{
    let keys: [&str; 2] = [a, b];
    assert(keys@.map_values(|k: &str| k@) =~= seq![a@, b@]);
    j.get_path(keys.as_slice())
}

pub fn projected_planned_row_status_from_task_card(
    task_card: &Json,
    latest_delegate_result: Option<&Json>,
) -> (r: Option<&'static str>)
    ensures
        opt_view(r) == spec_projected_planned_row_status(
            jview(*task_card),
            crate::worker_events::opt_jview_ref(latest_delegate_result),
        ),
{
    let candidates: [Option<&Json>; 8] = [
        path2(task_card, "worker_result_envelope", "status"),
        path2(task_card, "subagent_fan_in", "status"),
        path2(task_card, "review_fan_in", "status"),
        match latest_delegate_result {
            Some(l) => l.get("status"),
            None => None,
        },
        path2(task_card, "subagent_lifecycle", "status"),
        path2(task_card, "review_lifecycle", "status"),
        task_card.get("verification_state"),
        task_card.get("status"),
    ];
    let ghost cv = candidates@.map_values(|o: Option<&Json>| crate::worker_events::opt_jview_ref(o));
    assert(cv =~= status_candidates(
        jview(*task_card),
        crate::worker_events::opt_jview_ref(latest_delegate_result),
    ));
    let mut i: usize = 0;
    assert(cv.skip(0) =~= cv);
    while i < 8
        invariant
            i <= 8,
            cv == candidates@.map_values(|o: Option<&Json>| crate::worker_events::opt_jview_ref(o)),
            cv == status_candidates(
                jview(*task_card),
                crate::worker_events::opt_jview_ref(latest_delegate_result),
            ),
            first_projected(cv) == first_projected(cv.skip(i as int)),
        decreases 8 - i,
    {
        assert(cv.skip(i as int)[0] == cv[i as int]);
        assert(cv.skip(i as int).drop_first() =~= cv.skip(i + 1));
        match candidates[i] {
            Some(v) => match v.as_str() {
                Some(s) => match projected_status(s) {
                    Some(x) => {
                        return Some(x);
                    },
                    None => {},
                },
                None => {},
            },
            None => {},
        }
        i = i + 1;
    }
    None
}

/// A member that is present and not `null`.
pub open spec fn present_non_null(j: JVal, key: Seq<char>) -> bool {
    match jget(j, key) {
        Some(v) => !(v is Null),
        None => false,
    }
}

/// The recovery a planned row records when its task card fell back to
/// direct execution and the fallback completed.
pub open spec fn spec_fallback_recovery(task_card: JVal) -> JVal {
    JVal::Object(
        seq![
            ("status"@, JVal::Str("completed"@)),
            ("mode"@, JVal::Str("codex_exec"@)),
            ("reason"@, crate::app_panel::or_null(jget_path(task_card, seq!["subagent_fallback"@, "reason"@]))),
            (
                "primary_status"@,
                crate::app_panel::or_null(
                    match jget_path(task_card, seq!["subagent_lifecycle"@, "status"@]) {
                        Some(v) => Some(v),
                        None => jget_path(task_card, seq!["review_lifecycle"@, "status"@]),
                    },
                ),
            ),
        ],
    )
}

/// A planned row with its status projected from its task card (the row as
/// it is without a task card id, a readable task card or a status): the
/// task card's status (else the row's own), its source, and the recovery of
/// a completed direct-execution fallback.
pub open spec fn spec_synced_planned_row(row: JVal, task_card: Option<JVal>, latest_delegate_result: Option<JVal>) -> JVal {
    match crate::custom_agent::spec_trimmed_nonblank(jstr_field(row, "task_card_id"@)) {
        None => row,
        Some(_) => match task_card {
            None => row,
            Some(tc) => {
                let ldr = match latest_delegate_result {
                    Some(l) => if l is Object {
                        Some(l)
                    } else {
                        None
                    },
                    None => None,
                };
                let projected = match spec_projected_planned_row_status(tc, ldr) {
                    Some(st) => Some(st),
                    None => jstr_field(row, "status"@),
                };
                match projected {
                    Some(st) => if row is Object {
                        let r1 = crate::json::jinsert(
                            crate::json::jinsert(row, "status"@, JVal::Str(st)),
                            "status_source"@,
                            JVal::Str("task_card_lifecycle_projection"@),
                        );
                        let completed = match ldr {
                            Some(l) => jstr_field(l, "status"@) == Some("completed"@),
                            None => false,
                        };
                        if present_non_null(tc, "subagent_fallback"@) && completed {
                            crate::json::jinsert(r1, "recovery"@, spec_fallback_recovery(tc))
                        } else {
                            r1
                        }
                    } else {
                        row
                    },
                    None => row,
                }
            },
        },
    }
}

fn fallback_recovery(task_card: &Json) -> (r: Json)
    ensures
        jview(r) == spec_fallback_recovery(jview(*task_card)),
{
    let primary = match path2(task_card, "subagent_lifecycle", "status") {
        Some(v) => v.deep_clone(),
        None => crate::app_panel::clone_or(path2(task_card, "review_lifecycle", "status"), Json::Null),
    };
    let mut m: Vec<(String, Json)> = Vec::new();
    m.push(member("status", jstr("completed")));
    m.push(member("mode", jstr("codex_exec")));
    m.push(member("reason", crate::app_panel::clone_or(path2(task_card, "subagent_fallback", "reason"), Json::Null)));
    m.push(member("primary_status", primary));
    let r = object_of(m);
    assert(members_view(m@) =~= spec_fallback_recovery(jview(*task_card))->Object_0);
    r
}

/// The planned row with its status projected from its task card (see
/// `spec_synced_planned_row`).
pub fn sync_planned_row_projection_status(
    row: Json,
    task_card: Option<&Json>,
    latest_delegate_result: Option<&Json>,
) -> (r: Json)
    ensures
        jview(r) == spec_synced_planned_row(
            jview(row),
            crate::worker_events::opt_jview_ref(task_card),
            crate::worker_events::opt_jview_ref(latest_delegate_result),
        ),
{
    let has_id = match row.str_field("task_card_id") {
        Some(id) => !crate::strings::is_blank(id),
        None => false,
    };
    if !has_id {
        return row;
    }
    let tc = match task_card {
        Some(t) => t,
        None => return row,
    };
    let ldr = match latest_delegate_result {
        Some(l) => if l.is_object() {
            Some(l)
        } else {
            None
        },
        None => None,
    };
    let projected: Option<&str> = match projected_planned_row_status_from_task_card(tc, ldr) {
        Some(st) => Some(st),
        None => row.str_field("status"),
    };
    let status = match projected {
        Some(st) => to_owned(st),
        None => return row,
    };
    if !row.is_object() {
        return row;
    }
    let completed = match ldr {
        Some(l) => match l.str_field("status") {
            Some(s) => str_eq(s, "completed"),
            None => false,
        },
        None => false,
    };
    let fallback = match tc.get("subagent_fallback") {
        Some(v) => !v.is_null(),
        None => false,
    };
    let mut out = row;
    out.insert("status", Json::Str(status));
    out.insert("status_source", jstr("task_card_lifecycle_projection"));
    if fallback && completed {
        out.insert("recovery", fallback_recovery(tc));
    }
    out
}


/// A task card that a phase row names: its id, its file, and its contents
/// when the file could be read.
pub struct TaskCardFile {
    pub task_card_id: String,
    pub file: String,
    pub task_card: Option<Json>,
}

/// The view of a task card file: id, file and contents.
pub open spec fn task_card_file_view(t: TaskCardFile) -> (Seq<char>, Seq<char>, Option<JVal>) {
    (t.task_card_id@, t.file@, crate::worker_fleet::opt_jview(t.task_card))
}

pub open spec fn task_card_files_view(ts: Seq<TaskCardFile>) -> Seq<(Seq<char>, Seq<char>, Option<JVal>)> {
    ts.map_values(|t: TaskCardFile| task_card_file_view(t))
}

/// The first task card file with the id (file and contents; none when no
/// file has it).
pub open spec fn lookup_task_card(
    ts: Seq<(Seq<char>, Seq<char>, Option<JVal>)>,
    id: Seq<char>,
) -> (Seq<char>, Option<JVal>)
    decreases ts.len(),
{
    if ts.len() == 0 {
        (Seq::empty(), None)
    } else if ts[0].0 == id {
        (ts[0].1, ts[0].2)
    } else {
        lookup_task_card(ts.drop_first(), id)
    }
}

fn find_task_card<'a>(ts: &'a Vec<TaskCardFile>, id: &str) -> (r: (&'a str, Option<&'a Json>))
    ensures
        (r.0@, crate::worker_events::opt_jview_ref(r.1)) == lookup_task_card(task_card_files_view(ts@), id@),
{
    let ghost tv = task_card_files_view(ts@);
    let mut i: usize = 0;
    assert(tv.skip(0) =~= tv);
    while i < ts.len()
        invariant
            i <= ts.len(),
            tv == task_card_files_view(ts@),
            lookup_task_card(tv, id@) == lookup_task_card(tv.skip(i as int), id@),
        decreases ts.len() - i,
    {
        assert(tv.skip(i as int)[0] == tv[i as int]);
        assert(tv.skip(i as int).drop_first() =~= tv.skip(i + 1));
        if str_eq(ts[i].task_card_id.as_str(), id) {
            let card = match &ts[i].task_card {
                Some(c) => Some(c),
                None => None,
            };
            return (ts[i].file.as_str(), card);
        }
        i = i + 1;
    }
    assert(tv.skip(ts.len() as int) =~= Seq::<(Seq<char>, Seq<char>, Option<JVal>)>::empty());
    let none: &str = "";
    proof {
        reveal_strlit("");
    }
    assert(none@ =~= Seq::<char>::empty());
    (none, None)
}

/// `item-<n>`.
pub open spec fn item_label(n: nat) -> Seq<char> {
    "item-"@ + crate::format::decimal(n)
}

fn item_label_text(n: usize) -> (r: String)
    ensures
        r@ == item_label(n as nat),
{
    let mut s = to_owned("item-");
    crate::format::push_decimal(&mut s, n as u64);
    s
}

/// The keys that name a phase's owner.
pub open spec fn owner_keys() -> Seq<Seq<char>> {
    seq!["owner_agent"@, "assigned_agent_id"@, "agent_id"@, "owner"@]
}

/// The first task item owner of a phase.
pub open spec fn first_item_owner(items: Seq<JVal>) -> Option<Seq<char>>
    decreases items.len(),
{
    if items.len() == 0 {
        None
    } else {
        match crate::status_templates::first_nonblank_field(items[0], owner_keys()) {
            Some(o) => Some(o),
            None => first_item_owner(items.drop_first()),
        }
    }
}

/// A phase's owner: its own, else its first task item's.
pub open spec fn spec_phase_owner(phase: JVal) -> Option<Seq<char>> {
    match crate::status_templates::first_nonblank_field(phase, owner_keys()) {
        Some(o) => Some(o),
        None => match jget(phase, "task_items"@) {
            Some(JVal::Array(items)) => first_item_owner(items),
            _ => None,
        },
    }
}

/// The lifecycle sync of a phase row's task card (unavailable without a
/// task card id).
pub open spec fn spec_phase_lifecycle_sync(
    task_card_id: Option<Seq<char>>,
    ts: Seq<(Seq<char>, Seq<char>, Option<JVal>)>,
) -> JVal {
    match task_card_id {
        Some(id) => {
            let found = lookup_task_card(ts, id);
            spec_phase_row_lifecycle_sync(id, found.1, found.0)
        },
        None => JVal::Object(
            seq![
                ("available"@, JVal::Bool(false)),
                ("reason"@, JVal::Str("phase row has no task_card_id"@)),
            ],
        ),
    }
}

/// The phase row of the phase at `index` (none without an owner and a
/// title).
pub open spec fn spec_phase_row(phase: JVal, index: nat, ts: Seq<(Seq<char>, Seq<char>, Option<JVal>)>) -> Option<JVal> {
    let owner = spec_phase_owner(phase);
    let title = crate::status_templates::first_nonblank_field(phase, seq!["title"@, "summary"@, "intent"@]);
    let task_card_id = crate::status_templates::first_nonblank_field(phase, seq!["task_card_id"@, "task_id"@]);
    let sync = spec_phase_lifecycle_sync(task_card_id, ts);
    let item_labels = crate::task_lifecycle::spec_phase_item_labels(phase);
    let labels = if item_labels.len() == 0 {
        crate::task_lifecycle::spec_sync_unit_labels(sync)
    } else {
        item_labels
    };
    if owner is None && title is None {
        None
    } else {
        Some(
            JVal::Object(
                seq![
                    ("item"@, JVal::Str(item_label(index + 1))),
                    (
                        "label"@,
                        JVal::Str(
                            match crate::status_templates::first_nonblank_field(
                                phase,
                                seq!["phase_name"@, "phase_id"@],
                            ) {
                                Some(l) => l,
                                None => item_label(index + 1),
                            },
                        ),
                    ),
                    ("title"@, jopt_str(title)),
                    ("status"@, crate::app_panel::or_null(jget(phase, "status"@))),
                    ("owner_agent"@, jopt_str(owner)),
                    ("task_card_id"@, jopt_str(task_card_id)),
                    ("task_unit_labels"@, jstrs(labels)),
                    ("lifecycle_sync"@, sync),
                ],
            ),
        )
    }
}

/// The phase rows of the first `k` phases.
pub open spec fn spec_phase_rows(phases: Seq<JVal>, ts: Seq<(Seq<char>, Seq<char>, Option<JVal>)>, k: nat) -> Seq<JVal>
    decreases k,
{
    if k == 0 {
        Seq::empty()
    } else {
        spec_phase_rows(phases, ts, (k - 1) as nat) + match spec_phase_row(phases[k - 1], (k - 1) as nat, ts) {
            Some(r) => seq![r],
            None => Seq::empty(),
        }
    }
}

fn phase_owner(phase: &Json) -> (r: Option<String>)
    ensures
        opt_string_view(r) == spec_phase_owner(jview(*phase)),
{
    let keys: [&str; 4] = ["owner_agent", "assigned_agent_id", "agent_id", "owner"];
    assert(keys@.map_values(|k: &str| k@) =~= owner_keys());
    match first_non_empty_string(phase, keys.as_slice()) {
        Some(o) => return Some(o),
        None => {},
    }
    match phase.get("task_items") {
        Some(Json::Array(items)) => {
            proof {
                lemma_array_view(*items);
            }
            let ghost iv = jviews(items@);
            let mut i: usize = 0;
            assert(iv.skip(0) =~= iv);
            while i < items.len()
                invariant
                    i <= items.len(),
                    iv == jviews(items@),
                    keys@.map_values(|k: &str| k@) == owner_keys(),
                    first_item_owner(iv) == first_item_owner(iv.skip(i as int)),
                    crate::status_templates::first_nonblank_field(jview(*phase), owner_keys()) is None,
                    jget(jview(*phase), "task_items"@) == Some(JVal::Array(iv)),
                decreases items.len() - i,
            {
                assert(iv.skip(i as int)[0] == jview(items@[i as int]));
                assert(iv.skip(i as int).drop_first() =~= iv.skip(i + 1));
                match first_non_empty_string(&items[i], keys.as_slice()) {
                    Some(o) => return Some(o),
                    None => {},
                }
                i = i + 1;
            }
            None
        },
        _ => None,
    }
}

fn phase_lifecycle_sync(task_card_id: &Option<String>, task_cards: &Vec<TaskCardFile>) -> (r: Json)
    ensures
        jview(r) == spec_phase_lifecycle_sync(opt_string_view(*task_card_id), task_card_files_view(task_cards@)),
{
    match task_card_id {
        Some(id) => {
            let (file, card) = find_task_card(task_cards, id.as_str());
            create_phase_row_lifecycle_sync(id.as_str(), card, file)
        },
        None => {
            let mut m: Vec<(String, Json)> = Vec::new();
            m.push(member("available", Json::Bool(false)));
            m.push(member("reason", jstr("phase row has no task_card_id")));
            let r = object_of(m);
            assert(members_view(m@) =~= spec_phase_lifecycle_sync(None, task_card_files_view(task_cards@))->Object_0);
            r
        },
    }
}


fn phase_row(phase: &Json, index: usize, task_cards: &Vec<TaskCardFile>) -> (r: Option<Json>)
    requires
        index < usize::MAX,
    ensures
        crate::worker_fleet::opt_jview(r) == spec_phase_row(jview(*phase), index as nat, task_card_files_view(task_cards@)),
{
    let owner = phase_owner(phase);
    let tk: [&str; 3] = ["title", "summary", "intent"];
    let ik: [&str; 2] = ["task_card_id", "task_id"];
    let lk: [&str; 2] = ["phase_name", "phase_id"];
    assert(tk@.map_values(|k: &str| k@) =~= seq!["title"@, "summary"@, "intent"@]);
    assert(ik@.map_values(|k: &str| k@) =~= seq!["task_card_id"@, "task_id"@]);
    assert(lk@.map_values(|k: &str| k@) =~= seq!["phase_name"@, "phase_id"@]);
    let title = first_non_empty_string(phase, tk.as_slice());
    let task_card_id = first_non_empty_string(phase, ik.as_slice());
    let sync = phase_lifecycle_sync(&task_card_id, task_cards);
    let mut labels = phase_row_task_item_unit_labels(phase);
    if labels.len() == 0 {
        labels = phase_row_lifecycle_unit_labels(&sync);
    }
    if owner.is_none() && title.is_none() {
        return None;
    }
    let label = match first_non_empty_string(phase, lk.as_slice()) {
        Some(l) => l,
        None => item_label_text(index + 1),
    };
    let labels_json = jstring_array(labels.as_slice());
    assert(labels@.map_values(|s: String| JVal::Str(s@)) =~= label_views(labels@).map_values(
        |s: Seq<char>| JVal::Str(s),
    ));
    let mut m: Vec<(String, Json)> = Vec::new();
    m.push(member("item", jstring(item_label_text(index + 1))));
    m.push(member("label", jstring(label)));
    m.push(member("title", crate::json::jopt_string(&title)));
    m.push(member("status", crate::app_panel::clone_or(phase.get("status"), Json::Null)));
    m.push(member("owner_agent", crate::json::jopt_string(&owner)));
    m.push(member("task_card_id", crate::json::jopt_string(&task_card_id)));
    m.push(member("task_unit_labels", labels_json));
    m.push(member("lifecycle_sync", sync));
    let r = object_of(m);
    assert(members_view(m@) =~= spec_phase_row(jview(*phase), index as nat, task_card_files_view(task_cards@))->Some_0->Object_0);
    Some(r)
}

pub fn create_longway_phase_rows(phases: &Vec<Json>, task_cards: &Vec<TaskCardFile>) -> (r: Vec<Json>)
    ensures
        jviews(r@) == spec_phase_rows(jviews(phases@), task_card_files_view(task_cards@), phases@.len()),
{
    let ghost pv = jviews(phases@);
    let ghost tv = task_card_files_view(task_cards@);
    let mut rows: Vec<Json> = Vec::new();
    let mut i: usize = 0;
    assert(jviews(rows@) =~= Seq::<JVal>::empty());
    while i < phases.len()
        invariant
            i <= phases.len(),
            pv == jviews(phases@),
            tv == task_card_files_view(task_cards@),
            jviews(rows@) == spec_phase_rows(pv, tv, i as nat),
        decreases phases.len() - i,
    {
        let ghost before = jviews(rows@);
        assert(pv[i as int] == jview(phases@[i as int]));
        match phase_row(&phases[i], i, task_cards) {
            Some(row) => {
                let ghost rv = jview(row);
                rows.push(row);
                assert(jviews(rows@) =~= before + seq![rv]);
            },
            None => {
                assert(jviews(rows@) =~= before + Seq::<JVal>::empty());
            },
        }
        i = i + 1;
    }
    rows
}

/// Whether a phase row's task card id, trimmed, is `id`.
pub open spec fn phase_row_has_task_card(phase_row: JVal, id: Seq<char>) -> bool {
    match jstr_field(phase_row, "task_card_id"@) {
        Some(s) => crate::strings::trim(s) == id,
        None => false,
    }
}

/// The first of the first `k` phase rows whose task card id is `id`.
pub open spec fn first_phase_row_with(phase_rows: Seq<JVal>, id: Seq<char>, k: nat) -> Option<nat>
    decreases k,
{
    if k == 0 {
        None
    } else {
        match first_phase_row_with(phase_rows, id, (k - 1) as nat) {
            Some(j) => Some(j),
            None => if phase_row_has_task_card(phase_rows[k - 1], id) {
                Some((k - 1) as nat)
            } else {
                None
            },
        }
    }
}

/// The phase row that takes planned rows with no phase of their own: the
/// active phase's, else the last.
pub open spec fn spec_fallback_phase_index(phase_row_count: nat, active_phase_index: Option<usize>) -> nat {
    match active_phase_index {
        Some(i) => if i < phase_row_count {
            i as nat
        } else if phase_row_count > 0 {
            (phase_row_count - 1) as nat
        } else {
            0
        },
        None => if phase_row_count > 0 {
            (phase_row_count - 1) as nat
        } else {
            0
        },
    }
}

/// The phase row a planned row goes under: the first phase row with its
/// (trimmed, non-blank) task card id, else the fallback.
pub open spec fn spec_planned_row_target(phase_rows: Seq<JVal>, row: JVal, fallback: nat) -> nat {
    match crate::custom_agent::spec_trimmed_nonblank(jstr_field(row, "task_card_id"@)) {
        Some(id) => match first_phase_row_with(phase_rows, id, phase_rows.len()) {
            Some(j) => j,
            None => fallback,
        },
        None => fallback,
    }
}

/// The planned rows that go under phase row `j`, in their order.
pub open spec fn planned_rows_under(phase_rows: Seq<JVal>, planned_rows: Seq<JVal>, fallback: nat, j: int) -> Seq<JVal> {
    planned_rows.filter_map(
        |r: JVal|
            if spec_planned_row_target(phase_rows, r, fallback) == j {
                Some(r)
            } else {
                None
            },
    )
}

/// The phase rows with their planned rows attached: each phase row that is
/// an object and has planned rows gets them under `planned_rows`; nothing
/// changes when either list is empty.
pub open spec fn spec_attached_phase_rows(
    phase_rows: Seq<JVal>,
    planned_rows: Seq<JVal>,
    active_phase_index: Option<usize>,
) -> Seq<JVal> {
    if phase_rows.len() == 0 || planned_rows.len() == 0 {
        phase_rows
    } else {
        let fallback = spec_fallback_phase_index(phase_rows.len(), active_phase_index);
        Seq::new(
            phase_rows.len(),
            |j: int|
                {
                    let group = planned_rows_under(phase_rows, planned_rows, fallback, j);
                    if group.len() > 0 {
                        crate::json::jinsert(phase_rows[j], "planned_rows"@, JVal::Array(group))
                    } else {
                        phase_rows[j]
                    }
                },
        )
    }
}

fn first_phase_row_index(phase_rows: &Vec<Json>, id: &str) -> (r: Option<usize>)
    ensures
        match r {
            Some(j) => first_phase_row_with(jviews(phase_rows@), id@, phase_rows@.len()) == Some(j as nat),
            None => first_phase_row_with(jviews(phase_rows@), id@, phase_rows@.len()) is None,
        },
{
    let ghost pv = jviews(phase_rows@);
    let mut i: usize = 0;
    while i < phase_rows.len()
        invariant
            i <= phase_rows.len(),
            pv == jviews(phase_rows@),
            first_phase_row_with(pv, id@, i as nat) is None,
        decreases phase_rows.len() - i,
    {
        assert(pv[i as int] == jview(phase_rows@[i as int]));
        let hit = match phase_rows[i].str_field("task_card_id") {
            Some(s) => {
                let t = crate::strings::trim_string(s);
                str_eq(t.as_str(), id)
            },
            None => false,
        };
        if hit {
            proof {
                lemma_first_phase_row_stable(pv, id@, (i + 1) as nat, pv.len());
            }
            return Some(i);
        }
        i = i + 1;
    }
    None
}

proof fn lemma_first_phase_row_stable(phase_rows: Seq<JVal>, id: Seq<char>, k: nat, n: nat)
    requires
        k <= n,
        first_phase_row_with(phase_rows, id, k) is Some,
    ensures
        first_phase_row_with(phase_rows, id, n) == first_phase_row_with(phase_rows, id, k),
    decreases n - k,
{
    if k < n {
        lemma_first_phase_row_stable(phase_rows, id, k, (n - 1) as nat);
    }
}

/// The planned rows grouped under the phase rows (see
/// `spec_attached_phase_rows`).
pub fn attach_planned_rows_to_phase_rows(
    phase_rows: &mut Vec<Json>,
    planned_rows: &Vec<Json>,
    active_phase_index: Option<usize>,
)
    ensures
        jviews(final(phase_rows)@) == spec_attached_phase_rows(
            jviews(old(phase_rows)@),
            jviews(planned_rows@),
            active_phase_index,
        ),
{
    let n = phase_rows.len();
    if n == 0 || planned_rows.len() == 0 {
        return;
    }
    let ghost pv = jviews(phase_rows@);
    let ghost qv = jviews(planned_rows@);
    let fallback: usize = match active_phase_index {
        Some(i) => if i < n {
            i
        } else {
            n - 1
        },
        None => n - 1,
    };
    assert(fallback as nat == spec_fallback_phase_index(pv.len(), active_phase_index));
    let mut targets: Vec<usize> = Vec::new();
    let mut k: usize = 0;
    while k < planned_rows.len()
        invariant
            k <= planned_rows.len(),
            n == phase_rows.len(),
            pv == jviews(phase_rows@),
            qv == jviews(planned_rows@),
            targets.len() == k,
            fallback < n,
            forall|m: int|
                0 <= m < k ==> #[trigger] targets@[m] as nat == spec_planned_row_target(pv, qv[m], fallback as nat),
            forall|m: int| 0 <= m < k ==> #[trigger] targets@[m] < n,
        decreases planned_rows.len() - k,
    {
        assert(qv[k as int] == jview(planned_rows@[k as int]));
        let t = match crate::custom_agent::trimmed_nonblank(planned_rows[k].str_field("task_card_id")) {
            Some(id) => match first_phase_row_index(phase_rows, id.as_str()) {
                Some(j) => {
                    proof {
                        lemma_first_phase_row_bound(pv, id@, pv.len());
                    }
                    j
                },
                None => fallback,
            },
            None => fallback,
        };
        targets.push(t);
        k = k + 1;
    }
    let mut out: Vec<Json> = Vec::new();
    let mut j: usize = 0;
    while j < n
        invariant
            j <= n,
            n == phase_rows.len(),
            n > 0,
            planned_rows.len() > 0,
            pv == jviews(phase_rows@),
            qv == jviews(planned_rows@),
            targets.len() == planned_rows.len(),
            forall|m: int|
                0 <= m < targets.len() ==> #[trigger] targets@[m] as nat == spec_planned_row_target(pv, qv[m], fallback as nat),
            fallback as nat == spec_fallback_phase_index(pv.len(), active_phase_index),
            out.len() == j,
            forall|m: int| 0 <= m < j ==> #[trigger] jviews(out@)[m] == spec_attached_phase_rows(pv, qv, active_phase_index)[m],
        decreases n - j,
    {
        let ghost pred = |r: JVal|
            if spec_planned_row_target(pv, r, fallback as nat) == j as int {
                Some(r)
            } else {
                None
            };
        let mut group: Vec<Json> = Vec::new();
        let mut k: usize = 0;
        while k < planned_rows.len()
            invariant
                k <= planned_rows.len(),
                qv == jviews(planned_rows@),
                targets.len() == planned_rows.len(),
                forall|m: int|
                    0 <= m < targets.len() ==> #[trigger] targets@[m] as nat == spec_planned_row_target(pv, qv[m], fallback as nat),
                pred == (|r: JVal|
                    if spec_planned_row_target(pv, r, fallback as nat) == j as int {
                        Some(r)
                    } else {
                        None
                    }),
                jviews(group@) == qv.take(k as int).filter_map(pred),
            decreases planned_rows.len() - k,
        {
            let ghost before = jviews(group@);
            assert(qv.take(k + 1).drop_last() =~= qv.take(k as int));
            assert(qv.take(k + 1).last() == qv[k as int]);
            assert(qv[k as int] == jview(planned_rows@[k as int]));
            assert(targets@[k as int] as nat == spec_planned_row_target(pv, qv[k as int], fallback as nat));
            if targets[k] == j {
                let c = planned_rows[k].deep_clone();
                group.push(c);
                assert(jviews(group@) =~= before + seq![qv[k as int]]);
            } else {
                assert(jviews(group@) =~= before);
            }
            k = k + 1;
        }
        assert(qv.take(planned_rows.len() as int) =~= qv);
        assert(jviews(group@) == planned_rows_under(pv, qv, fallback as nat, j as int));
        assert(pv[j as int] == jview(phase_rows@[j as int]));
        let mut row = phase_rows[j].deep_clone();
        if group.len() > 0 {
            proof {
                lemma_array_view(group);
            }
            row.insert("planned_rows", crate::worker_fleet::array_of(group));
        }
        let ghost rv = jview(row);
        let ghost before_out = jviews(out@);
        out.push(row);
        assert(jviews(out@) =~= before_out.push(rv));
        j = j + 1;
    }
    assert(jviews(out@) =~= spec_attached_phase_rows(pv, qv, active_phase_index));
    *phase_rows = out;
}

proof fn lemma_first_phase_row_bound(phase_rows: Seq<JVal>, id: Seq<char>, k: nat)
    ensures
        match first_phase_row_with(phase_rows, id, k) {
            Some(j) => j < k,
            None => true,
        },
    decreases k,
{
    if k > 0 {
        lemma_first_phase_row_bound(phase_rows, id, (k - 1) as nat);
    }
}

/// The items of an array member (none when it is missing or not an array).
pub open spec fn member_list(j: JVal, key: Seq<char>) -> Seq<JVal> {
    match jget(j, key) {
        Some(JVal::Array(items)) => items,
        _ => Seq::empty(),
    }
}

/// A phase whose status is `completed`.
pub open spec fn is_completed_phase(phase: JVal) -> bool {
    jstr_field(phase, "status"@) == Some("completed"@)
}

/// How many of the first `k` phases are completed.
pub open spec fn completed_phase_count(phases: Seq<JVal>, k: nat) -> nat
    decreases k,
{
    if k == 0 {
        0
    } else {
        completed_phase_count(phases, (k - 1) as nat) + if is_completed_phase(phases[k - 1]) {
            1nat
        } else {
            0nat
        }
    }
}

/// The first of the first `k` phases that is not completed.
pub open spec fn first_open_phase(phases: Seq<JVal>, k: nat) -> Option<nat>
    decreases k,
{
    if k == 0 {
        None
    } else {
        match first_open_phase(phases, (k - 1) as nat) {
            Some(j) => Some(j),
            None => if is_completed_phase(phases[k - 1]) {
                None
            } else {
                Some((k - 1) as nat)
            },
        }
    }
}

/// A planned row as the LongWay shows it: sanitized, then with its status
/// projected from its task card and the latest finished delegation of it.
pub open spec fn spec_longway_planned_row(
    row: JVal,
    ts: Seq<(Seq<char>, Seq<char>, Option<JVal>)>,
    ds: Seq<(JVal, Option<Seq<(Seq<char>, Option<JVal>)>>)>,
    runtime_config: JVal,
    now: int,
) -> JVal {
    let sanitized = crate::routing_trace::spec_sanitized_longway_row(row);
    match crate::custom_agent::spec_trimmed_nonblank(jstr_field(sanitized, "task_card_id"@)) {
        Some(id) => spec_synced_planned_row(
            sanitized,
            lookup_task_card(ts, id).1,
            Some(crate::delegate_result::spec_latest_delegate_result(ds, Some(id), runtime_config, now)),
        ),
        None => sanitized,
    }
}

/// The LongWay payload of a run: the checklist's own members, its counts,
/// the current item (the first phase not completed), the phase rows with
/// their planned rows, and the planned rows.
pub open spec fn spec_longway_payload(
    longway: JVal,
    file: Seq<char>,
    ts: Seq<(Seq<char>, Seq<char>, Option<JVal>)>,
    ds: Seq<(JVal, Option<Seq<(Seq<char>, Option<JVal>)>>)>,
    runtime_config: JVal,
    now: int,
) -> JVal {
    let phases = member_list(longway, "phases"@);
    let planned = member_list(longway, "planned_rows"@).map_values(
        |r: JVal| spec_longway_planned_row(r, ts, ds, runtime_config, now),
    );
    let active = first_open_phase(phases, phases.len());
    let active_index: Option<usize> = match active {
        Some(i) => Some(i as usize),
        None => None,
    };
    JVal::Object(
        seq![
            ("file"@, JVal::Str(file)),
            ("lifecycle_state"@, crate::app_panel::or_null(jget(longway, "lifecycle_state"@))),
            ("active_phase_name"@, crate::app_panel::or_null(jget(longway, "active_phase_name"@))),
            ("active_phase_status"@, crate::app_panel::or_null(jget(longway, "active_phase_status"@))),
            ("planning_context"@, crate::app_panel::or_null(jget(longway, "planning_context"@))),
            (
                "way_clarification_request"@,
                crate::app_panel::or_null(jget(longway, "way_clarification_request"@)),
            ),
            ("phase_count"@, JVal::Num(phases.len() as int)),
            ("planned_row_count"@, JVal::Num(planned.len() as int)),
            ("completed_phase_count"@, JVal::Num(completed_phase_count(phases, phases.len()) as int)),
            (
                "current_item"@,
                JVal::Str(
                    match active {
                        Some(i) => item_label(i + 1),
                        None => "none"@,
                    },
                ),
            ),
            (
                "phase_rows"@,
                JVal::Array(spec_attached_phase_rows(spec_phase_rows(phases, ts, phases.len()), planned, active_index)),
            ),
            ("planned_rows"@, JVal::Array(planned)),
        ],
    )
}

fn longway_planned_row(
    row: &Json,
    task_cards: &Vec<TaskCardFile>,
    delegations: &Vec<crate::delegate_result::DelegationRecord>,
    runtime_config: &Json,
    now_ms: i64,
) -> (r: Json)
    ensures
        jview(r) == spec_longway_planned_row(
            jview(*row),
            task_card_files_view(task_cards@),
            crate::delegate_result::delegation_records_view(delegations@),
            jview(*runtime_config),
            now_ms as int,
        ),
{
    let sanitized = crate::routing_trace::sanitize_longway_planned_row(row);
    let id = match crate::custom_agent::trimmed_nonblank(sanitized.str_field("task_card_id")) {
        Some(id) => id,
        None => return sanitized,
    };
    let (_, card) = find_task_card(task_cards, id.as_str());
    let latest = crate::delegate_result::create_latest_delegate_result_payload_at(
        delegations,
        Some(id.as_str()),
        runtime_config,
        now_ms,
    );
    sync_planned_row_projection_status(sanitized, card, Some(&latest))
}

fn longway_planned_rows(
    raw_planned: &Vec<Json>,
    task_cards: &Vec<TaskCardFile>,
    delegations: &Vec<crate::delegate_result::DelegationRecord>,
    runtime_config: &Json,
    now_ms: i64,
) -> (r: Vec<Json>)
    ensures
        jviews(r@) == jviews(raw_planned@).map_values(
            |row: JVal|
                spec_longway_planned_row(
                    row,
                    task_card_files_view(task_cards@),
                    crate::delegate_result::delegation_records_view(delegations@),
                    jview(*runtime_config),
                    now_ms as int,
                ),
        ),
{
    let ghost rv = jviews(raw_planned@);
    let ghost f = |row: JVal|
        spec_longway_planned_row(
            row,
            task_card_files_view(task_cards@),
            crate::delegate_result::delegation_records_view(delegations@),
            jview(*runtime_config),
            now_ms as int,
        );
    let mut planned: Vec<Json> = Vec::new();
    let mut k: usize = 0;
    while k < raw_planned.len()
        invariant
            k <= raw_planned.len(),
            rv == jviews(raw_planned@),
            f == (|row: JVal|
                spec_longway_planned_row(
                    row,
                    task_card_files_view(task_cards@),
                    crate::delegate_result::delegation_records_view(delegations@),
                    jview(*runtime_config),
                    now_ms as int,
                )),
            jviews(planned@) == rv.take(k as int).map_values(f),
        decreases raw_planned.len() - k,
    {
        assert(rv[k as int] == jview(raw_planned@[k as int]));
        let ghost before = jviews(planned@);
        let row = longway_planned_row(&raw_planned[k], task_cards, delegations, runtime_config, now_ms);
        planned.push(row);
        assert(rv.take(k + 1).map_values(f) =~= rv.take(k as int).map_values(f).push(f(rv[k as int])));
        assert(jviews(planned@) =~= before.push(f(rv[k as int])));
        k = k + 1;
    }
    assert(rv.take(raw_planned.len() as int) =~= rv);
    planned
}

fn completed_and_active(phases: &Vec<Json>) -> (r: (usize, Option<usize>))
    ensures
        r.0 as nat == completed_phase_count(jviews(phases@), phases@.len()),
        match r.1 {
            Some(i) => i < phases@.len() && first_open_phase(jviews(phases@), phases@.len()) == Some(i as nat),
            None => first_open_phase(jviews(phases@), phases@.len()) is None,
        },
{
    let ghost pv = jviews(phases@);
    let mut count: usize = 0;
    let mut active: Option<usize> = None;
    let mut i: usize = 0;
    while i < phases.len()
        invariant
            i <= phases.len(),
            pv == jviews(phases@),
            count <= i,
            count as nat == completed_phase_count(pv, i as nat),
            match active {
                Some(a) => a < i && first_open_phase(pv, i as nat) == Some(a as nat),
                None => first_open_phase(pv, i as nat) is None,
            },
        decreases phases.len() - i,
    {
        assert(pv[i as int] == jview(phases@[i as int]));
        let done = match phases[i].str_field("status") {
            Some(st) => str_eq(st, "completed"),
            None => false,
        };
        if done {
            count = count + 1;
        } else if active.is_none() {
            active = Some(i);
        }
        i = i + 1;
    }
    (count, active)
}

/// The LongWay payload of a run from its checklist document and what was
/// read beside it (see `spec_longway_payload`), with worker lifecycles seen
/// at `now_ms`.
pub fn create_longway_payload_at(
    longway: &Json,
    file: &str,
    task_cards: &Vec<TaskCardFile>,
    delegations: &Vec<crate::delegate_result::DelegationRecord>,
    runtime_config: &Json,
    now_ms: i64,
) -> (r: Json)
    ensures
        jview(r) == spec_longway_payload(
            jview(*longway),
            file@,
            task_card_files_view(task_cards@),
            crate::delegate_result::delegation_records_view(delegations@),
            jview(*runtime_config),
            now_ms as int,
        ),
{
    let ghost lv = jview(*longway);
    let ghost tv = task_card_files_view(task_cards@);
    let ghost dv = crate::delegate_result::delegation_records_view(delegations@);
    let ghost rc = jview(*runtime_config);
    let empty: Vec<Json> = Vec::new();
    let phases: &Vec<Json> = match array_items(longway.get("phases")) {
        Some(p) => p,
        None => &empty,
    };
    assert(jviews(phases@) == member_list(lv, "phases"@));
    let raw_planned: &Vec<Json> = match array_items(longway.get("planned_rows")) {
        Some(p) => p,
        None => &empty,
    };
    let ghost rv = jviews(raw_planned@);
    assert(rv == member_list(lv, "planned_rows"@));
    let planned = longway_planned_rows(raw_planned, task_cards, delegations, runtime_config, now_ms);
    let (completed, active) = completed_and_active(phases);
    let mut phase_rows = create_longway_phase_rows(phases, task_cards);
    attach_planned_rows_to_phase_rows(&mut phase_rows, &planned, active);
    let n_phases = phases.len();
    let current = match active {
        Some(i) => {
            assert(i < n_phases);
            item_label_text(i + 1)
        },
        None => to_owned("none"),
    };
    let phase_count = n_phases as u64;
    let planned_count = planned.len() as u64;
    let mut m: Vec<(String, Json)> = Vec::new();
    m.push(member("file", jstr(file)));
    m.push(member("lifecycle_state", crate::app_panel::clone_or(longway.get("lifecycle_state"), Json::Null)));
    m.push(member("active_phase_name", crate::app_panel::clone_or(longway.get("active_phase_name"), Json::Null)));
    m.push(member("active_phase_status", crate::app_panel::clone_or(longway.get("active_phase_status"), Json::Null)));
    m.push(member("planning_context", crate::app_panel::clone_or(longway.get("planning_context"), Json::Null)));
    m.push(
        member(
            "way_clarification_request",
            crate::app_panel::clone_or(longway.get("way_clarification_request"), Json::Null),
        ),
    );
    m.push(member("phase_count", juint(phase_count)));
    m.push(member("planned_row_count", juint(planned_count)));
    m.push(member("completed_phase_count", juint(completed as u64)));
    m.push(member("current_item", jstring(current)));
    m.push(member("phase_rows", crate::worker_fleet::array_of(phase_rows)));
    m.push(member("planned_rows", crate::worker_fleet::array_of(planned)));
    let r = object_of(m);
    assert(members_view(m@) =~= spec_longway_payload(lv, file@, tv, dv, rc, now_ms as int)->Object_0);
    r
}

/// The LongWay payload of a run, with worker lifecycles seen now (the time
/// is read from the clock once).
pub fn create_longway_payload(
    longway: &Json,
    file: &str,
    task_cards: &Vec<TaskCardFile>,
    delegations: &Vec<crate::delegate_result::DelegationRecord>,
    runtime_config: &Json,
) -> (r: Json)
    ensures
        exists|now: int|
            i64::MIN <= now <= i64::MAX && jview(r) == spec_longway_payload(
                jview(*longway),
                file@,
                task_card_files_view(task_cards@),
                crate::delegate_result::delegation_records_view(delegations@),
                jview(*runtime_config),
                now,
            ),
{
    let now = crate::clock::utc_now_millis();
    create_longway_payload_at(longway, file, task_cards, delegations, runtime_config, now)
}

/// Every planned row goes under a phase row that exists.
pub proof fn lemma_planned_row_target_in_range(
    phase_rows: Seq<JVal>,
    row: JVal,
    active_phase_index: Option<usize>,
)
    requires
        phase_rows.len() > 0,
    ensures
        spec_planned_row_target(
            phase_rows,
            row,
            spec_fallback_phase_index(phase_rows.len(), active_phase_index),
        ) < phase_rows.len(),
{
    match crate::custom_agent::spec_trimmed_nonblank(jstr_field(row, "task_card_id"@)) {
        Some(id) => lemma_first_phase_row_bound(phase_rows, id, phase_rows.len()),
        None => {},
    }
}

/// No more phases are completed than there are, and the current item is
/// `none` exactly when every phase is completed.
pub proof fn lemma_current_item_none_iff_all_completed(phases: Seq<JVal>, k: nat)
    requires
        k <= phases.len(),
    ensures
        completed_phase_count(phases, k) <= k,
        (first_open_phase(phases, k) is None) <==> (completed_phase_count(phases, k) == k),
    decreases k,
{
    if k > 0 {
        lemma_current_item_none_iff_all_completed(phases, (k - 1) as nat);
    }
}

} // verus!
