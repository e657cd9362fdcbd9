//! What the LongWay shows of a task card's delegated work: one detail per
//! parallel lane (or per subagent and review lifecycle when no lane reports),
//! and the `unit:owner` labels of the work units.

use vstd::prelude::*;
use crate::json::{
    jget, jget_path, jstr, jstr_field, jstring, jview, juint, lemma_array_view, member,
    members_view, object_of, JVal, Json,
};
use crate::status_templates::first_nonblank_field;
use crate::status_text::{
    compact_task_unit_label, label_views, push_unique_label, spec_task_unit_label_part,
};
use crate::strings::{is_blank, to_owned, trim, trim_string};
use crate::worker_fleet::jviews;

verus! {

/// The first of `keys` holding a non-blank string, trimmed.
pub fn first_non_empty_string(value: &Json, keys: &[&str]) -> (r: Option<String>)
    ensures
        match r {
            Some(s) => first_nonblank_field(jview(*value), keys@.map_values(|k: &str| k@)) == Some(
                s@,
            ),
            None => first_nonblank_field(jview(*value), keys@.map_values(|k: &str| k@)) is None,
        },
{
    let ghost ks = keys@.map_values(|k: &str| k@);
    let mut i: usize = 0;
    assert(ks.skip(0) =~= ks);
    while i < keys.len()
        invariant
            i <= keys.len(),
            ks == keys@.map_values(|k: &str| k@),
            first_nonblank_field(jview(*value), ks) == first_nonblank_field(
                jview(*value),
                ks.skip(i as int),
            ),
        decreases keys.len() - i,
    {
        proof {
            assert(ks.skip(i as int)[0] == keys@[i as int]@);
            assert(ks.skip(i as int).drop_first() =~= ks.skip(i + 1));
        }
        match value.str_field(keys[i]) {
            Some(s) => {
                let t = trim_string(s);
                if t.as_str().unicode_len() > 0 {
                    return Some(t);
                }
            },
            None => {},
        }
        i = i + 1;
    }
    assert(ks.skip(i as int).len() == 0);
    None
}

/// The member of an optional value.
pub open spec fn get_of(o: Option<JVal>, key: Seq<char>) -> Option<JVal> {
    match o {
        Some(v) => jget(v, key),
        None => None,
    }
}

/// A string that is not blank, trimmed.
pub open spec fn trimmed_text(o: Option<JVal>) -> Option<Seq<char>> {
    match o {
        Some(JVal::Str(s)) => if trim(s).len() > 0 {
            Some(trim(s))
        } else {
            None
        },
        _ => None,
    }
}

/// A member that is an object.
pub open spec fn object_member(j: JVal, key: Seq<char>) -> Option<JVal> {
    match jget(j, key) {
        Some(JVal::Object(m)) => Some(JVal::Object(m)),
        _ => None,
    }
}

/// The first recorded child agent of the subagent or review lifecycle.
pub open spec fn spec_lifecycle_owner(task: JVal) -> Option<Seq<char>> {
    match trimmed_text(jget_path(task, seq!["subagent_lifecycle"@, "child_agent_id"@])) {
        Some(o) => Some(o),
        None => trimmed_text(jget_path(task, seq!["review_lifecycle"@, "child_agent_id"@])),
    }
}

fn path2<'a>(j: &'a Json, a: &str, b: &str) -> (r: Option<&'a Json>)
    ensures
        match r {
            Some(v) => jget_path(jview(*j), seq![a@, b@]) == Some(jview(*v)),
            None => jget_path(jview(*j), seq![a@, b@]) is None,
        },
{
    let keys: [&str; 2] = [a, b];
    let ks = keys.as_slice();
    assert(ks@.map_values(|k: &str| k@) =~= seq![a@, b@]);
    j.get_path(ks)
}

fn trimmed_of(o: Option<&Json>) -> (r: Option<String>)
    ensures
        match r {
            Some(s) => trimmed_text(
                match o {
                    Some(v) => Some(jview(*v)),
                    None => None,
                },
            ) == Some(s@),
            None => trimmed_text(
                match o {
                    Some(v) => Some(jview(*v)),
                    None => None,
                },
            ) is None,
        },
{
    match o {
        Some(v) => match v.as_str() {
            Some(s) => {
                let t = trim_string(s);
                if t.as_str().unicode_len() > 0 {
                    Some(t)
                } else {
                    None
                }
            },
            None => None,
        },
        None => None,
    }
}

pub fn task_card_lifecycle_owner(task_card: &Json) -> (r: Option<String>)
    ensures
        match r {
            Some(s) => spec_lifecycle_owner(jview(*task_card)) == Some(s@),
            None => spec_lifecycle_owner(jview(*task_card)) is None,
        },
{
    match trimmed_of(path2(task_card, "subagent_lifecycle", "child_agent_id")) {
        Some(o) => Some(o),
        None => trimmed_of(path2(task_card, "review_lifecycle", "child_agent_id")),
    }
}

/// The parallel lanes of a task card, when it lists them.
pub open spec fn task_lanes(task: JVal) -> Option<Seq<JVal>> {
    match jget_path(task, seq!["parallel_fanout"@, "lanes"@]) {
        Some(JVal::Array(lanes)) => Some(lanes),
        _ => None,
    }
}

fn lanes_of(task_card: &Json) -> (r: Option<&Vec<Json>>)
    ensures
        match r {
            Some(ls) => task_lanes(jview(*task_card)) == Some(jviews(ls@)),
            None => task_lanes(jview(*task_card)) is None,
        },
{
    match path2(task_card, "parallel_fanout", "lanes") {
        Some(v) => match v {
            Json::Array(ls) => {
                proof {
                    lemma_array_view(*ls);
                }
                Some(ls)
            },
            _ => None,
        },
        None => None,
    }
}

/// An optional text as a value: the string, or `null`.
pub open spec fn text_or_null(o: Option<Seq<char>>) -> JVal {
    match o {
        Some(s) => JVal::Str(s),
        None => JVal::Null,
    }
}

fn text_or_null_json(o: Option<String>) -> (r: Json)
    ensures
        jview(r) == text_or_null(
            match o {
                Some(s) => Some(s@),
                None => None,
            },
        ),
{
    match o {
        Some(s) => jstring(s),
        None => Json::Null,
    }
}

/// The detail of one parallel lane: none without a lane id, without a
/// lifecycle or fan-in object, or without a non-blank status (the
/// lifecycle's status, else the fan-in's); otherwise its status, child agent
/// (else the task's lifecycle owner), summary (fan-in first), evidence count
/// and confidence.
pub open spec fn spec_lane_detail(lane: JVal, owner: Option<Seq<char>>) -> Option<JVal> {
    match first_nonblank_field(lane, seq!["lane_id"@]) {
        None => None,
        Some(lane_id) => {
            let lifecycle = object_member(lane, "lifecycle"@);
            let fan_in = object_member(lane, "fan_in"@);
            if lifecycle is None && fan_in is None {
                None
            } else {
                let status_value = match get_of(lifecycle, "status"@) {
                    Some(v) => Some(v),
                    None => get_of(fan_in, "status"@),
                };
                match status_value {
                    Some(JVal::Str(status)) => if trim(status).len() == 0 {
                        None
                    } else {
                        let child_value = match get_of(lifecycle, "child_agent_id"@) {
                            Some(v) => Some(v),
                            None => get_of(fan_in, "child_agent_id"@),
                        };
                        let child = match trimmed_text(child_value) {
                            Some(c) => Some(c),
                            None => owner,
                        };
                        let summary_value = match get_of(fan_in, "summary"@) {
                            Some(v) => Some(v),
                            None => get_of(lifecycle, "summary"@),
                        };
                        Some(
                            JVal::Object(
                                seq![
                                    ("kind"@, JVal::Str("lane"@)),
                                    ("label"@, JVal::Str(lane_id)),
                                    ("status"@, JVal::Str(status)),
                                    ("child_agent_id"@, text_or_null(child)),
                                    ("summary"@, text_or_null(trimmed_text(summary_value))),
                                    (
                                        "evidence_count"@,
                                        JVal::Num(
                                            match get_of(fan_in, "evidence_paths"@) {
                                                Some(JVal::Array(ps)) => ps.len() as int,
                                                _ => 0,
                                            },
                                        ),
                                    ),
                                    (
                                        "confidence"@,
                                        text_or_null(trimmed_text(get_of(fan_in, "confidence"@))),
                                    ),
                                ],
                            ),
                        )
                    },
                    _ => None,
                }
            }
        },
    }
}

/// The details of the lanes that report, in order.
pub open spec fn spec_lane_details(lanes: Seq<JVal>, owner: Option<Seq<char>>) -> Seq<JVal>
    decreases lanes.len(),
{
    if lanes.len() == 0 {
        Seq::empty()
    } else {
        let prev = spec_lane_details(lanes.drop_last(), owner);
        match spec_lane_detail(lanes.last(), owner) {
            Some(d) => prev.push(d),
            None => prev,
        }
    }
}

/// The detail of the subagent or review lifecycle: none unless it is an
/// object with a non-blank status; labelled by its child agent, else by its
/// kind.
pub open spec fn spec_lifecycle_detail(task: JVal, kind: Seq<char>, key: Seq<char>) -> Seq<JVal> {
    match object_member(task, key) {
        Some(l) => match trimmed_text(jget(l, "status"@)) {
            Some(status) => {
                let child = trimmed_text(jget(l, "child_agent_id"@));
                seq![
                    JVal::Object(
                        seq![
                            ("kind"@, JVal::Str(kind)),
                            (
                                "label"@,
                                JVal::Str(
                                    match child {
                                        Some(c) => c,
                                        None => kind,
                                    },
                                ),
                            ),
                            ("status"@, JVal::Str(status)),
                            ("child_agent_id"@, text_or_null(child)),
                            ("summary"@, text_or_null(trimmed_text(jget(l, "summary"@)))),
                            ("evidence_count"@, JVal::Num(0)),
                            ("confidence"@, JVal::Null),
                        ],
                    ),
                ]
            },
            None => Seq::empty(),
        },
        None => Seq::empty(),
    }
}

/// The lifecycle details of a task card: its reporting lanes, or, when none
/// reports, its subagent and review lifecycles.
pub open spec fn spec_task_card_lifecycle_details(task: JVal) -> Seq<JVal> {
    let lanes = match task_lanes(task) {
        Some(ls) => spec_lane_details(ls, spec_lifecycle_owner(task)),
        None => Seq::empty(),
    };
    if lanes.len() > 0 {
        lanes
    } else {
        spec_lifecycle_detail(task, "subagent"@, "subagent_lifecycle"@) + spec_lifecycle_detail(
            task,
            "review"@,
            "review_lifecycle"@,
        )
    }
}

fn object_member_of<'a>(j: &'a Json, key: &str) -> (r: Option<&'a Json>)
    ensures
        match r {
            Some(v) => object_member(jview(*j), key@) == Some(jview(*v)),
            None => object_member(jview(*j), key@) is None,
        },
{
    match j.get(key) {
        Some(v) => if v.is_object() {
            Some(v)
        } else {
            None
        },
        None => None,
    }
}

fn get_of_exec<'a>(o: Option<&'a Json>, key: &str) -> (r: Option<&'a Json>)
    ensures
        match r {
            Some(v) => get_of(
                match o {
                    Some(x) => Some(jview(*x)),
                    None => None,
                },
                key@,
            ) == Some(jview(*v)),
            None => get_of(
                match o {
                    Some(x) => Some(jview(*x)),
                    None => None,
                },
                key@,
            ) is None,
        },
{
    match o {
        Some(x) => x.get(key),
        None => None,
    }
}

fn lane_detail(lane: &Json, owner: &Option<String>) -> (r: Option<Json>)
    ensures
        match r {
            Some(d) => spec_lane_detail(jview(*lane), crate::strings::opt_string_view(*owner)) == Some(
                jview(d),
            ),
            None => spec_lane_detail(jview(*lane), crate::strings::opt_string_view(*owner)) is None,
        },
{
    let lane_keys: [&str; 1] = ["lane_id"];
    let lk = lane_keys.as_slice();
    assert(lk@.map_values(|k: &str| k@) =~= seq!["lane_id"@]);
    let lane_id = match first_non_empty_string(lane, lk) {
        Some(id) => id,
        None => {
            return None;
        },
    };
    let lifecycle = object_member_of(lane, "lifecycle");
    let fan_in = object_member_of(lane, "fan_in");
    if lifecycle.is_none() && fan_in.is_none() {
        return None;
    }
    let status_value = match get_of_exec(lifecycle, "status") {
        Some(v) => Some(v),
        None => get_of_exec(fan_in, "status"),
    };
    let status: &str = match status_value {
        Some(v) => match v.as_str() {
            Some(s) => if is_blank(s) {
                return None;
            } else {
                s
            },
            None => {
                return None;
            },
        },
        None => {
            return None;
        },
    };
    let child_value = match get_of_exec(lifecycle, "child_agent_id") {
        Some(v) => Some(v),
        None => get_of_exec(fan_in, "child_agent_id"),
    };
    let child = match trimmed_of(child_value) {
        Some(c) => Some(c),
        None => match owner {
            Some(o) => Some(to_owned(o.as_str())),
            None => None,
        },
    };
    let summary_value = match get_of_exec(fan_in, "summary") {
        Some(v) => Some(v),
        None => get_of_exec(lifecycle, "summary"),
    };
    let evidence_count: usize = match get_of_exec(fan_in, "evidence_paths") {
        Some(v) => match v {
            Json::Array(ps) => {
                proof {
                    lemma_array_view(*ps);
                }
                ps.len()
            },
            _ => 0,
        },
        None => 0,
    };
    let confidence = trimmed_of(get_of_exec(fan_in, "confidence"));
    let mut m: Vec<(String, Json)> = Vec::new();
    m.push(member("kind", jstr("lane")));
    m.push(member("label", jstring(lane_id)));
    m.push(member("status", jstr(status)));
    m.push(member("child_agent_id", text_or_null_json(child)));
    m.push(member("summary", text_or_null_json(trimmed_of(summary_value))));
    m.push(member("evidence_count", juint(evidence_count as u64)));
    m.push(member("confidence", text_or_null_json(confidence)));
    let r = object_of(m);
    proof {
        let ov = crate::strings::opt_string_view(*owner);
        assert(members_view(m@) =~= spec_lane_detail(jview(*lane), ov).unwrap()->Object_0);
    }
    Some(r)
}

fn lifecycle_detail(task_card: &Json, kind: &str, key: &str, out: &mut Vec<Json>)
    ensures
        jviews(final(out)@) == jviews(old(out)@) + spec_lifecycle_detail(
            jview(*task_card),
            kind@,
            key@,
        ),
{
    let ghost before = jviews(out@);
    let lifecycle = match object_member_of(task_card, key) {
        Some(l) => l,
        None => {
            assert(jviews(out@) =~= before + Seq::<JVal>::empty());
            return;
        },
    };
    let status = match trimmed_of(lifecycle.get("status")) {
        Some(s) => s,
        None => {
            assert(jviews(out@) =~= before + Seq::<JVal>::empty());
            return;
        },
    };
    let child = trimmed_of(lifecycle.get("child_agent_id"));
    let label = match &child {
        Some(c) => to_owned(c.as_str()),
        None => to_owned(kind),
    };
    let mut m: Vec<(String, Json)> = Vec::new();
    m.push(member("kind", jstr(kind)));
    m.push(member("label", jstring(label)));
    m.push(member("status", jstring(status)));
    m.push(member("child_agent_id", text_or_null_json(child)));
    m.push(member("summary", text_or_null_json(trimmed_of(lifecycle.get("summary")))));
    m.push(member("evidence_count", juint(0)));
    m.push(member("confidence", Json::Null));
    let d = object_of(m);
    proof {
        assert(members_view(m@) =~= spec_lifecycle_detail(jview(*task_card), kind@, key@)[0]->Object_0);
    }
    out.push(d);
    assert(jviews(out@) =~= before + spec_lifecycle_detail(jview(*task_card), kind@, key@));
}

pub fn task_card_lifecycle_details(task_card: &Json) -> (r: Vec<Json>)
    ensures
        jviews(r@) == spec_task_card_lifecycle_details(jview(*task_card)),
{
    let owner = task_card_lifecycle_owner(task_card);
    let ghost ov = crate::strings::opt_string_view(owner);
    let mut details: Vec<Json> = Vec::new();
    match lanes_of(task_card) {
        Some(lanes) => {
            let ghost lv = jviews(lanes@);
            let mut i: usize = 0;
            assert(lv.take(0) =~= Seq::<JVal>::empty());
            while i < lanes.len()
                invariant
                    i <= lanes.len(),
                    lv == jviews(lanes@),
                    ov == crate::strings::opt_string_view(owner),
                    jviews(details@) == spec_lane_details(lv.take(i as int), ov),
                decreases lanes.len() - i,
            {
                proof {
                    assert(lv.take(i + 1).drop_last() =~= lv.take(i as int));
                    assert(lv.take(i + 1).last() == jview(lanes@[i as int]));
                }
                let ghost before = jviews(details@);
                match lane_detail(&lanes[i], &owner) {
                    Some(d) => {
                        details.push(d);
                        assert(jviews(details@) =~= before.push(jview(details@.last())));
                    },
                    None => {},
                }
                i = i + 1;
            }
            assert(lv.take(lanes.len() as int) =~= lv);
        },
        None => {
            assert(jviews(details@) =~= Seq::<JVal>::empty());
        },
    }
    if details.len() > 0 {
        return details;
    }
    assert(jviews(details@) =~= Seq::<JVal>::empty());
    lifecycle_detail(task_card, "subagent", "subagent_lifecycle", &mut details);
    lifecycle_detail(task_card, "review", "review_lifecycle", &mut details);
    assert(jviews(details@) =~= spec_lifecycle_detail(
        jview(*task_card),
        "subagent"@,
        "subagent_lifecycle"@,
    ) + spec_lifecycle_detail(jview(*task_card), "review"@, "review_lifecycle"@));
    details
}

/// `labels` with `l` appended unless it is already there.
pub open spec fn push_unique(labels: Seq<Seq<char>>, l: Seq<char>) -> Seq<Seq<char>> {
    if labels.contains(l) {
        labels
    } else {
        labels.push(l)
    }
}

/// The `unit:owner` label of a work unit.
pub open spec fn unit_label(unit: Seq<char>, owner: Seq<char>) -> Seq<char> {
    spec_task_unit_label_part(unit, 48) + ":"@ + spec_task_unit_label_part(owner, 48)
}

/// The owner of a lane: its lifecycle's child agent, else its fan-in's, when
/// not blank; else the task's lifecycle owner.
pub open spec fn spec_lane_owner(lane: JVal, owner: Option<Seq<char>>) -> Option<Seq<char>> {
    let c = match crate::json::jstr_at(lane, seq!["lifecycle"@, "child_agent_id"@]) {
        Some(s) => Some(s),
        None => crate::json::jstr_at(lane, seq!["fan_in"@, "child_agent_id"@]),
    };
    match c {
        Some(s) => if trim(s).len() > 0 {
            Some(trim(s))
        } else {
            owner
        },
        None => owner,
    }
}

/// The labels of the lanes that have an id and an owner.
pub open spec fn spec_lane_labels(lanes: Seq<JVal>, owner: Option<Seq<char>>) -> Seq<Seq<char>>
    decreases lanes.len(),
{
    if lanes.len() == 0 {
        Seq::empty()
    } else {
        let prev = spec_lane_labels(lanes.drop_last(), owner);
        match (first_nonblank_field(lanes.last(), seq!["lane_id"@]), spec_lane_owner(lanes.last(), owner)) {
            (Some(id), Some(o)) => push_unique(prev, unit_label(id, o)),
            _ => prev,
        }
    }
}

/// The label of the subagent or review lifecycle's child agent, for the
/// task's card id or title (else `task`).
pub open spec fn lifecycle_label(task: JVal, key: Seq<char>) -> Option<Seq<char>> {
    match jget(task, key) {
        Some(l) => match trimmed_text(jget(l, "child_agent_id"@)) {
            Some(o) => Some(
                unit_label(
                    match first_nonblank_field(task, seq!["task_card_id"@, "title"@]) {
                        Some(u) => u,
                        None => "task"@,
                    },
                    o,
                ),
            ),
            None => None,
        },
        None => None,
    }
}

/// The unit labels of a task card: those of its lanes, or, when no lane
/// yields one, those of its subagent and review lifecycles; without repeats.
pub open spec fn spec_task_card_unit_labels(task: JVal) -> Seq<Seq<char>> {
    let lanes = match task_lanes(task) {
        Some(ls) => spec_lane_labels(ls, spec_lifecycle_owner(task)),
        None => Seq::empty(),
    };
    if lanes.len() > 0 {
        lanes
    } else {
        let a = match lifecycle_label(task, "subagent_lifecycle"@) {
            Some(l) => push_unique(Seq::empty(), l),
            None => Seq::empty(),
        };
        match lifecycle_label(task, "review_lifecycle"@) {
            Some(l) => push_unique(a, l),
            None => a,
        }
    }
}

fn str_at2<'a>(j: &'a Json, a: &str, b: &str) -> (r: Option<&'a str>)
    ensures
        crate::strings::opt_view(r) == crate::json::jstr_at(jview(*j), seq![a@, b@]),
{
    let keys: [&str; 2] = [a, b];
    let ks = keys.as_slice();
    assert(ks@.map_values(|k: &str| k@) =~= seq![a@, b@]);
    j.str_at(ks)
}

fn lane_owner(lane: &Json, owner: &Option<String>) -> (r: Option<String>)
    ensures
        crate::strings::opt_string_view(r) == spec_lane_owner(
            jview(*lane),
            crate::strings::opt_string_view(*owner),
        ),
{
    let c = match str_at2(lane, "lifecycle", "child_agent_id") {
        Some(s) => Some(s),
        None => str_at2(lane, "fan_in", "child_agent_id"),
    };
    let fallback = match owner {
        Some(o) => Some(to_owned(o.as_str())),
        None => None,
    };
    match c {
        Some(s) => {
            let t = trim_string(s);
            if t.as_str().unicode_len() > 0 {
                Some(t)
            } else {
                fallback
            }
        },
        None => fallback,
    }
}

fn lifecycle_label_exec(task_card: &Json, key: &str) -> (r: Option<String>)
    ensures
        crate::strings::opt_string_view(r) == lifecycle_label(jview(*task_card), key@),
{
    let lifecycle = match task_card.get(key) {
        Some(l) => l,
        None => {
            return None;
        },
    };
    let owner = match trimmed_of(lifecycle.get("child_agent_id")) {
        Some(o) => o,
        None => {
            return None;
        },
    };
    let unit_keys: [&str; 2] = ["task_card_id", "title"];
    let uk = unit_keys.as_slice();
    assert(uk@.map_values(|k: &str| k@) =~= seq!["task_card_id"@, "title"@]);
    let unit = match first_non_empty_string(task_card, uk) {
        Some(u) => u,
        None => to_owned("task"),
    };
    Some(compact_task_unit_label(unit.as_str(), owner.as_str()))
}

pub fn task_card_lifecycle_unit_labels(task_card: &Json) -> (r: Vec<String>)
    ensures
        label_views(r@) == spec_task_card_unit_labels(jview(*task_card)),
{
    let owner = task_card_lifecycle_owner(task_card);
    let ghost ov = crate::strings::opt_string_view(owner);
    let mut labels: Vec<String> = Vec::new();
    let lane_keys: [&str; 1] = ["lane_id"];
    let lk = lane_keys.as_slice();
    assert(lk@.map_values(|k: &str| k@) =~= seq!["lane_id"@]);
    match lanes_of(task_card) {
        Some(lanes) => {
            let ghost lv = jviews(lanes@);
            let mut i: usize = 0;
            assert(lv.take(0) =~= Seq::<JVal>::empty());
            assert(label_views(labels@) =~= Seq::<Seq<char>>::empty());
            while i < lanes.len()
                invariant
                    i <= lanes.len(),
                    lv == jviews(lanes@),
                    ov == crate::strings::opt_string_view(owner),
                    lk@.map_values(|k: &str| k@) == seq!["lane_id"@],
                    label_views(labels@) == spec_lane_labels(lv.take(i as int), ov),
                decreases lanes.len() - i,
            {
                proof {
                    assert(lv.take(i + 1).drop_last() =~= lv.take(i as int));
                    assert(lv.take(i + 1).last() == jview(lanes@[i as int]));
                }
                match first_non_empty_string(&lanes[i], lk) {
                    Some(id) => match lane_owner(&lanes[i], &owner) {
                        Some(o) => {
                            let label = compact_task_unit_label(id.as_str(), o.as_str());
                            push_unique_label(&mut labels, label);
                        },
                        None => {},
                    },
                    None => {},
                }
                i = i + 1;
            }
            assert(lv.take(lanes.len() as int) =~= lv);
        },
        None => {
            assert(label_views(labels@) =~= Seq::<Seq<char>>::empty());
        },
    }
    if labels.len() > 0 {
        return labels;
    }
    assert(label_views(labels@) =~= Seq::<Seq<char>>::empty());
    match lifecycle_label_exec(task_card, "subagent_lifecycle") {
        Some(l) => push_unique_label(&mut labels, l),
        None => {},
    }
    match lifecycle_label_exec(task_card, "review_lifecycle") {
        Some(l) => push_unique_label(&mut labels, l),
        None => {},
    }
    labels
}

/// The labels of a LongWay phase's task items that name a unit and an owner,
/// without repeats.
pub open spec fn spec_item_labels(items: Seq<JVal>) -> Seq<Seq<char>>
    decreases items.len(),
{
    if items.len() == 0 {
        Seq::empty()
    } else {
        let prev = spec_item_labels(items.drop_last());
        let item = items.last();
        match (
            first_nonblank_field(item, seq!["task_item_id"@, "task_card_id"@, "title"@]),
            first_nonblank_field(item, seq!["owner_agent"@, "assigned_agent_id"@, "agent_id"@, "owner"@]),
        ) {
            (Some(u), Some(o)) => push_unique(prev, unit_label(u, o)),
            _ => prev,
        }
    }
}

/// The unit labels of a phase's task items (none without a task item list).
pub open spec fn spec_phase_item_labels(phase: JVal) -> Seq<Seq<char>> {
    match jget(phase, "task_items"@) {
        Some(JVal::Array(items)) => spec_item_labels(items),
        _ => Seq::empty(),
    }
}

pub fn phase_row_task_item_unit_labels(phase: &Json) -> (r: Vec<String>)
    ensures
        label_views(r@) == spec_phase_item_labels(jview(*phase)),
{
    let mut labels: Vec<String> = Vec::new();
    assert(label_views(labels@) =~= Seq::<Seq<char>>::empty());
    let items = match phase.get("task_items") {
        Some(v) => match v {
            Json::Array(items) => {
                proof {
                    lemma_array_view(*items);
                }
                items
            },
            _ => {
                return labels;
            },
        },
        None => {
            return labels;
        },
    };
    let unit_keys: [&str; 3] = ["task_item_id", "task_card_id", "title"];
    let owner_keys: [&str; 4] = ["owner_agent", "assigned_agent_id", "agent_id", "owner"];
    let uk = unit_keys.as_slice();
    let ok = owner_keys.as_slice();
    assert(uk@.map_values(|k: &str| k@) =~= seq!["task_item_id"@, "task_card_id"@, "title"@]);
    assert(ok@.map_values(|k: &str| k@) =~= seq![
        "owner_agent"@,
        "assigned_agent_id"@,
        "agent_id"@,
        "owner"@,
    ]);
    let ghost iv = jviews(items@);
    let mut i: usize = 0;
    assert(iv.take(0) =~= Seq::<JVal>::empty());
    while i < items.len()
        invariant
            i <= items.len(),
            iv == jviews(items@),
            uk@.map_values(|k: &str| k@) == seq!["task_item_id"@, "task_card_id"@, "title"@],
            ok@.map_values(|k: &str| k@) == seq![
                "owner_agent"@,
                "assigned_agent_id"@,
                "agent_id"@,
                "owner"@,
            ],
            label_views(labels@) == spec_item_labels(iv.take(i as int)),
        decreases items.len() - i,
    {
        proof {
            assert(iv.take(i + 1).drop_last() =~= iv.take(i as int));
            assert(iv.take(i + 1).last() == jview(items@[i as int]));
        }
        match first_non_empty_string(&items[i], uk) {
            Some(u) => match first_non_empty_string(&items[i], ok) {
                Some(o) => {
                    let label = compact_task_unit_label(u.as_str(), o.as_str());
                    push_unique_label(&mut labels, label);
                },
                None => {},
            },
            None => {},
        }
        i = i + 1;
    }
    assert(iv.take(items.len() as int) =~= iv);
    labels
}

/// The recorded unit labels of a phase's lifecycle sync, trimmed, blanks
/// dropped.
pub open spec fn spec_sync_unit_labels(sync: JVal) -> Seq<Seq<char>> {
    match jget(sync, "task_unit_labels"@) {
        Some(JVal::Array(items)) => crate::run_health::nonblank_strings(items),
        _ => Seq::empty(),
    }
}

pub fn phase_row_lifecycle_unit_labels(lifecycle_sync: &Json) -> (r: Vec<String>)
    ensures
        label_views(r@) == spec_sync_unit_labels(jview(*lifecycle_sync)),
{
    match lifecycle_sync.get("task_unit_labels") {
        Some(v) => match v {
            Json::Array(items) => {
                proof {
                    lemma_array_view(*items);
                }
                let ghost iv = jviews(items@);
                let mut out: Vec<String> = Vec::new();
                let mut i: usize = 0;
                assert(iv.take(0) =~= Seq::<JVal>::empty());
                while i < items.len()
                    invariant
                        i <= items.len(),
                        iv == jviews(items@),
                        label_views(out@) == crate::run_health::nonblank_strings(iv.take(i as int)),
                    decreases items.len() - i,
                {
                    proof {
                        assert(iv.take(i + 1).drop_last() =~= iv.take(i as int));
                        assert(iv.take(i + 1).last() == jview(items@[i as int]));
                    }
                    let ghost before = out@;
                    match items[i].as_str() {
                        Some(s) => {
                            let t = trim_string(s);
                            if t.as_str().unicode_len() > 0 {
                                out.push(t);
                                assert(label_views(out@) =~= label_views(before).push(out@.last()@));
                            }
                        },
                        None => {},
                    }
                    i = i + 1;
                }
                assert(iv.take(items.len() as int) =~= iv);
                out
            },
            _ => Vec::new(),
        },
        None => Vec::new(),
    }
}

} // verus!
