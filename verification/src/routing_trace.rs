//! Bounded routing traces: the routing evidence of a task card or LongWay
//! planned row, cut down to short summarized strings, short string lists and
//! flags before it is shown in a status.

use vstd::prelude::*;
use crate::json::{
    jbool, jget, jget_or, jinsert, jremove, jstr, jstr_field, jstring, jview, juint,
    lemma_array_view, member, members_view, object_of, remove_member, JVal, Json,
};
use crate::run_health::{bounded_string_array, spec_bounded_string_array};
use crate::scheduler_status::push_first_nonblank;
use crate::status_templates::{first_nonblank_field, trace_member};
use crate::strings::{trim, trim_string};
use crate::text_utils::{summarize_text_for_visibility, summary_of};
use crate::worker_fleet::jviews;

verus! {

/// The bounded strings of the first of `keys` that yields any.
pub open spec fn first_trace_strings(
    t: JVal,
    keys: Seq<Seq<char>>,
    max_items: nat,
    max_chars: nat,
) -> Option<Seq<JVal>>
    decreases keys.len(),
{
    if keys.len() == 0 {
        None
    } else {
        match jget(t, keys[0]) {
            Some(v) => {
                let ss = spec_bounded_string_array(Some(v), max_items, max_chars);
                if ss.len() > 0 {
                    Some(ss)
                } else {
                    first_trace_strings(t, keys.drop_first(), max_items, max_chars)
                }
            },
            None => first_trace_strings(t, keys.drop_first(), max_items, max_chars),
        }
    }
}

/// The member `output_key` holding the first non-empty bounded string list,
/// if any.
pub open spec fn strings_member(
    t: JVal,
    output_key: Seq<char>,
    keys: Seq<Seq<char>>,
    max_items: nat,
    max_chars: nat,
) -> Seq<(Seq<char>, JVal)> {
    match first_trace_strings(t, keys, max_items, max_chars) {
        Some(ss) => seq![(output_key, JVal::Array(ss))],
        None => Seq::empty(),
    }
}

/// Appends the member built from the first of `keys` that yields a non-empty
/// bounded string list.
pub fn push_first_strings(
    obj: &Json,
    out: &mut Vec<(String, Json)>,
    output_key: &str,
    keys: &[&str],
    max_items: usize,
    max_chars: usize,
)
    ensures
        members_view(final(out)@) == members_view(old(out)@) + strings_member(
            jview(*obj),
            output_key@,
            keys@.map_values(|k: &str| k@),
            max_items as nat,
            max_chars as nat,
        ),
{
    let ghost ks = keys@.map_values(|k: &str| k@);
    let mut i: usize = 0;
    let mut found: Option<Vec<Json>> = None;
    assert(ks.skip(0) =~= ks);
    while i < keys.len()
        invariant_except_break
            found is None,
        invariant
            i <= keys.len(),
            ks == keys@.map_values(|k: &str| k@),
            first_trace_strings(jview(*obj), ks, max_items as nat, max_chars as nat)
                == first_trace_strings(jview(*obj), ks.skip(i as int), max_items as nat, max_chars as nat),
        ensures
            found matches Some(v) ==> first_trace_strings(
                jview(*obj),
                ks,
                max_items as nat,
                max_chars as nat,
            ) == Some(jviews(v@)),
            found is None ==> first_trace_strings(jview(*obj), ks, max_items as nat, max_chars as nat)
                is None,
        decreases keys.len() - i,
    {
        proof {
            assert(ks.skip(i as int)[0] == keys@[i as int]@);
            assert(ks.skip(i as int).drop_first() =~= ks.skip(i + 1));
        }
        match obj.get(keys[i]) {
            Some(v) => {
                let ss = bounded_string_array(Some(v), max_items, max_chars);
                if ss.len() > 0 {
                    found = Some(ss);
                    break;
                }
            },
            None => {},
        }
        i = i + 1;
        proof {
            if i == keys.len() {
                assert(ks.skip(i as int).len() == 0);
            }
        }
    }
    match found {
        Some(v) => {
            let ghost before = out@;
            let ghost vv = jviews(v@);
            proof {
                lemma_array_view(v);
            }
            out.push(member(output_key, Json::Array(v)));
            assert(members_view(out@) =~= members_view(before) + strings_member(
                jview(*obj),
                output_key@,
                ks,
                max_items as nat,
                max_chars as nat,
            ));
        },
        None => {
            assert(members_view(out@) =~= members_view(old(out)@) + strings_member(
                jview(*obj),
                output_key@,
                ks,
                max_items as nat,
                max_chars as nat,
            ));
        },
    }
}

/// The member `key` when the trace holds a boolean there.
pub open spec fn bool_member(t: JVal, key: Seq<char>) -> Seq<(Seq<char>, JVal)> {
    match jget(t, key) {
        Some(JVal::Bool(b)) => seq![(key, JVal::Bool(b))],
        _ => Seq::empty(),
    }
}

fn push_bool_member(obj: &Json, out: &mut Vec<(String, Json)>, key: &str)
    ensures
        members_view(final(out)@) == members_view(old(out)@) + bool_member(jview(*obj), key@),
{
    let ghost before = out@;
    match obj.get(key) {
        Some(v) => match v.as_bool() {
            Some(b) => {
                out.push(member(key, jbool(b)));
                assert(members_view(out@) =~= members_view(before) + bool_member(jview(*obj), key@));
            },
            None => {
                assert(members_view(out@) =~= members_view(before) + bool_member(jview(*obj), key@));
            },
        },
        None => {
            assert(members_view(out@) =~= members_view(before) + bool_member(jview(*obj), key@));
        },
    }
}

/// A routing summary that is not blank, trimmed and summarized to 240
/// characters.
pub open spec fn spec_bounded_routing_summary(j: JVal) -> Option<JVal> {
    match jstr_field(j, "routing_summary"@) {
        Some(s) => if trim(s).len() > 0 {
            Some(JVal::Str(summary_of(trim(s), 240)))
        } else {
            None
        },
        None => None,
    }
}

pub fn bounded_status_routing_summary(value: &Json) -> (r: Option<Json>)
    ensures
        match r {
            Some(v) => spec_bounded_routing_summary(jview(*value)) == Some(jview(v)),
            None => spec_bounded_routing_summary(jview(*value)) is None,
        },
{
    match value.str_field("routing_summary") {
        Some(s) => {
            let t = trim_string(s);
            if t.as_str().unicode_len() > 0 {
                Some(jstring(summarize_text_for_visibility(t.as_str(), 240)))
            } else {
                None
            }
        },
        None => None,
    }
}

/// The members of a task card's bounded routing trace after its source.
pub open spec fn spec_status_trace_members(t: JVal) -> Seq<(Seq<char>, JVal)> {
    trace_member(t, "query"@, seq!["query_kind"@, "query"@, "kind"@], 80) + trace_member(
        t,
        "request_shape"@,
        seq!["request_shape"@],
        80,
    ) + trace_member(t, "mutation_intent"@, seq!["mutation_intent"@], 80) + trace_member(
        t,
        "selected_category"@,
        seq!["selected_category"@],
        80,
    ) + trace_member(t, "selected_skill_id"@, seq!["selected_skill_id"@], 120) + trace_member(
        t,
        "selected_skill_name"@,
        seq!["selected_skill_name"@],
        120,
    ) + trace_member(t, "risk"@, seq!["risk"@], 40) + trace_member(
        t,
        "evidence_need"@,
        seq!["evidence_need"@],
        120,
    ) + trace_member(t, "verification_need"@, seq!["verification_need"@], 120) + trace_member(
        t,
        "fallback_role"@,
        seq!["fallback_role"@],
        80,
    ) + trace_member(t, "selected_role"@, seq!["selected_role"@], 80) + trace_member(
        t,
        "selected_agent_id"@,
        seq!["selected_agent_id"@],
        80,
    ) + trace_member(t, "reason"@, seq!["reason"@, "rationale"@], 240) + trace_member(
        t,
        "summary"@,
        seq!["summary"@],
        240,
    ) + strings_member(t, "paths"@, seq!["paths"@, "path"@], 8, 160) + strings_member(
        t,
        "terms"@,
        seq!["terms"@, "term"@, "search"@, "text"@],
        8,
        120,
    ) + bool_member(t, "companion_route_enforced"@) + bool_member(
        t,
        "release_install_script_repair_guard"@,
    )
}

/// The bounded routing trace of a task card: none unless it has an object
/// trace; its source (summarized, else the default source) and at least one
/// other member.
pub open spec fn spec_bounded_status_routing_trace(value: JVal, default_source: Seq<char>) -> Option<
    JVal,
> {
    match jget(value, "routing_trace"@) {
        Some(JVal::Object(tm)) => {
            let t = JVal::Object(tm);
            let source = match first_nonblank_field(t, seq!["source"@]) {
                Some(s) => JVal::Str(summary_of(s, 80)),
                None => JVal::Str(default_source),
            };
            let rest = spec_status_trace_members(t);
            if rest.len() == 0 {
                None
            } else {
                Some(JVal::Object(seq![("source"@, source)] + rest))
            }
        },
        _ => None,
    }
}

pub fn bounded_status_routing_trace(value: &Json, default_source: &str) -> (r: Option<Json>)
    ensures
        match r {
            Some(v) => spec_bounded_status_routing_trace(jview(*value), default_source@) == Some(
                jview(v),
            ),
            None => spec_bounded_status_routing_trace(jview(*value), default_source@) is None,
        },
{
    let trace = match value.get("routing_trace") {
        Some(t) => {
            if !t.is_object() {
                return None;
            }
            t
        },
        None => {
            return None;
        },
    };
    let mut head: Vec<(String, Json)> = Vec::new();
    assert(members_view(head@) =~= Seq::<(Seq<char>, JVal)>::empty());
    let source_keys: [&str; 1] = ["source"];
    push_first_nonblank(trace, &mut head, "source", source_keys.as_slice(), 80);
    assert(source_keys@.map_values(|k: &str| k@) =~= seq!["source"@]);
    if head.len() == 0 {
        head.push(member("source", jstr(default_source)));
    }
    let mut m: Vec<(String, Json)> = Vec::new();
    assert(members_view(m@) =~= Seq::<(Seq<char>, JVal)>::empty());
    let k1: [&str; 3] = ["query_kind", "query", "kind"];
    let k2: [&str; 1] = ["request_shape"];
    let k3: [&str; 1] = ["mutation_intent"];
    let k4: [&str; 1] = ["selected_category"];
    let k5: [&str; 1] = ["selected_skill_id"];
    let k6: [&str; 1] = ["selected_skill_name"];
    let k7: [&str; 1] = ["risk"];
    let k8: [&str; 1] = ["evidence_need"];
    let k9: [&str; 1] = ["verification_need"];
    let k10: [&str; 1] = ["fallback_role"];
    let k11: [&str; 1] = ["selected_role"];
    let k12: [&str; 1] = ["selected_agent_id"];
    let k13: [&str; 2] = ["reason", "rationale"];
    let k14: [&str; 1] = ["summary"];
    let p1: [&str; 2] = ["paths", "path"];
    let p2: [&str; 4] = ["terms", "term", "search", "text"];
    push_first_nonblank(trace, &mut m, "query", k1.as_slice(), 80);
    push_first_nonblank(trace, &mut m, "request_shape", k2.as_slice(), 80);
    push_first_nonblank(trace, &mut m, "mutation_intent", k3.as_slice(), 80);
    push_first_nonblank(trace, &mut m, "selected_category", k4.as_slice(), 80);
    push_first_nonblank(trace, &mut m, "selected_skill_id", k5.as_slice(), 120);
    push_first_nonblank(trace, &mut m, "selected_skill_name", k6.as_slice(), 120);
    push_first_nonblank(trace, &mut m, "risk", k7.as_slice(), 40);
    push_first_nonblank(trace, &mut m, "evidence_need", k8.as_slice(), 120);
    push_first_nonblank(trace, &mut m, "verification_need", k9.as_slice(), 120);
    push_first_nonblank(trace, &mut m, "fallback_role", k10.as_slice(), 80);
    push_first_nonblank(trace, &mut m, "selected_role", k11.as_slice(), 80);
    push_first_nonblank(trace, &mut m, "selected_agent_id", k12.as_slice(), 80);
    push_first_nonblank(trace, &mut m, "reason", k13.as_slice(), 240);
    push_first_nonblank(trace, &mut m, "summary", k14.as_slice(), 240);
    push_first_strings(trace, &mut m, "paths", p1.as_slice(), 8, 160);
    push_first_strings(trace, &mut m, "terms", p2.as_slice(), 8, 120);
    push_bool_member(trace, &mut m, "companion_route_enforced");
    push_bool_member(trace, &mut m, "release_install_script_repair_guard");
    proof {
        assert(k1@.map_values(|k: &str| k@) =~= seq!["query_kind"@, "query"@, "kind"@]);
        assert(k2@.map_values(|k: &str| k@) =~= seq!["request_shape"@]);
        assert(k3@.map_values(|k: &str| k@) =~= seq!["mutation_intent"@]);
        assert(k4@.map_values(|k: &str| k@) =~= seq!["selected_category"@]);
        assert(k5@.map_values(|k: &str| k@) =~= seq!["selected_skill_id"@]);
        assert(k6@.map_values(|k: &str| k@) =~= seq!["selected_skill_name"@]);
        assert(k7@.map_values(|k: &str| k@) =~= seq!["risk"@]);
        assert(k8@.map_values(|k: &str| k@) =~= seq!["evidence_need"@]);
        assert(k9@.map_values(|k: &str| k@) =~= seq!["verification_need"@]);
        assert(k10@.map_values(|k: &str| k@) =~= seq!["fallback_role"@]);
        assert(k11@.map_values(|k: &str| k@) =~= seq!["selected_role"@]);
        assert(k12@.map_values(|k: &str| k@) =~= seq!["selected_agent_id"@]);
        assert(k13@.map_values(|k: &str| k@) =~= seq!["reason"@, "rationale"@]);
        assert(k14@.map_values(|k: &str| k@) =~= seq!["summary"@]);
        assert(p1@.map_values(|k: &str| k@) =~= seq!["paths"@, "path"@]);
        assert(p2@.map_values(|k: &str| k@) =~= seq!["terms"@, "term"@, "search"@, "text"@]);
        assert(members_view(m@) =~= spec_status_trace_members(jview(*trace)));
    }
    if m.len() == 0 {
        return None;
    }
    let ghost hv = members_view(head@);
    let ghost mv = members_view(m@);
    let mut all = head;
    let mut rest = m;
    all.append(&mut rest);
    proof {
        assert(members_view(all@) =~= hv + mv);
        let src = match first_nonblank_field(jview(*trace), seq!["source"@]) {
            Some(s) => JVal::Str(summary_of(s, 80)),
            None => JVal::Str(default_source@),
        };
        assert(hv =~= seq![("source"@, src)]);
    }
    Some(object_of(all))
}

/// The members of a planned row's bounded routing trace after its source.
pub open spec fn spec_planned_row_trace_members(t: JVal) -> Seq<(Seq<char>, JVal)> {
    trace_member(t, "query"@, seq!["query_kind"@, "query"@, "kind"@], 80) + trace_member(
        t,
        "selected_category"@,
        seq!["selected_category"@],
        80,
    ) + trace_member(t, "selected_skill_id"@, seq!["selected_skill_id"@], 120) + trace_member(
        t,
        "selected_skill_name"@,
        seq!["selected_skill_name"@],
        120,
    ) + trace_member(t, "risk"@, seq!["risk"@], 40) + trace_member(
        t,
        "mutation_intent"@,
        seq!["mutation_intent"@],
        80,
    ) + trace_member(t, "evidence_need"@, seq!["evidence_need"@], 120) + trace_member(
        t,
        "verification_need"@,
        seq!["verification_need"@],
        120,
    ) + trace_member(t, "selected_role"@, seq!["selected_role"@], 80) + trace_member(
        t,
        "selected_agent_id"@,
        seq!["selected_agent_id"@],
        80,
    ) + strings_member(t, "paths"@, seq!["paths"@, "path"@], 8, 160) + strings_member(
        t,
        "terms"@,
        seq!["terms"@, "term"@, "search"@, "text"@],
        8,
        120,
    ) + trace_member(t, "reason"@, seq!["reason"@, "rationale"@], 240) + trace_member(
        t,
        "summary"@,
        seq!["summary"@],
        240,
    )
}

/// The bounded routing trace of a planned row: none unless it has an object
/// trace with at least one usable member; its source is `planned_row`.
pub open spec fn spec_bounded_planned_row_trace(row: JVal) -> Option<JVal> {
    match jget(row, "routing_trace"@) {
        Some(JVal::Object(tm)) => {
            let rest = spec_planned_row_trace_members(JVal::Object(tm));
            if rest.len() == 0 {
                None
            } else {
                Some(JVal::Object(seq![("source"@, JVal::Str("planned_row"@))] + rest))
            }
        },
        _ => None,
    }
}

pub fn bounded_planned_row_status_routing_trace(row: &Json) -> (r: Option<Json>)
    ensures
        match r {
            Some(v) => spec_bounded_planned_row_trace(jview(*row)) == Some(jview(v)),
            None => spec_bounded_planned_row_trace(jview(*row)) is None,
        },
{
    let trace = match row.get("routing_trace") {
        Some(t) => {
            if !t.is_object() {
                return None;
            }
            t
        },
        None => {
            return None;
        },
    };
    let mut m: Vec<(String, Json)> = Vec::new();
    assert(members_view(m@) =~= Seq::<(Seq<char>, JVal)>::empty());
    let k1: [&str; 3] = ["query_kind", "query", "kind"];
    let k2: [&str; 1] = ["selected_category"];
    let k3: [&str; 1] = ["selected_skill_id"];
    let k4: [&str; 1] = ["selected_skill_name"];
    let k5: [&str; 1] = ["risk"];
    let k6: [&str; 1] = ["mutation_intent"];
    let k7: [&str; 1] = ["evidence_need"];
    let k8: [&str; 1] = ["verification_need"];
    let k9: [&str; 1] = ["selected_role"];
    let k10: [&str; 1] = ["selected_agent_id"];
    let p1: [&str; 2] = ["paths", "path"];
    let p2: [&str; 4] = ["terms", "term", "search", "text"];
    let k11: [&str; 2] = ["reason", "rationale"];
    let k12: [&str; 1] = ["summary"];
    push_first_nonblank(trace, &mut m, "query", k1.as_slice(), 80);
    push_first_nonblank(trace, &mut m, "selected_category", k2.as_slice(), 80);
    push_first_nonblank(trace, &mut m, "selected_skill_id", k3.as_slice(), 120);
    push_first_nonblank(trace, &mut m, "selected_skill_name", k4.as_slice(), 120);
    push_first_nonblank(trace, &mut m, "risk", k5.as_slice(), 40);
    push_first_nonblank(trace, &mut m, "mutation_intent", k6.as_slice(), 80);
    push_first_nonblank(trace, &mut m, "evidence_need", k7.as_slice(), 120);
    push_first_nonblank(trace, &mut m, "verification_need", k8.as_slice(), 120);
    push_first_nonblank(trace, &mut m, "selected_role", k9.as_slice(), 80);
    push_first_nonblank(trace, &mut m, "selected_agent_id", k10.as_slice(), 80);
    push_first_strings(trace, &mut m, "paths", p1.as_slice(), 8, 160);
    push_first_strings(trace, &mut m, "terms", p2.as_slice(), 8, 120);
    push_first_nonblank(trace, &mut m, "reason", k11.as_slice(), 240);
    push_first_nonblank(trace, &mut m, "summary", k12.as_slice(), 240);
    proof {
        assert(k1@.map_values(|k: &str| k@) =~= seq!["query_kind"@, "query"@, "kind"@]);
        assert(k2@.map_values(|k: &str| k@) =~= seq!["selected_category"@]);
        assert(k3@.map_values(|k: &str| k@) =~= seq!["selected_skill_id"@]);
        assert(k4@.map_values(|k: &str| k@) =~= seq!["selected_skill_name"@]);
        assert(k5@.map_values(|k: &str| k@) =~= seq!["risk"@]);
        assert(k6@.map_values(|k: &str| k@) =~= seq!["mutation_intent"@]);
        assert(k7@.map_values(|k: &str| k@) =~= seq!["evidence_need"@]);
        assert(k8@.map_values(|k: &str| k@) =~= seq!["verification_need"@]);
        assert(k9@.map_values(|k: &str| k@) =~= seq!["selected_role"@]);
        assert(k10@.map_values(|k: &str| k@) =~= seq!["selected_agent_id"@]);
        assert(p1@.map_values(|k: &str| k@) =~= seq!["paths"@, "path"@]);
        assert(p2@.map_values(|k: &str| k@) =~= seq!["terms"@, "term"@, "search"@, "text"@]);
        assert(k11@.map_values(|k: &str| k@) =~= seq!["reason"@, "rationale"@]);
        assert(k12@.map_values(|k: &str| k@) =~= seq!["summary"@]);
        assert(members_view(m@) =~= spec_planned_row_trace_members(jview(*trace)));
    }
    if m.len() == 0 {
        return None;
    }
    let ghost mv = members_view(m@);
    let mut all: Vec<(String, Json)> = Vec::new();
    all.push(member("source", jstr("planned_row")));
    let ghost hv = members_view(all@);
    let mut rest = m;
    all.append(&mut rest);
    proof {
        assert(members_view(all@) =~= hv + mv);
        assert(hv =~= seq![("source"@, JVal::Str("planned_row"@))]);
    }
    Some(object_of(all))
}

/// The member `detail_key` holding a non-blank text member of the row,
/// trimmed and summarized.
pub open spec fn detail_member(row: JVal, source_key: Seq<char>, detail_key: Seq<char>, max_chars: nat) -> Seq<
    (Seq<char>, JVal),
> {
    match jstr_field(row, source_key) {
        Some(s) => if trim(s).len() > 0 {
            seq![(detail_key, JVal::Str(summary_of(trim(s), max_chars)))]
        } else {
            Seq::empty()
        },
        None => Seq::empty(),
    }
}

fn push_detail_member(
    row: &Json,
    out: &mut Vec<(String, Json)>,
    source_key: &str,
    detail_key: &str,
    max_chars: usize,
)
    ensures
        members_view(final(out)@) == members_view(old(out)@) + detail_member(
            jview(*row),
            source_key@,
            detail_key@,
            max_chars as nat,
        ),
{
    let ghost before = out@;
    match row.str_field(source_key) {
        Some(s) => {
            let t = trim_string(s);
            if t.as_str().unicode_len() > 0 {
                out.push(member(detail_key, jstring(summarize_text_for_visibility(t.as_str(), max_chars))));
            }
        },
        None => {},
    }
    assert(members_view(out@) =~= members_view(before) + detail_member(
        jview(*row),
        source_key@,
        detail_key@,
        max_chars as nat,
    ));
}

/// The planning detail of a planned row: its lifecycle (status, else
/// `planned`), its scope, acceptance and routing summary when given, and how
/// many evidence links it has when it has any.
pub open spec fn spec_planning_detail(row: JVal) -> JVal {
    JVal::Object(
        seq![("lifecycle"@, jget_or(row, "status"@, JVal::Str("planned"@)))] + detail_member(
            row,
            "scope"@,
            "scope"@,
            160,
        ) + detail_member(row, "acceptance"@, "acceptance"@, 160) + detail_member(
            row,
            "routing_summary"@,
            "routing"@,
            140,
        ) + match jget(row, "evidence_links"@) {
            Some(JVal::Array(links)) => if links.len() > 0 {
                seq![("evidence_count"@, JVal::Num(links.len() as int))]
            } else {
                Seq::empty()
            },
            _ => Seq::empty(),
        },
    )
}

pub fn bounded_planned_row_planning_detail(row: &Json) -> (r: Json)
    ensures
        jview(r) == spec_planning_detail(jview(*row)),
{
    let mut m: Vec<(String, Json)> = Vec::new();
    m.push(member("lifecycle", crate::json::get_or(row, "status", jstr("planned"))));
    assert(members_view(m@) =~= seq![("lifecycle"@, jget_or(jview(*row), "status"@, JVal::Str("planned"@)))]);
    push_detail_member(row, &mut m, "scope", "scope", 160);
    push_detail_member(row, &mut m, "acceptance", "acceptance", 160);
    push_detail_member(row, &mut m, "routing_summary", "routing", 140);
    let ghost before = members_view(m@);
    assert(before =~= seq![("lifecycle"@, jget_or(jview(*row), "status"@, JVal::Str("planned"@)))]
        + detail_member(jview(*row), "scope"@, "scope"@, 160) + detail_member(jview(*row), "acceptance"@, "acceptance"@, 160)
        + detail_member(jview(*row), "routing_summary"@, "routing"@, 140));
    match row.get("evidence_links") {
        Some(v) => match v {
            Json::Array(links) => {
                proof {
                    lemma_array_view(*links);
                }
                if links.len() > 0 {
                    m.push(member("evidence_count", juint(links.len() as u64)));
                    assert(members_view(m@) =~= before + seq![("evidence_count"@, JVal::Num(links.len() as int))]);
                }
            },
            _ => {},
        },
        None => {},
    }
    let r = object_of(m);
    assert(members_view(m@) =~= spec_planning_detail(jview(*row))->Object_0);
    r
}

/// A planned row as the LongWay shows it: a non-object row as it is;
/// otherwise its routing summary (when not blank) summarized to 240
/// characters, its routing trace bounded (or removed when nothing of it is
/// usable) and its planning detail.
pub open spec fn spec_sanitized_longway_row(row: JVal) -> JVal {
    match row {
        JVal::Object(_) => {
            let with_summary = match spec_bounded_routing_summary(row) {
                Some(s) => jinsert(row, "routing_summary"@, s),
                None => row,
            };
            let with_trace = match spec_bounded_planned_row_trace(row) {
                Some(t) => jinsert(with_summary, "routing_trace"@, t),
                None => jremove(with_summary, "routing_trace"@),
            };
            jinsert(with_trace, "planning_detail"@, spec_planning_detail(row))
        },
        _ => row,
    }
}

pub fn sanitize_longway_planned_row(row: &Json) -> (r: Json)
    ensures
        jview(r) == spec_sanitized_longway_row(jview(*row)),
{
    if !row.is_object() {
        return row.deep_clone();
    }
    let mut sanitized = row.deep_clone();
    match bounded_status_routing_summary(row) {
        Some(s) => {
            sanitized.insert("routing_summary", s);
        },
        None => {},
    }
    let mut with_trace = match bounded_planned_row_status_routing_trace(row) {
        Some(t) => {
            sanitized.insert("routing_trace", t);
            sanitized
        },
        None => remove_member(sanitized, "routing_trace"),
    };
    with_trace.insert("planning_detail", bounded_planned_row_planning_detail(row));
    with_trace
}

} // verus!
