//! Role payloads: expertise framing on task cards, config overrides passed
//! to a launched model, launch evidence and the configured-role listing.

use vstd::prelude::*;
use crate::json::{
    get_or, jbool, jempty_array, jget, jget_or, jinsert, jstr, jstr_field, jstring, jview,
    lemma_array_view, lemma_jget_jinsert_same, lemma_jinsert_twice, member, members_view,
    object_of, opt_bool, take_member, jas_str, JVal, Json,
};
use crate::roles::{
    agent_id_for_role, configured_role_list, expected_thinking_mode_for_role,
    expertise_phrase_for_role_and_task_shape, request_kind_for_task_kind, spec_agent_id_for_role,
    spec_configured_roles, spec_expected_thinking_mode, spec_expertise_phrase,
    spec_request_kind_for_task_kind, spec_task_stance, task_stance_for_role_and_task_shape,
};
use crate::roles_config::{load_role_config_snapshot_from_config, spec_role_snapshot};
use crate::strings::{has_prefix, push_str, starts_with, to_owned, trim, trim_start, trim_start_string, trim_string};

verus! {

/// The expertise framing of a role for a task shape.
pub open spec fn spec_framing(role: Seq<char>, shape: Seq<char>) -> JVal {
    JVal::Object(
        seq![
            ("expertise_phrase"@, JVal::Str(spec_expertise_phrase(role, shape))),
            ("task_stance"@, JVal::Str(spec_task_stance(role, shape))),
            ("expected_thinking_mode"@, JVal::Str(spec_expected_thinking_mode(role))),
            ("task_shape"@, JVal::Str(shape)),
        ],
    )
}

pub fn task_expertise_framing_for_role(role: &str, task_shape: &str) -> (r: Json)
    ensures
        jview(r) == spec_framing(role@, task_shape@),
{
    let mut m: Vec<(String, Json)> = Vec::new();
    m.push(member("expertise_phrase", jstr(expertise_phrase_for_role_and_task_shape(role, task_shape))));
    m.push(member("task_stance", jstr(task_stance_for_role_and_task_shape(role, task_shape))));
    m.push(member("expected_thinking_mode", jstr(expected_thinking_mode_for_role(role))));
    m.push(member("task_shape", jstr(task_shape)));
    let r = object_of(m);
    assert(members_view(m@) =~= spec_framing(role@, task_shape@)->Object_0);
    r
}

/// The spawn contract with the framing's phrase, stance and thinking mode.
pub open spec fn spec_framed_spawn_contract(sc: JVal, role: Seq<char>, shape: Seq<char>) -> JVal {
    jinsert(
        jinsert(
            jinsert(sc, "expertise_phrase"@, JVal::Str(spec_expertise_phrase(role, shape))),
            "task_stance"@,
            JVal::Str(spec_task_stance(role, shape)),
        ),
        "expected_thinking_mode"@,
        JVal::Str(spec_expected_thinking_mode(role)),
    )
}

/// The delegation plan with the framing recorded in it, in its runtime
/// dispatch and in its spawn contract (those that are objects).
pub open spec fn spec_framed_plan(dp: JVal, role: Seq<char>, shape: Seq<char>) -> JVal {
    let f = spec_framing(role, shape);
    let dp1 = jinsert(dp, "expertise_framing"@, f);
    let dp2 = match jget(dp1, "runtime_dispatch"@) {
        Some(JVal::Object(rd)) => jinsert(
            dp1,
            "runtime_dispatch"@,
            jinsert(JVal::Object(rd), "expertise_framing"@, f),
        ),
        _ => dp1,
    };
    match jget(dp2, "subagent_spawn_contract"@) {
        Some(JVal::Object(sc)) => jinsert(
            dp2,
            "subagent_spawn_contract"@,
            spec_framed_spawn_contract(JVal::Object(sc), role, shape),
        ),
        _ => dp2,
    }
}

/// A task card with its expertise framing applied (any other value is left
/// as it is).
pub open spec fn spec_framed_task_card(tc: JVal, role: Seq<char>, shape: Seq<char>) -> JVal {
    if !(tc is Object) {
        tc
    } else {
        let tc1 = jinsert(tc, "expertise_framing"@, spec_framing(role, shape));
        match jget(tc1, "delegation_plan"@) {
            Some(JVal::Object(dp)) => jinsert(
                tc1,
                "delegation_plan"@,
                spec_framed_plan(JVal::Object(dp), role, shape),
            ),
            _ => tc1,
        }
    }
}

/// Replaces member `key` of an object with `f(old value)` by taking it out,
/// updating it and putting it back.
fn framed_member(j: &mut Json, key: &str, role: &str, task_shape: &str, which: u8)
    requires
        jview(*old(j)) is Object,
        which == 0 || which == 1,
    ensures
        jview(*final(j)) == match jget(jview(*old(j)), key@) {
            Some(JVal::Object(x)) => jinsert(
                jview(*old(j)),
                key@,
                if which == 0 {
                    jinsert(JVal::Object(x), "expertise_framing"@, spec_framing(role@, task_shape@))
                } else {
                    spec_framed_spawn_contract(JVal::Object(x), role@, task_shape@)
                },
            ),
            _ => jview(*old(j)),
        },
{
    let ghost o = jview(*j);
    let taken = take_member(j, key);
    match taken {
        Some(mut v) => {
            if !v.is_object() {
                j.insert(key, v);
                proof {
                    lemma_jinsert_twice(o, key@, JVal::Null, jview(v));
                    assert(jget(o, key@) == Some(jview(v)));
                    match o {
                        JVal::Object(m) => {
                            crate::json::lemma_jmember_index_bounds(m, key@);
                            let i = crate::json::jmember_index(m, key@);
                            assert(m.update(i, (key@, m[i].1)) =~= m);
                        },
                        _ => {},
                    }
                }
                return;
            }
            if which == 0 {
                v.insert("expertise_framing", task_expertise_framing_for_role(role, task_shape));
            } else {
                v.insert("expertise_phrase", jstr(expertise_phrase_for_role_and_task_shape(role, task_shape)));
                v.insert("task_stance", jstr(task_stance_for_role_and_task_shape(role, task_shape)));
                v.insert("expected_thinking_mode", jstr(expected_thinking_mode_for_role(role)));
            }
            j.insert(key, v);
            proof {
                lemma_jinsert_twice(o, key@, JVal::Null, jview(v));
            }
        },
        None => {},
    }
}

/// Records the role's expertise framing on a task card and its delegation
/// plan, as `spec_framed_task_card` says.
pub fn apply_task_expertise_framing(task_card: &mut Json, role: &str, task_shape: &str)
    ensures
        jview(*final(task_card)) == spec_framed_task_card(jview(*old(task_card)), role@, task_shape@),
{
    if !task_card.is_object() {
        return;
    }
    let framing = task_expertise_framing_for_role(role, task_shape);
    task_card.insert("expertise_framing", framing);
    let ghost tc1 = jview(*task_card);
    assert(tc1 is Object);
    let taken = take_member(task_card, "delegation_plan");
    match taken {
        Some(mut dp) => {
            if !dp.is_object() {
                task_card.insert("delegation_plan", dp);
                proof {
                    lemma_jinsert_twice(tc1, "delegation_plan"@, JVal::Null, jview(dp));
                    match tc1 {
                        JVal::Object(m) => {
                            crate::json::lemma_jmember_index_bounds(m, "delegation_plan"@);
                            let i = crate::json::jmember_index(m, "delegation_plan"@);
                            assert(m.update(i, ("delegation_plan"@, m[i].1)) =~= m);
                        },
                        _ => {},
                    }
                }
                return;
            }
            let ghost dp0 = jview(dp);
            dp.insert("expertise_framing", task_expertise_framing_for_role(role, task_shape));
            framed_member(&mut dp, "runtime_dispatch", role, task_shape, 0);
            framed_member(&mut dp, "subagent_spawn_contract", role, task_shape, 1);
            task_card.insert("delegation_plan", dp);
            proof {
                lemma_jinsert_twice(tc1, "delegation_plan"@, JVal::Null, jview(dp));
                assert(jview(dp) == spec_framed_plan(dp0, role@, task_shape@));
            }
        },
        None => {},
    }
}

/// The non-blank string items of an array, trimmed.
pub open spec fn string_entries(items: Seq<JVal>) -> Seq<Seq<char>>
    decreases items.len(),
{
    if items.len() == 0 {
        Seq::empty()
    } else {
        let prev = string_entries(items.drop_last());
        match jas_str(items.last()) {
            Some(s) => if trim(s).len() > 0 {
                prev.push(trim(s))
            } else {
                prev
            },
            None => prev,
        }
    }
}

/// Some entry sets the reasoning effort.
pub open spec fn has_reasoning_override(entries: Seq<Seq<char>>) -> bool {
    exists|i: int|
        0 <= i < entries.len() && has_prefix(trim_start(#[trigger] entries[i]), "model_reasoning_effort="@)
}

/// The config overrides passed to a launched model: the snapshot's
/// non-blank config entries, plus `model_reasoning_effort="<variant>"` when
/// none of them sets the reasoning effort and a variant is configured.
pub open spec fn spec_config_overrides(snapshot: JVal) -> Seq<Seq<char>> {
    let entries = match jget(snapshot, "config_entries"@) {
        Some(JVal::Array(items)) => string_entries(items),
        _ => Seq::empty(),
    };
    if has_reasoning_override(entries) {
        entries
    } else {
        match jstr_field(snapshot, "variant"@) {
            Some(v) => entries.push("model_reasoning_effort=\""@ + v + "\""@),
            None => entries,
        }
    }
}

pub fn collect_codex_config_overrides(role_config_snapshot: &Json) -> (r: Vec<String>)
    ensures
        r@.map_values(|s: String| s@) == spec_config_overrides(jview(*role_config_snapshot)),
{
    let mut entries: Vec<String> = Vec::new();
    let ghost ev = match jget(jview(*role_config_snapshot), "config_entries"@) {
        Some(JVal::Array(items)) => items,
        _ => Seq::<JVal>::empty(),
    };
    match role_config_snapshot.get("config_entries") {
        Some(Json::Array(items)) => {
            proof {
                lemma_array_view(*items);
            }
            let ghost iv = items@.map_values(|x: Json| jview(x));
            assert(iv.take(0) =~= Seq::<JVal>::empty());
            let mut i: usize = 0;
            while i < items.len()
                invariant
                    i <= items.len(),
                    iv == items@.map_values(|x: Json| jview(x)),
                    entries@.map_values(|s: String| s@) == string_entries(iv.take(i as int)),
                decreases items.len() - i,
            {
                assert(iv.take(i + 1).drop_last() =~= iv.take(i as int));
                assert(iv.take(i + 1).last() == jview(items@[i as int]));
                match items[i].as_str() {
                    Some(s) => {
                        let t = trim_string(s);
                        if t.as_str().unicode_len() > 0 {
                            let ghost prev = entries@;
                            entries.push(t);
                            assert(entries@.map_values(|s: String| s@) =~= prev.map_values(|s: String| s@).push(t@));
                        }
                    },
                    None => {},
                }
                i = i + 1;
            }
            assert(iv.take(items.len() as int) =~= iv);
        },
        _ => {
            assert(entries@.map_values(|s: String| s@) =~= Seq::<Seq<char>>::empty());
        },
    }
    let ghost es = entries@.map_values(|s: String| s@);
    assert(es == match jget(jview(*role_config_snapshot), "config_entries"@) {
        Some(JVal::Array(items)) => string_entries(items),
        _ => Seq::<Seq<char>>::empty(),
    });
    let mut has_reasoning = false;
    let mut k: usize = 0;
    while k < entries.len()
        invariant
            k <= entries.len(),
            es == entries@.map_values(|s: String| s@),
            has_reasoning <==> exists|i: int|
                0 <= i < k && has_prefix(trim_start(#[trigger] es[i]), "model_reasoning_effort="@),
        decreases entries.len() - k,
    {
        let ts = trim_start_string(entries[k].as_str());
        if starts_with(ts.as_str(), "model_reasoning_effort=") {
            assert(has_prefix(trim_start(es[k as int]), "model_reasoning_effort="@));
            has_reasoning = true;
        }
        k = k + 1;
    }
    let ghost spec_entries = match jget(jview(*role_config_snapshot), "config_entries"@) {
        Some(JVal::Array(items)) => string_entries(items),
        _ => Seq::<Seq<char>>::empty(),
    };
    assert(es == spec_entries);
    assert(has_reasoning == has_reasoning_override(spec_entries));
    if !has_reasoning {
        match role_config_snapshot.str_field("variant") {
            Some(v) => {
                let mut line = to_owned("model_reasoning_effort=\"");
                push_str(&mut line, v);
                push_str(&mut line, "\"");
                let ghost prev = entries@;
                entries.push(line);
                assert(entries@.map_values(|s: String| s@) =~= prev.map_values(|s: String| s@).push(line@));
            },
            None => {},
        }
    }
    entries
}

/// One entry of the configured-role listing.
pub open spec fn spec_configured_role_model(config: JVal, role: Seq<char>) -> JVal {
    let snap = spec_role_snapshot(config, role);
    JVal::Object(
        seq![
            ("role"@, JVal::Str(role)),
            ("agent_id"@, crate::json::jopt_str(spec_agent_id_for_role(role))),
            ("summary"@, jget_or(snap, "summary"@, JVal::Null)),
            ("profile"@, jget_or(snap, "profile"@, JVal::Null)),
            ("model"@, jget_or(snap, "model"@, JVal::Null)),
            ("variant"@, jget_or(snap, "variant"@, JVal::Null)),
            (
                "fast_mode"@,
                JVal::Bool(
                    match opt_bool(jget(snap, "fast_mode"@)) {
                        Some(b) => b,
                        None => false,
                    },
                ),
            ),
            ("config_entries"@, jget_or(snap, "config_entries"@, JVal::Array(Seq::empty()))),
        ],
    )
}

/// The model settings of every configured role, in role order.
pub fn create_configured_role_models_payload_from_config(config: &Json) -> (r: Vec<Json>)
    ensures
        r@.len() == spec_configured_roles().len(),
        forall|i: int|
            0 <= i < r@.len() ==> jview(#[trigger] r@[i]) == spec_configured_role_model(
                jview(*config),
                spec_configured_roles()[i],
            ),
{
    let roles = configured_role_list();
    let mut out: Vec<Json> = Vec::new();
    let mut i: usize = 0;
    while i < roles.len()
        invariant
            i <= roles.len(),
            roles@.map_values(|k: &str| k@) == spec_configured_roles(),
            out@.len() == i,
            forall|k: int|
                0 <= k < i ==> jview(#[trigger] out@[k]) == spec_configured_role_model(
                    jview(*config),
                    spec_configured_roles()[k],
                ),
        decreases roles.len() - i,
    {
        let role = roles[i];
        assert(role@ == spec_configured_roles()[i as int]);
        let snapshot = load_role_config_snapshot_from_config(config, role);
        let fast: bool = match snapshot.bool_field("fast_mode") {
            Some(b) => b,
            None => false,
        };
        let mut m: Vec<(String, Json)> = Vec::new();
        m.push(member("role", jstr(role)));
        m.push(member("agent_id", crate::json::jopt(agent_id_for_role(role))));
        m.push(member("summary", get_or(&snapshot, "summary", Json::Null)));
        m.push(member("profile", get_or(&snapshot, "profile", Json::Null)));
        m.push(member("model", get_or(&snapshot, "model", Json::Null)));
        m.push(member("variant", get_or(&snapshot, "variant", Json::Null)));
        m.push(member("fast_mode", jbool(fast)));
        m.push(member("config_entries", get_or(&snapshot, "config_entries", jempty_array())));
        let e = object_of(m);
        assert(members_view(m@) =~= spec_configured_role_model(jview(*config), role@)->Object_0);
        out.push(e);
        i = i + 1;
    }
    out
}


/// The launch evidence recorded when a role's model is launched: the
/// configured, dispatched and actual settings all read from the snapshot,
/// observation not started yet.
pub open spec fn spec_launch_evidence(
    role: Seq<char>,
    task_kind: Seq<char>,
    codex_path: Seq<char>,
    snapshot: JVal,
    entries: Seq<String>,
    recorded_at: Seq<char>,
) -> JVal {
    let fast = JVal::Bool(
        match opt_bool(jget(snapshot, "fast_mode"@)) {
            Some(b) => b,
            None => false,
        },
    );
    let ev = JVal::Array(entries.map_values(|s: String| JVal::Str(s@)));
    JVal::Object(
        seq![
            ("role"@, JVal::Str(role)),
            ("request_kind"@, JVal::Str(spec_request_kind_for_task_kind(task_kind))),
            ("launch_source"@, JVal::Str("ccc_spawn"@)),
            ("codex_path"@, JVal::Str(codex_path)),
            ("configured_profile"@, jget_or(snapshot, "profile"@, JVal::Null)),
            ("configured_model"@, jget_or(snapshot, "model"@, JVal::Null)),
            ("configured_variant"@, jget_or(snapshot, "variant"@, JVal::Null)),
            ("configured_fast_mode"@, fast),
            ("dispatched_profile"@, jget_or(snapshot, "profile"@, JVal::Null)),
            ("dispatched_model"@, jget_or(snapshot, "model"@, JVal::Null)),
            ("dispatched_variant"@, jget_or(snapshot, "variant"@, JVal::Null)),
            ("dispatched_fast_mode"@, fast),
            ("dispatched_config_entries"@, ev),
            ("actual_profile"@, jget_or(snapshot, "profile"@, JVal::Null)),
            ("actual_model"@, jget_or(snapshot, "model"@, JVal::Null)),
            ("actual_variant"@, jget_or(snapshot, "variant"@, JVal::Null)),
            ("actual_fast_mode"@, fast),
            ("actual_config_entries"@, ev),
            ("observed_profile"@, JVal::Null),
            ("observed_model"@, JVal::Null),
            ("observed_variant"@, JVal::Null),
            ("observed_source"@, JVal::Null),
            ("observed_confidence"@, JVal::Null),
            ("observed_capability"@, JVal::Str("launch_request_only"@)),
            ("observation_status"@, JVal::Str("not_started"@)),
            ("observation_match_state"@, JVal::Str("not_started"@)),
            ("observation_unavailable_reason"@, JVal::Null),
            ("observation_mismatch_summary"@, JVal::Null),
            ("match_state"@, JVal::Str("verified_match"@)),
            ("mismatch_summary"@, JVal::Null),
            ("recorded_at"@, JVal::Str(recorded_at)),
        ],
    )
}

pub fn create_role_model_launch_evidence(
    role: &str,
    task_kind: &str,
    codex_path: &str,
    role_config_snapshot: &Json,
    dispatched_config_entries: &[String],
    recorded_at: &str,
) -> (r: Json)
    ensures
        jview(r) == spec_launch_evidence(
            role@,
            task_kind@,
            codex_path@,
            jview(*role_config_snapshot),
            dispatched_config_entries@,
            recorded_at@,
        ),
{
    let snap = role_config_snapshot;
    let fast: bool = match snap.bool_field("fast_mode") {
        Some(b) => b,
        None => false,
    };
    let mut m: Vec<(String, Json)> = Vec::new();
    m.push(member("role", jstr(role)));
    m.push(member("request_kind", jstr(request_kind_for_task_kind(task_kind))));
    m.push(member("launch_source", jstr("ccc_spawn")));
    m.push(member("codex_path", jstr(codex_path)));
    m.push(member("configured_profile", get_or(snap, "profile", Json::Null)));
    m.push(member("configured_model", get_or(snap, "model", Json::Null)));
    m.push(member("configured_variant", get_or(snap, "variant", Json::Null)));
    m.push(member("configured_fast_mode", jbool(fast)));
    m.push(member("dispatched_profile", get_or(snap, "profile", Json::Null)));
    m.push(member("dispatched_model", get_or(snap, "model", Json::Null)));
    m.push(member("dispatched_variant", get_or(snap, "variant", Json::Null)));
    m.push(member("dispatched_fast_mode", jbool(fast)));
    m.push(member("dispatched_config_entries", crate::json::jstring_array(dispatched_config_entries)));
    m.push(member("actual_profile", get_or(snap, "profile", Json::Null)));
    m.push(member("actual_model", get_or(snap, "model", Json::Null)));
    m.push(member("actual_variant", get_or(snap, "variant", Json::Null)));
    m.push(member("actual_fast_mode", jbool(fast)));
    m.push(member("actual_config_entries", crate::json::jstring_array(dispatched_config_entries)));
    m.push(member("observed_profile", Json::Null));
    m.push(member("observed_model", Json::Null));
    m.push(member("observed_variant", Json::Null));
    m.push(member("observed_source", Json::Null));
    m.push(member("observed_confidence", Json::Null));
    m.push(member("observed_capability", jstr("launch_request_only")));
    m.push(member("observation_status", jstr("not_started")));
    m.push(member("observation_match_state", jstr("not_started")));
    m.push(member("observation_unavailable_reason", Json::Null));
    m.push(member("observation_mismatch_summary", Json::Null));
    m.push(member("match_state", jstr("verified_match")));
    m.push(member("mismatch_summary", Json::Null));
    m.push(member("recorded_at", jstr(recorded_at)));
    let r = object_of(m);
    assert(members_view(m@) =~= spec_launch_evidence(
        role@,
        task_kind@,
        codex_path@,
        jview(*role_config_snapshot),
        dispatched_config_entries@,
        recorded_at@,
    )->Object_0);
    r
}

} // verus!
