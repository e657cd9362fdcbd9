//! The latest terminal delegation of a task card: which delegation record
//! counts as the latest finished one, and the payload shown for it.

use vstd::prelude::*;
use crate::json::{jget, jget_path, jstr, jstr_at, jstr_field, jview, member, members_view, object_of, JVal, Json};
use crate::sorted_set::{compare_chars, lemma_seq_lt_total, seq_lt};
use crate::strings::{chars_of, opt_string_view, str_eq, to_owned};
use crate::worker_events::{lines_view, resolve_delegation_message_preview, spec_resolve_delegation_message_preview, RawEventLine};
use crate::worker_lifecycle::{create_worker_lifecycle_view_at, lifecycle_view_spec};

verus! {

/// A delegation record as read from its file, with its worker's raw event
/// stream when that could be read.
pub struct DelegationRecord {
    pub delegation: Json,
    pub raw_events: Option<Vec<RawEventLine>>,
}

/// The view of a delegation record: its document and raw event lines.
pub open spec fn delegation_record_view(d: DelegationRecord) -> (JVal, Option<Seq<(Seq<char>, Option<JVal>)>>) {
    (
        jview(d.delegation),
        match d.raw_events {
            Some(l) => Some(lines_view(l@)),
            None => None,
        },
    )
}

pub open spec fn delegation_records_view(ds: Seq<DelegationRecord>) -> Seq<(JVal, Option<Seq<(Seq<char>, Option<JVal>)>>)> {
    ds.map_values(|d: DelegationRecord| delegation_record_view(d))
}

/// The status of a delegation's child agent (`unknown` when it has none).
pub open spec fn child_status(delegation: JVal) -> Seq<char> {
    match jstr_at(delegation, seq!["child_agent"@, "status"@]) {
        Some(s) => s,
        None => "unknown"@,
    }
}

/// A status after which a delegation does no more work.
pub open spec fn is_terminal_delegation_status(s: Seq<char>) -> bool {
    s == "completed"@ || s == "failed"@ || s == "cancelled"@
}

/// When a delegation was last updated (empty when it does not say).
pub open spec fn updated_at_of(delegation: JVal) -> Seq<char> {
    match jstr_field(delegation, "updated_at"@) {
        Some(s) => s,
        None => Seq::empty(),
    }
}

/// The payload shown for a finished delegation.
pub open spec fn spec_delegate_result_entry(
    d: (JVal, Option<Seq<(Seq<char>, Option<JVal>)>>),
    runtime_config: JVal,
    now: int,
) -> JVal {
    JVal::Object(
        seq![
            ("delegation_id"@, crate::app_panel::or_null(jget(d.0, "delegation_id"@))),
            ("agent_id"@, crate::app_panel::or_null(jget_path(d.0, seq!["child_agent"@, "agent_id"@]))),
            ("role"@, crate::app_panel::or_null(jget_path(d.0, seq!["child_agent"@, "role"@]))),
            ("status"@, JVal::Str(child_status(d.0))),
            ("updated_at"@, JVal::Str(updated_at_of(d.0))),
            ("result_summary"@, crate::app_panel::or_null(jget(d.0, "result_summary"@))),
            ("assistant_message_preview"@, crate::json::jopt_str(spec_resolve_delegation_message_preview(d.0, d.1))),
            ("worker_lifecycle"@, lifecycle_view_spec(d.0, runtime_config, now)),
        ],
    )
}

/// The latest update time and payload after the first `k` records: a
/// terminal delegation of the task card replaces what was chosen when
/// nothing was, or when it was updated later.
pub open spec fn latest_delegate_state(
    ds: Seq<(JVal, Option<Seq<(Seq<char>, Option<JVal>)>>)>,
    task_card_id: Seq<char>,
    runtime_config: JVal,
    now: int,
    k: nat,
) -> (Seq<char>, JVal)
    decreases k,
{
    if k == 0 {
        (Seq::empty(), JVal::Null)
    } else {
        let st = latest_delegate_state(ds, task_card_id, runtime_config, now, (k - 1) as nat);
        let d = ds[k - 1];
        let updated = updated_at_of(d.0);
        if jstr_field(d.0, "task_card_id"@) == Some(task_card_id) && is_terminal_delegation_status(
            child_status(d.0),
        ) && (st.0.len() == 0 || seq_lt(st.0, updated)) {
            (updated, spec_delegate_result_entry(d, runtime_config, now))
        } else {
            st
        }
    }
}

/// The latest finished delegation of the active task card (`null` without
/// an active, non-blank task card id or a finished delegation of it).
pub open spec fn spec_latest_delegate_result(
    ds: Seq<(JVal, Option<Seq<(Seq<char>, Option<JVal>)>>)>,
    active_task_card_id: Option<Seq<char>>,
    runtime_config: JVal,
    now: int,
) -> JVal {
    match active_task_card_id {
        Some(id) => if crate::strings::trim(id).len() > 0 {
            latest_delegate_state(ds, id, runtime_config, now, ds.len()).1
        } else {
            JVal::Null
        },
        None => JVal::Null,
    }
}

fn delegate_result_entry(d: &DelegationRecord, runtime_config: &Json, now_ms: i64) -> (r: Json)
    ensures
        jview(r) == spec_delegate_result_entry(delegation_record_view(*d), jview(*runtime_config), now_ms as int),
{
    let dj = &d.delegation;
    let path: [&str; 2] = ["child_agent", "status"];
    assert(path@.map_values(|k: &str| k@) =~= seq!["child_agent"@, "status"@]);
    let status = match dj.str_at(path.as_slice()) {
        Some(s) => to_owned(s),
        None => to_owned("unknown"),
    };
    let updated = match dj.str_field("updated_at") {
        Some(s) => to_owned(s),
        None => String::new(),
    };
    let preview = match &d.raw_events {
        Some(l) => resolve_delegation_message_preview(dj, Some(l.as_slice())),
        None => resolve_delegation_message_preview(dj, None),
    };
    let mut m: Vec<(String, Json)> = Vec::new();
    m.push(member("delegation_id", crate::app_panel::clone_or(dj.get("delegation_id"), Json::Null)));
    m.push(member("agent_id", crate::app_panel::clone_or(crate::app_panel::at2(dj, "child_agent", "agent_id"), Json::Null)));
    m.push(member("role", crate::app_panel::clone_or(crate::app_panel::at2(dj, "child_agent", "role"), Json::Null)));
    m.push(member("status", Json::Str(status)));
    m.push(member("updated_at", Json::Str(updated)));
    m.push(member("result_summary", crate::app_panel::clone_or(dj.get("result_summary"), Json::Null)));
    m.push(member("assistant_message_preview", crate::json::jopt_string(&preview)));
    m.push(member("worker_lifecycle", create_worker_lifecycle_view_at(dj, runtime_config, now_ms)));
    let r = object_of(m);
    assert(members_view(m@) =~= spec_delegate_result_entry(
        delegation_record_view(*d),
        jview(*runtime_config),
        now_ms as int,
    )->Object_0);
    r
}

/// The latest finished delegation of the active task card, with worker
/// lifecycles seen at `now_ms` (see `spec_latest_delegate_result`).
pub fn create_latest_delegate_result_payload_at(
    delegations: &Vec<DelegationRecord>,
    active_task_card_id: Option<&str>,
    runtime_config: &Json,
    now_ms: i64,
) -> (r: Json)
    ensures
        jview(r) == spec_latest_delegate_result(
            delegation_records_view(delegations@),
            crate::strings::opt_view(active_task_card_id),
            jview(*runtime_config),
            now_ms as int,
        ),
{
    let id = match active_task_card_id {
        Some(id) => id,
        None => return Json::Null,
    };
    if crate::strings::is_blank(id) {
        return Json::Null;
    }
    let ghost dv = delegation_records_view(delegations@);
    let ghost rc = jview(*runtime_config);
    let mut latest: Vec<char> = Vec::new();
    let mut payload = Json::Null;
    let mut i: usize = 0;
    while i < delegations.len()
        invariant
            i <= delegations.len(),
            dv == delegation_records_view(delegations@),
            rc == jview(*runtime_config),
            (latest@, jview(payload)) == latest_delegate_state(dv, id@, rc, now_ms as int, i as nat),
        decreases delegations.len() - i,
    {
        let d = &delegations[i];
        assert(dv[i as int] == delegation_record_view(*d));
        let same_card = match d.delegation.str_field("task_card_id") {
            Some(t) => str_eq(t, id),
            None => false,
        };
        let path: [&str; 2] = ["child_agent", "status"];
        assert(path@.map_values(|k: &str| k@) =~= seq!["child_agent"@, "status"@]);
        let status: &str = match d.delegation.str_at(path.as_slice()) {
            Some(s) => s,
            None => "unknown",
        };
        proof {
            reveal_strlit("unknown");
        }
        let terminal = str_eq(status, "completed") || str_eq(status, "failed") || str_eq(status, "cancelled");
        if same_card && terminal {
            let updated = match d.delegation.str_field("updated_at") {
                Some(s) => chars_of(s),
                None => Vec::new(),
            };
            if latest.len() == 0 || compare_chars(&latest, &updated) == -1 {
                payload = delegate_result_entry(d, runtime_config, now_ms);
                latest = updated;
            }
        }
        i = i + 1;
    }
    payload
}

/// The latest finished delegation of the active task card, with worker
/// lifecycles seen now (the time is read from the clock once).
pub fn create_latest_delegate_result_payload(
    delegations: &Vec<DelegationRecord>,
    active_task_card_id: Option<&str>,
    runtime_config: &Json,
) -> (r: Json)
    ensures
        exists|now: int|
            i64::MIN <= now <= i64::MAX && jview(r) == spec_latest_delegate_result(
                delegation_records_view(delegations@),
                crate::strings::opt_view(active_task_card_id),
                jview(*runtime_config),
                now,
            ),
{
    let now = crate::clock::utc_now_millis();
    create_latest_delegate_result_payload_at(delegations, active_task_card_id, runtime_config, now)
}

/// A finished delegation of the task card.
pub open spec fn is_candidate(d: (JVal, Option<Seq<(Seq<char>, Option<JVal>)>>), task_card_id: Seq<char>) -> bool {
    jstr_field(d.0, "task_card_id"@) == Some(task_card_id) && is_terminal_delegation_status(child_status(d.0))
}

/// The latest delegate result is the payload of a finished delegation of
/// the task card, and no finished delegation of it among the records was
/// updated later than the one shown.
pub proof fn lemma_latest_delegate_is_latest(
    ds: Seq<(JVal, Option<Seq<(Seq<char>, Option<JVal>)>>)>,
    task_card_id: Seq<char>,
    runtime_config: JVal,
    now: int,
    k: nat,
)
    requires
        k <= ds.len(),
    ensures
        ({
            let st = latest_delegate_state(ds, task_card_id, runtime_config, now, k);
            &&& st.1 is Null || exists|m: int|
                0 <= m < k && is_candidate(#[trigger] ds[m], task_card_id) && st.1 == spec_delegate_result_entry(
                    ds[m],
                    runtime_config,
                    now,
                ) && st.0 == updated_at_of(ds[m].0)
            &&& forall|m: int|
                0 <= m < k && is_candidate(#[trigger] ds[m], task_card_id) ==> !seq_lt(st.0, updated_at_of(ds[m].0))
        }),
    decreases k,
{
    if k > 0 {
        let km = (k - 1) as nat;
        lemma_latest_delegate_is_latest(ds, task_card_id, runtime_config, now, km);
        let prev = latest_delegate_state(ds, task_card_id, runtime_config, now, km);
        let st = latest_delegate_state(ds, task_card_id, runtime_config, now, k);
        let d = ds[km as int];
        let u = updated_at_of(d.0);
        if is_candidate(d, task_card_id) && (prev.0.len() == 0 || seq_lt(prev.0, u)) {
            assert(st == (u, spec_delegate_result_entry(d, runtime_config, now)));
            assert forall|m: int| 0 <= m < k && is_candidate(#[trigger] ds[m], task_card_id) implies !seq_lt(
                st.0,
                updated_at_of(ds[m].0),
            ) by {
                if m < km {
                    let um = updated_at_of(ds[m].0);
                    assert(!seq_lt(prev.0, um));
                    if prev.0.len() == 0 {
                        if um.len() > 0 {
                            assert(seq_lt(prev.0, um));
                        }
                        assert(um.len() == 0);
                    } else {
                        lemma_seq_lt_total(prev.0, um);
                        if seq_lt(u, um) {
                            if um == prev.0 {
                                crate::sorted_set::lemma_seq_lt_asymmetric(prev.0, u);
                            } else {
                                crate::sorted_set::lemma_seq_lt_transitive(um, prev.0, u);
                                crate::sorted_set::lemma_seq_lt_asymmetric(um, u);
                            }
                        }
                    }
                } else {
                    crate::sorted_set::lemma_seq_lt_irreflexive(u);
                }
            }
        } else {
            assert(st == prev);
            if is_candidate(d, task_card_id) {
                assert(!seq_lt(st.0, u));
            }
            if !(st.1 is Null) {
                let m = choose|m: int|
                    0 <= m < km && is_candidate(#[trigger] ds[m], task_card_id) && prev.1 == spec_delegate_result_entry(
                        ds[m],
                        runtime_config,
                        now,
                    ) && prev.0 == updated_at_of(ds[m].0);
                assert(0 <= m < k);
            }
        }
    }
}

} // verus!
