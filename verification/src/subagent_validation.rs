//! Checks on the enumerated fields of a subagent update.
//!
//! Each check accepts exactly the values its error message lists.

use vstd::prelude::*;
use crate::strings::{str_eq, to_owned};

verus! {

/// A rejected field of a subagent update, with the message shown to the
/// caller.
pub enum UpdateFieldError {
    InvalidInput(String),
}

pub open spec fn error_message(e: UpdateFieldError) -> Seq<char> {
    match e {
        UpdateFieldError::InvalidInput(m) => m@,
    }
}

pub open spec fn is_review_outcome(s: Seq<char>) -> bool {
    s == "passed"@ || s == "needs_work"@ || s == "unsatisfactory"@ || s == "blocked"@ || s
        == "stalled"@ || s == "reclaimed"@
}

fn review_outcome_literal(s: &str) -> (r: Option<&'static str>)
    ensures
        match r {
            Some(l) => is_review_outcome(s@) && l@ == s@,
            None => !is_review_outcome(s@),
        },
{
    if str_eq(s, "passed") {
        Some("passed")
    } else if str_eq(s, "needs_work") {
        Some("needs_work")
    } else if str_eq(s, "unsatisfactory") {
        Some("unsatisfactory")
    } else if str_eq(s, "blocked") {
        Some("blocked")
    } else if str_eq(s, "stalled") {
        Some("stalled")
    } else if str_eq(s, "reclaimed") {
        Some("reclaimed")
    } else {
        None
    }
}

/// The canonical review outcome, or the listed rejection.
pub fn canonical_subagent_review_outcome(outcome: &str) -> (r: Result<&'static str, UpdateFieldError>)
    ensures
        match r {
            Ok(c) => is_review_outcome(outcome@) && c@ == outcome@,
            Err(e) => !is_review_outcome(outcome@) && error_message(e)
                == "ccc_subagent_update review_outcome must be one of: passed, needs_work, unsatisfactory, blocked, stalled, reclaimed."@,
        },
{
    match review_outcome_literal(outcome) {
        Some(c) => Ok(c),
        None => Err(
            UpdateFieldError::InvalidInput(
                to_owned(
                    "ccc_subagent_update review_outcome must be one of: passed, needs_work, unsatisfactory, blocked, stalled, reclaimed.",
                ),
            ),
        ),
    }
}

/// A fan-in status in canonical review-outcome form (a known outcome is
/// already canonical; anything else is kept as given).
pub fn canonical_subagent_fan_in_status(status: &str) -> (r: String)
    ensures
        r@ == status@,
{
    match review_outcome_literal(status) {
        Some(c) => to_owned(c),
        None => to_owned(status),
    }
}

pub open spec fn is_intervention_classification(s: Seq<char>) -> bool {
    s == "clarification_only"@ || s == "bounded_scope_amendment"@ || s
        == "direction_or_risk_correction"@
}

pub fn validate_subagent_intervention_classification(classification: &str) -> (r: Result<(), UpdateFieldError>)
    ensures
        r is Ok <==> is_intervention_classification(classification@),
        r matches Err(e) ==> error_message(e)
            == "ccc_subagent_update intervention_classification must be one of: clarification_only, bounded_scope_amendment, direction_or_risk_correction."@,
{
    if str_eq(classification, "clarification_only") || str_eq(
        classification,
        "bounded_scope_amendment",
    ) || str_eq(classification, "direction_or_risk_correction") {
        Ok(())
    } else {
        Err(
            UpdateFieldError::InvalidInput(
                to_owned(
                    "ccc_subagent_update intervention_classification must be one of: clarification_only, bounded_scope_amendment, direction_or_risk_correction.",
                ),
            ),
        )
    }
}

pub open spec fn is_intervention_next_action(s: Seq<char>) -> bool {
    s == "amend_same_worker"@ || s == "reclaim"@ || s == "reassign"@ || s == "close"@ || s
        == "clarify"@ || s == "no_action"@
}

pub fn validate_subagent_chosen_next_action(action: &str) -> (r: Result<(), UpdateFieldError>)
    ensures
        r is Ok <==> is_intervention_next_action(action@),
        r matches Err(e) ==> error_message(e)
            == "ccc_subagent_update chosen_next_action must be one of: amend_same_worker, reclaim, reassign, close, clarify, no_action."@,
{
    if str_eq(action, "amend_same_worker") || str_eq(action, "reclaim") || str_eq(
        action,
        "reassign",
    ) || str_eq(action, "close") || str_eq(action, "clarify") || str_eq(action, "no_action") {
        Ok(())
    } else {
        Err(
            UpdateFieldError::InvalidInput(
                to_owned(
                    "ccc_subagent_update chosen_next_action must be one of: amend_same_worker, reclaim, reassign, close, clarify, no_action.",
                ),
            ),
        )
    }
}

pub open spec fn is_sentinel_classification(s: Seq<char>) -> bool {
    s == "observe"@ || s == "warn"@ || s == "enforce"@
}

pub fn validate_sentinel_intervention_classification(classification: &str) -> (r: Result<(), UpdateFieldError>)
    ensures
        r is Ok <==> is_sentinel_classification(classification@),
        r matches Err(e) ==> error_message(e)
            == "ccc_subagent_update sentinel_classification must be one of: observe, warn, enforce."@,
{
    if str_eq(classification, "observe") || str_eq(classification, "warn") || str_eq(
        classification,
        "enforce",
    ) {
        Ok(())
    } else {
        Err(
            UpdateFieldError::InvalidInput(
                to_owned(
                    "ccc_subagent_update sentinel_classification must be one of: observe, warn, enforce.",
                ),
            ),
        )
    }
}

/// The fallback reason codes a specialist may record.
pub open spec fn is_fallback_reason(s: Seq<char>) -> bool {
    s == "subagent_spawn_unavailable"@ || s == "approval_blocked"@ || s
        == "sandbox_incompatible"@ || s == "config_sync_stale"@ || s
        == "host_subagent_thread_limit"@ || s == "child_timeout"@ || s
        == "parent_override_conflict"@
}

pub fn is_valid_subagent_fallback_reason(reason: &str) -> (r: bool)
    ensures
        r == is_fallback_reason(reason@),
{
    str_eq(reason, "subagent_spawn_unavailable") || str_eq(reason, "approval_blocked") || str_eq(
        reason,
        "sandbox_incompatible",
    ) || str_eq(reason, "config_sync_stale") || str_eq(reason, "host_subagent_thread_limit")
        || str_eq(reason, "child_timeout") || str_eq(reason, "parent_override_conflict")
}

/// The specialist statuses after which a fallback reason may be recorded.
pub open spec fn is_terminal_or_merged_status(s: Seq<char>) -> bool {
    s == "completed"@ || s == "failed"@ || s == "stalled"@ || s == "merged"@ || s == "reclaimed"@
}

pub fn is_terminal_or_merged_host_subagent_status(status: &str) -> (r: bool)
    ensures
        r == is_terminal_or_merged_status(status@),
{
    str_eq(status, "completed") || str_eq(status, "failed") || str_eq(status, "stalled") || str_eq(
        status,
        "merged",
    ) || str_eq(status, "reclaimed")
}

/// A fallback reason is accepted when it is a known code and the status is
/// terminal; the reason is checked first.
pub fn validate_subagent_fallback_reason_for_status(reason: &str, status: &str) -> (r: Result<(), UpdateFieldError>)
    ensures
        r is Ok <==> (is_fallback_reason(reason@) && is_terminal_or_merged_status(status@)),
        r matches Err(e) ==> error_message(e) == (if !is_fallback_reason(reason@) {
            "ccc_subagent_update fallback_reason must be one of: subagent_spawn_unavailable, approval_blocked, sandbox_incompatible, config_sync_stale, host_subagent_thread_limit, child_timeout, parent_override_conflict."@
        } else {
            "ccc_subagent_update fallback_reason requires terminal specialist status: completed, failed, stalled, merged, or reclaimed."@
        }),
{
    if !is_valid_subagent_fallback_reason(reason) {
        return Err(
            UpdateFieldError::InvalidInput(
                to_owned(
                    "ccc_subagent_update fallback_reason must be one of: subagent_spawn_unavailable, approval_blocked, sandbox_incompatible, config_sync_stale, host_subagent_thread_limit, child_timeout, parent_override_conflict.",
                ),
            ),
        );
    }
    if !is_terminal_or_merged_host_subagent_status(status) {
        return Err(
            UpdateFieldError::InvalidInput(
                to_owned(
                    "ccc_subagent_update fallback_reason requires terminal specialist status: completed, failed, stalled, merged, or reclaimed.",
                ),
            ),
        );
    }
    Ok(())
}


/// The statuses named by the rejection of a fallback reason, in order.
pub open spec fn fallback_message_statuses() -> Seq<Seq<char>> {
    seq!["completed"@, "failed"@, "stalled"@, "merged"@, "reclaimed"@]
}

/// The enumerated update values, spelled out.
proof fn lemma_update_words_spelled()
    ensures
        "amend_same_worker"@.len() == 17,
        "amend_same_worker"@[0] == 'a',
        "approval_blocked"@.len() == 16,
        "blocked"@.len() == 7,
        "blocked"@[0] == 'b',
        "bounded_scope_amendment"@.len() == 23,
        "child_timeout"@.len() == 13,
        "clarification_only"@.len() == 18,
        "clarify"@.len() == 7,
        "clarify"@[0] == 'c',
        "close"@.len() == 5,
        "config_sync_stale"@.len() == 17,
        "config_sync_stale"@[0] == 'c',
        "direction_or_risk_correction"@.len() == 28,
        "enforce"@.len() == 7,
        "enforce"@[0] == 'e',
        "host_subagent_thread_limit"@.len() == 26,
        "host_subagent_thread_limit"@[0] == 'h',
        "needs_work"@.len() == 10,
        "no_action"@.len() == 9,
        "no_action"@[0] == 'n',
        "observe"@.len() == 7,
        "observe"@[0] == 'o',
        "parent_override_conflict"@.len() == 24,
        "passed"@.len() == 6,
        "reassign"@.len() == 8,
        "reclaim"@.len() == 7,
        "reclaim"@[0] == 'r',
        "reclaimed"@.len() == 9,
        "reclaimed"@[0] == 'r',
        "sandbox_incompatible"@.len() == 20,
        "stalled"@.len() == 7,
        "stalled"@[0] == 's',
        "subagent_spawn_unavailable"@.len() == 26,
        "subagent_spawn_unavailable"@[0] == 's',
        "unsatisfactory"@.len() == 14,
        "warn"@.len() == 4,
{
    reveal_strlit("amend_same_worker");
    reveal_strlit("approval_blocked");
    reveal_strlit("blocked");
    reveal_strlit("bounded_scope_amendment");
    reveal_strlit("child_timeout");
    reveal_strlit("clarification_only");
    reveal_strlit("clarify");
    reveal_strlit("close");
    reveal_strlit("config_sync_stale");
    reveal_strlit("direction_or_risk_correction");
    reveal_strlit("enforce");
    reveal_strlit("host_subagent_thread_limit");
    reveal_strlit("needs_work");
    reveal_strlit("no_action");
    reveal_strlit("observe");
    reveal_strlit("parent_override_conflict");
    reveal_strlit("passed");
    reveal_strlit("reassign");
    reveal_strlit("reclaim");
    reveal_strlit("reclaimed");
    reveal_strlit("sandbox_incompatible");
    reveal_strlit("stalled");
    reveal_strlit("subagent_spawn_unavailable");
    reveal_strlit("unsatisfactory");
    reveal_strlit("warn");
}

/// A known fallback reason is accepted for exactly the statuses that the
/// rejection message lists: the message names them, and a status is
/// terminal exactly when it is one of them.
pub proof fn lemma_fallback_statuses_are_the_named_ones(s: Seq<char>)
    ensures
        "ccc_subagent_update fallback_reason requires terminal specialist status: completed, failed, stalled, merged, or reclaimed."@
            == "ccc_subagent_update fallback_reason requires terminal specialist status: "@
            + fallback_message_statuses()[0] + ", "@ + fallback_message_statuses()[1] + ", "@
            + fallback_message_statuses()[2] + ", "@ + fallback_message_statuses()[3] + ", or "@
            + fallback_message_statuses()[4] + "."@,
        is_terminal_or_merged_status(s) <==> fallback_message_statuses().contains(s),
{
    lemma_update_words_spelled();
    reveal_strlit(
        "ccc_subagent_update fallback_reason requires terminal specialist status: completed, failed, stalled, merged, or reclaimed.",
    );
    reveal_strlit("ccc_subagent_update fallback_reason requires terminal specialist status: ");
    reveal_strlit(", ");
    reveal_strlit(", or ");
    reveal_strlit(".");
    reveal_strlit("completed");
    reveal_strlit("failed");
    reveal_strlit("stalled");
    reveal_strlit("merged");
    reveal_strlit("reclaimed");
    assert("ccc_subagent_update fallback_reason requires terminal specialist status: completed, failed, stalled, merged, or reclaimed."@
        =~= "ccc_subagent_update fallback_reason requires terminal specialist status: "@
        + fallback_message_statuses()[0] + ", "@ + fallback_message_statuses()[1] + ", "@
        + fallback_message_statuses()[2] + ", "@ + fallback_message_statuses()[3] + ", or "@
        + fallback_message_statuses()[4] + "."@);
    let l = fallback_message_statuses();
    if l.contains(s) {
        let i = choose|i: int| 0 <= i < l.len() && l[i] == s;
        assert(i == 0 || i == 1 || i == 2 || i == 3 || i == 4);
    }
    if is_terminal_or_merged_status(s) {
        if s == "completed"@ { assert(l[0] == s); }
        if s == "failed"@ { assert(l[1] == s); }
        if s == "stalled"@ { assert(l[2] == s); }
        if s == "merged"@ { assert(l[3] == s); }
        if s == "reclaimed"@ { assert(l[4] == s); }
    }
}


/// The values the rejection of a review outcome names, in order.
pub open spec fn review_outcome_values() -> Seq<Seq<char>> {
    seq!["passed"@, "needs_work"@, "unsatisfactory"@, "blocked"@, "stalled"@, "reclaimed"@]
}

/// A review outcome is accepted exactly when the rejection message names it: the
/// message lists the accepted values, comma-separated.
pub proof fn lemma_review_outcome_accepts_the_named_values(s: Seq<char>)
    ensures
        "ccc_subagent_update review_outcome must be one of: passed, needs_work, unsatisfactory, blocked, stalled, reclaimed."@ == "ccc_subagent_update review_outcome must be one of: "@ + crate::worker_events::join_with(review_outcome_values(), ", "@) + "."@,
        is_review_outcome(s) <==> review_outcome_values().contains(s),
{
    lemma_update_words_spelled();
    reveal_strlit("ccc_subagent_update review_outcome must be one of: passed, needs_work, unsatisfactory, blocked, stalled, reclaimed.");
    reveal_strlit("ccc_subagent_update review_outcome must be one of: ");
    reveal_strlit(", ");
    reveal_strlit(".");
    reveal_strlit("passed");
    reveal_strlit("needs_work");
    reveal_strlit("unsatisfactory");
    reveal_strlit("blocked");
    reveal_strlit("stalled");
    reveal_strlit("reclaimed");
    let l = review_outcome_values();
    reveal_with_fuel(crate::worker_events::join_with, 7);
    assert("ccc_subagent_update review_outcome must be one of: passed, needs_work, unsatisfactory, blocked, stalled, reclaimed."@ =~= "ccc_subagent_update review_outcome must be one of: "@ + crate::worker_events::join_with(l, ", "@) + "."@);
    if l.contains(s) {
        let i = choose|i: int| 0 <= i < l.len() && l[i] == s;
        assert(i == 0 || i == 1 || i == 2 || i == 3 || i == 4 || i == 5);
    }
    if is_review_outcome(s) {
        if s == "passed"@ {
            assert(l[0] == s);
        }
        if s == "needs_work"@ {
            assert(l[1] == s);
        }
        if s == "unsatisfactory"@ {
            assert(l[2] == s);
        }
        if s == "blocked"@ {
            assert(l[3] == s);
        }
        if s == "stalled"@ {
            assert(l[4] == s);
        }
        if s == "reclaimed"@ {
            assert(l[5] == s);
        }
    }
}

/// The values the rejection of an intervention classification names, in order.
pub open spec fn intervention_classification_values() -> Seq<Seq<char>> {
    seq!["clarification_only"@, "bounded_scope_amendment"@, "direction_or_risk_correction"@]
}

/// An intervention classification is accepted exactly when the rejection message names it: the
/// message lists the accepted values, comma-separated.
pub proof fn lemma_intervention_classification_accepts_the_named_values(s: Seq<char>)
    ensures
        "ccc_subagent_update intervention_classification must be one of: clarification_only, bounded_scope_amendment, direction_or_risk_correction."@ == "ccc_subagent_update intervention_classification must be one of: "@ + crate::worker_events::join_with(intervention_classification_values(), ", "@) + "."@,
        is_intervention_classification(s) <==> intervention_classification_values().contains(s),
{
    lemma_update_words_spelled();
    reveal_strlit("ccc_subagent_update intervention_classification must be one of: clarification_only, bounded_scope_amendment, direction_or_risk_correction.");
    reveal_strlit("ccc_subagent_update intervention_classification must be one of: ");
    reveal_strlit(", ");
    reveal_strlit(".");
    reveal_strlit("clarification_only");
    reveal_strlit("bounded_scope_amendment");
    reveal_strlit("direction_or_risk_correction");
    let l = intervention_classification_values();
    reveal_with_fuel(crate::worker_events::join_with, 4);
    assert("ccc_subagent_update intervention_classification must be one of: clarification_only, bounded_scope_amendment, direction_or_risk_correction."@ =~= "ccc_subagent_update intervention_classification must be one of: "@ + crate::worker_events::join_with(l, ", "@) + "."@);
    if l.contains(s) {
        let i = choose|i: int| 0 <= i < l.len() && l[i] == s;
        assert(i == 0 || i == 1 || i == 2);
    }
    if is_intervention_classification(s) {
        if s == "clarification_only"@ {
            assert(l[0] == s);
        }
        if s == "bounded_scope_amendment"@ {
            assert(l[1] == s);
        }
        if s == "direction_or_risk_correction"@ {
            assert(l[2] == s);
        }
    }
}

/// The values the rejection of a chosen next action names, in order.
pub open spec fn chosen_next_action_values() -> Seq<Seq<char>> {
    seq!["amend_same_worker"@, "reclaim"@, "reassign"@, "close"@, "clarify"@, "no_action"@]
}

/// A chosen next action is accepted exactly when the rejection message names it: the
/// message lists the accepted values, comma-separated.
pub proof fn lemma_chosen_next_action_accepts_the_named_values(s: Seq<char>)
    ensures
        "ccc_subagent_update chosen_next_action must be one of: amend_same_worker, reclaim, reassign, close, clarify, no_action."@ == "ccc_subagent_update chosen_next_action must be one of: "@ + crate::worker_events::join_with(chosen_next_action_values(), ", "@) + "."@,
        is_intervention_next_action(s) <==> chosen_next_action_values().contains(s),
{
    lemma_update_words_spelled();
    reveal_strlit("ccc_subagent_update chosen_next_action must be one of: amend_same_worker, reclaim, reassign, close, clarify, no_action.");
    reveal_strlit("ccc_subagent_update chosen_next_action must be one of: ");
    reveal_strlit(", ");
    reveal_strlit(".");
    reveal_strlit("amend_same_worker");
    reveal_strlit("reclaim");
    reveal_strlit("reassign");
    reveal_strlit("close");
    reveal_strlit("clarify");
    reveal_strlit("no_action");
    let l = chosen_next_action_values();
    reveal_with_fuel(crate::worker_events::join_with, 7);
    assert("ccc_subagent_update chosen_next_action must be one of: amend_same_worker, reclaim, reassign, close, clarify, no_action."@ =~= "ccc_subagent_update chosen_next_action must be one of: "@ + crate::worker_events::join_with(l, ", "@) + "."@);
    if l.contains(s) {
        let i = choose|i: int| 0 <= i < l.len() && l[i] == s;
        assert(i == 0 || i == 1 || i == 2 || i == 3 || i == 4 || i == 5);
    }
    if is_intervention_next_action(s) {
        if s == "amend_same_worker"@ {
            assert(l[0] == s);
        }
        if s == "reclaim"@ {
            assert(l[1] == s);
        }
        if s == "reassign"@ {
            assert(l[2] == s);
        }
        if s == "close"@ {
            assert(l[3] == s);
        }
        if s == "clarify"@ {
            assert(l[4] == s);
        }
        if s == "no_action"@ {
            assert(l[5] == s);
        }
    }
}

/// The values the rejection of a sentinel classification names, in order.
pub open spec fn sentinel_classification_values() -> Seq<Seq<char>> {
    seq!["observe"@, "warn"@, "enforce"@]
}

/// A sentinel classification is accepted exactly when the rejection message names it: the
/// message lists the accepted values, comma-separated.
pub proof fn lemma_sentinel_classification_accepts_the_named_values(s: Seq<char>)
    ensures
        "ccc_subagent_update sentinel_classification must be one of: observe, warn, enforce."@ == "ccc_subagent_update sentinel_classification must be one of: "@ + crate::worker_events::join_with(sentinel_classification_values(), ", "@) + "."@,
        is_sentinel_classification(s) <==> sentinel_classification_values().contains(s),
{
    lemma_update_words_spelled();
    reveal_strlit("ccc_subagent_update sentinel_classification must be one of: observe, warn, enforce.");
    reveal_strlit("ccc_subagent_update sentinel_classification must be one of: ");
    reveal_strlit(", ");
    reveal_strlit(".");
    reveal_strlit("observe");
    reveal_strlit("warn");
    reveal_strlit("enforce");
    let l = sentinel_classification_values();
    reveal_with_fuel(crate::worker_events::join_with, 4);
    assert("ccc_subagent_update sentinel_classification must be one of: observe, warn, enforce."@ =~= "ccc_subagent_update sentinel_classification must be one of: "@ + crate::worker_events::join_with(l, ", "@) + "."@);
    if l.contains(s) {
        let i = choose|i: int| 0 <= i < l.len() && l[i] == s;
        assert(i == 0 || i == 1 || i == 2);
    }
    if is_sentinel_classification(s) {
        if s == "observe"@ {
            assert(l[0] == s);
        }
        if s == "warn"@ {
            assert(l[1] == s);
        }
        if s == "enforce"@ {
            assert(l[2] == s);
        }
    }
}

/// The values the rejection of a fallback reason names, in order.
pub open spec fn fallback_reason_values() -> Seq<Seq<char>> {
    seq!["subagent_spawn_unavailable"@, "approval_blocked"@, "sandbox_incompatible"@, "config_sync_stale"@, "host_subagent_thread_limit"@, "child_timeout"@, "parent_override_conflict"@]
}

/// A fallback reason is accepted exactly when the rejection message names it: the
/// message lists the accepted values, comma-separated.
pub proof fn lemma_fallback_reason_accepts_the_named_values(s: Seq<char>)
    ensures
        "ccc_subagent_update fallback_reason must be one of: subagent_spawn_unavailable, approval_blocked, sandbox_incompatible, config_sync_stale, host_subagent_thread_limit, child_timeout, parent_override_conflict."@ == "ccc_subagent_update fallback_reason must be one of: "@ + crate::worker_events::join_with(fallback_reason_values(), ", "@) + "."@,
        is_fallback_reason(s) <==> fallback_reason_values().contains(s),
{
    lemma_update_words_spelled();
    reveal_strlit("ccc_subagent_update fallback_reason must be one of: subagent_spawn_unavailable, approval_blocked, sandbox_incompatible, config_sync_stale, host_subagent_thread_limit, child_timeout, parent_override_conflict.");
    reveal_strlit("ccc_subagent_update fallback_reason must be one of: ");
    reveal_strlit(", ");
    reveal_strlit(".");
    reveal_strlit("subagent_spawn_unavailable");
    reveal_strlit("approval_blocked");
    reveal_strlit("sandbox_incompatible");
    reveal_strlit("config_sync_stale");
    reveal_strlit("host_subagent_thread_limit");
    reveal_strlit("child_timeout");
    reveal_strlit("parent_override_conflict");
    let l = fallback_reason_values();
    reveal_with_fuel(crate::worker_events::join_with, 8);
    assert("ccc_subagent_update fallback_reason must be one of: subagent_spawn_unavailable, approval_blocked, sandbox_incompatible, config_sync_stale, host_subagent_thread_limit, child_timeout, parent_override_conflict."@ =~= "ccc_subagent_update fallback_reason must be one of: "@ + crate::worker_events::join_with(l, ", "@) + "."@);
    if l.contains(s) {
        let i = choose|i: int| 0 <= i < l.len() && l[i] == s;
        assert(i == 0 || i == 1 || i == 2 || i == 3 || i == 4 || i == 5 || i == 6);
    }
    if is_fallback_reason(s) {
        if s == "subagent_spawn_unavailable"@ {
            assert(l[0] == s);
        }
        if s == "approval_blocked"@ {
            assert(l[1] == s);
        }
        if s == "sandbox_incompatible"@ {
            assert(l[2] == s);
        }
        if s == "config_sync_stale"@ {
            assert(l[3] == s);
        }
        if s == "host_subagent_thread_limit"@ {
            assert(l[4] == s);
        }
        if s == "child_timeout"@ {
            assert(l[5] == s);
        }
        if s == "parent_override_conflict"@ {
            assert(l[6] == s);
        }
    }
}

} // verus!
