//! Small status-line vocabularies: checklist symbols, lifecycle summaries,
//! workflow stage names and operator command labels.

use vstd::prelude::*;
use crate::format::{decimal, push_decimal, push_repeat, repeat_char};
use crate::strings::{
    chars_of, concat3, contains, contains_seq, push_char, push_str, replace_char, replace_char_string,
    str_eq, to_owned, trim,
    trim_string, join_words, join_words_exec,
};
use crate::text_utils::{summarize_text_for_visibility, summary_of};

verus! {

pub open spec fn spec_status_symbol(s: Seq<char>) -> Seq<char> {
    if s == "completed"@ || s == "passed"@ || s == "merged"@ || s == "materialized"@ {
        "[x]"@
    } else if s == "spawned"@ || s == "acknowledged"@ || s == "opened"@ || s == "running"@ || s
        == "active"@ || s == "in_progress"@ || s == "await_fan_in"@ {
        "[~]"@
    } else if s == "failed"@ || s == "blocked"@ || s == "stalled"@ || s == "cancelled"@ || s
        == "reclaimed"@ {
        "[!]"@
    } else {
        "[ ]"@
    }
}

/// The checklist box of a row status in the app panel.
pub fn status_symbol(status: &str) -> (r: &'static str)
    ensures
        r@ == spec_status_symbol(status@),
{
    if str_eq(status, "completed") || str_eq(status, "passed") || str_eq(status, "merged")
        || str_eq(status, "materialized") {
        "[x]"
    } else if str_eq(status, "spawned") || str_eq(status, "acknowledged") || str_eq(
        status,
        "opened",
    ) || str_eq(status, "running") || str_eq(status, "active") || str_eq(status, "in_progress")
        || str_eq(status, "await_fan_in") {
        "[~]"
    } else if str_eq(status, "failed") || str_eq(status, "blocked") || str_eq(status, "stalled")
        || str_eq(status, "cancelled") || str_eq(status, "reclaimed") {
        "[!]"
    } else {
        "[ ]"
    }
}

pub open spec fn spec_subagent_status_marker(s: Seq<char>) -> Seq<char> {
    if s == "completed"@ || s == "passed"@ || s == "merged"@ || s == "materialized"@ {
        "x"@
    } else if s == "in_progress"@ || s == "running"@ || s == "active"@ || s == "ready"@ || s
        == "spawned"@ || s == "acknowledged"@ {
        ">"@
    } else if s == "failed"@ || s == "blocked"@ || s == "stalled"@ {
        "!"@
    } else if s == "cancelled"@ || s == "skipped"@ || s == "reclaimed"@ {
        "-"@
    } else {
        " "@
    }
}

/// The one-character marker of a subagent row status.
pub fn subagent_status_marker(status: &str) -> (r: &'static str)
    ensures
        r@ == spec_subagent_status_marker(status@),
{
    if str_eq(status, "completed") || str_eq(status, "passed") || str_eq(status, "merged")
        || str_eq(status, "materialized") {
        "x"
    } else if str_eq(status, "in_progress") || str_eq(status, "running") || str_eq(
        status,
        "active",
    ) || str_eq(status, "ready") || str_eq(status, "spawned") || str_eq(status, "acknowledged") {
        ">"
    } else if str_eq(status, "failed") || str_eq(status, "blocked") || str_eq(status, "stalled") {
        "!"
    } else if str_eq(status, "cancelled") || str_eq(status, "skipped") || str_eq(
        status,
        "reclaimed",
    ) {
        "-"
    } else {
        " "
    }
}

/// `s` with every `_` turned into `-`.
pub open spec fn underscores_to_dashes(s: Seq<char>) -> Seq<char> {
    replace_char(s, '_', '-')
}

/// `s.replace('_', "-")`.
pub fn dashed(s: &str) -> (r: String)
    ensures
        r@ == underscores_to_dashes(s@),
{
    replace_char_string(s, '_', '-')
}

pub open spec fn spec_operator_command_label(a: Seq<char>) -> Seq<char> {
    if a == "ccc_recommend_entry"@ {
        "internal preflight"@
    } else if a == "ccc_orchestrate"@ {
        "ccc orchestrate"@
    } else if a == "ccc_subagent_update"@ {
        "ccc subagent-update"@
    } else if a == "ccc_status"@ {
        "ccc status"@
    } else if a == "ccc_start"@ {
        "ccc start"@
    } else if a == "ccc_run"@ {
        "ccc run"@
    } else if a == "spawn_or_merge_review"@ {
        "spawn or merge review"@
    } else if a == "spawn_or_record_specialist"@ {
        "spawn or record specialist"@
    } else {
        underscores_to_dashes(a)
    }
}

/// The operator-facing label of a next-step action.
pub fn operator_command_label(action: &str) -> (r: String)
    ensures
        r@ == spec_operator_command_label(action@),
{
    if str_eq(action, "ccc_recommend_entry") {
        to_owned("internal preflight")
    } else if str_eq(action, "ccc_orchestrate") {
        to_owned("ccc orchestrate")
    } else if str_eq(action, "ccc_subagent_update") {
        to_owned("ccc subagent-update")
    } else if str_eq(action, "ccc_status") {
        to_owned("ccc status")
    } else if str_eq(action, "ccc_start") {
        to_owned("ccc start")
    } else if str_eq(action, "ccc_run") {
        to_owned("ccc run")
    } else if str_eq(action, "spawn_or_merge_review") {
        to_owned("spawn or merge review")
    } else if str_eq(action, "spawn_or_record_specialist") {
        to_owned("spawn or record specialist")
    } else {
        dashed(action)
    }
}

/// A Hangul syllable, Hangul Jamo or Hangul compatibility Jamo character.
pub open spec fn is_korean_char(c: char) -> bool {
    let n = c as u32;
    (0xac00 <= n <= 0xd7af) || (0x1100 <= n <= 0x11ff) || (0x3130 <= n <= 0x318f)
}

/// Whether any character of `text` is Korean.
pub fn text_appears_korean(text: &str) -> (r: bool)
    ensures
        r == exists|i: int| 0 <= i < text@.len() && is_korean_char(#[trigger] text@[i]),
{
    let cs = chars_of(text);
    let mut i: usize = 0;
    while i < cs.len()
        invariant
            i <= cs.len(),
            cs@ == text@,
            forall|k: int| 0 <= k < i ==> !is_korean_char(#[trigger] cs@[k]),
        decreases cs.len() - i,
    {
        let n = cs[i] as u32;
        if (0xac00 <= n && n <= 0xd7af) || (0x1100 <= n && n <= 0x11ff) || (0x3130 <= n && n
            <= 0x318f) {
            assert(is_korean_char(text@[i as int]));
            return true;
        }
        i = i + 1;
    }
    false
}

pub open spec fn spec_workflow_role_is_exploration(role: Seq<char>, agent: Seq<char>) -> bool {
    contains_seq(role, "read"@) || contains_seq(role, "explor"@) || contains_seq(role, "scout"@)
        || contains_seq(agent, "scout"@) || contains_seq(agent, "reader"@)
}

pub fn workflow_role_is_exploration(role: &str, agent: &str) -> (r: bool)
    ensures
        r == spec_workflow_role_is_exploration(role@, agent@),
{
    contains(role, "read") || contains(role, "explor") || contains(role, "scout") || contains(
        agent,
        "scout",
    ) || contains(agent, "reader")
}

pub open spec fn spec_workflow_role_is_modification(role: Seq<char>, agent: Seq<char>) -> bool {
    contains_seq(role, "code"@) || contains_seq(role, "operator"@) || contains_seq(role, "scribe"@)
        || contains_seq(role, "implementation"@) || contains_seq(agent, "raider"@) || contains_seq(
        agent,
        "operator"@,
    ) || contains_seq(agent, "scribe"@)
}

pub fn workflow_role_is_modification(role: &str, agent: &str) -> (r: bool)
    ensures
        r == spec_workflow_role_is_modification(role@, agent@),
{
    contains(role, "code") || contains(role, "operator") || contains(role, "scribe") || contains(
        role,
        "implementation",
    ) || contains(agent, "raider") || contains(agent, "operator") || contains(agent, "scribe")
}

pub open spec fn spec_workflow_stage_label(s: Seq<char>) -> Seq<char> {
    if s == "requirements_understanding"@ {
        "requirements understanding"@
    } else if s == "planning"@ {
        "planning"@
    } else if s == "exploration"@ {
        "exploration"@
    } else if s == "modification"@ {
        "modification"@
    } else if s == "review"@ {
        "review"@
    } else if s == "verification"@ {
        "verification"@
    } else {
        "unknown"@
    }
}

pub fn workflow_stage_label(stage_id: &str) -> (r: &'static str)
    ensures
        r@ == spec_workflow_stage_label(stage_id@),
{
    if str_eq(stage_id, "requirements_understanding") {
        "requirements understanding"
    } else if str_eq(stage_id, "planning") {
        "planning"
    } else if str_eq(stage_id, "exploration") {
        "exploration"
    } else if str_eq(stage_id, "modification") {
        "modification"
    } else if str_eq(stage_id, "review") {
        "review"
    } else if str_eq(stage_id, "verification") {
        "verification"
    } else {
        "unknown"
    }
}

/// `"{status}; lanes active={a} terminal={t}/{n}"`, or the no-lane text.
pub open spec fn spec_phase_row_lifecycle_summary(status: Seq<char>, active: nat, terminal: nat, lanes: nat) -> Seq<char> {
    if lanes > 0 {
        status + "; lanes active="@ + decimal(active) + " terminal="@ + decimal(terminal) + "/"@
            + decimal(lanes)
    } else {
        status + "; no parallel lane lifecycle recorded"@
    }
}

pub fn phase_row_lifecycle_summary(
    status: &str,
    active_lane_count: usize,
    terminal_lane_count: usize,
    lane_count: usize,
) -> (r: String)
    ensures
        r@ == spec_phase_row_lifecycle_summary(
            status@,
            active_lane_count as nat,
            terminal_lane_count as nat,
            lane_count as nat,
        ),
{
    let mut r = to_owned(status);
    if lane_count > 0 {
        push_str(&mut r, "; lanes active=");
        push_decimal(&mut r, active_lane_count as u64);
        push_str(&mut r, " terminal=");
        push_decimal(&mut r, terminal_lane_count as u64);
        push_str(&mut r, "/");
        push_decimal(&mut r, lane_count as u64);
    } else {
        push_str(&mut r, "; no parallel lane lifecycle recorded");
    }
    r
}

/// One half of a task-unit label: the trimmed value summarized to
/// `max_chars` with its words joined by `_`.
pub open spec fn spec_task_unit_label_part(value: Seq<char>, max_chars: nat) -> Seq<char> {
    join_words(summary_of(trim(value), max_chars), "_"@)
}

pub fn compact_task_unit_label_part(value: &str, max_chars: usize) -> (r: String)
    ensures
        r@ == spec_task_unit_label_part(value@, max_chars as nat),
{
    let t = trim_string(value);
    let s = summarize_text_for_visibility(t.as_str(), max_chars);
    join_words_exec(s.as_str(), "_")
}

/// `unit:owner`, each half compacted to 48 characters.
pub fn compact_task_unit_label(unit: &str, owner: &str) -> (r: String)
    ensures
        r@ == spec_task_unit_label_part(unit@, 48) + ":"@ + spec_task_unit_label_part(owner@, 48),
{
    let a = compact_task_unit_label_part(unit, 48);
    let b = compact_task_unit_label_part(owner, 48);
    concat3(a.as_str(), ":", b.as_str())
}

/// The views of a list of labels.
pub open spec fn label_views(v: Seq<String>) -> Seq<Seq<char>> {
    v.map_values(|s: String| s@)
}

/// Appends `label` unless an equal label is already present.
pub fn push_unique_label(labels: &mut Vec<String>, label: String)
    ensures
        label_views(final(labels)@) == (if label_views(old(labels)@).contains(label@) {
            label_views(old(labels)@)
        } else {
            label_views(old(labels)@).push(label@)
        }),
{
    let mut i: usize = 0;
    while i < labels.len()
        invariant
            i <= labels.len(),
            labels@ == old(labels)@,
            forall|k: int| 0 <= k < i ==> labels@[k]@ != label@,
        decreases labels.len() - i,
    {
        if labels[i] == label {
            assert(label_views(labels@)[i as int] == label@);
            return;
        }
        i = i + 1;
    }
    proof {
        if label_views(old(labels)@).contains(label@) {
            let k = choose|k: int| 0 <= k < label_views(old(labels)@).len() && label_views(old(labels)@)[k] == label@;
            assert(old(labels)@[k]@ == label@);
        }
    }
    labels.push(label);
    assert(label_views(labels@) =~= label_views(old(labels)@).push(label@));
}

/// A `[###---] N%` gauge of `completed` out of `total`, `width` cells wide
/// (`[------] --%` when the total is zero).
pub open spec fn spec_progress_gauge(completed: nat, total: nat, width: nat) -> Seq<char> {
    if total == 0 {
        "["@ + repeat_char('-', width) + "] --%"@
    } else {
        let c = if completed <= total { completed } else { total };
        let filled = (c * width + total / 2) / total;
        "["@ + repeat_char('#', filled) + repeat_char(
            '-',
            if width >= filled { (width - filled) as nat } else { 0 },
        ) + "] "@ + decimal(c * 100 / total) + "%"@
    }
}

pub fn progress_gauge(completed: u64, total: u64, width: usize) -> (r: String)
    requires
        total <= usize::MAX,
        (if completed <= total { completed as int } else { total as int }) * width + total / 2
            <= usize::MAX,
        (if completed <= total { completed as int } else { total as int }) * 100 <= u64::MAX,
    ensures
        r@ == spec_progress_gauge(completed as nat, total as nat, width as nat),
{
    let mut r = to_owned("[");
    if total == 0 {
        push_repeat(&mut r, '-', width);
        push_str(&mut r, "] --%");
        return r;
    }
    let c: u64 = if completed <= total { completed } else { total };
    let cu = c as usize;
    let tu = total as usize;
    assert(cu as int * width + tu / 2 <= usize::MAX);
    let filled: usize = (cu * width + tu / 2) / tu;
    let percent: u64 = (c * 100) / total;
    push_repeat(&mut r, '#', filled);
    let rest: usize = if width >= filled { width - filled } else { 0 };
    push_repeat(&mut r, '-', rest);
    push_str(&mut r, "] ");
    push_decimal(&mut r, percent);
    push_str(&mut r, "%");
    r
}

pub open spec fn spec_worker_lifecycle_summary(s: Seq<char>) -> Seq<char> {
    if s == "queued"@ {
        "queued and waiting for captain launch"@
    } else if s == "launching"@ {
        "launch requested and waiting for worker start proof"@
    } else if s == "running"@ || s == "running_active"@ {
        "running with recent bounded progress"@
    } else if s == "running_quiet"@ {
        "running without recent event output but still alive"@
    } else if s == "returned"@ {
        "returned to captain and ready for explicit fan-in"@
    } else if s == "failed"@ {
        "failed and needs captain follow-up"@
    } else if s == "cancelled"@ {
        "cancelled under captain control"@
    } else if s == "stale"@ {
        "stale and needs bounded reclaim"@
    } else if s == "timed_out"@ {
        "timed out and needs bounded reclaim"@
    } else {
        "worker lifecycle is unavailable"@
    }
}

/// The operator sentence for a worker lifecycle state.
pub fn summarize_visible_worker_lifecycle_state(state: &str) -> (r: &'static str)
    ensures
        r@ == spec_worker_lifecycle_summary(state@),
{
    if str_eq(state, "queued") {
        "queued and waiting for captain launch"
    } else if str_eq(state, "launching") {
        "launch requested and waiting for worker start proof"
    } else if str_eq(state, "running") || str_eq(state, "running_active") {
        "running with recent bounded progress"
    } else if str_eq(state, "running_quiet") {
        "running without recent event output but still alive"
    } else if str_eq(state, "returned") {
        "returned to captain and ready for explicit fan-in"
    } else if str_eq(state, "failed") {
        "failed and needs captain follow-up"
    } else if str_eq(state, "cancelled") {
        "cancelled under captain control"
    } else if str_eq(state, "stale") {
        "stale and needs bounded reclaim"
    } else if str_eq(state, "timed_out") {
        "timed out and needs bounded reclaim"
    } else {
        "worker lifecycle is unavailable"
    }
}

pub open spec fn spec_registry_status(s: Seq<char>) -> Seq<char> {
    if s == "available"@ || s == "invalid"@ || s == "stale"@ || s == "drift_detected"@ {
        s
    } else {
        "missing"@
    }
}

/// The skill-registry status for a manifest status: the four known statuses
/// carry over, anything else is `missing`.
pub fn registry_status_from_manifest(manifest_status: &str) -> (r: &'static str)
    ensures
        r@ == spec_registry_status(manifest_status@),
{
    if str_eq(manifest_status, "available") {
        "available"
    } else if str_eq(manifest_status, "invalid") {
        "invalid"
    } else if str_eq(manifest_status, "stale") {
        "stale"
    } else if str_eq(manifest_status, "drift_detected") {
        "drift_detected"
    } else {
        "missing"
    }
}

/// The status words and marks, spelled out.
proof fn lemma_status_words_spelled()
    ensures
        " "@.len() == 1,
        " "@[0] == ' ',
        "!"@.len() == 1,
        "!"@[0] == '!',
        "-"@.len() == 1,
        "-"@[0] == '-',
        ">"@.len() == 1,
        ">"@[0] == '>',
        "[ ]"@.len() == 3,
        "[ ]"@[0] == '[',
        "[ ]"@[1] == ' ',
        "[!]"@.len() == 3,
        "[!]"@[0] == '[',
        "[!]"@[1] == '!',
        "[x]"@.len() == 3,
        "[x]"@[0] == '[',
        "[x]"@[1] == 'x',
        "[~]"@.len() == 3,
        "[~]"@[0] == '[',
        "[~]"@[1] == '~',
        "acknowledged"@.len() == 12,
        "acknowledged"@[0] == 'a',
        "acknowledged"@[1] == 'c',
        "active"@.len() == 6,
        "active"@[0] == 'a',
        "await_fan_in"@.len() == 12,
        "await_fan_in"@[0] == 'a',
        "await_fan_in"@[1] == 'w',
        "blocked"@.len() == 7,
        "blocked"@[0] == 'b',
        "cancelled"@.len() == 9,
        "cancelled"@[0] == 'c',
        "cancelled"@[1] == 'a',
        "completed"@.len() == 9,
        "completed"@[0] == 'c',
        "completed"@[1] == 'o',
        "failed"@.len() == 6,
        "failed"@[0] == 'f',
        "in_progress"@.len() == 11,
        "materialized"@.len() == 12,
        "materialized"@[0] == 'm',
        "merged"@.len() == 6,
        "merged"@[0] == 'm',
        "opened"@.len() == 6,
        "opened"@[0] == 'o',
        "passed"@.len() == 6,
        "passed"@[0] == 'p',
        "ready"@.len() == 5,
        "reclaimed"@.len() == 9,
        "reclaimed"@[0] == 'r',
        "running"@.len() == 7,
        "running"@[0] == 'r',
        "skipped"@.len() == 7,
        "skipped"@[0] == 's',
        "skipped"@[1] == 'k',
        "spawned"@.len() == 7,
        "spawned"@[0] == 's',
        "spawned"@[1] == 'p',
        "stalled"@.len() == 7,
        "stalled"@[0] == 's',
        "stalled"@[1] == 't',
        "x"@.len() == 1,
        "x"@[0] == 'x',
{
    reveal_strlit(" ");
    reveal_strlit("!");
    reveal_strlit("-");
    reveal_strlit(">");
    reveal_strlit("[ ]");
    reveal_strlit("[!]");
    reveal_strlit("[x]");
    reveal_strlit("[~]");
    reveal_strlit("acknowledged");
    reveal_strlit("active");
    reveal_strlit("await_fan_in");
    reveal_strlit("blocked");
    reveal_strlit("cancelled");
    reveal_strlit("completed");
    reveal_strlit("failed");
    reveal_strlit("in_progress");
    reveal_strlit("materialized");
    reveal_strlit("merged");
    reveal_strlit("opened");
    reveal_strlit("passed");
    reveal_strlit("ready");
    reveal_strlit("reclaimed");
    reveal_strlit("running");
    reveal_strlit("skipped");
    reveal_strlit("spawned");
    reveal_strlit("stalled");
    reveal_strlit("x");
}

/// The app panel boxes a row `[x]` exactly when it is done (completed,
/// passed, merged or materialized), `[~]` exactly when it is under way,
/// `[!]` exactly when it failed, is blocked, stalled, cancelled or
/// reclaimed, and `[ ]` otherwise.
pub proof fn lemma_status_symbol_classes(s: Seq<char>)
    ensures
        spec_status_symbol(s) == "[x]"@ <==> (s == "completed"@ || s == "passed"@ || s == "merged"@ || s == "materialized"@),
        spec_status_symbol(s) == "[~]"@ <==> (s == "spawned"@ || s == "acknowledged"@ || s == "opened"@ || s == "running"@ || s == "active"@ || s == "in_progress"@ || s == "await_fan_in"@),
        spec_status_symbol(s) == "[!]"@ <==> (s == "failed"@ || s == "blocked"@ || s == "stalled"@ || s == "cancelled"@ || s == "reclaimed"@),
        spec_status_symbol(s) == "[ ]"@ <==> !((s == "completed"@ || s == "passed"@ || s == "merged"@ || s == "materialized"@) || (s == "spawned"@ || s == "acknowledged"@ || s == "opened"@ || s == "running"@ || s == "active"@ || s == "in_progress"@ || s == "await_fan_in"@) || (s == "failed"@ || s == "blocked"@ || s == "stalled"@ || s == "cancelled"@ || s == "reclaimed"@)),
{
    lemma_status_words_spelled();
}

/// A subagent lane row is marked `x` exactly when it is done, `>` exactly
/// when it is under way, `!` exactly when it failed, is blocked or stalled,
/// `-` exactly when it was cancelled, skipped or reclaimed, and blank
/// otherwise.
pub proof fn lemma_subagent_status_marker_classes(s: Seq<char>)
    ensures
        spec_subagent_status_marker(s) == "x"@ <==> (s == "completed"@ || s == "passed"@ || s == "merged"@ || s == "materialized"@),
        spec_subagent_status_marker(s) == ">"@ <==> (s == "in_progress"@ || s == "running"@ || s == "active"@ || s == "ready"@ || s == "spawned"@ || s == "acknowledged"@),
        spec_subagent_status_marker(s) == "!"@ <==> (s == "failed"@ || s == "blocked"@ || s == "stalled"@),
        spec_subagent_status_marker(s) == "-"@ <==> (s == "cancelled"@ || s == "skipped"@ || s == "reclaimed"@),
        spec_subagent_status_marker(s) == " "@ <==> !((s == "completed"@ || s == "passed"@ || s == "merged"@ || s == "materialized"@) || (s == "in_progress"@ || s == "running"@ || s == "active"@ || s == "ready"@ || s == "spawned"@ || s == "acknowledged"@) || (s == "failed"@ || s == "blocked"@ || s == "stalled"@) || (s == "cancelled"@ || s == "skipped"@ || s == "reclaimed"@)),
{
    lemma_status_words_spelled();
}

} // verus!
