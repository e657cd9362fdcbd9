//! The whole operator status text of a payload and its visibility
//! signature.

use vstd::prelude::*;
use crate::app_panel_text::{flag, text1, text2, text_at, text_or, flag_path};
use crate::checklist_text::{build_longway_checklist_block, spec_longway_checklist_block};
use crate::json::{jget, jstr_field, jview, opt_u64, JVal, Json};
use crate::operator_text::{
    or_else, opt_part, push_opt_part, next_actor_label, spec_next_actor_label,
    build_operator_projection_status_block, spec_operator_projection_status_block, build_prompt_refinement_line,
    spec_prompt_refinement_line, build_registry_evidence_line, spec_registry_evidence_line, build_graph_context_line,
    spec_graph_context_line, build_state_contract_line, spec_state_contract_line, build_active_checkpoint_line,
    spec_active_checkpoint_line, build_task_session_state_line, spec_task_session_state_line,
    build_verification_capsule_line, spec_verification_capsule_line, build_delegated_ownership_line,
    spec_delegated_ownership_line, build_recovery_lane_line, spec_recovery_lane_line, build_workflow_loop_line,
    spec_workflow_loop_line, build_lifecycle_hooks_line, spec_lifecycle_hooks_line, build_routing_trace_line,
    spec_routing_trace_line, build_captain_direct_mutation_guard_line, spec_captain_direct_mutation_guard_line,
    build_sentinel_intervention_line, spec_sentinel_intervention_line,
};
use crate::skill_manifest::{join_strings, string_views};
use crate::strings::{ascii_lowercase, contains_seq, opt_string_view, push_char, push_str, to_owned};
use crate::text_utils::{summarize_text_for_visibility, summary_of};
use crate::worker_events::join_with;

verus! {

/// The pieces of a text between its newlines (one more than it has
/// newlines).
pub open spec fn line_pieces(s: Seq<char>) -> Seq<Seq<char>>
    decreases s.len(),
{
    if s.len() == 0 {
        seq![Seq::empty()]
    } else {
        let p = line_pieces(s.drop_last());
        if s.last() == '\n' {
            p.push(Seq::empty())
        } else {
            p.update(p.len() - 1, p.last().push(s.last()))
        }
    }
}

/// A line without the carriage return that ended it.
pub open spec fn strip_cr(l: Seq<char>) -> Seq<char> {
    if l.len() > 0 && l.last() == '\r' {
        l.drop_last()
    } else {
        l
    }
}

/// `str::lines`: the lines of a text, each ended by `\n` or `\r\n`, the
/// last one's ending optional.
pub open spec fn text_lines(s: Seq<char>) -> Seq<Seq<char>> {
    let p = line_pieces(s);
    let body = p.drop_last().map_values(|l: Seq<char>| strip_cr(l));
    if p.last().len() == 0 {
        body
    } else {
        body.push(p.last())
    }
}

proof fn lemma_line_pieces_nonempty(s: Seq<char>)
    ensures
        line_pieces(s).len() >= 1,
    decreases s.len(),
{
    if s.len() > 0 {
        lemma_line_pieces_nonempty(s.drop_last());
    }
}

fn strip_cr_string(l: String) -> (r: String)
    ensures
        r@ == strip_cr(l@),
{
    let cs = crate::strings::chars_of(l.as_str());
    if cs.len() > 0 && cs[cs.len() - 1] == '\r' {
        crate::strings::string_from_chars(&cs, 0, cs.len() - 1)
    } else {
        l
    }
}

/// The lines of a text (see `text_lines`).
pub fn lines_of(s: &str) -> (r: Vec<String>)
    ensures
        string_views(r@) == text_lines(s@),
{
    let cs = crate::strings::chars_of(s);
    let mut done: Vec<String> = Vec::new();
    let mut cur = String::new();
    let mut i: usize = 0;
    assert(cs@.take(0) =~= Seq::<char>::empty());
    assert(string_views(done@).push(cur@) =~= line_pieces(cs@.take(0)));
    while i < cs.len()
        invariant
            i <= cs.len(),
            string_views(done@).push(cur@) == line_pieces(cs@.take(i as int)),
        decreases cs.len() - i,
    {
        let c = cs[i];
        assert(cs@.take(i + 1).drop_last() =~= cs@.take(i as int));
        assert(cs@.take(i + 1).last() == c);
        proof {
            lemma_line_pieces_nonempty(cs@.take(i as int));
        }
        let ghost before = string_views(done@);
        if c == '\n' {
            let ghost cv = cur@;
            done.push(cur);
            cur = String::new();
            assert(string_views(done@) =~= before.push(cv));
            assert(string_views(done@).push(cur@) =~= line_pieces(cs@.take(i + 1)));
        } else {
            push_char(&mut cur, c);
            assert(string_views(done@).push(cur@) =~= line_pieces(cs@.take(i + 1)));
        }
        i = i + 1;
    }
    assert(cs@.take(cs.len() as int) =~= s@);
    let ghost p = line_pieces(s@);
    assert(string_views(done@) =~= p.drop_last());
    let mut out: Vec<String> = Vec::new();
    let mut k: usize = 0;
    while k < done.len()
        invariant
            k <= done.len(),
            string_views(done@) == p.drop_last(),
            string_views(out@) == p.drop_last().take(k as int).map_values(|l: Seq<char>| strip_cr(l)),
        decreases done.len() - k,
    {
        let ghost before = string_views(out@);
        assert(p.drop_last()[k as int] == done@[k as int]@);
        let l = strip_cr_string(to_owned(done[k].as_str()));
        let ghost lv = l@;
        out.push(l);
        assert(string_views(out@) =~= before.push(lv));
        assert(string_views(out@) =~= p.drop_last().take(k + 1).map_values(|l: Seq<char>| strip_cr(l)));
        k = k + 1;
    }
    assert(p.drop_last().take(done.len() as int) =~= p.drop_last());
    if cur.as_str().unicode_len() > 0 {
        let ghost before = string_views(out@);
        let ghost cv = cur@;
        out.push(cur);
        assert(string_views(out@) =~= before.push(cv));
    }
    out
}

/// The lines that open the operator status: the projection block, else the
/// checklist block, else `LongWay`, then the prompt refinement line.
#[verifier::opaque]
pub open spec fn spec_operator_status_intro_lines(payload: JVal) -> Seq<Seq<char>> {
    (match or_else(spec_operator_projection_status_block(payload), spec_longway_checklist_block(payload)) {
        Some(block) => text_lines(block),
        None => seq!["LongWay"@],
    }) + opt_part(spec_prompt_refinement_line(payload))
}

pub fn operator_status_intro_lines(payload: &Json) -> (r: Vec<String>)
    ensures
        string_views(r@) == spec_operator_status_intro_lines(jview(*payload)),
{
    reveal(spec_operator_status_intro_lines);
    let block = match build_operator_projection_status_block(payload) {
        Some(b) => Some(b),
        None => build_longway_checklist_block(payload),
    };
    let mut lines = match block {
        Some(b) => lines_of(b.as_str()),
        None => {
            let mut v: Vec<String> = Vec::new();
            v.push(to_owned("LongWay"));
            assert(string_views(v@) =~= seq!["LongWay"@]);
            v
        },
    };
    push_opt_part(&mut lines, build_prompt_refinement_line(payload));
    lines
}

/// `Sequence: ...` for a payload with a sequence.
pub open spec fn spec_sequence_line(payload: JVal) -> Option<Seq<char>> {
    match text_at(payload, seq!["sequence"@]) {
        Some(sq) => Some(
            "Sequence: "@ + sq + " stage="@ + text_or(jstr_field(payload, "stage"@), "unknown"@) + " approval="@
                + text_or(jstr_field(payload, "approval_state"@), "unknown"@),
        ),
        None => None,
    }
}

fn sequence_line(payload: &Json) -> (r: Option<String>)
    ensures
        opt_string_view(r) == spec_sequence_line(jview(*payload)),
{
    match text1(payload, "sequence") {
        Some(sq) => {
            let mut line = to_owned("Sequence: ");
            push_str(&mut line, sq);
            push_str(&mut line, " stage=");
            push_str(&mut line, crate::app_panel_text::or_text(payload.str_field("stage"), "unknown"));
            push_str(&mut line, " approval=");
            push_str(&mut line, crate::app_panel_text::or_text(payload.str_field("approval_state"), "unknown"));
            Some(line)
        },
        None => None,
    }
}

/// The state lines of the operator status, in order, each when present.
#[verifier::opaque]
pub open spec fn spec_operator_state_lines(payload: JVal) -> Seq<Seq<char>> {
    opt_part(spec_sequence_line(payload)) + opt_part(spec_registry_evidence_line(payload)) + opt_part(
        spec_graph_context_line(payload),
    ) + opt_part(spec_state_contract_line(payload)) + opt_part(spec_active_checkpoint_line(payload)) + opt_part(
        spec_task_session_state_line(payload),
    ) + opt_part(spec_verification_capsule_line(payload)) + opt_part(spec_delegated_ownership_line(payload))
        + opt_part(spec_recovery_lane_line(payload)) + opt_part(spec_workflow_loop_line(payload)) + opt_part(
        spec_lifecycle_hooks_line(payload),
    ) + opt_part(spec_routing_trace_line(payload)) + opt_part(spec_captain_direct_mutation_guard_line(payload))
        + opt_part(spec_sentinel_intervention_line(payload))
}

fn operator_state_lines(payload: &Json, lines: &mut Vec<String>)
    ensures
        string_views(final(lines)@) == string_views(old(lines)@) + spec_operator_state_lines(jview(*payload)),
{
    reveal(spec_operator_state_lines);
    let ghost start = string_views(lines@);
    let mut more: Vec<String> = Vec::new();
    push_opt_part(&mut more, sequence_line(payload));
    push_opt_part(&mut more, build_registry_evidence_line(payload));
    push_opt_part(&mut more, build_graph_context_line(payload));
    push_opt_part(&mut more, build_state_contract_line(payload));
    push_opt_part(&mut more, build_active_checkpoint_line(payload));
    push_opt_part(&mut more, build_task_session_state_line(payload));
    push_opt_part(&mut more, build_verification_capsule_line(payload));
    push_opt_part(&mut more, build_delegated_ownership_line(payload));
    push_opt_part(&mut more, build_recovery_lane_line(payload));
    push_opt_part(&mut more, build_workflow_loop_line(payload));
    push_opt_part(&mut more, build_lifecycle_hooks_line(payload));
    push_opt_part(&mut more, build_routing_trace_line(payload));
    push_opt_part(&mut more, build_captain_direct_mutation_guard_line(payload));
    push_opt_part(&mut more, build_sentinel_intervention_line(payload));
    assert(string_views(more@) =~= spec_operator_state_lines(jview(*payload)));
    let ghost mv = string_views(more@);
    let mut i: usize = 0;
    while i < more.len()
        invariant
            i <= more.len(),
            mv == string_views(more@),
            string_views(lines@) == start + mv.take(i as int),
        decreases more.len() - i,
    {
        assert(mv[i as int] == more@[i as int]@);
        let s = to_owned(more[i].as_str());
        let ghost before = string_views(lines@);
        let ghost sv = s@;
        lines.push(s);
        assert(string_views(lines@) =~= before.push(sv));
        assert(string_views(lines@) =~= start + mv.take(i + 1));
        i = i + 1;
    }
    assert(mv.take(more.len() as int) =~= mv);
}

/// An orchestrator synthesis worth showing: one that reclaimed, selected,
/// closed the run or names a checkpoint.
pub open spec fn notable_synthesis(payload: JVal) -> Option<Seq<char>> {
    match jstr_field(payload, "latest_orchestrator_synthesis"@) {
        Some(v) => {
            let n = ascii_lowercase(v);
            if contains_seq(n, "reclaimed"@) || contains_seq(n, "selected"@) || contains_seq(n, "closed the run"@)
                || contains_seq(n, "checkpoint"@) {
                Some(v)
            } else {
                None
            }
        },
        None => None,
    }
}

/// What changed: the latest delegate result's preview, else its summary,
/// else a notable orchestrator synthesis.
pub open spec fn changed_text(payload: JVal) -> Option<Seq<char>> {
    or_else(
        text_at(payload, seq!["latest_delegate_result"@, "assistant_message_preview"@]),
        or_else(text_at(payload, seq!["latest_delegate_result"@, "result_summary"@]), notable_synthesis(payload)),
    )
}

/// The output settings: the payload's own, else the default.
pub open spec fn output_of(payload: JVal, default_output: JVal) -> JVal {
    match jget(payload, "output"@) {
        Some(o) => o,
        None => default_output,
    }
}

/// How many characters the `Changed:` line keeps (160 unless set).
pub open spec fn changed_max_chars(output: JVal) -> nat {
    match opt_u64(jget(output, "changed_max_chars"@)) {
        Some(n) => (n as usize) as nat,
        None => 160,
    }
}

/// `Changed: ...` when something changed.
#[verifier::opaque]
pub open spec fn spec_changed_line(payload: JVal, default_output: JVal) -> Option<Seq<char>> {
    match changed_text(payload) {
        Some(c) => Some("Changed: "@ + summary_of(c, changed_max_chars(output_of(payload, default_output)))),
        None => None,
    }
}

fn notable_synthesis_text(payload: &Json) -> (r: Option<&str>)
    ensures
        crate::strings::opt_view(r) == notable_synthesis(jview(*payload)),
{
    match payload.str_field("latest_orchestrator_synthesis") {
        Some(v) => {
            let n = crate::strings::to_ascii_lowercase(v);
            let ns = n.as_str();
            if crate::strings::contains(ns, "reclaimed") || crate::strings::contains(ns, "selected")
                || crate::strings::contains(ns, "closed the run") || crate::strings::contains(ns, "checkpoint") {
                Some(v)
            } else {
                None
            }
        },
        None => None,
    }
}

fn changed_line(payload: &Json, default_output: &Json) -> (r: Option<String>)
    ensures
        opt_string_view(r) == spec_changed_line(jview(*payload), jview(*default_output)),
{
    reveal(spec_changed_line);
    let changed = match text2(payload, "latest_delegate_result", "assistant_message_preview") {
        Some(c) => c,
        None => match text2(payload, "latest_delegate_result", "result_summary") {
            Some(c) => c,
            None => match notable_synthesis_text(payload) {
                Some(c) => c,
                None => return None,
            },
        },
    };
    let output = match payload.get("output") {
        Some(o) => o,
        None => default_output,
    };
    let max_chars: usize = match output.get("changed_max_chars") {
        Some(v) => match v.as_u64() {
            Some(n) => n as usize,
            None => 160,
        },
        None => 160,
    };
    let mut line = to_owned("Changed: ");
    push_str(&mut line, summarize_text_for_visibility(changed, max_chars).as_str());
    Some(line)
}

/// The operator status text: the opening lines, the state lines, what
/// changed, and who acts next, one per line.
pub open spec fn spec_ccc_status_operator_text(payload: JVal, default_output: JVal) -> Seq<char> {
    let next_action = text_or(jstr_field(payload, "next_step"@), "see structuredContent.run_state"@);
    let fan_in_ready = flag(payload, seq!["run_truth_surface"@, "fan_in_ready"@]);
    join_with(
        spec_operator_status_intro_lines(payload) + spec_operator_state_lines(payload) + opt_part(
            spec_changed_line(payload, default_output),
        ) + seq!["Next: "@ + spec_next_actor_label(payload, next_action, fan_in_ready)],
        "\n"@,
    )
}

/// The operator status text of a payload; `default_output` holds the
/// output settings used when the payload has none.
pub fn create_ccc_status_operator_text(payload: &Json, default_output: &Json) -> (r: String)
    ensures
        r@ == spec_ccc_status_operator_text(jview(*payload), jview(*default_output)),
{
    let next_action = crate::app_panel_text::or_text(payload.str_field("next_step"), "see structuredContent.run_state");
    let keys: [&str; 2] = ["run_truth_surface", "fan_in_ready"];
    assert(keys@.map_values(|k: &str| k@) =~= seq!["run_truth_surface"@, "fan_in_ready"@]);
    let fan_in_ready = flag_path(payload, keys.as_slice());
    let next_actor = next_actor_label(payload, next_action, fan_in_ready);
    let mut lines = operator_status_intro_lines(payload);
    operator_state_lines(payload, &mut lines);
    push_opt_part(&mut lines, changed_line(payload, default_output));
    let mut next = to_owned("Next: ");
    push_str(&mut next, next_actor.as_str());
    let ghost before = string_views(lines@);
    let ghost nv = next@;
    lines.push(next);
    assert(string_views(lines@) =~= before.push(nv));
    assert(string_views(lines@) =~= spec_operator_status_intro_lines(jview(*payload)) + spec_operator_state_lines(
        jview(*payload),
    ) + opt_part(spec_changed_line(jview(*payload), jview(*default_output))) + seq![nv]);
    join_strings(&lines, "\n")
}

/// The visibility signature of a payload's operator status text.
pub fn create_visibility_signature(payload: &Json, default_output: &Json) -> (r: String)
    ensures
        r@ == crate::signature::spec_visibility_signature(spec_ccc_status_operator_text(jview(*payload), jview(*default_output))),
        r@.len() == 16,
{
    let text = create_ccc_status_operator_text(payload, default_output);
    crate::signature::visibility_signature(text.as_str())
}

/// The output settings of a CCC config: its verbosity (`quiet`, `default`
/// or `debug`; `default` otherwise), the positive number of characters a
/// `Changed:` line keeps (160 otherwise), and whether the agent loop shows
/// when idle (`false` otherwise).
pub open spec fn spec_output_config(config: JVal) -> JVal {
    let out = crate::app_panel::or_null(jget(config, "output"@));
    JVal::Object(
        seq![
            (
                "verbosity"@,
                JVal::Str(
                    match jstr_field(out, "verbosity"@) {
                        Some(v) => if v == "quiet"@ || v == "default"@ || v == "debug"@ {
                            v
                        } else {
                            "default"@
                        },
                        None => "default"@,
                    },
                ),
            ),
            (
                "changed_max_chars"@,
                JVal::Num(
                    match crate::json::opt_i64(jget(out, "changed_max_chars"@)) {
                        Some(n) => if n > 0 {
                            n
                        } else {
                            160
                        },
                        None => 160,
                    },
                ),
            ),
            (
                "include_agent_loop_when_idle"@,
                JVal::Bool(crate::json::opt_bool(jget(out, "include_agent_loop_when_idle"@)) == Some(true)),
            ),
        ],
    )
}

pub fn output_config_from_config(config: &Json) -> (r: Json)
    ensures
        jview(r) == spec_output_config(jview(*config)),
{
    let null = Json::Null;
    let out: &Json = match config.get("output") {
        Some(o) => o,
        None => &null,
    };
    let verbosity: &str = match out.str_field("verbosity") {
        Some(v) => if crate::strings::str_eq(v, "quiet") || crate::strings::str_eq(v, "default")
            || crate::strings::str_eq(v, "debug") {
            v
        } else {
            "default"
        },
        None => "default",
    };
    let max: i64 = match out.i64_field("changed_max_chars") {
        Some(n) => if n > 0 {
            n
        } else {
            160
        },
        None => 160,
    };
    let idle = match out.get("include_agent_loop_when_idle") {
        Some(v) => match v.as_bool() {
            Some(b) => b,
            None => false,
        },
        None => false,
    };
    let mut m: Vec<(String, Json)> = Vec::new();
    m.push(crate::json::member("verbosity", crate::json::jstr(verbosity)));
    m.push(crate::json::member("changed_max_chars", crate::json::jint(max)));
    m.push(crate::json::member("include_agent_loop_when_idle", crate::json::jbool(idle)));
    let r = crate::json::object_of(m);
    assert(crate::json::members_view(m@) =~= spec_output_config(jview(*config))->Object_0);
    r
}

} // verus!
