//! The custom agent files generated for the managed roles: their developer
//! instructions and their TOML text.

use vstd::prelude::*;
use crate::json::{jget, jstr_field, jview, opt_bool, JVal, Json};
use crate::roles::{
    generated_custom_agent_name, sandbox_mode_for_role, sandbox_rationale_for_role,
    spec_is_read_only_role, spec_sandbox_rationale,
};
use crate::roles_config::{
    custom_agent_description_for_role, external_path_guidance_instruction,
    fan_in_output_instruction, role_summary, spec_role_summary, token_discipline_instruction,
};
use crate::strings::{concat3, has_prefix, opt_view, push_str, str_eq, to_owned, trim, trim_string};

verus! {

/// The default commit message guidance given to commit-related work.
pub open spec fn spec_default_commit_message_guidance() -> Seq<char> {
    "Commit message guidance: for commit-related delegated work, if the operator did not provide commit message, style, or language instructions, use the default Conventional Commit-style fallback `fix(hub, worker): 비전 기본 가중치를 metric 0.4 text 0.6으로 조정`. If the operator supplies a commit message/style/language instruction, that instruction wins."@
}

pub fn default_commit_message_guidance() -> (r: &'static str)
    ensures
        r@ == spec_default_commit_message_guidance(),
{
    "Commit message guidance: for commit-related delegated work, if the operator did not provide commit message, style, or language instructions, use the default Conventional Commit-style fallback `fix(hub, worker): 비전 기본 가중치를 metric 0.4 text 0.6으로 조정`. If the operator supplies a commit message/style/language instruction, that instruction wins."
}

/// The role-specific opening of a custom agent's developer instructions.
pub open spec fn spec_developer_instructions_head(role: Seq<char>) -> Seq<char> {
    if role == "orchestrator"@ {
        "CCC captain: own LongWay, routing, fan-in, validation, closeout. Use operator language and compact prompts/results.\nClarify broad/risky/ambiguous/irreversible work with 1-3 questions; narrow work may proceed with assumptions.\nAfter $cap, no apply_patch or direct shell mutation for specialist-owned work unless terminal fallback/operator override is recorded.\nDo not repeat delegated search or mutation ownership unless reclaim, stale output, or an explicit reason is recorded in status.\nIf subagent capacity is exhausted: wait for fan-in, close completed host threads, or record reclaim/reassign/fallback before retrying.\nIf trivial/fallback work grows non-trivial, stop and delegate the follow-up.\nShow role/lane/scope/fan-in/review gate only when useful."@
    } else if role == "way"@ {
        "CCC Way: return only the distilled plan/next move. Compare options, assumptions, gates, parallel fit, and operator decisions. No file mutation; concise operator-language LongWay."@
    } else if role == "explorer"@ || role == "companion_reader"@ {
        "CCC read-only: inspect/trace and return concise file-referenced evidence. Prefer primary sources, note search bounds, avoid long excerpts. No mutation; smallest useful context."@
    } else if role == "verifier"@ {
        "CCC verifier: findings first, evidence-backed, scoped to acceptance. Check regressions, security, performance, accessibility, tests, behavior; include file-line fixes when useful. No mutation."@
    } else if role == "sentinel"@ {
        "CCC sentinel: classify owner, execution path, lane fit, shared-scope conflict, and checkpoint need. No mutation; concise risk/ownership decision."@
    } else if role == "documenter"@ {
        "CCC docs: edit only assigned docs/operator text. Keep style/translation fidelity, avoid unrelated edits, report changed files and docs-only validation."@
    } else if role == "companion_operator"@ {
        "CCC companion operator: only assigned lightweight mutation/operator command work. For git/gh/release/commit actions, keep scope explicit, avoid destructive commands without approval, and report command outcomes. "@ + spec_default_commit_message_guidance() + " Do not broaden without captain fallback/reassignment."@
    } else {
        "CCC implementer: make the smallest defensible scoped change. Respect module/ownership boundaries, choose focused tests, report validation or blocked repair handoff. Split helpers only for real duplication/testability; avoid broad rewrites and unrelated reverts."@
    }
}

fn developer_instructions_head(role: &str) -> (r: String)
    ensures
        r@ == spec_developer_instructions_head(role@),
{
    if str_eq(role, "orchestrator") {
        to_owned("CCC captain: own LongWay, routing, fan-in, validation, closeout. Use operator language and compact prompts/results.\nClarify broad/risky/ambiguous/irreversible work with 1-3 questions; narrow work may proceed with assumptions.\nAfter $cap, no apply_patch or direct shell mutation for specialist-owned work unless terminal fallback/operator override is recorded.\nDo not repeat delegated search or mutation ownership unless reclaim, stale output, or an explicit reason is recorded in status.\nIf subagent capacity is exhausted: wait for fan-in, close completed host threads, or record reclaim/reassign/fallback before retrying.\nIf trivial/fallback work grows non-trivial, stop and delegate the follow-up.\nShow role/lane/scope/fan-in/review gate only when useful.")
    } else if str_eq(role, "way") {
        to_owned("CCC Way: return only the distilled plan/next move. Compare options, assumptions, gates, parallel fit, and operator decisions. No file mutation; concise operator-language LongWay.")
    } else if str_eq(role, "explorer") || str_eq(role, "companion_reader") {
        to_owned("CCC read-only: inspect/trace and return concise file-referenced evidence. Prefer primary sources, note search bounds, avoid long excerpts. No mutation; smallest useful context.")
    } else if str_eq(role, "verifier") {
        to_owned("CCC verifier: findings first, evidence-backed, scoped to acceptance. Check regressions, security, performance, accessibility, tests, behavior; include file-line fixes when useful. No mutation.")
    } else if str_eq(role, "sentinel") {
        to_owned("CCC sentinel: classify owner, execution path, lane fit, shared-scope conflict, and checkpoint need. No mutation; concise risk/ownership decision.")
    } else if str_eq(role, "documenter") {
        to_owned("CCC docs: edit only assigned docs/operator text. Keep style/translation fidelity, avoid unrelated edits, report changed files and docs-only validation.")
    } else if str_eq(role, "companion_operator") {
        concat3("CCC companion operator: only assigned lightweight mutation/operator command work. For git/gh/release/commit actions, keep scope explicit, avoid destructive commands without approval, and report command outcomes. ", default_commit_message_guidance(), " Do not broaden without captain fallback/reassignment.")
    } else {
        to_owned("CCC implementer: make the smallest defensible scoped change. Respect module/ownership boundaries, choose focused tests, report validation or blocked repair handoff. Split helpers only for real duplication/testability; avoid broad rewrites and unrelated reverts.")
    }
}

/// The sandbox a role's custom agent runs in.
pub open spec fn spec_sandbox_mode(role: Seq<char>) -> Seq<char> {
    if spec_is_read_only_role(role) {
        "read-only"@
    } else {
        "workspace-write"@
    }
}

/// A custom agent's developer instructions: the role's opening, the
/// token-discipline line, the fan-in line (except for the captain), the
/// external-path line, the role summary and the sandbox with its rationale.
pub open spec fn spec_custom_agent_developer_instructions(role: Seq<char>, snapshot: JVal) -> Seq<
    char,
> {
    spec_developer_instructions_head(role) + "\n"@
        + "Token discipline: task-specific context only; no full-history dumps, repeated task-card text, or narrative transcript."@
        + (if role == "orchestrator"@ {
        Seq::empty()
    } else {
        "\n"@
            + "Fan-in only: summary, status, evidence_paths, next_action, open_questions, confidence. Stop when acceptance evidence is enough."@
    }) + "\n"@
        + "External paths: use exact operator paths only when readable and sandbox-allowed; if blocked, report path+approval needed."@
        + "\nSummary: "@ + spec_role_summary(role, snapshot) + "\nSandbox: "@ + spec_sandbox_mode(role)
        + ". "@ + spec_sandbox_rationale(role)
}

pub fn custom_agent_developer_instructions_for_role(role: &str, snapshot: &Json) -> (r: String)
    ensures
        r@ == spec_custom_agent_developer_instructions(role@, jview(*snapshot)),
{
    let summary = role_summary(role, snapshot);
    let mut s = developer_instructions_head(role);
    push_str(&mut s, "\n");
    push_str(&mut s, token_discipline_instruction());
    if !str_eq(role, "orchestrator") {
        push_str(&mut s, "\n");
        push_str(&mut s, fan_in_output_instruction());
    }
    push_str(&mut s, "\n");
    push_str(&mut s, external_path_guidance_instruction());
    push_str(&mut s, "\nSummary: ");
    push_str(&mut s, summary.as_str());
    push_str(&mut s, "\nSandbox: ");
    push_str(&mut s, sandbox_mode_for_role(role));
    push_str(&mut s, ". ");
    push_str(&mut s, sandbox_rationale_for_role(role));
    assert(s@ =~= spec_custom_agent_developer_instructions(role@, jview(*snapshot)));
    s
}

/// The TOML text that the toml crate's pretty serializer writes for a table
/// of string values with these entries (`None` where it reports an error).
pub uninterp spec fn toml_pretty_string_table(entries: Seq<(Seq<char>, Seq<char>)>) -> Option<Seq<char>>;

/// The views of a list of string pairs.
pub open spec fn pair_views(entries: Seq<(String, String)>) -> Seq<(Seq<char>, Seq<char>)> {
    entries.map_values(|e: (String, String)| (e.0@, e.1@))
}

#[verifier::external_type_specification]
#[verifier::external_body]
pub struct ExTomlSerError(toml::ser::Error);

/// toml's `to_string_pretty` on a `toml::Table` holding each entry as a
/// string value. The result is trusted to be
/// `toml_pretty_string_table(entries)`: a function of the entries alone.
#[verifier::external_body]
fn toml_pretty_string_table_text(entries: &Vec<(String, String)>) -> (r: Result<String, toml::ser::Error>)
    ensures
        match r {
            Ok(text) => toml_pretty_string_table(pair_views(entries@)) == Some(text@),
            Err(_) => toml_pretty_string_table(pair_views(entries@)) is None,
        },
{
    let mut table = toml::Table::new();
    for (key, value) in entries {
        table.insert(key.clone(), toml::Value::String(value.clone()));
    }
    toml::to_string_pretty(&table)
}

/// The text of a toml serialization error (its `Display`), of which nothing
/// is stated.
#[verifier::external_body]
fn toml_error_text(error: &toml::ser::Error) -> (r: String) {
    error.to_string()
}

/// A configured text with surrounding whitespace removed, unless it is blank.
pub open spec fn spec_trimmed_nonblank(o: Option<Seq<char>>) -> Option<Seq<char>> {
    match o {
        Some(s) => if trim(s).len() > 0 {
            Some(trim(s))
        } else {
            None
        },
        None => None,
    }
}

/// The entries of a role's custom agent file, in order: name, description,
/// developer instructions and sandbox, then the model, the reasoning effort
/// and the fast service tier where the snapshot sets them.
pub open spec fn spec_custom_agent_toml_entries(snapshot: JVal, role: Seq<char>, agent_id: Seq<char>) -> Seq<
    (Seq<char>, Seq<char>),
> {
    let base = seq![
        ("name"@, "ccc_"@ + agent_id),
        ("description"@, "CCC-synced specialist. "@ + spec_role_summary(role, snapshot)),
        ("developer_instructions"@, spec_custom_agent_developer_instructions(role, snapshot)),
        ("sandbox_mode"@, spec_sandbox_mode(role)),
    ];
    let with_model = match spec_trimmed_nonblank(jstr_field(snapshot, "model"@)) {
        Some(m) => base.push(("model"@, m)),
        None => base,
    };
    let with_variant = match spec_trimmed_nonblank(jstr_field(snapshot, "variant"@)) {
        Some(v) => with_model.push(("model_reasoning_effort"@, v)),
        None => with_model,
    };
    if opt_bool(jget(snapshot, "fast_mode"@)) == Some(true) {
        with_variant.push(("service_tier"@, "fast"@))
    } else {
        with_variant
    }
}

pub fn trimmed_nonblank(o: Option<&str>) -> (r: Option<String>)
    ensures
        match r {
            Some(s) => spec_trimmed_nonblank(opt_view(o)) == Some(s@),
            None => spec_trimmed_nonblank(opt_view(o)) is None,
        },
{
    match o {
        Some(s) => {
            let t = trim_string(s);
            if t.as_str().unicode_len() > 0 {
                Some(t)
            } else {
                None
            }
        },
        None => None,
    }
}

/// The entries of a role's custom agent file.
pub fn custom_agent_toml_entries(snapshot: &Json, role: &str, agent_id: &str) -> (r: Vec<(String, String)>)
    ensures
        pair_views(r@) == spec_custom_agent_toml_entries(jview(*snapshot), role@, agent_id@),
{
    let mut entries: Vec<(String, String)> = Vec::new();
    entries.push((to_owned("name"), generated_custom_agent_name(agent_id)));
    entries.push((to_owned("description"), custom_agent_description_for_role(role, snapshot)));
    entries.push(
        (
            to_owned("developer_instructions"),
            custom_agent_developer_instructions_for_role(role, snapshot),
        ),
    );
    entries.push((to_owned("sandbox_mode"), to_owned(sandbox_mode_for_role(role))));
    let ghost e0 = pair_views(entries@);
    match trimmed_nonblank(snapshot.str_field("model")) {
        Some(m) => {
            entries.push((to_owned("model"), m));
        },
        None => {},
    }
    let ghost e1 = pair_views(entries@);
    match trimmed_nonblank(snapshot.str_field("variant")) {
        Some(v) => {
            entries.push((to_owned("model_reasoning_effort"), v));
        },
        None => {},
    }
    let ghost e2 = pair_views(entries@);
    let fast = match snapshot.bool_field("fast_mode") {
        Some(b) => b,
        None => false,
    };
    if fast {
        entries.push((to_owned("service_tier"), to_owned("fast")));
    }
    proof {
        let sv = jview(*snapshot);
        let base = seq![
            ("name"@, "ccc_"@ + agent_id@),
            ("description"@, "CCC-synced specialist. "@ + spec_role_summary(role@, sv)),
            ("developer_instructions"@, spec_custom_agent_developer_instructions(role@, sv)),
            ("sandbox_mode"@, spec_sandbox_mode(role@)),
        ];
        assert(e0 =~= base);
    }
    assert(pair_views(entries@) =~= spec_custom_agent_toml_entries(jview(*snapshot), role@, agent_id@));
    entries
}

/// Why a custom agent file could not be written.
pub enum AgentTomlError {
    /// The TOML encoder refused the entries: the message names the role and
    /// the encoder's reason.
    Encode(String),
}

/// The TOML text of a role's custom agent file; an encoding error names the
/// role.
pub fn render_custom_agent_toml(snapshot: &Json, role: &str, agent_id: &str) -> (r: Result<
    String,
    AgentTomlError,
>)
    ensures
        match r {
            Ok(text) => toml_pretty_string_table(
                spec_custom_agent_toml_entries(jview(*snapshot), role@, agent_id@),
            ) == Some(text@),
            Err(AgentTomlError::Encode(message)) => toml_pretty_string_table(
                spec_custom_agent_toml_entries(jview(*snapshot), role@, agent_id@),
            ) is None && has_prefix(message@, "encode custom agent TOML for "@ + role@ + ": "@),
        },
{
    let entries = custom_agent_toml_entries(snapshot, role, agent_id);
    match toml_pretty_string_table_text(&entries) {
        Ok(text) => Ok(text),
        Err(error) => {
            let mut message = concat3("encode custom agent TOML for ", role, ": ");
            let ghost prefix = message@;
            let reason = toml_error_text(&error);
            push_str(&mut message, reason.as_str());
            assert(message@.subrange(0, prefix.len() as int) =~= prefix);
            Err(AgentTomlError::Encode(message))
        },
    }
}

} // verus!
