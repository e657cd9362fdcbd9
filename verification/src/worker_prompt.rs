//! What a delegated worker is launched with: its execution prompt, its
//! initial lifecycle record and its supervisor spec.

use vstd::prelude::*;
use crate::custom_agent::{default_commit_message_guidance, spec_default_commit_message_guidance};
use crate::json::{
    jget, jget_or_null, jopt, jopt_str, jstr, jstr_at, jstr_field, juint, jview, member,
    members_view, object_of, opt_u64, JVal, Json,
};
use crate::role_payloads::{spec_framing, task_expertise_framing_for_role};
use crate::strings::{
    ascii_lowercase, contains, contains_seq, opt_view, push_str, str_eq, to_ascii_lowercase,
    to_owned,
};
use crate::text_utils::{compact_prompt_text, normalized_text, prompt_fields_match, summary_of};
use crate::worker_events::join_with;

verus! {

/// A string field of a task card, or a default.
pub open spec fn field_or(j: JVal, key: Seq<char>, default: Seq<char>) -> Seq<char> {
    match jstr_field(j, key) {
        Some(s) => s,
        None => default,
    }
}

/// A prompt size limit from the runtime config (or the given default when
/// unset). Without a readable runtime config the worker defaults apply.
pub open spec fn prompt_limit(runtime: Option<JVal>, key: Seq<char>, default: nat, unread: nat) -> nat {
    match runtime {
        Some(r) => match opt_u64(jget(r, key)) {
            Some(n) => (n as usize) as nat,
            None => default,
        },
        None => unread,
    }
}

/// The `compact_prompt_text` limit applied to a text.
pub open spec fn prompt_summary(text: Seq<char>, max_chars: nat) -> Seq<char> {
    summary_of(text, if max_chars >= 24 { max_chars } else { 24 })
}

/// Whether two prompt fields say the same thing.
pub open spec fn fields_match(left: Seq<char>, right: Seq<char>) -> bool {
    crate::strings::trim(left).len() != 0 && normalized_text(left) == normalized_text(right)
}

/// The expertise framing the prompt uses: the task card's, else the role's.
pub open spec fn prompt_framing(tc: JVal) -> JVal {
    match jget(tc, "expertise_framing"@) {
        Some(f) => if f is Object {
            f
        } else {
            spec_framing(
                field_or(tc, "assigned_role"@, "code specialist"@),
                match jstr_at(tc, seq!["expertise_framing"@, "task_shape"@]) {
                    Some(s) => s,
                    None => "single_scoped_task"@,
                },
            )
        },
        None => spec_framing(
            field_or(tc, "assigned_role"@, "code specialist"@),
            "single_scoped_task"@,
        ),
    }
}

/// The lines of a worker's execution prompt: its role, expertise, stance
/// and title; its scope and acceptance unless they repeat the task; its
/// sandbox; the standing rules of a delegated specialist (with the commit
/// message guidance when the task is about commits); the fan-in it must
/// return; and the task itself.
pub open spec fn spec_task_execution_prompt_lines(tc: JVal, runtime: Option<JVal>) -> Seq<Seq<char>> {
    let framing = prompt_framing(tc);
    let title = prompt_summary(field_or(tc, "title"@, "Untitled task"@), 120);
    let scope = prompt_summary(
        field_or(tc, "scope"@, "No explicit scope."@),
        prompt_limit(runtime, "worker_prompt_scope_max_chars"@, 600, 320),
    );
    let acceptance = prompt_summary(
        field_or(tc, "acceptance"@, "No explicit acceptance criteria."@),
        prompt_limit(runtime, "worker_prompt_acceptance_max_chars"@, 400, 220),
    );
    let task = prompt_summary(
        field_or(tc, "execution_prompt"@, "Implement the bounded task."@),
        prompt_limit(runtime, "worker_prompt_task_max_chars"@, 1200, 720),
    );
    let head = seq![
        "Role: "@ + field_or(tc, "assigned_agent_id"@, "raider"@) + " ("@ + field_or(
            tc,
            "assigned_role"@,
            "code specialist"@,
        ) + ")."@,
        "Expertise: "@ + field_or(
            framing,
            "expertise_phrase"@,
            "You are an expert in bounded implementation, repair, module ownership, and focused validation."@,
        ),
        "Stance: "@ + field_or(framing, "task_stance"@, "bounded_implementation"@) + "; mode: "@
            + field_or(framing, "expected_thinking_mode"@, "smallest-defensible-change"@) + "."@,
        "Title: "@ + title,
    ];
    let with_scope = if !fields_match(scope, task) {
        head.push("Scope: "@ + scope)
    } else {
        head
    };
    let with_acceptance = if !fields_match(acceptance, task) && !fields_match(acceptance, scope) {
        with_scope.push("Acceptance: "@ + acceptance)
    } else {
        with_scope
    };
    let rules = with_acceptance + seq![
        "Sandbox: "@ + field_or(tc, "sandbox_mode"@, "workspace-write"@) + " ("@ + prompt_summary(
            field_or(
                tc,
                "sandbox_rationale"@,
                "Captain selected the sandbox mode for this bounded task."@,
            ),
            160,
        ) + ")"@,
        Seq::empty(),
        "Delegated CCC specialist: work only this bounded task; workspace files are primary context."@,
        "External paths: use exact operator paths only when readable and sandbox-allowed; copy only needed content."@,
        "If external paths or writes are blocked by sandbox/permissions, stop and return blocked with exact path and approval needed."@,
        "CCC boundary: do not edit .ccc, run.json, run-state.json, longway.json, task-cards, delegations, or raw-events; stdout only, supervisor persists fan-in."@,
        "Anti-duplication: own only the delegated search/mutation scope; do not repeat another agent's assigned exploration unless reclaim, stale output, or an explicit reason is recorded."@,
        "Do not invoke `$cap`, `ccc`, or any nested CCC workflow. Do not hand off."@,
    ];
    let commit_related = contains_seq(ascii_lowercase(title), "commit"@) || contains_seq(
        ascii_lowercase(scope),
        "commit"@,
    ) || contains_seq(ascii_lowercase(acceptance), "commit"@) || contains_seq(
        ascii_lowercase(task),
        "commit"@,
    );
    let with_guidance = if commit_related {
        rules.push(spec_default_commit_message_guidance())
    } else {
        rules
    };
    with_guidance + seq![
        "Return compact fan-in: summary, status, evidence_paths, next_action, open_questions, confidence; include validation commands/checks and unresolved risk when work is complete."@,
        Seq::empty(),
        "Task:"@,
        task,
    ]
}

/// A worker's execution prompt: its lines joined by newlines.
pub open spec fn spec_task_execution_prompt(tc: JVal, runtime: Option<JVal>) -> Seq<char> {
    join_with(spec_task_execution_prompt_lines(tc, runtime), "\n"@)
}

fn str_field_or<'a>(j: &'a Json, key: &str, default: &'a str) -> (r: &'a str)
    ensures
        r@ == field_or(jview(*j), key@, default@),
{
    match j.str_field(key) {
        Some(s) => s,
        None => default,
    }
}

fn limit(runtime_config: Option<&Json>, key: &str, default: usize, unread: usize) -> (r: usize)
    ensures
        r as nat == prompt_limit(
            match runtime_config {
                Some(r) => Some(jview(*r)),
                None => None,
            },
            key@,
            default as nat,
            unread as nat,
        ),
{
    match runtime_config {
        Some(r) => match r.u64_field(key) {
            Some(n) => #[verifier::truncate] (n as usize),
            None => default,
        },
        None => unread,
    }
}

fn push_line(lines: &mut Vec<String>, line: String)
    ensures
        final(lines)@.map_values(|s: String| s@) == old(lines)@.map_values(|s: String| s@).push(line@),
{
    let ghost before = lines@.map_values(|s: String| s@);
    let ghost lv = line@;
    lines.push(line);
    assert(lines@.map_values(|s: String| s@) =~= before.push(lv));
}

fn join_lines(lines: &Vec<String>) -> (r: String)
    ensures
        r@ == join_with(lines@.map_values(|s: String| s@), "\n"@),
{
    let ghost lv = lines@.map_values(|s: String| s@);
    let mut out = String::new();
    let mut i: usize = 0;
    assert(lv.take(0) =~= Seq::<Seq<char>>::empty());
    while i < lines.len()
        invariant
            i <= lines.len(),
            lv == lines@.map_values(|s: String| s@),
            out@ == join_with(lv.take(i as int), "\n"@),
        decreases lines.len() - i,
    {
        let ghost before = out@;
        if i > 0 {
            push_str(&mut out, "\n");
        }
        push_str(&mut out, lines[i].as_str());
        proof {
            assert(lv.take(i + 1).drop_last() =~= lv.take(i as int));
            assert(lv.take(i + 1).last() == lines@[i as int]@);
            if i == 0 {
                assert(out@ =~= lv.take(1)[0]);
            } else {
                assert(out@ =~= before + "\n"@ + lv.take(i + 1).last());
            }
        }
        i = i + 1;
    }
    assert(lv.take(lines.len() as int) =~= lv);
    out
}

fn mentions_commit(text: &str) -> (r: bool)
    ensures
        r == contains_seq(ascii_lowercase(text@), "commit"@),
{
    let lower = to_ascii_lowercase(text);
    contains(lower.as_str(), "commit")
}

/// A worker's execution prompt for a task card, under the runtime config
/// (`None` when it could not be read).
pub fn build_task_execution_prompt(task_card: &Json, runtime_config: Option<&Json>) -> (r: String)
    ensures
        r@ == spec_task_execution_prompt(
            jview(*task_card),
            match runtime_config {
                Some(c) => Some(jview(*c)),
                None => None,
            },
        ),
{
    let ghost tc = jview(*task_card);
    let ghost rv: Option<JVal> = match runtime_config {
        Some(c) => Some(jview(*c)),
        None => None,
    };
    let title_text = str_field_or(task_card, "title", "Untitled task");
    let scope_text = str_field_or(task_card, "scope", "No explicit scope.");
    let acceptance_text = str_field_or(task_card, "acceptance", "No explicit acceptance criteria.");
    let agent_id = str_field_or(task_card, "assigned_agent_id", "raider");
    let role = str_field_or(task_card, "assigned_role", "code specialist");
    let prompt_text = str_field_or(task_card, "execution_prompt", "Implement the bounded task.");
    let sandbox_mode = str_field_or(task_card, "sandbox_mode", "workspace-write");
    let sandbox_rationale = str_field_or(
        task_card,
        "sandbox_rationale",
        "Captain selected the sandbox mode for this bounded task.",
    );
    let shape_path: Vec<&str> = vec!["expertise_framing", "task_shape"];
    assert(shape_path@.map_values(|k: &str| k@) =~= seq!["expertise_framing"@, "task_shape"@]);
    let task_shape = match task_card.str_at(shape_path.as_slice()) {
        Some(s) => s,
        None => "single_scoped_task",
    };
    let fallback_framing = task_expertise_framing_for_role(role, task_shape);
    let framing: &Json = match task_card.get("expertise_framing") {
        Some(f) => if f.is_object() {
            f
        } else {
            &fallback_framing
        },
        None => &fallback_framing,
    };
    assert(jview(*framing) == prompt_framing(tc));
    let expertise_phrase = str_field_or(
        framing,
        "expertise_phrase",
        "You are an expert in bounded implementation, repair, module ownership, and focused validation.",
    );
    let task_stance = str_field_or(framing, "task_stance", "bounded_implementation");
    let thinking_mode = str_field_or(framing, "expected_thinking_mode", "smallest-defensible-change");
    let title = compact_prompt_text(title_text, 120);
    let scope = compact_prompt_text(
        scope_text,
        limit(runtime_config, "worker_prompt_scope_max_chars", 600, 320),
    );
    let acceptance = compact_prompt_text(
        acceptance_text,
        limit(runtime_config, "worker_prompt_acceptance_max_chars", 400, 220),
    );
    let task = compact_prompt_text(
        prompt_text,
        limit(runtime_config, "worker_prompt_task_max_chars", 1200, 720),
    );
    let mut lines: Vec<String> = Vec::new();
    let mut l = to_owned("Role: ");
    push_str(&mut l, agent_id);
    push_str(&mut l, " (");
    push_str(&mut l, role);
    push_str(&mut l, ").");
    push_line(&mut lines, l);
    push_line(&mut lines, crate::strings::concat2("Expertise: ", expertise_phrase));
    let mut l = to_owned("Stance: ");
    push_str(&mut l, task_stance);
    push_str(&mut l, "; mode: ");
    push_str(&mut l, thinking_mode);
    push_str(&mut l, ".");
    push_line(&mut lines, l);
    push_line(&mut lines, crate::strings::concat2("Title: ", title.as_str()));
    if !prompt_fields_match(scope.as_str(), task.as_str()) {
        push_line(&mut lines, crate::strings::concat2("Scope: ", scope.as_str()));
    }
    if !prompt_fields_match(acceptance.as_str(), task.as_str()) && !prompt_fields_match(
        acceptance.as_str(),
        scope.as_str(),
    ) {
        push_line(&mut lines, crate::strings::concat2("Acceptance: ", acceptance.as_str()));
    }
    let rationale = compact_prompt_text(sandbox_rationale, 160);
    let mut l = to_owned("Sandbox: ");
    push_str(&mut l, sandbox_mode);
    push_str(&mut l, " (");
    push_str(&mut l, rationale.as_str());
    push_str(&mut l, ")");
    push_line(&mut lines, l);
    push_line(&mut lines, String::new());
    push_line(
        &mut lines,
        to_owned(
            "Delegated CCC specialist: work only this bounded task; workspace files are primary context.",
        ),
    );
    push_line(
        &mut lines,
        to_owned(
            "External paths: use exact operator paths only when readable and sandbox-allowed; copy only needed content.",
        ),
    );
    push_line(
        &mut lines,
        to_owned(
            "If external paths or writes are blocked by sandbox/permissions, stop and return blocked with exact path and approval needed.",
        ),
    );
    push_line(
        &mut lines,
        to_owned(
            "CCC boundary: do not edit .ccc, run.json, run-state.json, longway.json, task-cards, delegations, or raw-events; stdout only, supervisor persists fan-in.",
        ),
    );
    push_line(
        &mut lines,
        to_owned(
            "Anti-duplication: own only the delegated search/mutation scope; do not repeat another agent's assigned exploration unless reclaim, stale output, or an explicit reason is recorded.",
        ),
    );
    push_line(
        &mut lines,
        to_owned("Do not invoke `$cap`, `ccc`, or any nested CCC workflow. Do not hand off."),
    );
    if mentions_commit(title.as_str()) || mentions_commit(scope.as_str()) || mentions_commit(
        acceptance.as_str(),
    ) || mentions_commit(task.as_str()) {
        push_line(&mut lines, to_owned(default_commit_message_guidance()));
    }
    push_line(
        &mut lines,
        to_owned(
            "Return compact fan-in: summary, status, evidence_paths, next_action, open_questions, confidence; include validation commands/checks and unresolved risk when work is complete.",
        ),
    );
    push_line(&mut lines, String::new());
    push_line(&mut lines, to_owned("Task:"));
    let ghost task_view = task@;
    push_line(&mut lines, task);
    assert(lines@.map_values(|s: String| s@) =~= spec_task_execution_prompt_lines(tc, rv));
    join_lines(&lines)
}

/// The summary of a freshly recorded worker state.
pub open spec fn spec_recorded_state_summary(state: Seq<char>) -> Seq<char> {
    if state == "running"@ || state == "running_active"@ {
        "Worker is actively running."@
    } else if state == "running_quiet"@ {
        "Worker is alive without recent event output."@
    } else if state == "launching"@ {
        "Worker launch was requested and is awaiting process confirmation."@
    } else if state == "returned"@ {
        "Worker returned and is ready for captain fan-in."@
    } else if state == "failed"@ {
        "Worker ended in failure and needs captain follow-up."@
    } else if state == "cancelled"@ {
        "Worker was cancelled under captain control."@
    } else if state == "stale"@ {
        "Worker appears stale and should be reclaimed explicitly."@
    } else if state == "timed_out"@ {
        "Worker exceeded the bounded timeout window and should be reclaimed explicitly."@
    } else {
        "Worker is queued for execution."@
    }
}

fn recorded_state_summary(state: &str) -> (r: &'static str)
    ensures
        r@ == spec_recorded_state_summary(state@),
{
    if str_eq(state, "running") || str_eq(state, "running_active") {
        "Worker is actively running."
    } else if str_eq(state, "running_quiet") {
        "Worker is alive without recent event output."
    } else if str_eq(state, "launching") {
        "Worker launch was requested and is awaiting process confirmation."
    } else if str_eq(state, "returned") {
        "Worker returned and is ready for captain fan-in."
    } else if str_eq(state, "failed") {
        "Worker ended in failure and needs captain follow-up."
    } else if str_eq(state, "cancelled") {
        "Worker was cancelled under captain control."
    } else if str_eq(state, "stale") {
        "Worker appears stale and should be reclaimed explicitly."
    } else if str_eq(state, "timed_out") {
        "Worker exceeded the bounded timeout window and should be reclaimed explicitly."
    } else {
        "Worker is queued for execution."
    }
}

/// The stale threshold a new lifecycle record carries: the runtime
/// config's stuck-after setting (45000 ms when unset or unreadable).
pub open spec fn spec_record_stale_after(runtime: Option<JVal>) -> nat {
    match runtime {
        Some(r) => match opt_u64(jget(r, "worker_stuck_after_ms"@)) {
            Some(n) => n as nat,
            None => 45000,
        },
        None => 45000,
    }
}

/// The lifecycle record of a delegation as it is created or relaunched.
pub open spec fn spec_delegation_worker_lifecycle_record(
    created_at: Seq<char>,
    state: Seq<char>,
    reclaim_state: Seq<char>,
    launch_requested_at: Option<Seq<char>>,
    started_at: Option<Seq<char>>,
    process_id: Option<u32>,
    process_started_at: Option<Seq<char>>,
    process_last_seen_at: Option<Seq<char>>,
    last_progress_at: Option<Seq<char>>,
    runtime: Option<JVal>,
) -> JVal {
    let stale_after = spec_record_stale_after(runtime);
    JVal::Object(
        seq![
            ("state"@, JVal::Str(state)),
            ("reclaim_state"@, JVal::Str(reclaim_state)),
            ("queued_at"@, JVal::Str(created_at)),
            ("launch_requested_at"@, jopt_str(launch_requested_at)),
            ("started_at"@, jopt_str(started_at)),
            (
                "process_id"@,
                match process_id {
                    Some(p) => JVal::Num(p as int),
                    None => JVal::Null,
                },
            ),
            ("process_started_at"@, jopt_str(process_started_at)),
            ("process_last_seen_at"@, jopt_str(process_last_seen_at)),
            (
                "last_progress_at"@,
                JVal::Str(
                    match last_progress_at {
                        Some(t) => t,
                        None => created_at,
                    },
                ),
            ),
            ("returned_at"@, JVal::Null),
            ("stale_at"@, JVal::Null),
            ("timed_out_at"@, JVal::Null),
            ("stale_after_ms"@, JVal::Num(stale_after as int)),
            ("timeout_after_ms"@, JVal::Num(stale_after as int)),
            ("summary"@, JVal::Str(spec_recorded_state_summary(state))),
        ],
    )
}

/// The lifecycle record of a delegation, under the runtime config (`None`
/// when it could not be read).
pub fn create_delegation_worker_lifecycle_record(
    created_at: &str,
    state: &str,
    reclaim_state: &str,
    launch_requested_at: Option<&str>,
    started_at: Option<&str>,
    process_id: Option<u32>,
    process_started_at: Option<&str>,
    process_last_seen_at: Option<&str>,
    last_progress_at: Option<&str>,
    runtime_config: Option<&Json>,
) -> (r: Json)
    ensures
        jview(r) == spec_delegation_worker_lifecycle_record(
            created_at@,
            state@,
            reclaim_state@,
            opt_view(launch_requested_at),
            opt_view(started_at),
            process_id,
            opt_view(process_started_at),
            opt_view(process_last_seen_at),
            opt_view(last_progress_at),
            match runtime_config {
                Some(c) => Some(jview(*c)),
                None => None,
            },
        ),
{
    let stale_after: u64 = match runtime_config {
        Some(c) => match c.u64_field("worker_stuck_after_ms") {
            Some(n) => n,
            None => 45000,
        },
        None => 45000,
    };
    let mut m: Vec<(String, Json)> = Vec::new();
    m.push(member("state", jstr(state)));
    m.push(member("reclaim_state", jstr(reclaim_state)));
    m.push(member("queued_at", jstr(created_at)));
    m.push(member("launch_requested_at", jopt(launch_requested_at)));
    m.push(member("started_at", jopt(started_at)));
    m.push(
        member(
            "process_id",
            match process_id {
                Some(p) => juint(p as u64),
                None => Json::Null,
            },
        ),
    );
    m.push(member("process_started_at", jopt(process_started_at)));
    m.push(member("process_last_seen_at", jopt(process_last_seen_at)));
    m.push(
        member(
            "last_progress_at",
            jstr(
                match last_progress_at {
                    Some(t) => t,
                    None => created_at,
                },
            ),
        ),
    );
    m.push(member("returned_at", Json::Null));
    m.push(member("stale_at", Json::Null));
    m.push(member("timed_out_at", Json::Null));
    m.push(member("stale_after_ms", juint(stale_after)));
    m.push(member("timeout_after_ms", juint(stale_after)));
    m.push(member("summary", jstr(recorded_state_summary(state))));
    let r = object_of(m);
    assert(members_view(m@) =~= spec_delegation_worker_lifecycle_record(
        created_at@,
        state@,
        reclaim_state@,
        opt_view(launch_requested_at),
        opt_view(started_at),
        process_id,
        opt_view(process_started_at),
        opt_view(process_last_seen_at),
        opt_view(last_progress_at),
        match runtime_config {
            Some(c) => Some(jview(*c)),
            None => None,
        },
    )->Object_0);
    r
}

/// The spec a worker supervisor is launched with (paths as text).
pub open spec fn spec_worker_supervisor_spec(
    workspace_dir: Seq<char>,
    run_directory: Seq<char>,
    codex_bin: Seq<char>,
    task_card: JVal,
    delegation_id: Seq<char>,
    delegation_file: Seq<char>,
    raw_events_file: Seq<char>,
    worker_codex_home: Seq<char>,
    role_config_snapshot: JVal,
    sandbox_mode: Seq<char>,
    prompt: Seq<char>,
    launched_at: Seq<char>,
) -> JVal {
    JVal::Object(
        seq![
            ("workspace_dir"@, JVal::Str(workspace_dir)),
            ("run_directory"@, JVal::Str(run_directory)),
            ("codex_bin"@, JVal::Str(codex_bin)),
            ("delegation_id"@, JVal::Str(delegation_id)),
            ("delegation_file"@, JVal::Str(delegation_file)),
            ("raw_events_file"@, JVal::Str(raw_events_file)),
            ("worker_codex_home"@, JVal::Str(worker_codex_home)),
            ("sandbox_mode"@, JVal::Str(sandbox_mode)),
            ("prompt"@, JVal::Str(prompt)),
            ("task_card"@, task_card),
            ("role_config_snapshot"@, role_config_snapshot),
            ("launched_at"@, JVal::Str(launched_at)),
        ],
    )
}

pub fn create_worker_supervisor_spec(
    workspace_dir: &str,
    run_directory: &str,
    codex_bin: &str,
    task_card: &Json,
    delegation_id: &str,
    delegation_file: &str,
    raw_events_file: &str,
    worker_codex_home: &str,
    role_config_snapshot: &Json,
    sandbox_mode: &str,
    prompt: &str,
    launched_at: &str,
) -> (r: Json)
    ensures
        jview(r) == spec_worker_supervisor_spec(
            workspace_dir@,
            run_directory@,
            codex_bin@,
            jview(*task_card),
            delegation_id@,
            delegation_file@,
            raw_events_file@,
            worker_codex_home@,
            jview(*role_config_snapshot),
            sandbox_mode@,
            prompt@,
            launched_at@,
        ),
{
    let mut m: Vec<(String, Json)> = Vec::new();
    m.push(member("workspace_dir", jstr(workspace_dir)));
    m.push(member("run_directory", jstr(run_directory)));
    m.push(member("codex_bin", jstr(codex_bin)));
    m.push(member("delegation_id", jstr(delegation_id)));
    m.push(member("delegation_file", jstr(delegation_file)));
    m.push(member("raw_events_file", jstr(raw_events_file)));
    m.push(member("worker_codex_home", jstr(worker_codex_home)));
    m.push(member("sandbox_mode", jstr(sandbox_mode)));
    m.push(member("prompt", jstr(prompt)));
    m.push(member("task_card", task_card.deep_clone()));
    m.push(member("role_config_snapshot", role_config_snapshot.deep_clone()));
    m.push(member("launched_at", jstr(launched_at)));
    let r = object_of(m);
    assert(members_view(m@) =~= spec_worker_supervisor_spec(
        workspace_dir@,
        run_directory@,
        codex_bin@,
        jview(*task_card),
        delegation_id@,
        delegation_file@,
        raw_events_file@,
        worker_codex_home@,
        jview(*role_config_snapshot),
        sandbox_mode@,
        prompt@,
        launched_at@,
    )->Object_0);
    r
}

} // verus!
