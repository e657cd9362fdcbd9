//! What a worker's raw event stream says: its thread, its latest message
//! and token usage, how its turn ended, whether execution failed, and the
//! completion snapshot recorded from all of that.

use vstd::prelude::*;
use crate::custom_agent::{spec_trimmed_nonblank, trimmed_nonblank};
use crate::format::{decimal, i64_to_string, push_decimal, signed_decimal};
use crate::json::{
    jbool, jget, jget_path, jint, jopt, jopt_str, jstr, jstr_at, jstr_field, juint, jview, member,
    members_view, object_of, JVal, Json,
};
use crate::strings::{
    ascii_lowercase, contains, contains_seq, opt_str_is, opt_string_view, opt_view, push_str,
    str_eq, to_ascii_lowercase, to_owned, trim, trim_string,
};
use crate::text_utils::{summarize_text_for_visibility, summary_of};
use crate::worker_fleet::opt_jview;

verus! {

/// One line of a raw event stream: its text and, when the line is JSON, the
/// event it holds.
pub struct RawEventLine {
    pub text: String,
    pub event: Option<Json>,
}

impl View for RawEventLine {
    type V = (Seq<char>, Option<JVal>);

    open spec fn view(&self) -> (Seq<char>, Option<JVal>) {
        (self.text@, opt_jview(self.event))
    }
}

/// The views of the lines of a stream.
pub open spec fn lines_view(lines: Seq<RawEventLine>) -> Seq<(Seq<char>, Option<JVal>)> {
    lines.map_values(|l: RawEventLine| l@)
}

/// The thread an event names (its `thread_id`, else its `thread.id`),
/// trimmed, unless blank.
pub open spec fn spec_event_thread_id(v: JVal) -> Option<Seq<char>> {
    spec_trimmed_nonblank(
        match jstr_field(v, "thread_id"@) {
            Some(t) => Some(t),
            None => jstr_at(v, seq!["thread"@, "id"@]),
        },
    )
}

/// The agent's text in an event (an agent-message item, else an assistant
/// message), trimmed, unless blank.
pub open spec fn spec_event_message(v: JVal) -> Option<Seq<char>> {
    let from_item = match jget(v, "item"@) {
        Some(item) => if jstr_field(item, "type"@) == Some("agent_message"@) {
            jstr_field(item, "text"@)
        } else {
            None
        },
        None => None,
    };
    spec_trimmed_nonblank(
        match from_item {
            Some(t) => Some(t),
            None => match jget(v, "message"@) {
                Some(m) => if jstr_field(m, "role"@) == Some("assistant"@) {
                    jstr_field(m, "content"@)
                } else {
                    None
                },
                None => None,
            },
        },
    )
}

/// The token usage an event reports: the first of its payload's total
/// usage, its usage, its response's usage and its payload's usage.
pub open spec fn spec_event_usage(v: JVal) -> Option<JVal> {
    match jget_path(v, seq!["payload"@, "info"@, "total_token_usage"@]) {
        Some(u) => Some(u),
        None => match jget(v, "usage"@) {
            Some(u) => Some(u),
            None => match jget_path(v, seq!["response"@, "usage"@]) {
                Some(u) => Some(u),
                None => jget_path(v, seq!["payload"@, "usage"@]),
            },
        },
    }
}

/// The latest thread, agent message and (object) token usage over a stream.
pub open spec fn spec_worker_artifacts(lines: Seq<(Seq<char>, Option<JVal>)>) -> (
    Option<Seq<char>>,
    Option<Seq<char>>,
    Option<JVal>,
)
    decreases lines.len(),
{
    if lines.len() == 0 {
        (None, None, None)
    } else {
        let p = spec_worker_artifacts(lines.drop_last());
        match lines.last().1 {
            None => p,
            Some(v) => (
                match spec_event_thread_id(v) {
                    Some(t) => Some(t),
                    None => p.0,
                },
                match spec_event_message(v) {
                    Some(m) => Some(m),
                    None => p.1,
                },
                match spec_event_usage(v) {
                    Some(u) => if u is Object {
                        Some(u)
                    } else {
                        p.2
                    },
                    None => p.2,
                },
            ),
        }
    }
}

/// The latest turn-ending event type of a stream.
pub open spec fn spec_terminal_event(lines: Seq<(Seq<char>, Option<JVal>)>) -> Option<Seq<char>>
    decreases lines.len(),
{
    if lines.len() == 0 {
        None
    } else {
        let p = spec_terminal_event(lines.drop_last());
        match lines.last().1 {
            Some(v) => match jstr_field(v, "type"@) {
                Some(t) => if t == "turn.completed"@ || t == "turn.failed"@ {
                    Some(t)
                } else {
                    p
                },
                None => p,
            },
            None => p,
        }
    }
}

/// Texts in a raw stream that mean the execution failed.
pub open spec fn spec_failure_patterns() -> Seq<Seq<char>> {
    seq![
        " failed to connect "@,
        " dns error"@,
        " stream disconnected"@,
        " transport channel closed"@,
        " error sending request"@,
        " websocket"@,
        " reconnecting..."@,
        "fatal:"@,
    ]
}

/// Whether a line holds an `error` event.
pub open spec fn is_error_event(l: (Seq<char>, Option<JVal>)) -> bool {
    match l.1 {
        Some(v) => jstr_field(v, "type"@) == Some("error"@),
        None => false,
    }
}

/// Whether a stream shows a failed execution: an `error` event, or one of
/// the failure texts anywhere (ignoring ASCII case).
pub open spec fn spec_indicates_execution_failure(
    lines: Seq<(Seq<char>, Option<JVal>)>,
    content: Seq<char>,
) -> bool {
    (exists|k: int| 0 <= k < lines.len() && is_error_event(#[trigger] lines[k])) || (exists|k: int|
        0 <= k < spec_failure_patterns().len() && contains_seq(
            ascii_lowercase(content),
            #[trigger] spec_failure_patterns()[k],
        ))
}

/// The trimmed non-blank lines of a stream that are not JSON.
pub open spec fn spec_non_json_lines(lines: Seq<(Seq<char>, Option<JVal>)>) -> Seq<Seq<char>>
    decreases lines.len(),
{
    if lines.len() == 0 {
        Seq::empty()
    } else {
        let p = spec_non_json_lines(lines.drop_last());
        if lines.last().1 is None && trim(lines.last().0).len() > 0 {
            p.push(trim(lines.last().0))
        } else {
            p
        }
    }
}

/// Texts joined with a separator.
pub open spec fn join_with(items: Seq<Seq<char>>, sep: Seq<char>) -> Seq<char>
    decreases items.len(),
{
    if items.len() == 0 {
        Seq::empty()
    } else if items.len() == 1 {
        items[0]
    } else {
        join_with(items.drop_last(), sep) + sep + items.last()
    }
}

/// A summary of the first four lines of a stream that are not JSON.
pub open spec fn spec_non_json_preview(lines: Seq<(Seq<char>, Option<JVal>)>, max_chars: nat) -> Option<
    Seq<char>,
> {
    let texts = spec_non_json_lines(lines);
    if texts.len() == 0 {
        None
    } else {
        Some(
            summary_of(
                join_with(
                    if texts.len() > 4 {
                        texts.take(4)
                    } else {
                        texts
                    },
                    " "@,
                ),
                max_chars,
            ),
        )
    }
}

fn str_or_at<'a>(j: &'a Json, key: &str, path: &[&str]) -> (r: Option<&'a str>)
    ensures
        opt_view(r) == match jstr_field(jview(*j), key@) {
            Some(t) => Some(t),
            None => crate::json::jstr_at(jview(*j), path@.map_values(|k: &str| k@)),
        },
{
    match j.str_field(key) {
        Some(t) => Some(t),
        None => j.str_at(path),
    }
}

fn event_thread_id(v: &Json) -> (r: Option<String>)
    ensures
        opt_string_view(r) == spec_event_thread_id(jview(*v)),
{
    let path: Vec<&str> = vec!["thread", "id"];
    assert(path@.map_values(|k: &str| k@) =~= seq!["thread"@, "id"@]);
    trimmed_nonblank(str_or_at(v, "thread_id", path.as_slice()))
}

fn event_message(v: &Json) -> (r: Option<String>)
    ensures
        opt_string_view(r) == spec_event_message(jview(*v)),
{
    let from_item: Option<&str> = match v.get("item") {
        Some(item) => if opt_str_is(item.str_field("type"), "agent_message") {
            item.str_field("text")
        } else {
            None
        },
        None => None,
    };
    let text: Option<&str> = match from_item {
        Some(t) => Some(t),
        None => match v.get("message") {
            Some(m) => if opt_str_is(m.str_field("role"), "assistant") {
                m.str_field("content")
            } else {
                None
            },
            None => None,
        },
    };
    trimmed_nonblank(text)
}

/// The view of an optional value reference.
pub open spec fn opt_jview_ref(o: Option<&Json>) -> Option<JVal> {
    match o {
        Some(x) => Some(jview(*x)),
        None => None,
    }
}

fn event_usage(v: &Json) -> (r: Option<&Json>)
    ensures
        opt_jview_ref(r) == spec_event_usage(jview(*v)),
{
    let p1: Vec<&str> = vec!["payload", "info", "total_token_usage"];
    let p2: Vec<&str> = vec!["response", "usage"];
    let p3: Vec<&str> = vec!["payload", "usage"];
    assert(p1@.map_values(|k: &str| k@) =~= seq!["payload"@, "info"@, "total_token_usage"@]);
    assert(p2@.map_values(|k: &str| k@) =~= seq!["response"@, "usage"@]);
    assert(p3@.map_values(|k: &str| k@) =~= seq!["payload"@, "usage"@]);
    match v.get_path(p1.as_slice()) {
        Some(u) => Some(u),
        None => match v.get("usage") {
            Some(u) => Some(u),
            None => match v.get_path(p2.as_slice()) {
                Some(u) => Some(u),
                None => v.get_path(p3.as_slice()),
            },
        },
    }
}

/// The latest thread, agent message and token usage of a worker's stream.
pub fn extract_worker_artifacts(lines: &[RawEventLine]) -> (r: (Option<String>, Option<String>, Option<Json>))
    ensures
        (opt_string_view(r.0), opt_string_view(r.1), opt_jview(r.2)) == spec_worker_artifacts(
            lines_view(lines@),
        ),
{
    let ghost lv = lines_view(lines@);
    let mut thread: Option<String> = None;
    let mut message: Option<String> = None;
    let mut usage: Option<Json> = None;
    let mut i: usize = 0;
    assert(lv.take(0) =~= Seq::<(Seq<char>, Option<JVal>)>::empty());
    while i < lines.len()
        invariant
            i <= lines.len(),
            lv == lines_view(lines@),
            (opt_string_view(thread), opt_string_view(message), opt_jview(usage))
                == spec_worker_artifacts(lv.take(i as int)),
        decreases lines.len() - i,
    {
        proof {
            assert(lv.take(i + 1).drop_last() =~= lv.take(i as int));
            assert(lv.take(i + 1).last() == lines@[i as int]@);
        }
        match &lines[i].event {
            Some(v) => {
                match event_thread_id(v) {
                    Some(t) => {
                        thread = Some(t);
                    },
                    None => {},
                }
                match event_message(v) {
                    Some(m) => {
                        message = Some(m);
                    },
                    None => {},
                }
                match event_usage(v) {
                    Some(u) => {
                        if u.is_object() {
                            usage = Some(u.deep_clone());
                        }
                    },
                    None => {},
                }
            },
            None => {},
        }
        i = i + 1;
    }
    assert(lv.take(lines.len() as int) =~= lv);
    (thread, message, usage)
}

/// The latest agent message of a worker's stream.
pub fn extract_latest_agent_message_text_from_raw_events(lines: &[RawEventLine]) -> (r: Option<String>)
    ensures
        opt_string_view(r) == spec_worker_artifacts(lines_view(lines@)).1,
{
    let (_, message, _) = extract_worker_artifacts(lines);
    message
}

/// The latest token usage of a worker's stream.
pub fn extract_total_token_usage_from_raw_events(lines: &[RawEventLine]) -> (r: Option<Json>)
    ensures
        opt_jview(r) == spec_worker_artifacts(lines_view(lines@)).2,
{
    let (_, _, usage) = extract_worker_artifacts(lines);
    usage
}

/// How the worker's turn ended, when the stream says.
pub fn extract_worker_terminal_event(lines: &[RawEventLine]) -> (r: Option<String>)
    ensures
        opt_string_view(r) == spec_terminal_event(lines_view(lines@)),
{
    let ghost lv = lines_view(lines@);
    let mut latest: Option<String> = None;
    let mut i: usize = 0;
    assert(lv.take(0) =~= Seq::<(Seq<char>, Option<JVal>)>::empty());
    while i < lines.len()
        invariant
            i <= lines.len(),
            lv == lines_view(lines@),
            opt_string_view(latest) == spec_terminal_event(lv.take(i as int)),
        decreases lines.len() - i,
    {
        proof {
            assert(lv.take(i + 1).drop_last() =~= lv.take(i as int));
            assert(lv.take(i + 1).last() == lines@[i as int]@);
        }
        match &lines[i].event {
            Some(v) => match v.str_field("type") {
                Some(t) => {
                    if str_eq(t, "turn.completed") || str_eq(t, "turn.failed") {
                        latest = Some(to_owned(t));
                    }
                },
                None => {},
            },
            None => {},
        }
        i = i + 1;
    }
    assert(lv.take(lines.len() as int) =~= lv);
    latest
}

/// Whether a worker's stream shows a failed execution.
pub fn raw_events_indicate_execution_failure(lines: &[RawEventLine], content: &str) -> (r: bool)
    ensures
        r == spec_indicates_execution_failure(lines_view(lines@), content@),
{
    let ghost lv = lines_view(lines@);
    let mut i: usize = 0;
    while i < lines.len()
        invariant
            i <= lines.len(),
            lv == lines_view(lines@),
            forall|k: int| 0 <= k < i ==> !is_error_event(#[trigger] lv[k]),
        decreases lines.len() - i,
    {
        assert(lv[i as int] == lines@[i as int]@);
        match &lines[i].event {
            Some(v) => {
                if opt_str_is(v.str_field("type"), "error") {
                    return true;
                }
            },
            None => {},
        }
        i = i + 1;
    }
    let normalized = to_ascii_lowercase(content);
    let patterns: Vec<&str> = vec![
        " failed to connect ",
        " dns error",
        " stream disconnected",
        " transport channel closed",
        " error sending request",
        " websocket",
        " reconnecting...",
        "fatal:",
    ];
    assert(patterns@.map_values(|p: &str| p@) =~= spec_failure_patterns());
    let mut j: usize = 0;
    while j < patterns.len()
        invariant
            j <= patterns.len(),
            patterns@.map_values(|p: &str| p@) == spec_failure_patterns(),
            normalized@ == ascii_lowercase(content@),
            forall|k: int|
                0 <= k < j ==> !contains_seq(
                    ascii_lowercase(content@),
                    #[trigger] spec_failure_patterns()[k],
                ),
            forall|k: int| 0 <= k < lv.len() ==> !is_error_event(#[trigger] lv[k]),
        decreases patterns.len() - j,
    {
        assert(spec_failure_patterns()[j as int] == patterns@[j as int]@);
        if contains(normalized.as_str(), patterns[j]) {
            return true;
        }
        j = j + 1;
    }
    false
}

fn join_space(items: &Vec<String>, n: usize) -> (r: String)
    requires
        n <= items.len(),
    ensures
        r@ == join_with(items@.map_values(|s: String| s@).take(n as int), " "@),
{
    let ghost iv = items@.map_values(|s: String| s@);
    let mut out = String::new();
    let mut i: usize = 0;
    assert(iv.take(0) =~= Seq::<Seq<char>>::empty());
    while i < n
        invariant
            i <= n <= items.len(),
            iv == items@.map_values(|s: String| s@),
            out@ == join_with(iv.take(i as int), " "@),
        decreases n - i,
    {
        let ghost before = out@;
        if i > 0 {
            push_str(&mut out, " ");
        }
        push_str(&mut out, items[i].as_str());
        proof {
            assert(iv.take(i + 1).drop_last() =~= iv.take(i as int));
            assert(iv.take(i + 1).last() == items@[i as int]@);
            if i == 0 {
                assert(out@ =~= iv.take(1)[0]);
            } else {
                assert(out@ =~= before + " "@ + iv.take(i + 1).last());
            }
        }
        i = i + 1;
    }
    out
}

/// A summary of the first lines of a worker's stream that are not JSON.
pub fn extract_non_json_raw_events_preview(lines: &[RawEventLine], max_chars: usize) -> (r: Option<
    String,
>)
    ensures
        opt_string_view(r) == spec_non_json_preview(lines_view(lines@), max_chars as nat),
{
    let ghost lv = lines_view(lines@);
    let mut texts: Vec<String> = Vec::new();
    let mut i: usize = 0;
    assert(lv.take(0) =~= Seq::<(Seq<char>, Option<JVal>)>::empty());
    assert(texts@.map_values(|s: String| s@) =~= Seq::<Seq<char>>::empty());
    while i < lines.len()
        invariant
            i <= lines.len(),
            lv == lines_view(lines@),
            texts@.map_values(|s: String| s@) == spec_non_json_lines(lv.take(i as int)),
        decreases lines.len() - i,
    {
        proof {
            assert(lv.take(i + 1).drop_last() =~= lv.take(i as int));
            assert(lv.take(i + 1).last() == lines@[i as int]@);
        }
        if lines[i].event.is_none() {
            let t = trim_string(lines[i].text.as_str());
            if t.as_str().unicode_len() > 0 {
                let ghost before = texts@.map_values(|s: String| s@);
                let ghost tv = t@;
                texts.push(t);
                assert(texts@.map_values(|s: String| s@) =~= before.push(tv));
            }
        }
        i = i + 1;
    }
    assert(lv.take(lines.len() as int) =~= lv);
    if texts.len() == 0 {
        return None;
    }
    let n = if texts.len() > 4 {
        4
    } else {
        texts.len()
    };
    let joined = join_space(&texts, n);
    proof {
        let tv = texts@.map_values(|s: String| s@);
        if tv.len() <= 4 {
            assert(tv.take(n as int) =~= tv);
        }
    }
    Some(summarize_text_for_visibility(joined.as_str(), max_chars))
}

/// How a worker process exited.
pub struct ProcessExit {
    pub success: bool,
    pub code: Option<i32>,
}

/// The exit record of a worker process.
pub open spec fn spec_process_exit_payload(exit: Option<(bool, Option<i32>)>) -> JVal {
    match exit {
        Some(e) => JVal::Object(
            seq![
                ("success"@, JVal::Bool(e.0)),
                (
                    "exit_code"@,
                    match e.1 {
                        Some(c) => JVal::Num(c as int),
                        None => JVal::Null,
                    },
                ),
            ],
        ),
        None => JVal::Null,
    }
}

/// The view of an optional process exit.
pub open spec fn exit_view(exit: Option<&ProcessExit>) -> Option<(bool, Option<i32>)> {
    match exit {
        Some(e) => Some((e.success, e.code)),
        None => None,
    }
}

/// The details listed when a worker exited without a result.
pub open spec fn spec_failure_details(
    terminal: Option<Seq<char>>,
    exit: Option<(bool, Option<i32>)>,
    raw_output_bytes: Option<u64>,
    raw_output_preview: Option<Seq<char>>,
) -> Seq<Seq<char>> {
    let d1: Seq<Seq<char>> = match terminal {
        Some(t) => seq!["terminal_event="@ + t],
        None => Seq::empty(),
    };
    let d2 = match exit {
        Some(e) => match e.1 {
            Some(c) => d1.push("exit_code="@ + signed_decimal(c as int)),
            None => if e.0 {
                d1.push("exit_success=true"@)
            } else {
                d1.push("exit_status=nonzero_without_code"@)
            },
        },
        None => d1,
    };
    let d3 = match raw_output_bytes {
        Some(b) => d2.push("raw_events_bytes="@ + decimal(b as nat)),
        None => d2,
    };
    match raw_output_preview {
        Some(p) => d3.push("raw_output_preview=\""@ + p + "\""@),
        None => d3,
    }
}

/// The completion snapshot of a worker: its status (completed when the turn
/// completed, or when it left a message or usage without a turn ending;
/// failed otherwise), the summary, the worker result, and the failure
/// record of a failed worker.
pub open spec fn spec_worker_completion_snapshot(
    lines: Seq<(Seq<char>, Option<JVal>)>,
    content: Seq<char>,
    raw_output_bytes: Option<u64>,
    completed_at: Seq<char>,
    exit: Option<(bool, Option<i32>)>,
) -> (Seq<char>, Seq<char>, JVal, JVal) {
    let art = spec_worker_artifacts(lines);
    let terminal = spec_terminal_event(lines);
    let preview = match art.1 {
        Some(t) => Some(summary_of(t, 180)),
        None => None,
    };
    let raw_preview = spec_non_json_preview(lines, 220);
    let completed = if terminal == Some("turn.completed"@) {
        true
    } else if terminal == Some("turn.failed"@) {
        false
    } else {
        preview is Some || art.2 is Some
    };
    let status: Seq<char> = if completed {
        "completed"@
    } else {
        "failed"@
    };
    let details = spec_failure_details(terminal, exit, raw_output_bytes, raw_preview);
    let summary: Seq<char> = if completed {
        if preview is Some {
            "Worker returned a bounded result to captain fan-in."@
        } else {
            "Worker finished and returned control to captain fan-in."@
        }
    } else if details.len() == 0 {
        "Worker exited without parseable Codex result or usage artifacts."@
    } else {
        "Worker exited without parseable Codex result or usage artifacts. "@ + join_with(details, " "@)
    };
    let nonzero_exit = match exit {
        Some(e) => match e.1 {
            Some(c) => c != 0,
            None => false,
        },
        None => false,
    };
    let latest_failure = if completed {
        JVal::Null
    } else {
        let reason: Seq<char> = if terminal == Some("turn.failed"@) || nonzero_exit
            || spec_indicates_execution_failure(lines, content) {
            "execution_failed"@
        } else if match raw_output_bytes {
            Some(b) => b > 0,
            None => false,
        } {
            "invalid_output"@
        } else {
            "unknown"@
        };
        JVal::Object(
            seq![
                ("stage"@, JVal::Str("execution"@)),
                ("reason"@, JVal::Str(reason)),
                ("summary"@, JVal::Str(summary)),
                ("recorded_at"@, JVal::Str(completed_at)),
            ],
        )
    };
    (
        status,
        summary,
        JVal::Object(
            seq![
                ("status"@, JVal::Str(status)),
                ("recorded_at"@, JVal::Str(completed_at)),
                ("thread_id"@, jopt_str(art.0)),
                ("assistant_message_preview"@, jopt_str(preview)),
                (
                    "total_token_usage"@,
                    match art.2 {
                        Some(u) => u,
                        None => JVal::Null,
                    },
                ),
                ("process_exit"@, spec_process_exit_payload(exit)),
                ("raw_output_preview"@, jopt_str(raw_preview)),
                (
                    "raw_output_bytes"@,
                    match raw_output_bytes {
                        Some(b) => JVal::Num(b as int),
                        None => JVal::Null,
                    },
                ),
            ],
        ),
        latest_failure,
    )
}

fn opt_string_json(o: &Option<String>) -> (r: Json)
    ensures
        jview(r) == jopt_str(opt_string_view(*o)),
{
    match o {
        Some(s) => jstr(s.as_str()),
        None => Json::Null,
    }
}

fn failure_details(
    terminal: &Option<String>,
    exit: Option<&ProcessExit>,
    raw_output_bytes: Option<u64>,
    raw_output_preview: &Option<String>,
) -> (r: Vec<String>)
    ensures
        r@.map_values(|s: String| s@) == spec_failure_details(
            opt_string_view(*terminal),
            exit_view(exit),
            raw_output_bytes,
            opt_string_view(*raw_output_preview),
        ),
{
    let mut d: Vec<String> = Vec::new();
    let ghost v0 = d@.map_values(|s: String| s@);
    match terminal {
        Some(t) => {
            d.push(crate::strings::concat2("terminal_event=", t.as_str()));
        },
        None => {},
    }
    let ghost v1 = d@.map_values(|s: String| s@);
    match exit {
        Some(e) => match e.code {
            Some(c) => {
                let code = i64_to_string(c as i64);
                d.push(crate::strings::concat2("exit_code=", code.as_str()));
            },
            None => if e.success {
                d.push(to_owned("exit_success=true"));
            } else {
                d.push(to_owned("exit_status=nonzero_without_code"));
            },
        },
        None => {},
    }
    let ghost v2 = d@.map_values(|s: String| s@);
    match raw_output_bytes {
        Some(b) => {
            let mut t = to_owned("raw_events_bytes=");
            push_decimal(&mut t, b);
            d.push(t);
        },
        None => {},
    }
    let ghost v3 = d@.map_values(|s: String| s@);
    match raw_output_preview {
        Some(p) => {
            let mut t = to_owned("raw_output_preview=\"");
            push_str(&mut t, p.as_str());
            push_str(&mut t, "\"");
            d.push(t);
        },
        None => {},
    }
    assert(d@.map_values(|s: String| s@) =~= spec_failure_details(
        opt_string_view(*terminal),
        exit_view(exit),
        raw_output_bytes,
        opt_string_view(*raw_output_preview),
    ));
    d
}

/// The completion snapshot of a worker from its raw event stream (its lines
/// and text), its size, the completion time and how the process exited:
/// status, summary, worker result and failure record.
pub fn build_worker_completion_snapshot(
    lines: &[RawEventLine],
    content: &str,
    raw_output_bytes: Option<u64>,
    completed_at: &str,
    process_exit: Option<&ProcessExit>,
) -> (r: (String, String, Json, Json))
    ensures
        (r.0@, r.1@, jview(r.2), jview(r.3)) == spec_worker_completion_snapshot(
            lines_view(lines@),
            content@,
            raw_output_bytes,
            completed_at@,
            exit_view(process_exit),
        ),
{
    let ghost lv = lines_view(lines@);
    let (thread_id, latest_message, usage) = extract_worker_artifacts(lines);
    let terminal = extract_worker_terminal_event(lines);
    let preview: Option<String> = match &latest_message {
        Some(t) => Some(summarize_text_for_visibility(t.as_str(), 180)),
        None => None,
    };
    let raw_preview = extract_non_json_raw_events_preview(lines, 220);
    let completed = if opt_string_is(&terminal, "turn.completed") {
        true
    } else if opt_string_is(&terminal, "turn.failed") {
        false
    } else {
        preview.is_some() || usage.is_some()
    };
    let status = if completed {
        "completed"
    } else {
        "failed"
    };
    let details = failure_details(&terminal, process_exit, raw_output_bytes, &raw_preview);
    let summary: String = if completed {
        if preview.is_some() {
            to_owned("Worker returned a bounded result to captain fan-in.")
        } else {
            to_owned("Worker finished and returned control to captain fan-in.")
        }
    } else if details.len() == 0 {
        to_owned("Worker exited without parseable Codex result or usage artifacts.")
    } else {
        let mut t = to_owned("Worker exited without parseable Codex result or usage artifacts. ");
        let joined = join_space(&details, details.len());
        proof {
            let dv = details@.map_values(|s: String| s@);
            assert(dv.take(details.len() as int) =~= dv);
        }
        push_str(&mut t, joined.as_str());
        t
    };
    let nonzero_exit = match process_exit {
        Some(e) => match e.code {
            Some(c) => c != 0,
            None => false,
        },
        None => false,
    };
    let latest_failure = if completed {
        Json::Null
    } else {
        let reason = if opt_string_is(&terminal, "turn.failed") || nonzero_exit
            || raw_events_indicate_execution_failure(lines, content) {
            "execution_failed"
        } else if match raw_output_bytes {
            Some(b) => b > 0,
            None => false,
        } {
            "invalid_output"
        } else {
            "unknown"
        };
        let mut f: Vec<(String, Json)> = Vec::new();
        f.push(member("stage", jstr("execution")));
        f.push(member("reason", jstr(reason)));
        f.push(member("summary", jstr(summary.as_str())));
        f.push(member("recorded_at", jstr(completed_at)));
        let fo = object_of(f);
        assert(members_view(f@) =~= seq![
            ("stage"@, JVal::Str("execution"@)),
            ("reason"@, JVal::Str(reason@)),
            ("summary"@, JVal::Str(summary@)),
            ("recorded_at"@, JVal::Str(completed_at@)),
        ]);
        fo
    };
    let exit_payload = match process_exit {
        Some(e) => {
            let mut x: Vec<(String, Json)> = Vec::new();
            x.push(member("success", jbool(e.success)));
            x.push(
                member(
                    "exit_code",
                    match e.code {
                        Some(c) => jint(c as i64),
                        None => Json::Null,
                    },
                ),
            );
            let xo = object_of(x);
            assert(members_view(x@) =~= spec_process_exit_payload(exit_view(process_exit))->Object_0);
            xo
        },
        None => Json::Null,
    };
    let mut m: Vec<(String, Json)> = Vec::new();
    m.push(member("status", jstr(status)));
    m.push(member("recorded_at", jstr(completed_at)));
    m.push(member("thread_id", opt_string_json(&thread_id)));
    m.push(member("assistant_message_preview", opt_string_json(&preview)));
    m.push(
        member(
            "total_token_usage",
            match usage {
                Some(u) => u,
                None => Json::Null,
            },
        ),
    );
    m.push(member("process_exit", exit_payload));
    m.push(member("raw_output_preview", opt_string_json(&raw_preview)));
    m.push(
        member(
            "raw_output_bytes",
            match raw_output_bytes {
                Some(b) => juint(b),
                None => Json::Null,
            },
        ),
    );
    let result = object_of(m);
    let ghost spec_r = spec_worker_completion_snapshot(
        lv,
        content@,
        raw_output_bytes,
        completed_at@,
        exit_view(process_exit),
    );
    assert(members_view(m@) =~= spec_r.2->Object_0);
    (to_owned(status), summary, result, latest_failure)
}

fn opt_string_is(o: &Option<String>, s: &str) -> (r: bool)
    ensures
        r == (opt_string_view(*o) == Some(s@)),
{
    match o {
        Some(x) => str_eq(x.as_str(), s),
        None => false,
    }
}

/// The token usage of a delegation: the usage its worker result recorded
/// (when an object), else the latest usage in its raw event stream (when
/// one could be read).
pub open spec fn spec_resolve_delegation_token_usage(
    delegation: JVal,
    raw_events: Option<Seq<(Seq<char>, Option<JVal>)>>,
) -> Option<JVal> {
    match jget_path(delegation, seq!["worker_result"@, "total_token_usage"@]) {
        Some(u) => if u is Object {
            Some(u)
        } else {
            match raw_events {
                Some(l) => spec_worker_artifacts(l).2,
                None => None,
            }
        },
        None => match raw_events {
            Some(l) => spec_worker_artifacts(l).2,
            None => None,
        },
    }
}

pub fn resolve_delegation_token_usage(delegation: &Json, raw_events: Option<&[RawEventLine]>) -> (r:
    Option<Json>)
    ensures
        opt_jview(r) == spec_resolve_delegation_token_usage(
            jview(*delegation),
            match raw_events {
                Some(l) => Some(lines_view(l@)),
                None => None,
            },
        ),
{
    let path: Vec<&str> = vec!["worker_result", "total_token_usage"];
    assert(path@.map_values(|k: &str| k@) =~= seq!["worker_result"@, "total_token_usage"@]);
    match delegation.get_path(path.as_slice()) {
        Some(u) => {
            if u.is_object() {
                return Some(u.deep_clone());
            }
        },
        None => {},
    }
    match raw_events {
        Some(l) => extract_total_token_usage_from_raw_events(l),
        None => None,
    }
}

/// The message preview of a delegation: the preview its worker result
/// recorded (trimmed, when not blank), else a summary of the latest agent
/// message in its raw event stream.
pub open spec fn spec_resolve_delegation_message_preview(
    delegation: JVal,
    raw_events: Option<Seq<(Seq<char>, Option<JVal>)>>,
) -> Option<Seq<char>> {
    match spec_trimmed_nonblank(
        jstr_at(delegation, seq!["worker_result"@, "assistant_message_preview"@]),
    ) {
        Some(p) => Some(p),
        None => match raw_events {
            Some(l) => match spec_worker_artifacts(l).1 {
                Some(t) => Some(summary_of(t, 180)),
                None => None,
            },
            None => None,
        },
    }
}

pub fn resolve_delegation_message_preview(delegation: &Json, raw_events: Option<&[RawEventLine]>) -> (r:
    Option<String>)
    ensures
        opt_string_view(r) == spec_resolve_delegation_message_preview(
            jview(*delegation),
            match raw_events {
                Some(l) => Some(lines_view(l@)),
                None => None,
            },
        ),
{
    let path: Vec<&str> = vec!["worker_result", "assistant_message_preview"];
    assert(path@.map_values(|k: &str| k@) =~= seq![
        "worker_result"@,
        "assistant_message_preview"@,
    ]);
    match trimmed_nonblank(delegation.str_at(path.as_slice())) {
        Some(p) => Some(p),
        None => match raw_events {
            Some(l) => match extract_latest_agent_message_text_from_raw_events(l) {
                Some(t) => Some(summarize_text_for_visibility(t.as_str(), 180)),
                None => None,
            },
            None => None,
        },
    }
}

} // verus!
