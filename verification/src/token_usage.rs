//! Token usage of a run: the per-usage token total, whether usage can be
//! shown, and the run's usage totals summed over delegated workers and host
//! subagents, per agent in ascending order of agent id.

use vstd::prelude::*;
use crate::json::{
    get_or, jas_u64, jbool, jget, jstr, jstr_at, jstr_field, jview, lemma_array_view, member,
    juint, members_view, object_of, opt_u64,
    JVal, Json,
};
use crate::keyed_list::{
    entries_map, has_key, key_index, keys_sorted, lemma_sorted_drop_last, lemma_sorted_entries_unique,
    lemma_sorted_entry, sorted_entries,
};
use crate::run_health::array_items;
use crate::sorted_set::{
    lemma_seq_lt_asymmetric, lemma_seq_lt_irreflexive, lemma_seq_lt_transitive, seq_lt,
};
use crate::strings::{chars_of, ends_with, has_suffix, to_owned};
use crate::sorted_set::compare_chars;
use crate::worker_fleet::{jviews, opt_jview};

verus! {

/// A `u64` value, or 0 when there is none.
pub open spec fn u64_or_zero(o: Option<JVal>) -> int {
    match opt_u64(o) {
        Some(n) => n,
        None => 0,
    }
}

/// The sum of a usage's four token counts.
pub open spec fn spec_usage_component_sum(usage: JVal) -> int {
    u64_or_zero(jget(usage, "input_tokens"@)) + u64_or_zero(jget(usage, "cached_input_tokens"@))
        + u64_or_zero(jget(usage, "output_tokens"@)) + u64_or_zero(
        jget(usage, "reasoning_output_tokens"@),
    )
}

/// A usage's total: its recorded `total_tokens`, else the sum of its four
/// token counts.
pub open spec fn spec_token_usage_total_count(usage: JVal) -> int {
    match opt_u64(jget(usage, "total_tokens"@)) {
        Some(n) => n,
        None => spec_usage_component_sum(usage),
    }
}

fn u64_field_or_zero(j: &Json, key: &str) -> (r: u64)
    ensures
        r == u64_or_zero(jget(jview(*j), key@)),
{
    match j.u64_field(key) {
        Some(n) => n,
        None => 0,
    }
}

pub fn token_usage_total_count(usage: &Json) -> (r: u64)
    requires
        spec_token_usage_total_count(jview(*usage)) <= u64::MAX,
    ensures
        r == spec_token_usage_total_count(jview(*usage)),
{
    match usage.u64_field("total_tokens") {
        Some(n) => n,
        None => {
            let a = u64_field_or_zero(usage, "input_tokens");
            let b = u64_field_or_zero(usage, "cached_input_tokens");
            let c = u64_field_or_zero(usage, "output_tokens");
            let d = u64_field_or_zero(usage, "reasoning_output_tokens");
            a + b + c + d
        },
    }
}

/// Some entry of `entries` records a positive `total_tokens`.
pub open spec fn any_positive_total(entries: Seq<JVal>) -> bool {
    exists|i: int| 0 <= i < entries.len() && u64_or_zero(jget(#[trigger] entries[i], "total_tokens"@)) > 0
}

/// Whether the per-agent lists (`by_subagent`, else `by_agent`) show a
/// positive total.
pub open spec fn spec_has_non_zero_usage(token_usage: JVal) -> bool {
    match jget(token_usage, "by_subagent"@) {
        Some(JVal::Array(a)) => any_positive_total(a),
        _ => match jget(token_usage, "by_agent"@) {
            Some(JVal::Array(a)) => any_positive_total(a),
            _ => false,
        },
    }
}

/// Whether token usage can be shown: `available` when some total is
/// positive, `context_available` when only context estimates were recorded,
/// and otherwise `unavailable` with the reason (host subagents that gave no
/// usage, or no usage at all).
pub open spec fn spec_token_usage_visibility(token_usage: JVal, host_subagent_state: JVal) -> JVal {
    let host_count = u64_or_zero(jget(host_subagent_state, "total_subagent_count"@));
    let total = u64_or_zero(jget(token_usage, "total_tokens"@));
    let context = u64_or_zero(jget(token_usage, "total_context_tokens"@));
    if total > 0 || spec_has_non_zero_usage(token_usage) {
        JVal::Object(
            seq![
                ("status"@, JVal::Str("available"@)),
                ("available"@, JVal::Bool(true)),
                (
                    "source"@,
                    match jget(token_usage, "source"@) {
                        Some(v) => v,
                        None => JVal::Str("delegation_raw_events_best_effort"@),
                    },
                ),
                (
                    "captain_tokens_available"@,
                    match jget(token_usage, "captain_tokens_available"@) {
                        Some(v) => v,
                        None => JVal::Bool(false),
                    },
                ),
                ("unavailable_reason"@, JVal::Null),
                ("unavailable_reason_code"@, JVal::Null),
            ],
        )
    } else if context > 0 {
        JVal::Object(
            seq![
                ("status"@, JVal::Str("context_available"@)),
                ("available"@, JVal::Bool(true)),
                (
                    "source"@,
                    match jget(token_usage, "source"@) {
                        Some(v) => v,
                        None => JVal::Str("host_subagent_context_best_effort"@),
                    },
                ),
                ("captain_tokens_available"@, JVal::Bool(false)),
                ("token_totals_available"@, JVal::Bool(false)),
                ("context_tokens_available"@, JVal::Bool(true)),
                (
                    "unavailable_reason"@,
                    JVal::Str(
                        "raw token usage unavailable; host subagent context estimates were recorded"@,
                    ),
                ),
                (
                    "unavailable_reason_code"@,
                    JVal::Str("raw_token_usage_unavailable_context_estimate_available"@),
                ),
            ],
        )
    } else {
        let (reason, code) = if host_count > 0 {
            (
                "host custom subagents did not supply raw usage events"@,
                "host_custom_subagents_no_raw_usage_events"@,
            )
        } else {
            (
                "no raw delegated-worker usage events were captured for this run yet"@,
                "no_raw_usage_events"@,
            )
        };
        JVal::Object(
            seq![
                ("status"@, JVal::Str("unavailable"@)),
                ("available"@, JVal::Bool(false)),
                ("source"@, JVal::Str("none"@)),
                ("captain_tokens_available"@, JVal::Bool(false)),
                ("unavailable_reason"@, JVal::Str(reason)),
                ("unavailable_reason_code"@, JVal::Str(code)),
            ],
        )
    }
}

fn has_positive_total(entries: &Vec<Json>) -> (r: bool)
    ensures
        r == any_positive_total(jviews(entries@)),
{
    let ghost ev = jviews(entries@);
    let mut i: usize = 0;
    while i < entries.len()
        invariant
            i <= entries.len(),
            ev == jviews(entries@),
            forall|k: int| 0 <= k < i ==> u64_or_zero(jget(#[trigger] ev[k], "total_tokens"@)) <= 0,
        decreases entries.len() - i,
    {
        if u64_field_or_zero(&entries[i], "total_tokens") > 0 {
            assert(ev[i as int] == jview(entries@[i as int]));
            return true;
        }
        i = i + 1;
    }
    false
}

fn has_non_zero_usage(token_usage: &Json) -> (r: bool)
    ensures
        r == spec_has_non_zero_usage(jview(*token_usage)),
{
    match array_items(token_usage.get("by_subagent")) {
        Some(items) => has_positive_total(items),
        None => match array_items(token_usage.get("by_agent")) {
            Some(items) => has_positive_total(items),
            None => false,
        },
    }
}

pub fn create_token_usage_visibility_payload(token_usage: &Json, host_subagent_state: &Json) -> (r:
    Json)
    ensures
        jview(r) == spec_token_usage_visibility(jview(*token_usage), jview(*host_subagent_state)),
{
    let host_count = u64_field_or_zero(host_subagent_state, "total_subagent_count");
    let total = u64_field_or_zero(token_usage, "total_tokens");
    let context = u64_field_or_zero(token_usage, "total_context_tokens");
    let mut m: Vec<(String, Json)> = Vec::new();
    if total > 0 || has_non_zero_usage(token_usage) {
        m.push(member("status", jstr("available")));
        m.push(member("available", jbool(true)));
        m.push(
            member(
                "source",
                get_or(token_usage, "source", jstr("delegation_raw_events_best_effort")),
            ),
        );
        m.push(
            member(
                "captain_tokens_available",
                get_or(token_usage, "captain_tokens_available", jbool(false)),
            ),
        );
        m.push(member("unavailable_reason", Json::Null));
        m.push(member("unavailable_reason_code", Json::Null));
    } else if context > 0 {
        m.push(member("status", jstr("context_available")));
        m.push(member("available", jbool(true)));
        m.push(
            member(
                "source",
                get_or(token_usage, "source", jstr("host_subagent_context_best_effort")),
            ),
        );
        m.push(member("captain_tokens_available", jbool(false)));
        m.push(member("token_totals_available", jbool(false)));
        m.push(member("context_tokens_available", jbool(true)));
        m.push(
            member(
                "unavailable_reason",
                jstr("raw token usage unavailable; host subagent context estimates were recorded"),
            ),
        );
        m.push(
            member(
                "unavailable_reason_code",
                jstr("raw_token_usage_unavailable_context_estimate_available"),
            ),
        );
    } else {
        let (reason, code) = if host_count > 0 {
            (
                "host custom subagents did not supply raw usage events",
                "host_custom_subagents_no_raw_usage_events",
            )
        } else {
            (
                "no raw delegated-worker usage events were captured for this run yet",
                "no_raw_usage_events",
            )
        };
        m.push(member("status", jstr("unavailable")));
        m.push(member("available", jbool(false)));
        m.push(member("source", jstr("none")));
        m.push(member("captain_tokens_available", jbool(false)));
        m.push(member("unavailable_reason", jstr(reason)));
        m.push(member("unavailable_reason_code", jstr(code)));
    }
    let r = object_of(m);
    assert(members_view(m@) =~= spec_token_usage_visibility(
        jview(*token_usage),
        jview(*host_subagent_state),
    )->Object_0);
    r
}


/// Token counts: input, cached input, output, reasoning output, total and
/// context tokens.
pub type TokenCounts = (int, int, int, int, int, int);

pub open spec fn add_counts(a: TokenCounts, b: TokenCounts) -> TokenCounts {
    (a.0 + b.0, a.1 + b.1, a.2 + b.2, a.3 + b.3, a.4 + b.4, a.5 + b.5)
}

pub open spec fn counts_nonneg(a: TokenCounts) -> bool {
    a.0 >= 0 && a.1 >= 0 && a.2 >= 0 && a.3 >= 0 && a.4 >= 0 && a.5 >= 0
}

pub open spec fn counts_le(a: TokenCounts, b: TokenCounts) -> bool {
    a.0 <= b.0 && a.1 <= b.1 && a.2 <= b.2 && a.3 <= b.3 && a.4 <= b.4 && a.5 <= b.5
}

/// Every count fits in a `u64`.
pub open spec fn counts_fit(a: TokenCounts) -> bool {
    a.0 <= u64::MAX && a.1 <= u64::MAX && a.2 <= u64::MAX && a.3 <= u64::MAX && a.4 <= u64::MAX
        && a.5 <= u64::MAX
}

/// The counts of a usage object, with the given context tokens.
pub open spec fn spec_usage_counts(usage: JVal, context: int) -> TokenCounts {
    (
        u64_or_zero(jget(usage, "input_tokens"@)),
        u64_or_zero(jget(usage, "cached_input_tokens"@)),
        u64_or_zero(jget(usage, "output_tokens"@)),
        u64_or_zero(jget(usage, "reasoning_output_tokens"@)),
        spec_token_usage_total_count(usage),
        context,
    )
}

/// The agent a delegation was handed to (`worker` when unrecorded).
pub open spec fn spec_delegation_agent_id(delegation: JVal) -> Seq<char> {
    match jstr_at(delegation, seq!["child_agent"@, "agent_id"@]) {
        Some(s) => s,
        None => "worker"@,
    }
}

/// A host subagent's id (`host_subagent` when unrecorded).
pub open spec fn spec_child_agent_id(child: JVal) -> Seq<char> {
    match jstr_field(child, "agent_id"@) {
        Some(s) => s,
        None => "host_subagent"@,
    }
}

/// A host subagent's context tokens: `context_tokens` when present, else
/// `estimated_context_tokens`; 0 when not a `u64`.
pub open spec fn spec_child_context_tokens(child: JVal) -> int {
    match jget(child, "context_tokens"@) {
        Some(v) => match jas_u64(v) {
            Some(n) => n,
            None => 0,
        },
        None => u64_or_zero(jget(child, "estimated_context_tokens"@)),
    }
}

/// A host subagent's recorded usage, when it is an object.
pub open spec fn spec_usage_object(child: JVal) -> Option<JVal> {
    match jget(child, "total_token_usage"@) {
        Some(JVal::Object(m)) => Some(JVal::Object(m)),
        _ => None,
    }
}

/// The run record's host subagents (none when `child_agents` is not a list).
pub open spec fn spec_child_agents(run_record: JVal) -> Seq<JVal> {
    match jget(run_record, "child_agents"@) {
        Some(JVal::Array(a)) => a,
        _ => Seq::empty(),
    }
}

/// What a delegation with resolved usage adds: its agent and usage counts.
pub open spec fn delegation_contribution(d: (JVal, Option<JVal>)) -> Option<(Seq<char>, TokenCounts)> {
    match d.1 {
        Some(u) => Some((spec_delegation_agent_id(d.0), spec_usage_counts(u, 0))),
        None => None,
    }
}

/// What a host subagent with a usage object adds: its usage counts and
/// context tokens.
pub open spec fn child_usage_contribution(c: JVal) -> Option<(Seq<char>, TokenCounts)> {
    match spec_usage_object(c) {
        Some(u) => Some((spec_child_agent_id(c), spec_usage_counts(u, spec_child_context_tokens(c)))),
        None => None,
    }
}

/// What a host subagent without usage adds: its context tokens, when
/// positive.
pub open spec fn child_context_contribution(c: JVal) -> Option<(Seq<char>, TokenCounts)> {
    match spec_usage_object(c) {
        Some(_) => None,
        None => if spec_child_context_tokens(c) > 0 {
            Some((spec_child_agent_id(c), (0, 0, 0, 0, 0, spec_child_context_tokens(c))))
        } else {
            None
        },
    }
}

pub open spec fn delegation_step() -> spec_fn((JVal, Option<JVal>)) -> Option<(Seq<char>, TokenCounts)> {
    |d: (JVal, Option<JVal>)| delegation_contribution(d)
}

pub open spec fn child_usage_step() -> spec_fn(JVal) -> Option<(Seq<char>, TokenCounts)> {
    |c: JVal| child_usage_contribution(c)
}

pub open spec fn child_context_step() -> spec_fn(JVal) -> Option<(Seq<char>, TokenCounts)> {
    |c: JVal| child_context_contribution(c)
}

/// Every agent's token counts in order: the delegations with resolved
/// usage, then the host subagents with usage, then those with only context
/// tokens.
pub open spec fn spec_token_contributions(delegations: Seq<(JVal, Option<JVal>)>, run_record: JVal) -> Seq<
    (Seq<char>, TokenCounts),
> {
    let children = spec_child_agents(run_record);
    delegations.filter_map(delegation_step()) + children.filter_map(child_usage_step())
        + children.filter_map(child_context_step())
}

/// The sums of each count over a list.
pub open spec fn column_sums(cs: Seq<(Seq<char>, TokenCounts)>) -> TokenCounts
    decreases cs.len(),
{
    if cs.len() == 0 {
        (0, 0, 0, 0, 0, 0)
    } else {
        add_counts(column_sums(cs.drop_last()), cs.last().1)
    }
}

/// `c` added to the tally of `k` (a new tally of `c` when `k` has none).
pub open spec fn tally_upsert(m: Map<Seq<char>, TokenCounts>, k: Seq<char>, c: TokenCounts) -> Map<
    Seq<char>,
    TokenCounts,
> {
    m.insert(
        k,
        if m.contains_key(k) {
            add_counts(m[k], c)
        } else {
            c
        },
    )
}

/// Each agent's counts summed over its entries.
pub open spec fn spec_agent_tallies(cs: Seq<(Seq<char>, TokenCounts)>) -> Map<Seq<char>, TokenCounts>
    decreases cs.len(),
{
    if cs.len() == 0 {
        Map::empty()
    } else {
        tally_upsert(spec_agent_tallies(cs.drop_last()), cs.last().0, cs.last().1)
    }
}

/// Appending an entry adds its counts to the sums.
pub proof fn lemma_column_sums_push(cs: Seq<(Seq<char>, TokenCounts)>, e: (Seq<char>, TokenCounts))
    ensures
        column_sums(cs.push(e)) == add_counts(column_sums(cs), e.1),
{
    assert(cs.push(e).drop_last() =~= cs);
}

/// The sums of a prefix.
pub proof fn lemma_column_sums_take(cs: Seq<(Seq<char>, TokenCounts)>, i: int)
    requires
        0 <= i < cs.len(),
    ensures
        column_sums(cs.take(i + 1)) == add_counts(column_sums(cs.take(i)), cs[i].1),
{
    assert(cs.take(i + 1).drop_last() =~= cs.take(i));
}

/// With no negative counts, a prefix sums to no more than the whole list.
pub proof fn lemma_column_sums_prefix_le(cs: Seq<(Seq<char>, TokenCounts)>, i: int)
    requires
        0 <= i <= cs.len(),
        forall|k: int| 0 <= k < cs.len() ==> counts_nonneg(#[trigger] cs[k].1),
    ensures
        counts_le(column_sums(cs.take(i)), column_sums(cs)),
        counts_nonneg(column_sums(cs.take(i))),
    decreases cs.len(),
{
    if i == cs.len() {
        assert(cs.take(i) =~= cs);
        if cs.len() > 0 {
            lemma_column_sums_prefix_le(cs.drop_last(), cs.len() - 1);
            assert(cs.drop_last().take(cs.len() - 1) =~= cs.drop_last());
        }
    } else {
        let d = cs.drop_last();
        assert forall|k: int| 0 <= k < d.len() implies counts_nonneg(#[trigger] d[k].1) by {
            assert(d[k] == cs[k]);
        }
        lemma_column_sums_prefix_le(d, i);
        assert(d.take(i) =~= cs.take(i));
        lemma_column_sums_prefix_le(d, d.len() as int);
        assert(d.take(d.len() as int) =~= d);
    }
}

/// With no negative counts, an agent's tally is no more than the sums.
pub proof fn lemma_agent_tally_le_sums(cs: Seq<(Seq<char>, TokenCounts)>, k: Seq<char>)
    requires
        forall|i: int| 0 <= i < cs.len() ==> counts_nonneg(#[trigger] cs[i].1),
        spec_agent_tallies(cs).contains_key(k),
    ensures
        counts_le(spec_agent_tallies(cs)[k], column_sums(cs)),
        counts_nonneg(spec_agent_tallies(cs)[k]),
    decreases cs.len(),
{
    let d = cs.drop_last();
    assert forall|i: int| 0 <= i < d.len() implies counts_nonneg(#[trigger] d[i].1) by {
        assert(d[i] == cs[i]);
    }
    lemma_column_sums_prefix_le(d, d.len() as int);
    assert(d.take(d.len() as int) =~= d);
    assert(counts_nonneg(cs[cs.len() - 1].1));
    if spec_agent_tallies(d).contains_key(k) {
        lemma_agent_tally_le_sums(d, k);
    }
}


/// Adding to an entry that is there: the list stays sorted, the map gains
/// the counts under that key, and the sums grow by them.
pub proof fn lemma_upsert_existing(s: Seq<(Seq<char>, TokenCounts)>, i: int, c: TokenCounts)
    requires
        keys_sorted(s),
        0 <= i < s.len(),
    ensures
        ({
            let n = s.update(i, (s[i].0, add_counts(s[i].1, c)));
            &&& keys_sorted(n)
            &&& entries_map(n) == tally_upsert(entries_map(s), s[i].0, c)
            &&& column_sums(n) == add_counts(column_sums(s), c)
        }),
    decreases s.len(),
{
    let n = s.update(i, (s[i].0, add_counts(s[i].1, c)));
    let k = s[i].0;
    assert forall|a: int, b: int| 0 <= a < b < n.len() implies seq_lt(#[trigger] n[a].0, #[trigger] n[b].0) by {
        assert(n[a].0 == s[a].0 && n[b].0 == s[b].0);
    }
    lemma_sorted_entry(s, i);
    lemma_sorted_entry(n, i);
    let m = tally_upsert(entries_map(s), k, c);
    assert forall|x: Seq<char>| #[trigger] entries_map(n).contains_key(x) <==> m.contains_key(x) by {
        if has_key(n, x) {
            let j = key_index(n, x);
            assert(s[j].0 == x);
        }
        if has_key(s, x) {
            let j = key_index(s, x);
            assert(n[j].0 == x);
        }
    }
    assert forall|x: Seq<char>| #[trigger] entries_map(n).contains_key(x) implies entries_map(n)[x]
        == m[x] by {
        if x != k {
            let j = key_index(n, x);
            assert(s[j] == n[j]);
            lemma_sorted_entry(n, j);
            lemma_sorted_entry(s, j);
        }
    }
    assert(entries_map(n) =~= m);
    if i == s.len() - 1 {
        assert(n.drop_last() =~= s.drop_last());
    } else {
        let d = s.drop_last();
        lemma_sorted_drop_last(s);
        lemma_upsert_existing(d, i, c);
        assert(n.drop_last() =~= d.update(i, (d[i].0, add_counts(d[i].1, c))));
    }
}

/// Adding an entry for a key that is not there, at its place in order: the
/// list stays sorted, the map gains the key, and the sums grow by its counts.
pub proof fn lemma_upsert_new(s: Seq<(Seq<char>, TokenCounts)>, i: int, k: Seq<char>, c: TokenCounts)
    requires
        keys_sorted(s),
        0 <= i <= s.len(),
        forall|j: int| 0 <= j < i ==> seq_lt(#[trigger] s[j].0, k),
        i < s.len() ==> seq_lt(k, s[i].0),
    ensures
        ({
            let n = s.insert(i, (k, c));
            &&& keys_sorted(n)
            &&& entries_map(n) == tally_upsert(entries_map(s), k, c)
            &&& column_sums(n) == add_counts(column_sums(s), c)
        }),
    decreases s.len(),
{
    let n = s.insert(i, (k, c));
    assert forall|a: int, b: int| 0 <= a < b < n.len() implies seq_lt(#[trigger] n[a].0, #[trigger] n[b].0) by {
        if b < i {
        } else if a < i && b == i {
        } else if a < i && b > i {
            assert(n[b] == s[b - 1]);
            if b - 1 == a {
            } else {
                assert(seq_lt(s[a].0, s[b - 1].0));
            }
        } else if a == i {
            assert(n[b] == s[b - 1]);
            if b - 1 > i {
                assert(seq_lt(s[i].0, s[b - 1].0));
                lemma_seq_lt_transitive(k, s[i].0, s[b - 1].0);
            }
        } else {
            assert(n[a] == s[a - 1]);
            assert(n[b] == s[b - 1]);
        }
    }
    assert(!has_key(s, k)) by {
        if has_key(s, k) {
            let j = key_index(s, k);
            if j < i {
                lemma_seq_lt_irreflexive(k);
            } else {
                if j > i {
                    assert(seq_lt(s[i].0, s[j].0));
                    lemma_seq_lt_transitive(k, s[i].0, s[j].0);
                }
                lemma_seq_lt_irreflexive(k);
            }
        }
    }
    lemma_sorted_entry(n, i);
    let m = tally_upsert(entries_map(s), k, c);
    assert forall|x: Seq<char>| #[trigger] entries_map(n).contains_key(x) <==> m.contains_key(x) by {
        if has_key(n, x) && x != k {
            let j = key_index(n, x);
            if j < i {
                assert(s[j].0 == x);
            } else {
                assert(s[j - 1].0 == x);
            }
        }
        if has_key(s, x) {
            let j = key_index(s, x);
            if j < i {
                assert(n[j].0 == x);
            } else {
                assert(n[j + 1].0 == x);
            }
        }
    }
    assert forall|x: Seq<char>| #[trigger] entries_map(n).contains_key(x) implies entries_map(n)[x]
        == m[x] by {
        if x != k {
            let j = key_index(s, x);
            lemma_sorted_entry(s, j);
            if j < i {
                assert(n[j] == s[j]);
                lemma_sorted_entry(n, j);
            } else {
                assert(n[j + 1] == s[j]);
                lemma_sorted_entry(n, j + 1);
            }
        }
    }
    assert(entries_map(n) =~= m);
    if i == s.len() {
        assert(n =~= s.push((k, c)));
        lemma_column_sums_push(s, (k, c));
    } else {
        let d = s.drop_last();
        lemma_sorted_drop_last(s);
        assert forall|j: int| 0 <= j < i implies seq_lt(#[trigger] d[j].0, k) by {
            assert(d[j] == s[j]);
        }
        if i < d.len() {
            assert(d[i] == s[i]);
        }
        lemma_upsert_new(d, i, k, c);
        assert(n.drop_last() =~= d.insert(i, (k, c)));
        assert(n.last() == s.last());
    }
}

/// An entry of a list with no negative counts is no more than the sums.
pub proof fn lemma_contains_le_sums(cs: Seq<(Seq<char>, TokenCounts)>, e: (Seq<char>, TokenCounts))
    requires
        cs.contains(e),
        forall|k: int| 0 <= k < cs.len() ==> counts_nonneg(#[trigger] cs[k].1),
    ensures
        counts_le(e.1, column_sums(cs)),
    decreases cs.len(),
{
    let d = cs.drop_last();
    assert forall|k: int| 0 <= k < d.len() implies counts_nonneg(#[trigger] d[k].1) by {
        assert(d[k] == cs[k]);
    }
    lemma_column_sums_prefix_le(d, d.len() as int);
    assert(d.take(d.len() as int) =~= d);
    assert(counts_nonneg(cs[cs.len() - 1].1));
    if cs.last() != e {
        let j = choose|j: int| 0 <= j < cs.len() && cs[j] == e;
        assert(d[j] == e);
        lemma_contains_le_sums(d, e);
    }
}

/// An element that `f` keeps is in what `filter_map` yields.
pub proof fn lemma_filter_map_has<A, B>(s: Seq<A>, f: spec_fn(A) -> Option<B>, i: int)
    requires
        0 <= i < s.len(),
        f(s[i]) is Some,
    ensures
        s.filter_map(f).contains(f(s[i])->Some_0),
    decreases s.len(),
{
    let d = s.drop_last();
    let b = f(s[i])->Some_0;
    if i == s.len() - 1 {
        let r = d.filter_map(f);
        assert(s.filter_map(f) == r + seq![b]);
        assert((r + seq![b])[r.len() as int] == b);
    } else {
        assert(d[i] == s[i]);
        lemma_filter_map_has(d, f, i);
        let r = d.filter_map(f);
        let j = choose|j: int| 0 <= j < r.len() && r[j] == b;
        match f(s.last()) {
            Some(x) => {
                assert(s.filter_map(f) == r + seq![x]);
                assert((r + seq![x])[j] == b);
            },
            None => {},
        }
    }
}

/// Every contribution has no negative counts.
pub proof fn lemma_contributions_nonneg(delegations: Seq<(JVal, Option<JVal>)>, run_record: JVal)
    ensures
        forall|k: int|
            0 <= k < spec_token_contributions(delegations, run_record).len() ==> counts_nonneg(
                #[trigger] spec_token_contributions(delegations, run_record)[k].1,
            ),
{
    let children = spec_child_agents(run_record);
    let p1 = delegations.filter_map(delegation_step());
    let p2 = children.filter_map(child_usage_step());
    let p3 = children.filter_map(child_context_step());
    let cs = spec_token_contributions(delegations, run_record);
    assert(cs == p1 + p2 + p3);
    assert forall|k: int| 0 <= k < cs.len() implies counts_nonneg(#[trigger] cs[k].1) by {
        let e = cs[k];
        if k < p1.len() {
            assert(p1[k] == e);
            assert(p1.contains(e));
            delegations.lemma_filter_map_contains(delegation_step(), e);
        } else if k < p1.len() + p2.len() {
            assert(p2[k - p1.len()] == e);
            assert(p2.contains(e));
            children.lemma_filter_map_contains(child_usage_step(), e);
        } else {
            assert(p3[k - p1.len() - p2.len()] == e);
            assert(p3.contains(e));
            children.lemma_filter_map_contains(child_context_step(), e);
        }
    }
}


/// A tally of token counts.
#[derive(Clone, Copy)]
pub struct TokenTally {
    pub input_tokens: u64,
    pub cached_input_tokens: u64,
    pub output_tokens: u64,
    pub reasoning_output_tokens: u64,
    pub total_tokens: u64,
    pub context_tokens: u64,
}

pub open spec fn tally_view(t: TokenTally) -> TokenCounts {
    (
        t.input_tokens as int,
        t.cached_input_tokens as int,
        t.output_tokens as int,
        t.reasoning_output_tokens as int,
        t.total_tokens as int,
        t.context_tokens as int,
    )
}

/// The views of a list of agent tallies.
pub open spec fn entries_view(v: Seq<(String, TokenTally)>) -> Seq<(Seq<char>, TokenCounts)> {
    v.map_values(|e: (String, TokenTally)| (e.0@, tally_view(e.1)))
}

/// The views of delegations paired with their resolved usage.
pub open spec fn delegation_usages_view(ds: Seq<(Json, Option<Json>)>) -> Seq<(JVal, Option<JVal>)> {
    ds.map_values(|d: (Json, Option<Json>)| (jview(d.0), opt_jview(d.1)))
}

fn checked_add_tally(a: TokenTally, b: TokenTally) -> (r: Option<TokenTally>)
    ensures
        match r {
            Some(t) => tally_view(t) == add_counts(tally_view(a), tally_view(b)),
            None => !counts_fit(add_counts(tally_view(a), tally_view(b))),
        },
{
    let input_tokens = match a.input_tokens.checked_add(b.input_tokens) {
        Some(n) => n,
        None => return None,
    };
    let cached_input_tokens = match a.cached_input_tokens.checked_add(b.cached_input_tokens) {
        Some(n) => n,
        None => return None,
    };
    let output_tokens = match a.output_tokens.checked_add(b.output_tokens) {
        Some(n) => n,
        None => return None,
    };
    let reasoning_output_tokens = match a.reasoning_output_tokens.checked_add(
        b.reasoning_output_tokens,
    ) {
        Some(n) => n,
        None => return None,
    };
    let total_tokens = match a.total_tokens.checked_add(b.total_tokens) {
        Some(n) => n,
        None => return None,
    };
    let context_tokens = match a.context_tokens.checked_add(b.context_tokens) {
        Some(n) => n,
        None => return None,
    };
    Some(
        TokenTally {
            input_tokens,
            cached_input_tokens,
            output_tokens,
            reasoning_output_tokens,
            total_tokens,
            context_tokens,
        },
    )
}

fn checked_token_usage_total_count(usage: &Json) -> (r: Option<u64>)
    ensures
        match r {
            Some(n) => n == spec_token_usage_total_count(jview(*usage)),
            None => spec_token_usage_total_count(jview(*usage)) > u64::MAX,
        },
{
    match usage.u64_field("total_tokens") {
        Some(n) => Some(n),
        None => {
            let a = u64_field_or_zero(usage, "input_tokens");
            let b = u64_field_or_zero(usage, "cached_input_tokens");
            let c = u64_field_or_zero(usage, "output_tokens");
            let d = u64_field_or_zero(usage, "reasoning_output_tokens");
            match a.checked_add(b) {
                Some(ab) => match ab.checked_add(c) {
                    Some(abc) => abc.checked_add(d),
                    None => None,
                },
                None => None,
            }
        },
    }
}

fn checked_usage_counts(usage: &Json, context: u64) -> (r: Option<TokenTally>)
    ensures
        match r {
            Some(t) => tally_view(t) == spec_usage_counts(jview(*usage), context as int),
            None => spec_token_usage_total_count(jview(*usage)) > u64::MAX,
        },
{
    match checked_token_usage_total_count(usage) {
        Some(total_tokens) => Some(
            TokenTally {
                input_tokens: u64_field_or_zero(usage, "input_tokens"),
                cached_input_tokens: u64_field_or_zero(usage, "cached_input_tokens"),
                output_tokens: u64_field_or_zero(usage, "output_tokens"),
                reasoning_output_tokens: u64_field_or_zero(usage, "reasoning_output_tokens"),
                total_tokens,
                context_tokens: context,
            },
        ),
        None => None,
    }
}

fn delegation_agent_id(delegation: &Json) -> (r: &str)
    ensures
        r@ == spec_delegation_agent_id(jview(*delegation)),
{
    let keys: [&str; 2] = ["child_agent", "agent_id"];
    let ks = keys.as_slice();
    assert(ks@.map_values(|k: &str| k@) =~= seq!["child_agent"@, "agent_id"@]);
    match delegation.str_at(ks) {
        Some(s) => s,
        None => "worker",
    }
}

fn child_agent_id(child: &Json) -> (r: &str)
    ensures
        r@ == spec_child_agent_id(jview(*child)),
{
    match child.str_field("agent_id") {
        Some(s) => s,
        None => "host_subagent",
    }
}

fn child_context_tokens(child: &Json) -> (r: u64)
    ensures
        r == spec_child_context_tokens(jview(*child)),
{
    match child.get("context_tokens") {
        Some(v) => match v.as_u64() {
            Some(n) => n,
            None => 0,
        },
        None => u64_field_or_zero(child, "estimated_context_tokens"),
    }
}

fn usage_object(child: &Json) -> (r: Option<&Json>)
    ensures
        match r {
            Some(u) => spec_usage_object(jview(*child)) == Some(jview(*u)),
            None => spec_usage_object(jview(*child)) is None,
        },
{
    match child.get("total_token_usage") {
        Some(u) => if u.is_object() {
            Some(u)
        } else {
            None
        },
        None => None,
    }
}

proof fn lemma_entries_view_nonneg(v: Seq<(String, TokenTally)>)
    ensures
        forall|k: int| 0 <= k < entries_view(v).len() ==> counts_nonneg(#[trigger] entries_view(v)[k].1),
{
}

/// Adds `t` to the tally of `key` in a list kept in ascending key order.
fn upsert_tally(v: &mut Vec<(String, TokenTally)>, key: &str, t: TokenTally)
    requires
        keys_sorted(entries_view(old(v)@)),
        entries_map(entries_view(old(v)@)).contains_key(key@) ==> counts_fit(
            add_counts(entries_map(entries_view(old(v)@))[key@], tally_view(t)),
        ),
    ensures
        keys_sorted(entries_view(final(v)@)),
        entries_map(entries_view(final(v)@)) == tally_upsert(
            entries_map(entries_view(old(v)@)),
            key@,
            tally_view(t),
        ),
        column_sums(entries_view(final(v)@)) == add_counts(
            column_sums(entries_view(old(v)@)),
            tally_view(t),
        ),
{
    let kc = chars_of(key);
    let ghost s = entries_view(v@);
    let mut i: usize = 0;
    while i < v.len()
        invariant
            i <= v.len(),
            v@ == old(v)@,
            s == entries_view(v@),
            keys_sorted(s),
            kc@ == key@,
            entries_map(s).contains_key(key@) ==> counts_fit(
                add_counts(entries_map(s)[key@], tally_view(t)),
            ),
            forall|j: int| 0 <= j < i ==> seq_lt(#[trigger] s[j].0, key@),
        ensures
            i <= v.len(),
            forall|j: int| 0 <= j < i ==> seq_lt(#[trigger] s[j].0, key@),
            i < v.len() ==> seq_lt(key@, s[i as int].0),
        decreases v.len() - i,
    {
        let cs = chars_of(v[i].0.as_str());
        assert(s[i as int].0 == cs@);
        let c = compare_chars(&cs, &kc);
        if c == 0 {
            proof {
                lemma_sorted_entry(s, i as int);
                lemma_upsert_existing(s, i as int, tally_view(t));
            }
            let old_tally = v[i].1;
            let sum = match checked_add_tally(old_tally, t) {
                Some(x) => x,
                None => {
                    assert(false);
                    t
                },
            };
            v.set(i, (to_owned(key), sum));
            assert(entries_view(v@) =~= s.update(i as int, (s[i as int].0, add_counts(s[i as int].1, tally_view(t)))));
            return;
        }
        if c == 1 {
            break;
        }
        i = i + 1;
    }
    proof {
        lemma_upsert_new(s, i as int, key@, tally_view(t));
    }
    v.insert(i, (to_owned(key), t));
    assert(entries_view(v@) =~= s.insert(i as int, (key@, tally_view(t))));
}

/// Each agent's tally, in ascending order of agent id. The tallies add up
/// to the sums over all contributions.
pub fn tally_by_agent(contributions: &Vec<(String, TokenTally)>) -> (r: Vec<(String, TokenTally)>)
    requires
        counts_fit(column_sums(entries_view(contributions@))),
    ensures
        keys_sorted(entries_view(r@)),
        entries_map(entries_view(r@)) == spec_agent_tallies(entries_view(contributions@)),
        column_sums(entries_view(r@)) == column_sums(entries_view(contributions@)),
{
    let ghost cv = entries_view(contributions@);
    let mut out: Vec<(String, TokenTally)> = Vec::new();
    let mut i: usize = 0;
    proof {
        assert(cv.take(0) =~= Seq::<(Seq<char>, TokenCounts)>::empty());
        assert(entries_view(out@) =~= Seq::<(Seq<char>, TokenCounts)>::empty());
        assert(entries_map(entries_view(out@)) =~= Map::<Seq<char>, TokenCounts>::empty());
        lemma_entries_view_nonneg(contributions@);
    }
    while i < contributions.len()
        invariant
            i <= contributions.len(),
            cv == entries_view(contributions@),
            counts_fit(column_sums(cv)),
            forall|k: int| 0 <= k < cv.len() ==> counts_nonneg(#[trigger] cv[k].1),
            keys_sorted(entries_view(out@)),
            entries_map(entries_view(out@)) == spec_agent_tallies(cv.take(i as int)),
            column_sums(entries_view(out@)) == column_sums(cv.take(i as int)),
        decreases contributions.len() - i,
    {
        let ghost pre = cv.take(i as int);
        let ghost next = cv.take(i + 1);
        proof {
            assert(next.drop_last() =~= pre);
            assert(next.last() == cv[i as int]);
            lemma_column_sums_take(cv, i as int);
            assert forall|k: int| 0 <= k < next.len() implies counts_nonneg(#[trigger] next[k].1) by {
                assert(next[k] == cv[k]);
            }
            lemma_column_sums_prefix_le(cv, i + 1);
            let key = cv[i as int].0;
            if spec_agent_tallies(pre).contains_key(key) {
                lemma_agent_tally_le_sums(next, key);
            }
        }
        upsert_tally(&mut out, contributions[i].0.as_str(), contributions[i].1);
        i = i + 1;
    }
    assert(cv.take(contributions.len() as int) =~= cv);
    out
}

fn checked_column_sums(contributions: &Vec<(String, TokenTally)>) -> (r: Option<TokenTally>)
    ensures
        match r {
            Some(t) => tally_view(t) == column_sums(entries_view(contributions@)),
            None => !counts_fit(column_sums(entries_view(contributions@))),
        },
{
    let ghost cv = entries_view(contributions@);
    let mut sum = TokenTally {
        input_tokens: 0,
        cached_input_tokens: 0,
        output_tokens: 0,
        reasoning_output_tokens: 0,
        total_tokens: 0,
        context_tokens: 0,
    };
    let mut i: usize = 0;
    proof {
        assert(cv.take(0) =~= Seq::<(Seq<char>, TokenCounts)>::empty());
        lemma_entries_view_nonneg(contributions@);
    }
    while i < contributions.len()
        invariant
            i <= contributions.len(),
            cv == entries_view(contributions@),
            forall|k: int| 0 <= k < cv.len() ==> counts_nonneg(#[trigger] cv[k].1),
            tally_view(sum) == column_sums(cv.take(i as int)),
        decreases contributions.len() - i,
    {
        proof {
            lemma_column_sums_take(cv, i as int);
            lemma_column_sums_prefix_le(cv, i + 1);
        }
        sum = match checked_add_tally(sum, contributions[i].1) {
            Some(x) => x,
            None => return None,
        };
        i = i + 1;
    }
    assert(cv.take(contributions.len() as int) =~= cv);
    Some(sum)
}


/// Gathers every agent's token counts (see `spec_token_contributions`);
/// none when a usage's own total does not fit in a `u64`.
fn checked_token_contributions(delegations: &Vec<(Json, Option<Json>)>, run_record: &Json) -> (r:
    Option<Vec<(String, TokenTally)>>)
    ensures
        match r {
            Some(v) => entries_view(v@) == spec_token_contributions(
                delegation_usages_view(delegations@),
                jview(*run_record),
            ),
            None => !counts_fit(
                column_sums(
                    spec_token_contributions(
                        delegation_usages_view(delegations@),
                        jview(*run_record),
                    ),
                ),
            ),
        },
{
    let ghost dv = delegation_usages_view(delegations@);
    let ghost rv = jview(*run_record);
    let ghost full = spec_token_contributions(dv, rv);
    let ghost children = spec_child_agents(rv);
    let ghost p1 = dv.filter_map(delegation_step());
    let ghost p2 = children.filter_map(child_usage_step());
    let ghost p3 = children.filter_map(child_context_step());
    proof {
        lemma_contributions_nonneg(dv, rv);
        assert(full == p1 + p2 + p3);
    }
    let mut out: Vec<(String, TokenTally)> = Vec::new();
    let mut i: usize = 0;
    assert(dv.take(0).filter_map(delegation_step()) =~= Seq::<(Seq<char>, TokenCounts)>::empty());
    assert(entries_view(out@) =~= Seq::<(Seq<char>, TokenCounts)>::empty());
    while i < delegations.len()
        invariant
            i <= delegations.len(),
            dv == delegation_usages_view(delegations@),
            rv == jview(*run_record),
            full == spec_token_contributions(dv, rv),
            full == p1 + p2 + p3,
            p1 == dv.filter_map(delegation_step()),
            forall|k: int| 0 <= k < full.len() ==> counts_nonneg(#[trigger] full[k].1),
            entries_view(out@) == dv.take(i as int).filter_map(delegation_step()),
        decreases delegations.len() - i,
    {
        proof {
            dv.lemma_filter_map_take_succ(delegation_step(), i as int);
        }
        match &delegations[i].1 {
            Some(u) => {
                let ghost e = delegation_contribution(dv[i as int])->Some_0;
                assert(dv[i as int] == (jview(delegations@[i as int].0), opt_jview(delegations@[i as int].1)));
                assert(e.1 == spec_usage_counts(jview(*u), 0));
                proof {
                    lemma_filter_map_has(dv, delegation_step(), i as int);
                    let j = choose|j: int| 0 <= j < p1.len() && p1[j] == e;
                    assert(full[j] == e);
                    lemma_contains_le_sums(full, e);
                }
                let t = match checked_usage_counts(u, 0) {
                    Some(t) => t,
                    None => return None,
                };
                out.push((to_owned(delegation_agent_id(&delegations[i].0)), t));
                assert(entries_view(out@) =~= dv.take(i + 1).filter_map(delegation_step()));
            },
            None => {
                assert(entries_view(out@) =~= dv.take(i + 1).filter_map(delegation_step()));
            },
        }
        i = i + 1;
    }
    assert(dv.take(delegations.len() as int) =~= dv);
    let items = array_items(run_record.get("child_agents"));
    let empty: Vec<Json> = Vec::new();
    let list: &Vec<Json> = match items {
        Some(l) => l,
        None => &empty,
    };
    assert(jviews(list@) =~= children);
    let mut i: usize = 0;
    assert(children.take(0).filter_map(child_usage_step()) =~= Seq::<(Seq<char>, TokenCounts)>::empty());
    assert(entries_view(out@) =~= p1 + children.take(0).filter_map(child_usage_step()));
    while i < list.len()
        invariant
            i <= list.len(),
            jviews(list@) == children,
            dv == delegation_usages_view(delegations@),
            rv == jview(*run_record),
            full == spec_token_contributions(dv, rv),
            full == p1 + p2 + p3,
            p2 == children.filter_map(child_usage_step()),
            forall|k: int| 0 <= k < full.len() ==> counts_nonneg(#[trigger] full[k].1),
            entries_view(out@) == p1 + children.take(i as int).filter_map(child_usage_step()),
        decreases list.len() - i,
    {
        proof {
            children.lemma_filter_map_take_succ(child_usage_step(), i as int);
        }
        let child = &list[i];
        assert(children[i as int] == jview(*child));
        match usage_object(child) {
            Some(u) => {
                let ghost e = child_usage_contribution(children[i as int])->Some_0;
                assert(e == (spec_child_agent_id(jview(*child)), spec_usage_counts(jview(*u), spec_child_context_tokens(jview(*child)))));
                proof {
                    lemma_filter_map_has(children, child_usage_step(), i as int);
                    let j = choose|j: int| 0 <= j < p2.len() && p2[j] == e;
                    assert(full[p1.len() + j] == e);
                    lemma_contains_le_sums(full, e);
                }
                let t = match checked_usage_counts(u, child_context_tokens(child)) {
                    Some(t) => t,
                    None => return None,
                };
                let ghost before = entries_view(out@);
                out.push((to_owned(child_agent_id(child)), t));
                assert(entries_view(out@) =~= before.push(e));
                assert(child_usage_step()(children[i as int]) == Some(e));
                assert(entries_view(out@) =~= p1 + children.take(i + 1).filter_map(child_usage_step()));
            },
            None => {
                assert(entries_view(out@) =~= p1 + children.take(i + 1).filter_map(child_usage_step()));
            },
        }
        i = i + 1;
    }
    assert(children.take(list.len() as int) =~= children);
    let mut i: usize = 0;
    assert(children.take(0).filter_map(child_context_step()) =~= Seq::<(Seq<char>, TokenCounts)>::empty());
    assert(entries_view(out@) =~= p1 + p2 + children.take(0).filter_map(child_context_step()));
    while i < list.len()
        invariant
            i <= list.len(),
            jviews(list@) == children,
            p3 == children.filter_map(child_context_step()),
            entries_view(out@) == p1 + p2 + children.take(i as int).filter_map(child_context_step()),
        decreases list.len() - i,
    {
        proof {
            children.lemma_filter_map_take_succ(child_context_step(), i as int);
        }
        let child = &list[i];
        assert(children[i as int] == jview(*child));
        let context = child_context_tokens(child);
        let ghost before = entries_view(out@);
        if usage_object(child).is_none() && context > 0 {
            assert(child_context_step()(children[i as int]) == Some(
                (spec_child_agent_id(jview(*child)), (0int, 0int, 0int, 0int, 0int, context as int)),
            ));
            out.push(
                (
                    to_owned(child_agent_id(child)),
                    TokenTally {
                        input_tokens: 0,
                        cached_input_tokens: 0,
                        output_tokens: 0,
                        reasoning_output_tokens: 0,
                        total_tokens: 0,
                        context_tokens: context,
                    },
                ),
            );
            assert(entries_view(out@) =~= before.push(
                (spec_child_agent_id(jview(*child)), (0int, 0int, 0int, 0int, 0int, context as int)),
            ));
        } else {
            assert(child_context_step()(children[i as int]) is None);
        }
        assert(entries_view(out@) =~= p1 + p2 + children.take(i + 1).filter_map(child_context_step()));
        i = i + 1;
    }
    assert(children.take(list.len() as int) =~= children);
    Some(out)
}

/// One agent's entry of `by_subagent`.
pub open spec fn spec_subagent_entry(e: (Seq<char>, TokenCounts)) -> JVal {
    JVal::Object(
        seq![
            ("agent_id"@, JVal::Str(e.0)),
            ("total_tokens"@, JVal::Num(e.1.4)),
            ("context_tokens"@, JVal::Num(e.1.5)),
        ],
    )
}

/// One agent's entry of `by_agent`.
pub open spec fn spec_agent_entry(e: (Seq<char>, TokenCounts)) -> JVal {
    JVal::Object(
        seq![
            ("agent_id"@, JVal::Str(e.0)),
            ("input_tokens"@, JVal::Num(e.1.0)),
            ("cached_input_tokens"@, JVal::Num(e.1.1)),
            ("output_tokens"@, JVal::Num(e.1.2)),
            ("reasoning_output_tokens"@, JVal::Num(e.1.3)),
            ("total_tokens"@, JVal::Num(e.1.4)),
            ("context_tokens"@, JVal::Num(e.1.5)),
        ],
    )
}

/// The run's token usage: `null` when no agent contributed; otherwise the
/// sums of each count over all contributions, and each agent's tally in
/// ascending order of agent id (totals and context in `by_subagent`, every
/// count in `by_agent`).
pub open spec fn spec_token_usage_payload(delegations: Seq<(JVal, Option<JVal>)>, run_record: JVal) -> JVal {
    let cs = spec_token_contributions(delegations, run_record);
    if cs.len() == 0 {
        JVal::Null
    } else {
        let t = column_sums(cs);
        let es = sorted_entries(spec_agent_tallies(cs));
        JVal::Object(
            seq![
                ("source"@, JVal::Str("delegation_and_host_subagent_usage_best_effort"@)),
                ("captain_tokens_available"@, JVal::Bool(false)),
                ("input_tokens"@, JVal::Num(t.0)),
                ("cached_input_tokens"@, JVal::Num(t.1)),
                ("output_tokens"@, JVal::Num(t.2)),
                ("reasoning_output_tokens"@, JVal::Num(t.3)),
                ("total_tokens"@, JVal::Num(t.4)),
                ("total_context_tokens"@, JVal::Num(t.5)),
                ("by_subagent"@, JVal::Array(es.map_values(|e: (Seq<char>, TokenCounts)| spec_subagent_entry(e)))),
                ("by_agent"@, JVal::Array(es.map_values(|e: (Seq<char>, TokenCounts)| spec_agent_entry(e)))),
            ],
        )
    }
}

fn subagent_entry(e: &(String, TokenTally)) -> (r: Json)
    ensures
        jview(r) == spec_subagent_entry((e.0@, tally_view(e.1))),
{
    let mut m: Vec<(String, Json)> = Vec::new();
    m.push(member("agent_id", jstr(e.0.as_str())));
    m.push(member("total_tokens", juint(e.1.total_tokens)));
    m.push(member("context_tokens", juint(e.1.context_tokens)));
    let r = object_of(m);
    assert(members_view(m@) =~= spec_subagent_entry((e.0@, tally_view(e.1)))->Object_0);
    r
}

fn agent_entry(e: &(String, TokenTally)) -> (r: Json)
    ensures
        jview(r) == spec_agent_entry((e.0@, tally_view(e.1))),
{
    let mut m: Vec<(String, Json)> = Vec::new();
    m.push(member("agent_id", jstr(e.0.as_str())));
    m.push(member("input_tokens", juint(e.1.input_tokens)));
    m.push(member("cached_input_tokens", juint(e.1.cached_input_tokens)));
    m.push(member("output_tokens", juint(e.1.output_tokens)));
    m.push(member("reasoning_output_tokens", juint(e.1.reasoning_output_tokens)));
    m.push(member("total_tokens", juint(e.1.total_tokens)));
    m.push(member("context_tokens", juint(e.1.context_tokens)));
    let r = object_of(m);
    assert(members_view(m@) =~= spec_agent_entry((e.0@, tally_view(e.1)))->Object_0);
    r
}

/// Whether the run's token counts can be summed in `u64`: no usage total
/// and no sum over all contributions exceeds `u64::MAX`.
pub fn token_usage_counts_fit(delegations: &Vec<(Json, Option<Json>)>, run_record: &Json) -> (r: bool)
    ensures
        r == counts_fit(
            column_sums(
                spec_token_contributions(delegation_usages_view(delegations@), jview(*run_record)),
            ),
        ),
{
    match checked_token_contributions(delegations, run_record) {
        Some(cs) => checked_column_sums(&cs).is_some(),
        None => false,
    }
}

pub fn create_token_usage_payload(delegations: &Vec<(Json, Option<Json>)>, run_record: &Json) -> (r:
    Json)
    requires
        counts_fit(
            column_sums(
                spec_token_contributions(delegation_usages_view(delegations@), jview(*run_record)),
            ),
        ),
    ensures
        jview(r) == spec_token_usage_payload(delegation_usages_view(delegations@), jview(*run_record)),
{
    let ghost dv = delegation_usages_view(delegations@);
    let ghost rv = jview(*run_record);
    let cs = match checked_token_contributions(delegations, run_record) {
        Some(cs) => cs,
        None => {
            assert(false);
            return Json::Null;
        },
    };
    if cs.len() == 0 {
        return Json::Null;
    }
    let totals = match checked_column_sums(&cs) {
        Some(t) => t,
        None => {
            assert(false);
            return Json::Null;
        },
    };
    let entries = tally_by_agent(&cs);
    let ghost ev = entries_view(entries@);
    proof {
        lemma_sorted_entries_unique(ev, sorted_entries(spec_agent_tallies(entries_view(cs@))));
    }
    let mut by_subagent: Vec<Json> = Vec::new();
    let mut by_agent: Vec<Json> = Vec::new();
    let mut i: usize = 0;
    while i < entries.len()
        invariant
            i <= entries.len(),
            ev == entries_view(entries@),
            by_subagent@.len() == i,
            by_agent@.len() == i,
            forall|k: int| 0 <= k < i ==> jview(#[trigger] by_subagent@[k]) == spec_subagent_entry(ev[k]),
            forall|k: int| 0 <= k < i ==> jview(#[trigger] by_agent@[k]) == spec_agent_entry(ev[k]),
        decreases entries.len() - i,
    {
        by_subagent.push(subagent_entry(&entries[i]));
        by_agent.push(agent_entry(&entries[i]));
        i = i + 1;
    }
    proof {
        lemma_array_view(by_subagent);
        lemma_array_view(by_agent);
        assert(by_subagent@.map_values(|x: Json| jview(x)) =~= ev.map_values(
            |e: (Seq<char>, TokenCounts)| spec_subagent_entry(e),
        ));
        assert(by_agent@.map_values(|x: Json| jview(x)) =~= ev.map_values(
            |e: (Seq<char>, TokenCounts)| spec_agent_entry(e),
        ));
    }
    let mut m: Vec<(String, Json)> = Vec::new();
    m.push(member("source", jstr("delegation_and_host_subagent_usage_best_effort")));
    m.push(member("captain_tokens_available", jbool(false)));
    m.push(member("input_tokens", juint(totals.input_tokens)));
    m.push(member("cached_input_tokens", juint(totals.cached_input_tokens)));
    m.push(member("output_tokens", juint(totals.output_tokens)));
    m.push(member("reasoning_output_tokens", juint(totals.reasoning_output_tokens)));
    m.push(member("total_tokens", juint(totals.total_tokens)));
    m.push(member("total_context_tokens", juint(totals.context_tokens)));
    m.push(member("by_subagent", Json::Array(by_subagent)));
    m.push(member("by_agent", Json::Array(by_agent)));
    let r = object_of(m);
    assert(members_view(m@) =~= spec_token_usage_payload(dv, rv)->Object_0);
    r
}


/// A delegation record's file name: its extension is `json` (a `.json`
/// ending after a non-empty stem) and it is not a `.result.json` file.
pub open spec fn spec_is_delegation_record_file_name(name: Seq<char>) -> bool {
    has_suffix(name, ".json"@) && name.len() > 5 && !has_suffix(name, ".result.json"@)
}

pub fn is_delegation_record_file_name(file_name: &str) -> (r: bool)
    ensures
        r == spec_is_delegation_record_file_name(file_name@),
{
    ends_with(file_name, ".json") && file_name.unicode_len() > 5 && !ends_with(
        file_name,
        ".result.json",
    )
}

} // verus!
