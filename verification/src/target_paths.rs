//! Finding the paths a request names: markdown link targets, absolute and
//! home-relative path mentions, bare tokens, and path-like values of
//! structured attachments.

use vstd::prelude::*;
use crate::json::{jget, jview, lemma_array_view, JVal, Json};
use crate::sorted_set::{insert_sorted, strictly_sorted, views};
use crate::strings::{
    chars_of, contains_char, find_char, find_seq, has_prefix, index_of_char, index_of_seq,
    is_ascii_digit, is_path_punct, is_ws, is_ws_char, last_index_of_char, occurs_at, rfind_char,
    starts_with, string_from_chars, strip_prefix, strip_prefix_spec, trim, trim_punct,
    trim_punct_string, trim_string, opt_string_view,
};

verus! {

/// `text` without the quotes, brackets and punctuation around it.
pub fn trim_target_path_text(text: &str) -> (r: String)
    ensures
        r@ == trim_punct(text@),
{
    trim_punct_string(text)
}

/// `text` trimmed, without a trailing `:<digits>` line suffix.
pub open spec fn spec_strip_line_suffix(text: Seq<char>) -> Seq<char> {
    let t = trim_punct(trim(text));
    let i = last_index_of_char(t, ':');
    if i > 0 && forall|k: int| i < k < t.len() ==> is_ascii_digit(#[trigger] t[k]) {
        trim_punct(t.take(i))
    } else {
        t
    }
}

pub fn strip_line_suffix(text: &str) -> (r: String)
    ensures
        r@ == spec_strip_line_suffix(text@),
{
    let t0 = trim_string(text);
    let t = trim_punct_string(t0.as_str());
    let cs = chars_of(t.as_str());
    match rfind_char(&cs, ':') {
        Some(i) => {
            if i == 0 {
                return t;
            }
            let mut k = i + 1;
            while k < cs.len()
                invariant
                    0 < i < k <= cs.len(),
                    cs@ == t@,
                    t@ == trim_punct(trim(text@)),
                    last_index_of_char(cs@, ':') == i,
                    forall|j: int| i < j < k ==> is_ascii_digit(#[trigger] cs@[j]),
                decreases cs.len() - k,
            {
                if !('0' <= cs[k] && cs[k] <= '9') {
                    assert(!is_ascii_digit(cs@[k as int]));
                    return t;
                }
                k = k + 1;
            }
            let path = string_from_chars(&cs, 0, i);
            assert(cs@.subrange(0, i as int) == cs@.take(i as int));
            trim_punct_string(path.as_str())
        },
        None => t,
    }
}

/// A path mention may start here: at the start of a line, after whitespace,
/// or after an opening quote, bracket, `:` or `=`.
pub open spec fn spec_is_path_start_boundary(previous: Option<char>) -> bool {
    match previous {
        Some(c) => is_ws(c) || c == '"' || c == '\'' || c == '`' || c == '(' || c == '[' || c == '{'
            || c == '<' || c == ':' || c == '=',
        None => true,
    }
}

pub fn is_path_start_boundary(previous: Option<char>) -> (r: bool)
    ensures
        r == spec_is_path_start_boundary(previous),
{
    match previous {
        Some(c) => is_ws_char(c) || c == '"' || c == '\'' || c == '`' || c == '(' || c == '['
            || c == '{' || c == '<' || c == ':' || c == '=',
        None => true,
    }
}

pub proof fn lemma_index_of_seq_bounds(s: Seq<char>, n: Seq<char>)
    ensures
        index_of_seq(s, n) >= 0 ==> index_of_seq(s, n) + n.len() <= s.len(),
        index_of_seq(s, n) >= -1,
    decreases s.len(),
{
    if s.len() >= n.len() && s.take(n.len() as int) != n && s.len() > 0 {
        lemma_index_of_seq_bounds(s.drop_first(), n);
    }
}

pub proof fn lemma_index_of_char_bounds(s: Seq<char>, c: char)
    ensures
        -1 <= index_of_char(s, c) < s.len(),
        index_of_char(s, c) >= 0 ==> s[index_of_char(s, c)] == c,
    decreases s.len(),
{
    if s.len() > 0 && s[0] != c {
        lemma_index_of_char_bounds(s.drop_first(), c);
    }
}

/// The link targets `[..](target)` of a text, trimmed, blank ones left out.
pub open spec fn markdown_link_targets(s: Seq<char>) -> Set<Seq<char>>
    decreases s.len(),
{
    let start = index_of_seq(s, seq![']', '(']);
    if start < 0 {
        Set::empty()
    } else {
        proof {
            lemma_index_of_seq_bounds(s, seq![']', '(']);
        }
        let after = s.skip(start + 2);
        let end = index_of_char(after, ')');
        if end < 0 {
            Set::empty()
        } else {
            proof {
                lemma_index_of_char_bounds(after, ')');
            }
            let target = trim(after.take(end));
            let rest = markdown_link_targets(after.skip(end + 1));
            if target.len() > 0 {
                rest.insert(target)
            } else {
                rest
            }
        }
    }
}

fn subvec(cs: &Vec<char>, from: usize, to: usize) -> (r: Vec<char>)
    requires
        from <= to <= cs.len(),
    ensures
        r@ == cs@.subrange(from as int, to as int),
{
    let mut r: Vec<char> = Vec::new();
    let mut i = from;
    while i < to
        invariant
            from <= i <= to <= cs.len(),
            r@ == cs@.subrange(from as int, i as int),
        decreases to - i,
    {
        r.push(cs[i]);
        assert(cs@.subrange(from as int, i + 1) == cs@.subrange(from as int, i as int).push(cs@[i as int]));
        i = i + 1;
    }
    r
}

/// Adds the markdown link targets of `text` to the sorted set `spans`.
pub fn push_markdown_link_targets(text: &str, spans: &mut Vec<String>)
    requires
        strictly_sorted(views(old(spans)@)),
    ensures
        strictly_sorted(views(final(spans)@)),
        views(final(spans)@).to_set() == views(old(spans)@).to_set() + markdown_link_targets(text@),
{
    let needle: Vec<char> = vec![']', '('];
    assert(needle@ =~= seq![']', '(']);
    let mut rem = chars_of(text);
    loop
        invariant
            needle@ == seq![']', '('],
            strictly_sorted(views(spans@)),
            views(spans@).to_set() + markdown_link_targets(rem@) == views(old(spans)@).to_set()
                + markdown_link_targets(text@),
        ensures
            strictly_sorted(views(spans@)),
            views(spans@).to_set() == views(old(spans)@).to_set() + markdown_link_targets(text@),
        decreases rem@.len(),
    {
        let start = match find_seq(&rem, &needle) {
            Some(s) => s,
            None => {
                assert(markdown_link_targets(rem@) == Set::<Seq<char>>::empty());
                assert(views(spans@).to_set() + Set::<Seq<char>>::empty() =~= views(spans@).to_set());
                break;
            },
        };
        let after = subvec(&rem, start + 2, rem.len());
        assert(after@ =~= rem@.skip(start + 2));
        let end = match find_char(&after, ')') {
            Some(e) => e,
            None => {
                assert(markdown_link_targets(rem@) == Set::<Seq<char>>::empty());
                assert(views(spans@).to_set() + Set::<Seq<char>>::empty() =~= views(spans@).to_set());
                break;
            },
        };
        let inner = string_from_chars(&after, 0, end);
        assert(after@.subrange(0, end as int) == after@.take(end as int));
        let target = trim_string(inner.as_str());
        let ghost before = views(spans@).to_set();
        let next = subvec(&after, end + 1, after.len());
        assert(next@ =~= after@.skip(end + 1));
        let ghost rest = markdown_link_targets(next@);
        if target.as_str().unicode_len() > 0 {
            let ghost t = target@;
            insert_sorted(spans, target);
            assert(views(spans@).to_set() + rest =~= before + rest.insert(t));
        } else {
            assert(views(spans@).to_set() + rest =~= before + rest);
        }
        rem = next;
    }
}

/// Position of the end of the line that holds position `i`.
pub open spec fn line_end(s: Seq<char>, i: int) -> int {
    let j = index_of_char(s.skip(i), '\n');
    if j < 0 {
        s.len() as int
    } else {
        i + j
    }
}

/// An absolute (`/`) or home-relative (`~/`) path mention starts at `i`.
pub open spec fn starts_path_at(s: Seq<char>, i: int) -> bool {
    &&& 0 <= i < s.len()
    &&& spec_is_path_start_boundary(
        if i == 0 {
            None
        } else {
            Some(s[i - 1])
        },
    )
    &&& (s[i] == '/' || (s[i] == '~' && i + 1 < s.len() && s[i + 1] == '/'))
}

/// The mention starting at `i`: the rest of its line, trimmed.
pub open spec fn path_mention_at(s: Seq<char>, i: int) -> Seq<char> {
    trim(s.subrange(i, line_end(s, i)))
}

/// The non-blank path mentions starting before position `n`.
pub open spec fn path_like_spans_upto(s: Seq<char>, n: int) -> Set<Seq<char>> {
    Set::new(
        |t: Seq<char>|
            exists|i: int|
                0 <= i < n && starts_path_at(s, i) && t == path_mention_at(s, i) && t.len() > 0,
    )
}

/// Every non-blank path mention of the text.
pub open spec fn path_like_spans(s: Seq<char>) -> Set<Seq<char>> {
    path_like_spans_upto(s, s.len() as int)
}

fn line_end_exec(cs: &Vec<char>, i: usize) -> (r: usize)
    requires
        i <= cs.len(),
    ensures
        r as int == line_end(cs@, i as int),
        i <= r <= cs.len(),
{
    let rest = subvec(cs, i, cs.len());
    assert(rest@ =~= cs@.skip(i as int));
    proof {
        lemma_index_of_char_bounds(rest@, '\n');
    }
    match find_char(&rest, '\n') {
        Some(j) => i + j,
        None => cs.len(),
    }
}

/// Adds the path mentions of `text` to the sorted set `spans`.
pub fn push_path_like_line_spans(text: &str, spans: &mut Vec<String>)
    requires
        strictly_sorted(views(old(spans)@)),
    ensures
        strictly_sorted(views(final(spans)@)),
        views(final(spans)@).to_set() == views(old(spans)@).to_set() + path_like_spans(text@),
{
    let cs = chars_of(text);
    let mut i: usize = 0;
    assert(path_like_spans_upto(cs@, 0) =~= Set::<Seq<char>>::empty());
    assert(views(spans@).to_set() + Set::<Seq<char>>::empty() =~= views(spans@).to_set());
    while i < cs.len()
        invariant
            i <= cs.len(),
            cs@ == text@,
            strictly_sorted(views(spans@)),
            views(spans@).to_set() == views(old(spans)@).to_set() + path_like_spans_upto(
                cs@,
                i as int,
            ),
        decreases cs.len() - i,
    {
        let previous: Option<char> = if i == 0 {
            None
        } else {
            Some(cs[i - 1])
        };
        let boundary = is_path_start_boundary(previous);
        let starts = boundary && (cs[i] == '/' || (cs[i] == '~' && i + 1 < cs.len() && cs[i + 1]
            == '/'));
        assert(starts == starts_path_at(cs@, i as int));
        let ghost before = views(spans@).to_set();
        if starts {
            let e = line_end_exec(&cs, i);
            let raw = string_from_chars(&cs, i, e);
            let span = trim_string(raw.as_str());
            assert(span@ == path_mention_at(cs@, i as int));
            if span.as_str().unicode_len() > 0 {
                let ghost t = span@;
                insert_sorted(spans, span);
                assert(path_like_spans_upto(cs@, i + 1) =~= path_like_spans_upto(cs@, i as int).insert(t));
                assert(views(spans@).to_set() =~= views(old(spans)@).to_set() + path_like_spans_upto(cs@, i + 1));
            } else {
                assert(path_like_spans_upto(cs@, i + 1) =~= path_like_spans_upto(cs@, i as int));
            }
        } else {
            assert(path_like_spans_upto(cs@, i + 1) =~= path_like_spans_upto(cs@, i as int));
        }
        i = i + 1;
    }
}

/// Position of the end of the word that starts at `i`.
pub open spec fn word_end(s: Seq<char>, i: int) -> int
    decreases s.len() - i,
{
    if i >= s.len() || i < 0 {
        s.len() as int
    } else if is_ws(s[i]) {
        i
    } else {
        word_end(s, i + 1)
    }
}

/// A whitespace-separated word starts at `i`.
pub open spec fn starts_word_at(s: Seq<char>, i: int) -> bool {
    0 <= i < s.len() && !is_ws(s[i]) && (i == 0 || is_ws(s[i - 1]))
}

/// The words of the text starting before position `n` (`split_whitespace`).
pub open spec fn words_upto(s: Seq<char>, n: int) -> Set<Seq<char>> {
    Set::new(
        |t: Seq<char>| exists|i: int| 0 <= i < n && starts_word_at(s, i) && t == s.subrange(i, word_end(s, i)),
    )
}

pub open spec fn words(s: Seq<char>) -> Set<Seq<char>> {
    words_upto(s, s.len() as int)
}

proof fn lemma_word_end(s: Seq<char>, i: int, j: int)
    requires
        0 <= i <= j <= s.len(),
        forall|k: int| i <= k < j ==> !is_ws(#[trigger] s[k]),
        j == s.len() || is_ws(s[j]),
    ensures
        word_end(s, i) == j,
    decreases j - i,
{
    if i < j {
        lemma_word_end(s, i + 1, j);
    }
}

/// Adds the words of `text` to the sorted set `spans`.
pub fn push_words(text: &str, spans: &mut Vec<String>)
    requires
        strictly_sorted(views(old(spans)@)),
    ensures
        strictly_sorted(views(final(spans)@)),
        views(final(spans)@).to_set() == views(old(spans)@).to_set() + words(text@),
{
    let cs = chars_of(text);
    let mut i: usize = 0;
    assert(words_upto(cs@, 0) =~= Set::<Seq<char>>::empty());
    assert(views(spans@).to_set() + Set::<Seq<char>>::empty() =~= views(spans@).to_set());
    while i < cs.len()
        invariant
            i <= cs.len(),
            cs@ == text@,
            strictly_sorted(views(spans@)),
            views(spans@).to_set() == views(old(spans)@).to_set() + words_upto(cs@, i as int),
        decreases cs.len() - i,
    {
        let starts = !is_ws_char(cs[i]) && (i == 0 || is_ws_char(cs[i - 1]));
        assert(starts == starts_word_at(cs@, i as int));
        if starts {
            let mut j = i;
            while j < cs.len() && !is_ws_char(cs[j])
                invariant
                    i <= j <= cs.len(),
                    forall|k: int| i <= k < j ==> !is_ws(#[trigger] cs@[k]),
                decreases cs.len() - j,
            {
                j = j + 1;
            }
            proof {
                lemma_word_end(cs@, i as int, j as int);
            }
            let w = string_from_chars(&cs, i, j);
            let ghost t = w@;
            insert_sorted(spans, w);
            assert(words_upto(cs@, i + 1) =~= words_upto(cs@, i as int).insert(t));
            assert(views(spans@).to_set() =~= views(old(spans)@).to_set() + words_upto(cs@, i + 1));
        } else {
            assert(words_upto(cs@, i + 1) =~= words_upto(cs@, i as int));
        }
        i = i + 1;
    }
}

/// Every span of a request text that may name a target path, in sorted
/// order without repetition: link targets, path mentions and words.
pub fn request_target_path_spans(text: &str) -> (r: Vec<String>)
    ensures
        strictly_sorted(views(r@)),
        views(r@).to_set() == markdown_link_targets(text@) + path_like_spans(text@) + words(text@),
{
    let mut spans: Vec<String> = Vec::new();
    assert(views(spans@) =~= Seq::<Seq<char>>::empty());
    push_markdown_link_targets(text, &mut spans);
    push_path_like_line_spans(text, &mut spans);
    push_words(text, &mut spans);
    assert(views(spans@).to_set() =~= markdown_link_targets(text@) + path_like_spans(text@) + words(
        text@,
    )) by {
        assert(views(Seq::<String>::empty()).to_set() =~= Set::<Seq<char>>::empty());
    }
    spans
}

/// The path a structured attachment value names: the trimmed text without a
/// `file://` scheme, when it looks like a path (it starts with `/` or `~/`,
/// or holds `/`, `\` or `.`).
pub open spec fn spec_path_text(text: Seq<char>) -> Option<Seq<char>> {
    let t = trim(text);
    if t.len() == 0 {
        None
    } else {
        let p = match strip_prefix_spec(t, "file://"@) {
            Some(rest) => rest,
            None => t,
        };
        if has_prefix(p, "/"@) || has_prefix(p, "~/"@) || p.contains('/') || p.contains('\\')
            || p.contains('.') {
            Some(p)
        } else {
            None
        }
    }
}

pub fn path_text_from_structured_value(text: &str) -> (r: Option<String>)
    ensures
        opt_string_view(r) == spec_path_text(text@),
{
    let t = trim_string(text);
    if t.as_str().unicode_len() == 0 {
        return None;
    }
    let p = match strip_prefix(t.as_str(), "file://") {
        Some(rest) => rest,
        None => t,
    };
    let ps = p.as_str();
    if starts_with(ps, "/") || starts_with(ps, "~/") || contains_char(ps, '/') || contains_char(
        ps,
        '\\',
    ) || contains_char(ps, '.') {
        Some(p)
    } else {
        None
    }
}

/// The keys under which attachments carry a path.
pub open spec fn path_keys() -> Seq<Seq<char>> {
    seq!["path"@, "file_path"@, "artifact_path"@, "target_path"@, "absolute_path"@, "uri"@]
}

/// The path mentions inside a structured value: its path-like strings,
/// those of its array items, and those under the path keys of an object.
pub open spec fn structured_mentions(v: JVal) -> Set<Seq<char>>
    decreases v,
{
    match v {
        JVal::Str(t) => match spec_path_text(t) {
            Some(p) => Set::empty().insert(p),
            None => Set::empty(),
        },
        JVal::Array(items) => structured_mentions_items(items),
        JVal::Object(m) => structured_mentions_keys(m, path_keys()),
        _ => Set::empty(),
    }
}

pub open spec fn structured_mentions_items(items: Seq<JVal>) -> Set<Seq<char>>
    decreases items,
{
    if items.len() == 0 {
        Set::empty()
    } else {
        structured_mentions_items(items.drop_last()) + structured_mentions(items[items.len() - 1])
    }
}

pub open spec fn structured_mentions_keys(m: Seq<(Seq<char>, JVal)>, keys: Seq<Seq<char>>) -> Set<Seq<char>>
    decreases m, keys.len(),
{
    if keys.len() == 0 {
        Set::empty()
    } else {
        let rest = structured_mentions_keys(m, keys.drop_last());
        match jget(JVal::Object(m), keys[keys.len() - 1]) {
            Some(x) => {
                proof {
                    crate::json::lemma_jmember_index_bounds(m, keys[keys.len() - 1]);
                    assert(decreases_to!(m => m[crate::json::jmember_index(m, keys[keys.len() - 1])]));
                }
                rest + structured_mentions(x)
            },
            None => rest,
        }
    }
}


/// Adds the path mentions inside a structured value to the sorted set.
pub fn push_structured_target_mentions(value: &Json, spans: &mut Vec<String>)
    requires
        strictly_sorted(views(old(spans)@)),
    ensures
        strictly_sorted(views(final(spans)@)),
        views(final(spans)@).to_set() == views(old(spans)@).to_set() + structured_mentions(
            jview(*value),
        ),
    decreases value,
{
    match value {
        Json::Str(t) => {
            match path_text_from_structured_value(t.as_str()) {
                Some(p) => {
                    let ghost pv = p@;
                    insert_sorted(spans, p);
                    assert(views(spans@).to_set() =~= views(old(spans)@).to_set() + Set::empty().insert(pv));
                },
                None => {
                    assert(views(spans@).to_set() =~= views(old(spans)@).to_set() + Set::<Seq<char>>::empty());
                },
            }
        },
        Json::Array(items) => {
            let ghost iv = items@.map_values(|x: Json| jview(x));
            proof {
                lemma_array_view(*items);
                assert(iv.take(0) =~= Seq::<JVal>::empty());
                assert(views(spans@).to_set() =~= views(old(spans)@).to_set() + Set::<Seq<char>>::empty());
            }
            let mut i: usize = 0;
            while i < items.len()
                invariant
                    i <= items.len(),
                    *value == Json::Array(*items),
                    iv == items@.map_values(|x: Json| jview(x)),
                    strictly_sorted(views(spans@)),
                    views(spans@).to_set() == views(old(spans)@).to_set() + structured_mentions_items(
                        iv.take(i as int),
                    ),
                decreases items.len() - i,
            {
                proof {
                    assert(decreases_to!(*value => (*value)->Array_0));
                    assert(decreases_to!((*value)->Array_0 => items@));
                    assert(decreases_to!(items@ => items@[i as int]));
                    assert(iv.take(i + 1).drop_last() =~= iv.take(i as int));
                }
                let ghost before = views(spans@).to_set();
                push_structured_target_mentions(&items[i], spans);
                assert(views(spans@).to_set() =~= views(old(spans)@).to_set() + structured_mentions_items(
                    iv.take(i + 1),
                ));
                i = i + 1;
            }
            assert(iv.take(items.len() as int) =~= iv);
        },
        Json::Object(m) => {
            let keys: Vec<&str> = vec!["path", "file_path", "artifact_path", "target_path", "absolute_path", "uri"];
            let ghost kv = keys@.map_values(|k: &str| k@);
            assert(kv =~= path_keys());
            proof {
                crate::json::lemma_object_view(*m);
                assert(kv.take(0) =~= Seq::<Seq<char>>::empty());
                assert(views(spans@).to_set() =~= views(old(spans)@).to_set() + Set::<Seq<char>>::empty());
            }
            let ghost mv = crate::json::members_view(m@);
            let mut i: usize = 0;
            while i < keys.len()
                invariant
                    i <= keys.len(),
                    *value == Json::Object(*m),
                    mv == crate::json::members_view(m@),
                    jview(*value) == JVal::Object(mv),
                    kv == keys@.map_values(|k: &str| k@),
                    strictly_sorted(views(spans@)),
                    views(spans@).to_set() == views(old(spans)@).to_set() + structured_mentions_keys(
                        mv,
                        kv.take(i as int),
                    ),
                decreases keys.len() - i,
            {
                proof {
                    assert(kv.take(i + 1).drop_last() =~= kv.take(i as int));
                    assert(kv.take(i + 1)[i as int] == keys@[i as int]@);
                }
                match crate::json::find_member(m, keys[i]) {
                    Some(j) => {
                        proof {
                            assert(decreases_to!(*value => (*value)->Object_0));
                            assert(decreases_to!((*value)->Object_0 => m@));
                            assert(decreases_to!(m@ => m@[j as int]));
                            assert(decreases_to!(m@[j as int] => m@[j as int].1));
                            assert(mv[j as int].1 == jview(m@[j as int].1));
                        }
                        push_structured_target_mentions(&m[j].1, spans);
                        assert(views(spans@).to_set() =~= views(old(spans)@).to_set() + structured_mentions_keys(
                            mv,
                            kv.take(i + 1),
                        ));
                    },
                    None => {
                        assert(structured_mentions_keys(mv, kv.take(i + 1)) == structured_mentions_keys(mv, kv.take(i as int)));
                    },
                }
                i = i + 1;
            }
            assert(kv.take(keys.len() as int) =~= kv);
        },
        _ => {
            assert(views(spans@).to_set() =~= views(old(spans)@).to_set() + Set::<Seq<char>>::empty());
        },
    }
}

/// The fields of a parsed request that may carry structured path mentions.
pub open spec fn structured_fields() -> Seq<Seq<char>> {
    seq!["target_paths"@, "file_paths"@, "artifact_paths"@, "mentioned_files"@, "input_items"@, "items"@]
}

/// The mentions under `field` and under `structured_target_mentions.field`.
pub open spec fn field_mentions(parsed: JVal, field: Seq<char>) -> Set<Seq<char>> {
    (match jget(parsed, field) {
        Some(v) => structured_mentions(v),
        None => Set::empty(),
    }) + (match crate::json::jget_path(parsed, seq!["structured_target_mentions"@, field]) {
        Some(v) => structured_mentions(v),
        None => Set::empty(),
    })
}

pub open spec fn structured_spans_upto(parsed: JVal, n: int) -> Set<Seq<char>>
    decreases n,
{
    if n <= 0 {
        Set::empty()
    } else {
        structured_spans_upto(parsed, n - 1) + field_mentions(parsed, structured_fields()[n - 1])
    }
}

/// The structured path mentions of a parsed request, sorted and unique.
pub fn structured_target_path_spans(parsed: &Json) -> (r: Vec<String>)
    ensures
        strictly_sorted(views(r@)),
        views(r@).to_set() == structured_spans_upto(jview(*parsed), 6),
{
    let fields: Vec<&str> = vec!["target_paths", "file_paths", "artifact_paths", "mentioned_files", "input_items", "items"];
    assert(fields@.map_values(|k: &str| k@) =~= structured_fields());
    let mut spans: Vec<String> = Vec::new();
    assert(views(spans@) =~= Seq::<Seq<char>>::empty());
    assert(views(spans@).to_set() =~= Set::<Seq<char>>::empty());
    let mut i: usize = 0;
    while i < fields.len()
        invariant
            i <= fields.len(),
            fields@.len() == 6,
            fields@.map_values(|k: &str| k@) == structured_fields(),
            strictly_sorted(views(spans@)),
            views(spans@).to_set() == structured_spans_upto(jview(*parsed), i as int),
        decreases fields.len() - i,
    {
        let field = fields[i];
        assert(field@ == structured_fields()[i as int]);
        let ghost before = views(spans@).to_set();
        let ghost a = match jget(jview(*parsed), field@) {
            Some(v) => structured_mentions(v),
            None => Set::empty(),
        };
        match parsed.get(field) {
            Some(v) => {
                push_structured_target_mentions(v, &mut spans);
            },
            None => {
                assert(views(spans@).to_set() =~= before + Set::<Seq<char>>::empty());
            },
        }
        assert(views(spans@).to_set() == before + a);
        let ghost mid = views(spans@).to_set();
        let path: Vec<&str> = vec!["structured_target_mentions", field];
        assert(path@.map_values(|k: &str| k@) =~= seq!["structured_target_mentions"@, field@]);
        let ghost b = match crate::json::jget_path(jview(*parsed), seq!["structured_target_mentions"@, field@]) {
            Some(v) => structured_mentions(v),
            None => Set::empty(),
        };
        match parsed.get_path(path.as_slice()) {
            Some(v) => {
                push_structured_target_mentions(v, &mut spans);
            },
            None => {
                assert(views(spans@).to_set() =~= mid + Set::<Seq<char>>::empty());
            },
        }
        assert(views(spans@).to_set() =~= before + field_mentions(jview(*parsed), field@));
        i = i + 1;
    }
    spans
}

} // verus!
