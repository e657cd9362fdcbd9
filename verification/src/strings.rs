//! Character-level string toolkit shared by the rest of the library.
//!
//! Strings are specified by their character sequences (`s@`).

use vstd::prelude::*;

verus! {

/// Unicode `White_Space` characters (what `char::is_whitespace` accepts).
pub open spec fn is_ws(c: char) -> bool {
    let n = c as u32;
    ||| 0x09 <= n <= 0x0d
    ||| n == 0x20
    ||| n == 0x85
    ||| n == 0xa0
    ||| n == 0x1680
    ||| 0x2000 <= n <= 0x200a
    ||| n == 0x2028
    ||| n == 0x2029
    ||| n == 0x202f
    ||| n == 0x205f
    ||| n == 0x3000
}

pub fn is_ws_char(c: char) -> (r: bool)
    ensures
        r == is_ws(c),
{
    let n = c as u32;
    (0x09 <= n && n <= 0x0d) || n == 0x20 || n == 0x85 || n == 0xa0 || n == 0x1680 || (0x2000
        <= n && n <= 0x200a) || n == 0x2028 || n == 0x2029 || n == 0x202f || n == 0x205f || n
        == 0x3000
}

/// ASCII decimal digit.
pub open spec fn is_ascii_digit(c: char) -> bool {
    '0' <= c <= '9'
}

/// `s` with leading whitespace removed.
pub open spec fn trim_start(s: Seq<char>) -> Seq<char>
    decreases s.len(),
{
    if s.len() > 0 && is_ws(s[0]) {
        trim_start(s.drop_first())
    } else {
        s
    }
}

/// `s` with trailing whitespace removed.
pub open spec fn trim_end(s: Seq<char>) -> Seq<char>
    decreases s.len(),
{
    if s.len() > 0 && is_ws(s.last()) {
        trim_end(s.drop_last())
    } else {
        s
    }
}

/// `s` with leading and trailing whitespace removed (`str::trim`).
pub open spec fn trim(s: Seq<char>) -> Seq<char> {
    trim_end(trim_start(s))
}

/// One step of the scan that joins the whitespace-separated words of a text
/// with `sep`: the text built so far, and whether a separator is owed before
/// the next word.
pub open spec fn join_words_step(st: (Seq<char>, bool), c: char, sep: Seq<char>) -> (Seq<char>, bool) {
    if is_ws(c) {
        (st.0, st.0.len() > 0)
    } else {
        ((if st.1 { st.0 + sep } else { st.0 }).push(c), false)
    }
}

pub open spec fn join_words_scan(s: Seq<char>, sep: Seq<char>) -> (Seq<char>, bool)
    decreases s.len(),
{
    if s.len() == 0 {
        (Seq::empty(), false)
    } else {
        join_words_step(join_words_scan(s.drop_last(), sep), s.last(), sep)
    }
}

/// `s.split_whitespace().collect::<Vec<_>>().join(sep)`.
pub open spec fn join_words(s: Seq<char>, sep: Seq<char>) -> Seq<char> {
    join_words_scan(s, sep).0
}

/// `a` begins with `p`.
pub open spec fn has_prefix(a: Seq<char>, p: Seq<char>) -> bool {
    p.len() <= a.len() && a.take(p.len() as int) == p
}

/// `a` ends with `p`.
pub open spec fn has_suffix(a: Seq<char>, p: Seq<char>) -> bool {
    p.len() <= a.len() && a.skip(a.len() - p.len()) == p
}

/// `needle` occurs in `a` at position `i`.
pub open spec fn occurs_at(a: Seq<char>, needle: Seq<char>, i: int) -> bool {
    0 <= i && i + needle.len() <= a.len() && a.subrange(i, i + needle.len()) == needle
}

/// `a` contains `needle` (`str::contains`).
pub open spec fn contains_seq(a: Seq<char>, needle: Seq<char>) -> bool {
    exists|i: int| occurs_at(a, needle, i)
}

/// ASCII lower-casing of one character.
pub open spec fn ascii_lower(c: char) -> char {
    if 'A' <= c <= 'Z' {
        ((c as u32) + 32) as char
    } else {
        c
    }
}

/// `str::to_ascii_lowercase`.
pub open spec fn ascii_lowercase(s: Seq<char>) -> Seq<char> {
    s.map_values(|c: char| ascii_lower(c))
}

/// Optional string viewed as optional character sequence.
pub open spec fn opt_view(o: Option<&str>) -> Option<Seq<char>> {
    match o {
        Some(s) => Some(s@),
        None => None,
    }
}

/// Optional owned string viewed as optional character sequence.
pub open spec fn opt_string_view(o: Option<String>) -> Option<Seq<char>> {
    match o {
        Some(s) => Some(s@),
        None => None,
    }
}

/// The characters of `s`, in order.
pub fn chars_of(s: &str) -> (out: Vec<char>)
    ensures
        out@ == s@,
{
    let mut out: Vec<char> = Vec::new();
    for c in it: s.chars()
        invariant
            out@ == it.seq().take(it.index() as int),
            it.seq() == s@,
    {
        out.push(c);
    }
    out
}

/// Appends one character to a `String` (std's `String::push`).
#[verifier::external_body]
pub fn push_char(s: &mut String, c: char)
    ensures
        final(s)@ == old(s)@.push(c),
{
    s.push(c);
}

/// Appends a string slice to a `String` (std's `String::push_str`).
#[verifier::external_body]
pub fn push_str(s: &mut String, t: &str)
    ensures
        final(s)@ == old(s)@ + t@,
{
    s.push_str(t);
}

/// std's `==` on string slices.
#[verifier::external_body]
pub fn str_eq(a: &str, b: &str) -> (r: bool)
    ensures
        r == (a@ == b@),
{
    a == b
}

/// Whether an optional string slice is `Some(lit)`.
pub fn opt_str_is(o: Option<&str>, lit: &str) -> (r: bool)
    ensures
        r == (opt_view(o) == Some(lit@)),
{
    match o {
        Some(s) => str_eq(s, lit),
        None => false,
    }
}

/// A `String` holding a copy of `s`.
pub fn to_owned(s: &str) -> (r: String)
    ensures
        r@ == s@,
{
    s.to_owned()
}

/// A `String` holding the characters `cs[from..to]`.
pub fn string_from_chars(cs: &Vec<char>, from: usize, to: usize) -> (r: String)
    requires
        from <= to <= cs.len(),
    ensures
        r@ == cs@.subrange(from as int, to as int),
{
    let mut r = String::new();
    let mut i = from;
    while i < to
        invariant
            from <= i <= to <= cs.len(),
            r@ == cs@.subrange(from as int, i as int),
        decreases to - i,
    {
        push_char(&mut r, cs[i]);
        assert(cs@.subrange(from as int, i + 1) == cs@.subrange(from as int, i as int).push(cs@[i as int]));
        i = i + 1;
    }
    r
}

/// Concatenation of two slices into a new `String`.
pub fn concat2(a: &str, b: &str) -> (r: String)
    ensures
        r@ == a@ + b@,
{
    let mut r = to_owned(a);
    push_str(&mut r, b);
    r
}

/// Concatenation of three slices into a new `String`.
pub fn concat3(a: &str, b: &str, c: &str) -> (r: String)
    ensures
        r@ == a@ + b@ + c@,
{
    let mut r = to_owned(a);
    push_str(&mut r, b);
    push_str(&mut r, c);
    r
}

pub proof fn lemma_trim_start_skip(s: Seq<char>, k: int)
    requires
        0 <= k <= s.len(),
        forall|i: int| 0 <= i < k ==> is_ws(#[trigger] s[i]),
        k == s.len() || !is_ws(s[k]),
    ensures
        trim_start(s) == s.skip(k),
    decreases k,
{
    if k == 0 {
        assert(s.skip(0) == s);
    } else {
        assert forall|i: int| 0 <= i < k - 1 implies is_ws(#[trigger] s.drop_first()[i]) by {
            assert(s.drop_first()[i] == s[i + 1]);
        }
        lemma_trim_start_skip(s.drop_first(), k - 1);
        assert(s.drop_first().skip(k - 1) == s.skip(k));
    }
}

proof fn lemma_trim_end_take(s: Seq<char>, k: int)
    requires
        0 <= k <= s.len(),
        forall|i: int| k <= i < s.len() ==> is_ws(#[trigger] s[i]),
        k == 0 || !is_ws(s[k - 1]),
    ensures
        trim_end(s) == s.take(k),
    decreases s.len() - k,
{
    if k == s.len() {
        assert(s.take(k) == s);
    } else {
        assert forall|i: int| k <= i < s.len() - 1 implies is_ws(#[trigger] s.drop_last()[i]) by {
            assert(s.drop_last()[i] == s[i]);
        }
        if k > 0 {
            assert(s.drop_last()[k - 1] == s[k - 1]);
        }
        lemma_trim_end_take(s.drop_last(), k);
        assert(s.drop_last().take(k) == s.take(k));
    }
}

/// Index of the first non-whitespace character of `cs[from..]`, or `cs.len()`.
fn skip_ws_forward(cs: &Vec<char>, from: usize) -> (k: usize)
    requires
        from <= cs.len(),
    ensures
        from <= k <= cs.len(),
        forall|i: int| from <= i < k ==> is_ws(#[trigger] cs@[i]),
        k == cs.len() || !is_ws(cs@[k as int]),
{
    let mut k = from;
    while k < cs.len() && is_ws_char(cs[k])
        invariant
            from <= k <= cs.len(),
            forall|i: int| from <= i < k ==> is_ws(#[trigger] cs@[i]),
        decreases cs.len() - k,
    {
        k = k + 1;
    }
    k
}

/// `str::trim`, as an owned string.
pub fn trim_string(s: &str) -> (r: String)
    ensures
        r@ == trim(s@),
{
    let cs = chars_of(s);
    let start = skip_ws_forward(&cs, 0);
    let mut end = cs.len();
    while end > start && is_ws_char(cs[end - 1])
        invariant
            start <= end <= cs.len(),
            forall|i: int| end <= i < cs.len() ==> is_ws(#[trigger] cs@[i]),
        decreases end,
    {
        end = end - 1;
    }
    proof {
        lemma_trim_start_skip(cs@, start as int);
        let t = cs@.skip(start as int);
        assert forall|i: int| end - start <= i < t.len() implies is_ws(#[trigger] t[i]) by {
            assert(t[i] == cs@[i + start]);
        }
        if end > start {
            assert(t[end - start - 1] == cs@[end - 1]);
        }
        lemma_trim_end_take(t, end - start);
        assert(t.take(end - start) == cs@.subrange(start as int, end as int));
    }
    string_from_chars(&cs, start, end)
}

/// Whether `s` is empty after trimming (`s.trim().is_empty()`).
pub fn is_blank(s: &str) -> (r: bool)
    ensures
        r == (trim(s@).len() == 0),
{
    let t = trim_string(s);
    t.as_str().unicode_len() == 0
}

proof fn lemma_join_words_scan_take(s: Seq<char>, sep: Seq<char>, i: int)
    requires
        0 <= i < s.len(),
    ensures
        join_words_scan(s.take(i + 1), sep) == join_words_step(join_words_scan(s.take(i), sep), s[i], sep),
{
    assert(s.take(i + 1).drop_last() == s.take(i));
}

/// `s.split_whitespace().collect::<Vec<_>>().join(sep)`.
pub fn join_words_exec(s: &str, sep: &str) -> (r: String)
    ensures
        r@ == join_words(s@, sep@),
{
    let cs = chars_of(s);
    let mut out = String::new();
    let mut pending = false;
    let mut i: usize = 0;
    while i < cs.len()
        invariant
            i <= cs.len(),
            cs@ == s@,
            (out@, pending) == join_words_scan(cs@.take(i as int), sep@),
        decreases cs.len() - i,
    {
        proof {
            lemma_join_words_scan_take(cs@, sep@, i as int);
        }
        let c = cs[i];
        if is_ws_char(c) {
            pending = out.as_str().unicode_len() > 0;
        } else {
            if pending {
                push_str(&mut out, sep);
            }
            push_char(&mut out, c);
            pending = false;
        }
        i = i + 1;
    }
    assert(cs@.take(cs.len() as int) == cs@);
    out
}

/// Whether `cs[i..]` begins with `p`.
fn chars_match_at(cs: &Vec<char>, p: &Vec<char>, i: usize) -> (r: bool)
    requires
        i <= cs.len(),
    ensures
        r == occurs_at(cs@, p@, i as int),
{
    if p.len() > cs.len() - i {
        return false;
    }
    let mut j: usize = 0;
    while j < p.len()
        invariant
            j <= p.len(),
            i + p.len() <= cs.len(),
            forall|k: int| 0 <= k < j ==> cs@[i + k] == p@[k],
        decreases p.len() - j,
    {
        if cs[i + j] != p[j] {
            assert(cs@.subrange(i as int, i + p.len())[j as int] != p@[j as int]);
            return false;
        }
        j = j + 1;
    }
    assert(cs@.subrange(i as int, i + p.len()) =~= p@);
    true
}

/// `a.starts_with(p)`.
pub fn starts_with(a: &str, p: &str) -> (r: bool)
    ensures
        r == has_prefix(a@, p@),
{
    let cs = chars_of(a);
    let ps = chars_of(p);
    let r = chars_match_at(&cs, &ps, 0);
    proof {
        if p@.len() <= a@.len() {
            assert(a@.subrange(0, p@.len() as int) == a@.take(p@.len() as int));
        }
    }
    r
}

/// `a.ends_with(p)`.
pub fn ends_with(a: &str, p: &str) -> (r: bool)
    ensures
        r == has_suffix(a@, p@),
{
    let cs = chars_of(a);
    let ps = chars_of(p);
    if ps.len() > cs.len() {
        return false;
    }
    let r = chars_match_at(&cs, &ps, cs.len() - ps.len());
    proof {
        assert(a@.subrange(a@.len() - p@.len(), a@.len() as int) == a@.skip(a@.len() - p@.len()));
    }
    r
}

/// First position at or after `from` where `p` occurs in `cs`.
pub fn find_from(cs: &Vec<char>, p: &Vec<char>, from: usize) -> (r: Option<usize>)
    requires
        from <= cs.len(),
    ensures
        match r {
            Some(i) => from <= i && occurs_at(cs@, p@, i as int) && forall|k: int|
                from <= k < i ==> !occurs_at(cs@, p@, k),
            None => forall|k: int| from <= k ==> !occurs_at(cs@, p@, k),
        },
{
    let mut i = from;
    while i < cs.len()
        invariant
            from <= i <= cs.len(),
            forall|k: int| from <= k < i ==> !occurs_at(cs@, p@, k),
        decreases cs.len() - i,
    {
        if chars_match_at(cs, p, i) {
            return Some(i);
        }
        i = i + 1;
    }
    if chars_match_at(cs, p, i) {
        return Some(i);
    }
    None
}

/// `a.contains(needle)`.
pub fn contains(a: &str, needle: &str) -> (r: bool)
    ensures
        r == contains_seq(a@, needle@),
{
    let cs = chars_of(a);
    let ns = chars_of(needle);
    match find_from(&cs, &ns, 0) {
        Some(_) => true,
        None => false,
    }
}

/// Whether `c` occurs in `a`.
pub fn contains_char(a: &str, c: char) -> (r: bool)
    ensures
        r == a@.contains(c),
{
    let cs = chars_of(a);
    let mut i: usize = 0;
    while i < cs.len()
        invariant
            i <= cs.len(),
            cs@ == a@,
            forall|k: int| 0 <= k < i ==> cs@[k] != c,
        decreases cs.len() - i,
    {
        if cs[i] == c {
            return true;
        }
        i = i + 1;
    }
    false
}

/// `str::to_ascii_lowercase`.
pub fn to_ascii_lowercase(s: &str) -> (r: String)
    ensures
        r@ == ascii_lowercase(s@),
{
    let cs = chars_of(s);
    let mut out = String::new();
    let mut i: usize = 0;
    while i < cs.len()
        invariant
            i <= cs.len(),
            cs@ == s@,
            out@ == ascii_lowercase(cs@.take(i as int)),
        decreases cs.len() - i,
    {
        let c = cs[i];
        let l = if 'A' <= c && c <= 'Z' {
            ((c as u8) + 32u8) as char
        } else {
            c
        };
        assert(l == ascii_lower(c));
        push_char(&mut out, l);
        assert(ascii_lowercase(cs@.take(i + 1)) =~= ascii_lowercase(cs@.take(i as int)).push(ascii_lower(c)));
        i = i + 1;
    }
    assert(cs@.take(cs.len() as int) == cs@);
    out
}


/// Position of the first occurrence of `c` in `s`, or -1.
pub open spec fn index_of_char(s: Seq<char>, c: char) -> int
    decreases s.len(),
{
    if s.len() == 0 {
        -1
    } else if s[0] == c {
        0
    } else {
        let r = index_of_char(s.drop_first(), c);
        if r < 0 {
            -1
        } else {
            r + 1
        }
    }
}

/// The first occurrence of `c` lies inside `s`, when there is one.
pub proof fn lemma_index_of_char_range(s: Seq<char>, c: char)
    ensures
        -1 <= index_of_char(s, c) < s.len(),
    decreases s.len(),
{
    if s.len() > 0 {
        lemma_index_of_char_range(s.drop_first(), c);
    }
}

/// `s.split_once(c)`: the text before and after the first `c`.
pub open spec fn split_once_char(s: Seq<char>, c: char) -> Option<(Seq<char>, Seq<char>)> {
    let i = index_of_char(s, c);
    if i < 0 {
        None
    } else {
        Some((s.take(i), s.skip(i + 1)))
    }
}

/// `s.strip_prefix(p)`.
pub open spec fn strip_prefix_spec(s: Seq<char>, p: Seq<char>) -> Option<Seq<char>> {
    if has_prefix(s, p) {
        Some(s.skip(p.len() as int))
    } else {
        None
    }
}

/// `s.trim_start_matches(p)`: every leading repetition of `p` removed.
pub open spec fn trim_start_matches_spec(s: Seq<char>, p: Seq<char>) -> Seq<char>
    decreases s.len(),
{
    if p.len() > 0 && has_prefix(s, p) {
        trim_start_matches_spec(s.skip(p.len() as int), p)
    } else {
        s
    }
}

proof fn lemma_index_of_char(s: Seq<char>, c: char, i: int)
    requires
        0 <= i <= s.len(),
        forall|k: int| 0 <= k < i ==> s[k] != c,
    ensures
        i < s.len() && s[i] == c ==> index_of_char(s, c) == i,
        i == s.len() ==> index_of_char(s, c) == -1,
    decreases i,
{
    if i > 0 {
        assert forall|k: int| 0 <= k < i - 1 implies s.drop_first()[k] != c by {
            assert(s.drop_first()[k] == s[k + 1]);
        }
        lemma_index_of_char(s.drop_first(), c, i - 1);
        if i < s.len() {
            assert(s.drop_first()[i - 1] == s[i]);
        }
    }
}

/// Position of the first `c` in `cs`, as `index_of_char` gives it.
pub fn find_char(cs: &Vec<char>, c: char) -> (r: Option<usize>)
    ensures
        match r {
            Some(i) => i < cs.len() && index_of_char(cs@, c) == i,
            None => index_of_char(cs@, c) == -1,
        },
{
    let mut i: usize = 0;
    while i < cs.len()
        invariant
            i <= cs.len(),
            forall|k: int| 0 <= k < i ==> cs@[k] != c,
        decreases cs.len() - i,
    {
        if cs[i] == c {
            proof {
                lemma_index_of_char(cs@, c, i as int);
            }
            return Some(i);
        }
        i = i + 1;
    }
    proof {
        lemma_index_of_char(cs@, c, i as int);
    }
    None
}

/// `s.split_once(c)`.
pub fn split_once(s: &str, c: char) -> (r: Option<(String, String)>)
    ensures
        match r {
            Some((a, b)) => split_once_char(s@, c) == Some((a@, b@)),
            None => split_once_char(s@, c) is None,
        },
{
    let cs = chars_of(s);
    match find_char(&cs, c) {
        Some(i) => {
            let a = string_from_chars(&cs, 0, i);
            let b = string_from_chars(&cs, i + 1, cs.len());
            assert(cs@.subrange(0, i as int) == cs@.take(i as int));
            assert(cs@.subrange(i + 1, cs.len() as int) == cs@.skip(i + 1));
            Some((a, b))
        },
        None => None,
    }
}

/// `s.strip_prefix(p)`.
pub fn strip_prefix(s: &str, p: &str) -> (r: Option<String>)
    ensures
        opt_string_view(r) == strip_prefix_spec(s@, p@),
{
    if starts_with(s, p) {
        let cs = chars_of(s);
        let n = p.unicode_len();
        let rest = string_from_chars(&cs, n, cs.len());
        assert(cs@.subrange(n as int, cs.len() as int) == cs@.skip(n as int));
        Some(rest)
    } else {
        None
    }
}

/// `s.trim_start_matches(p)`.
pub fn trim_start_matches(s: &str, p: &str) -> (r: String)
    ensures
        r@ == trim_start_matches_spec(s@, p@),
{
    let mut cur = to_owned(s);
    if p.unicode_len() == 0 {
        return cur;
    }
    loop
        invariant
            p@.len() > 0,
            trim_start_matches_spec(cur@, p@) == trim_start_matches_spec(s@, p@),
        decreases cur@.len(),
    {
        match strip_prefix(cur.as_str(), p) {
            Some(rest) => {
                cur = rest;
            },
            None => {
                return cur;
            },
        }
    }
}


/// Characters stripped around a path mention: quotes, brackets and the
/// punctuation that commonly follows a path in prose.
pub open spec fn is_path_punct(c: char) -> bool {
    c == '"' || c == '\'' || c == '`' || c == '(' || c == ')' || c == '[' || c == ']' || c == '{'
        || c == '}' || c == '<' || c == '>' || c == ',' || c == ';' || c == ':'
}

pub fn is_path_punct_char(c: char) -> (r: bool)
    ensures
        r == is_path_punct(c),
{
    c == '"' || c == '\'' || c == '`' || c == '(' || c == ')' || c == '[' || c == ']' || c == '{'
        || c == '}' || c == '<' || c == '>' || c == ',' || c == ';' || c == ':'
}

pub open spec fn trim_start_punct(s: Seq<char>) -> Seq<char>
    decreases s.len(),
{
    if s.len() > 0 && is_path_punct(s[0]) {
        trim_start_punct(s.drop_first())
    } else {
        s
    }
}

pub open spec fn trim_end_punct(s: Seq<char>) -> Seq<char>
    decreases s.len(),
{
    if s.len() > 0 && is_path_punct(s.last()) {
        trim_end_punct(s.drop_last())
    } else {
        s
    }
}

/// `s.trim_matches(is_path_punct)`.
pub open spec fn trim_punct(s: Seq<char>) -> Seq<char> {
    trim_end_punct(trim_start_punct(s))
}

proof fn lemma_trim_start_punct_skip(s: Seq<char>, k: int)
    requires
        0 <= k <= s.len(),
        forall|i: int| 0 <= i < k ==> is_path_punct(#[trigger] s[i]),
        k == s.len() || !is_path_punct(s[k]),
    ensures
        trim_start_punct(s) == s.skip(k),
    decreases k,
{
    if k == 0 {
        assert(s.skip(0) == s);
    } else {
        assert forall|i: int| 0 <= i < k - 1 implies is_path_punct(#[trigger] s.drop_first()[i]) by {
            assert(s.drop_first()[i] == s[i + 1]);
        }
        lemma_trim_start_punct_skip(s.drop_first(), k - 1);
        assert(s.drop_first().skip(k - 1) == s.skip(k));
    }
}

proof fn lemma_trim_end_punct_take(s: Seq<char>, k: int)
    requires
        0 <= k <= s.len(),
        forall|i: int| k <= i < s.len() ==> is_path_punct(#[trigger] s[i]),
        k == 0 || !is_path_punct(s[k - 1]),
    ensures
        trim_end_punct(s) == s.take(k),
    decreases s.len() - k,
{
    if k == s.len() {
        assert(s.take(k) == s);
    } else {
        assert forall|i: int| k <= i < s.len() - 1 implies is_path_punct(#[trigger] s.drop_last()[i]) by {
            assert(s.drop_last()[i] == s[i]);
        }
        if k > 0 {
            assert(s.drop_last()[k - 1] == s[k - 1]);
        }
        lemma_trim_end_punct_take(s.drop_last(), k);
        assert(s.drop_last().take(k) == s.take(k));
    }
}

/// `s.trim_matches(is_path_punct)`, as an owned string.
pub fn trim_punct_string(s: &str) -> (r: String)
    ensures
        r@ == trim_punct(s@),
{
    let cs = chars_of(s);
    let mut start: usize = 0;
    while start < cs.len() && is_path_punct_char(cs[start])
        invariant
            start <= cs.len(),
            forall|i: int| 0 <= i < start ==> is_path_punct(#[trigger] cs@[i]),
        decreases cs.len() - start,
    {
        start = start + 1;
    }
    let mut end = cs.len();
    while end > start && is_path_punct_char(cs[end - 1])
        invariant
            start <= end <= cs.len(),
            forall|i: int| end <= i < cs.len() ==> is_path_punct(#[trigger] cs@[i]),
        decreases end,
    {
        end = end - 1;
    }
    proof {
        lemma_trim_start_punct_skip(cs@, start as int);
        let t = cs@.skip(start as int);
        assert forall|i: int| end - start <= i < t.len() implies is_path_punct(#[trigger] t[i]) by {
            assert(t[i] == cs@[i + start]);
        }
        if end > start {
            assert(t[end - start - 1] == cs@[end - 1]);
        }
        lemma_trim_end_punct_take(t, end - start);
        assert(t.take(end - start) == cs@.subrange(start as int, end as int));
    }
    string_from_chars(&cs, start, end)
}

/// Position of the last occurrence of `c` in `s`, or -1.
pub open spec fn last_index_of_char(s: Seq<char>, c: char) -> int
    decreases s.len(),
{
    if s.len() == 0 {
        -1
    } else if s.last() == c {
        s.len() - 1
    } else {
        last_index_of_char(s.drop_last(), c)
    }
}

proof fn lemma_last_index_of_char(s: Seq<char>, c: char, i: int)
    requires
        -1 <= i < s.len(),
        forall|k: int| i < k < s.len() ==> s[k] != c,
    ensures
        i >= 0 && s[i] == c ==> last_index_of_char(s, c) == i,
        i == -1 ==> last_index_of_char(s, c) == -1,
    decreases s.len(),
{
    if s.len() > 0 && s.len() - 1 > i {
        assert forall|k: int| i < k < s.len() - 1 implies s.drop_last()[k] != c by {
            assert(s.drop_last()[k] == s[k]);
        }
        lemma_last_index_of_char(s.drop_last(), c, i);
        if i >= 0 {
            assert(s.drop_last()[i] == s[i]);
        }
    }
}

/// Position of the last `c` in `cs`.
pub fn rfind_char(cs: &Vec<char>, c: char) -> (r: Option<usize>)
    ensures
        match r {
            Some(i) => i < cs.len() && last_index_of_char(cs@, c) == i,
            None => last_index_of_char(cs@, c) == -1,
        },
{
    let mut i = cs.len();
    while i > 0
        invariant
            i <= cs.len(),
            forall|k: int| i <= k < cs.len() ==> cs@[k] != c,
        decreases i,
    {
        if cs[i - 1] == c {
            proof {
                lemma_last_index_of_char(cs@, c, i - 1);
            }
            return Some(i - 1);
        }
        i = i - 1;
    }
    proof {
        lemma_last_index_of_char(cs@, c, -1);
    }
    None
}

/// Position of the first occurrence of `n` in `s`, or -1.
pub open spec fn index_of_seq(s: Seq<char>, n: Seq<char>) -> int
    decreases s.len(),
{
    if s.len() < n.len() {
        -1
    } else if s.take(n.len() as int) == n {
        0
    } else if s.len() == 0 {
        -1
    } else {
        let r = index_of_seq(s.drop_first(), n);
        if r < 0 {
            -1
        } else {
            r + 1
        }
    }
}

proof fn lemma_index_of_seq(s: Seq<char>, n: Seq<char>, i: int)
    requires
        0 <= i <= s.len(),
        forall|k: int| 0 <= k < i ==> !occurs_at(s, n, k),
    ensures
        occurs_at(s, n, i) ==> index_of_seq(s, n) == i,
        (forall|k: int| i <= k ==> !occurs_at(s, n, k)) ==> index_of_seq(s, n) == -1,
    decreases s.len(),
{
    if i == 0 {
        if occurs_at(s, n, 0) {
            assert(s.subrange(0, n.len() as int) == s.take(n.len() as int));
        }
        if forall|k: int| 0 <= k ==> !occurs_at(s, n, k) {
            if s.len() >= n.len() {
                assert(s.subrange(0, n.len() as int) == s.take(n.len() as int));
                assert(!occurs_at(s, n, 0));
                if s.len() > 0 {
                    assert forall|k: int| 0 <= k implies !occurs_at(s.drop_first(), n, k) by {
                        if occurs_at(s.drop_first(), n, k) {
                            assert(s.drop_first().subrange(k, k + n.len()) == s.subrange(k + 1, k + 1 + n.len()));
                            assert(occurs_at(s, n, k + 1));
                        }
                    }
                    lemma_index_of_seq(s.drop_first(), n, 0);
                }
            }
        }
    } else {
        assert(!occurs_at(s, n, 0));
        assert(s.len() >= 1);
        if s.len() >= n.len() {
            assert(s.subrange(0, n.len() as int) == s.take(n.len() as int));
        }
        assert forall|k: int| 0 <= k < i - 1 implies !occurs_at(s.drop_first(), n, k) by {
            if occurs_at(s.drop_first(), n, k) {
                assert(s.drop_first().subrange(k, k + n.len()) == s.subrange(k + 1, k + 1 + n.len()));
                assert(occurs_at(s, n, k + 1));
            }
        }
        if occurs_at(s, n, i) {
            assert(s.drop_first().subrange(i - 1, i - 1 + n.len()) == s.subrange(i, i + n.len()));
        }
        if forall|k: int| i <= k ==> !occurs_at(s, n, k) {
            assert forall|k: int| i - 1 <= k implies !occurs_at(s.drop_first(), n, k) by {
                if occurs_at(s.drop_first(), n, k) {
                    assert(s.drop_first().subrange(k, k + n.len()) == s.subrange(k + 1, k + 1 + n.len()));
                    assert(occurs_at(s, n, k + 1));
                }
            }
        }
        lemma_index_of_seq(s.drop_first(), n, i - 1);
    }
}

/// Position of the first occurrence of `p` in `cs`, as `index_of_seq` says.
pub fn find_seq(cs: &Vec<char>, p: &Vec<char>) -> (r: Option<usize>)
    ensures
        match r {
            Some(i) => i <= cs.len() && index_of_seq(cs@, p@) == i && occurs_at(cs@, p@, i as int),
            None => index_of_seq(cs@, p@) == -1,
        },
{
    let r = find_from(cs, p, 0);
    match r {
        Some(i) => {
            proof {
                lemma_index_of_seq(cs@, p@, i as int);
            }
            Some(i)
        },
        None => {
            proof {
                lemma_index_of_seq(cs@, p@, 0);
            }
            None
        },
    }
}


/// `str::trim_start`, as an owned string.
pub fn trim_start_string(s: &str) -> (r: String)
    ensures
        r@ == trim_start(s@),
{
    let cs = chars_of(s);
    let start = skip_ws_forward(&cs, 0);
    proof {
        lemma_trim_start_skip(cs@, start as int);
        assert(cs@.skip(start as int) == cs@.subrange(start as int, cs.len() as int));
    }
    string_from_chars(&cs, start, cs.len())
}


/// `s` with every `from` character turned into `to`.
pub open spec fn replace_char(s: Seq<char>, from: char, to: char) -> Seq<char> {
    s.map_values(|c: char| if c == from { to } else { c })
}

/// `s.replace(from, to)` for single characters.
pub fn replace_char_string(s: &str, from: char, to: char) -> (r: String)
    ensures
        r@ == replace_char(s@, from, to),
{
    let cs = chars_of(s);
    let mut out = String::new();
    let mut i: usize = 0;
    while i < cs.len()
        invariant
            i <= cs.len(),
            cs@ == s@,
            out@ == replace_char(cs@.take(i as int), from, to),
        decreases cs.len() - i,
    {
        let c = if cs[i] == from {
            to
        } else {
            cs[i]
        };
        push_char(&mut out, c);
        assert(replace_char(cs@.take(i + 1), from, to) =~= replace_char(cs@.take(i as int), from, to).push(c));
        i = i + 1;
    }
    assert(cs@.take(cs.len() as int) == cs@);
    out
}

} // verus!
