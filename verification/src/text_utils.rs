//! Whitespace-normalising text summaries used in prompts and status lines.

use vstd::prelude::*;
use crate::strings::{chars_of, concat2, is_blank, join_words, join_words_exec, join_words_scan, string_from_chars, trim};

verus! {

/// The text with its whitespace runs collapsed to single spaces and trimmed.
pub open spec fn normalized_text(text: Seq<char>) -> Seq<char> {
    join_words(text, " "@)
}

/// The visible summary of `text`: the normalized text when it fits in
/// `max_chars` characters, otherwise its first `max_chars - 3` characters
/// (saturating) followed by `...`.
pub open spec fn summary_of(text: Seq<char>, max_chars: nat) -> Seq<char> {
    let n = normalized_text(text);
    if n.len() <= max_chars {
        n
    } else {
        n.take(if max_chars >= 3 { max_chars - 3 } else { 0 }) + "..."@
    }
}

pub fn normalize_compact_text(text: &str) -> (r: String)
    ensures
        r@ == normalized_text(text@),
{
    join_words_exec(text, " ")
}

pub fn summarize_text_for_visibility(text: &str, max_chars: usize) -> (r: String)
    ensures
        r@ == summary_of(text@, max_chars as nat),
{
    let normalized = normalize_compact_text(text);
    let cs = chars_of(normalized.as_str());
    if cs.len() <= max_chars {
        return normalized;
    }
    let keep = if max_chars >= 3 { max_chars - 3 } else { 0 };
    let head = string_from_chars(&cs, 0, keep);
    assert(cs@.subrange(0, keep as int) == cs@.take(keep as int));
    concat2(head.as_str(), "...")
}

pub fn compact_prompt_text(text: &str, max_chars: usize) -> (r: String)
    ensures
        r@ == summary_of(text@, if max_chars >= 24 { max_chars as nat } else { 24 }),
{
    let limit = if max_chars >= 24 { max_chars } else { 24 };
    summarize_text_for_visibility(text, limit)
}

/// Two prompt fields say the same thing: the left one is not blank and both
/// normalize to the same text.
pub fn prompt_fields_match(left: &str, right: &str) -> (r: bool)
    ensures
        r == (trim(left@).len() != 0 && normalized_text(left@) == normalized_text(right@)),
{
    if is_blank(left) {
        return false;
    }
    let l = normalize_compact_text(left);
    let r = normalize_compact_text(right);
    l == r
}

/// A text whose only whitespace is single spaces between other characters:
/// no leading or trailing whitespace, no run of two, no tab or newline.
pub open spec fn well_spaced(r: Seq<char>) -> bool {
    forall|i: int|
        0 <= i < r.len() && crate::strings::is_ws(#[trigger] r[i]) ==> r[i] == ' ' && 0 < i && i + 1 < r.len()
            && !crate::strings::is_ws(r[i - 1]) && !crate::strings::is_ws(r[i + 1])
}

proof fn lemma_scan_well_spaced(s: Seq<char>)
    ensures
        well_spaced(join_words_scan(s, " "@).0),
        join_words_scan(s, " "@).1 ==> join_words_scan(s, " "@).0.len() > 0,
    decreases s.len(),
{
    if s.len() > 0 {
        lemma_scan_well_spaced(s.drop_last());
        let st = join_words_scan(s.drop_last(), " "@);
        let c = s.last();
        if !crate::strings::is_ws(c) {
            let base = if st.1 { st.0 + " "@ } else { st.0 };
            let r = base.push(c);
            assert(" "@ =~= seq![' ']) by {
                reveal_strlit(" ");
            }
            if st.1 {
                let n = st.0.len();
                assert(!crate::strings::is_ws(st.0[n - 1])) by {
                    if crate::strings::is_ws(st.0[n - 1]) {
                        assert(well_spaced(st.0));
                    }
                }
                assert forall|i: int| 0 <= i < r.len() && crate::strings::is_ws(#[trigger] r[i]) implies r[i] == ' '
                    && 0 < i && i + 1 < r.len() && !crate::strings::is_ws(r[i - 1]) && !crate::strings::is_ws(r[i + 1]) by {
                    if i < n {
                        assert(r[i] == st.0[i]);
                        assert(r[i - 1] == st.0[i - 1]);
                        if i + 1 < n {
                            assert(r[i + 1] == st.0[i + 1]);
                        }
                    } else if i == n {
                        assert(r[i - 1] == st.0[n - 1]);
                        assert(r[i + 1] == c);
                    }
                }
            } else {
                let n = st.0.len();
                assert forall|i: int| 0 <= i < r.len() && crate::strings::is_ws(#[trigger] r[i]) implies r[i] == ' '
                    && 0 < i && i + 1 < r.len() && !crate::strings::is_ws(r[i - 1]) && !crate::strings::is_ws(r[i + 1]) by {
                    if i < n {
                        assert(r[i] == st.0[i]);
                        assert(r[i - 1] == st.0[i - 1]);
                        if i + 1 < n {
                            assert(r[i + 1] == st.0[i + 1]);
                        }
                    }
                }
            }
        }
    }
}

proof fn lemma_scan_of_well_spaced_prefix(r: Seq<char>, k: int)
    requires
        well_spaced(r),
        0 <= k <= r.len(),
    ensures
        join_words_scan(r.take(k), " "@) == (if k > 0 && crate::strings::is_ws(r[k - 1]) {
            (r.take(k - 1), true)
        } else {
            (r.take(k), false)
        }),
    decreases k,
{
    if k > 0 {
        lemma_scan_of_well_spaced_prefix(r, k - 1);
        assert(r.take(k).drop_last() =~= r.take(k - 1));
        assert(r.take(k).last() == r[k - 1]);
        let c = r[k - 1];
        if !crate::strings::is_ws(c) && k > 1 && crate::strings::is_ws(r[k - 2]) {
            assert(" "@ =~= seq![' ']) by {
                reveal_strlit(" ");
            }
            assert(r.take(k - 2) + " "@ =~= r.take(k - 1));
            assert((r.take(k - 2) + " "@).push(c) =~= r.take(k));
        }
        if !crate::strings::is_ws(c) && !(k > 1 && crate::strings::is_ws(r[k - 2])) {
            assert(r.take(k - 1).push(c) =~= r.take(k));
        }
    } else {
        assert(r.take(0) =~= Seq::<char>::empty());
    }
}

/// Normalizing a text leaves only single spaces between other characters
/// (no leading, trailing, doubled or non-space whitespace), and normalizing
/// it again changes nothing.
pub proof fn lemma_normalized_text_is_settled(text: Seq<char>)
    ensures
        well_spaced(normalized_text(text)),
        normalized_text(normalized_text(text)) == normalized_text(text),
{
    lemma_scan_well_spaced(text);
    let r = normalized_text(text);
    lemma_scan_of_well_spaced_prefix(r, r.len() as int);
    assert(r.take(r.len() as int) =~= r);
    if r.len() > 0 && crate::strings::is_ws(r[r.len() - 1]) {
        assert(well_spaced(r));
    }
}

} // verus!
