//! The boxed text panel of the operator status: lines wrapped at word
//! boundaries inside a fixed-width ASCII frame.

use vstd::prelude::*;
use crate::format::{push_repeat, repeat_char};
use crate::strings::{chars_of, is_ws, is_ws_char, lemma_trim_start_skip, push_char, trim_start};

verus! {

/// The position of the last whitespace among the first `n` characters, or -1.
pub open spec fn last_ws_below(cur: Seq<char>, n: int) -> int
    decreases n,
{
    if n <= 0 {
        -1
    } else if is_ws(cur[n - 1]) {
        n - 1
    } else {
        last_ws_below(cur, n - 1)
    }
}

/// Where a line that does not fit in `width` characters is cut: after the
/// last whitespace within the width (when it is not the first character),
/// else at the width.
pub open spec fn spec_split_at_width(cur: Seq<char>, width: nat) -> int {
    let end: int = if cur.len() > width {
        width as int
    } else {
        cur.len() as int
    };
    let space = last_ws_below(cur, end);
    if space > 0 {
        space
    } else {
        end
    }
}

pub proof fn lemma_last_ws_below_bounds(cur: Seq<char>, n: int)
    ensures
        -1 <= last_ws_below(cur, n) < if n > 0 {
            n
        } else {
            0
        },
    decreases n,
{
    if n > 0 {
        lemma_last_ws_below_bounds(cur, n - 1);
    }
}

pub proof fn lemma_trim_start_len(s: Seq<char>)
    ensures
        trim_start(s).len() <= s.len(),
    decreases s.len(),
{
    if s.len() > 0 && is_ws(s[0]) {
        lemma_trim_start_len(s.drop_first());
    }
}

/// A framed row: `| `, the text padded with spaces to `width`, ` |`.
pub open spec fn boxed_row(s: Seq<char>, width: nat) -> Seq<char> {
    seq!['|', ' '] + s + repeat_char(
        ' ',
        if s.len() < width {
            (width - s.len()) as nat
        } else {
            0
        },
    ) + seq![' ', '|']
}

/// The framed rows of one line, wrapped at `width`.
pub open spec fn wrap_line(cur: Seq<char>, width: nat) -> Seq<Seq<char>>
    decreases cur.len(),
{
    if width > 0 && cur.len() > width {
        let k = spec_split_at_width(cur, width);
        proof {
            lemma_last_ws_below_bounds(cur, width as int);
            lemma_trim_start_len(cur.skip(k));
        }
        seq![boxed_row(cur.take(k), width)] + wrap_line(trim_start(cur.skip(k)), width)
    } else {
        seq![boxed_row(cur, width)]
    }
}

/// The longest line, in characters.
pub open spec fn max_line_len(lines: Seq<Seq<char>>) -> nat
    decreases lines.len(),
{
    if lines.len() == 0 {
        0
    } else {
        let m = max_line_len(lines.drop_last());
        if lines.last().len() > m {
            lines.last().len()
        } else {
            m
        }
    }
}

/// The width inside the frame: the longest line (11 without lines), kept
/// within 40 and 118.
pub open spec fn panel_width(lines: Seq<Seq<char>>) -> nat {
    let m = if lines.len() == 0 {
        11
    } else {
        max_line_len(lines)
    };
    if m < 40 {
        40
    } else if m > 118 {
        118
    } else {
        m
    }
}

/// The framed rows of all lines.
pub open spec fn panel_rows(lines: Seq<Seq<char>>, width: nat) -> Seq<Seq<char>>
    decreases lines.len(),
{
    if lines.len() == 0 {
        Seq::empty()
    } else {
        panel_rows(lines.drop_last(), width) + wrap_line(lines.last(), width)
    }
}

/// The top and bottom border.
pub open spec fn panel_border(width: nat) -> Seq<char> {
    seq!['+'] + repeat_char('-', width + 2) + seq!['+']
}

/// Rows joined by newlines.
pub open spec fn join_rows(rows: Seq<Seq<char>>) -> Seq<char>
    decreases rows.len(),
{
    if rows.len() == 0 {
        Seq::empty()
    } else if rows.len() == 1 {
        rows[0]
    } else {
        join_rows(rows.drop_last()) + seq!['\n'] + rows.last()
    }
}

/// The boxed panel of some lines.
pub open spec fn spec_boxed_text_panel(lines: Seq<Seq<char>>) -> Seq<char> {
    let w = panel_width(lines);
    join_rows(seq![panel_border(w)] + panel_rows(lines, w) + seq![panel_border(w)])
}

/// Where the text from `start` is cut to fit `width` characters (a position
/// relative to `start`).
pub fn split_at_width(cs: &Vec<char>, start: usize, width: usize) -> (r: usize)
    requires
        start <= cs.len(),
    ensures
        r as int == spec_split_at_width(cs@.skip(start as int), width as nat),
{
    let ghost cur = cs@.skip(start as int);
    let len = cs.len() - start;
    let end = if len > width {
        width
    } else {
        len
    };
    let mut last: Option<usize> = None;
    let mut i: usize = 0;
    while i < end
        invariant
            i <= end <= len,
            len == cs.len() - start,
            cur == cs@.skip(start as int),
            cur.len() == len,
            match last {
                Some(k) => k as int == last_ws_below(cur, i as int),
                None => last_ws_below(cur, i as int) == -1,
            },
            end <= width,
        decreases end - i,
    {
        assert(cur[i as int] == cs@[start + i]);
        if is_ws_char(cs[start + i]) {
            last = Some(i);
        }
        i = i + 1;
    }
    match last {
        Some(k) => if k > 0 {
            k
        } else {
            end
        },
        None => end,
    }
}

fn push_boxed_row(out: &mut Vec<String>, cs: &Vec<char>, from: usize, to: usize, width: usize)
    requires
        from <= to <= cs.len(),
        width <= 118,
    ensures
        final(out)@.len() == old(out)@.len() + 1,
        forall|k: int| 0 <= k < old(out)@.len() ==> final(out)@[k] == old(out)@[k],
        final(out)@[old(out)@.len() as int]@ == boxed_row(
            cs@.subrange(from as int, to as int),
            width as nat,
        ),
{
    let mut row = String::new();
    push_char(&mut row, '|');
    push_char(&mut row, ' ');
    let mut i = from;
    while i < to
        invariant
            from <= i <= to <= cs.len(),
            row@ == seq!['|', ' '] + cs@.subrange(from as int, i as int),
        decreases to - i,
    {
        push_char(&mut row, cs[i]);
        assert(cs@.subrange(from as int, i + 1) =~= cs@.subrange(from as int, i as int).push(cs@[i as int]));
        assert(row@ =~= seq!['|', ' '] + cs@.subrange(from as int, i + 1));
        i = i + 1;
    }
    let n = to - from;
    let pad = if n < width {
        width - n
    } else {
        0
    };
    push_repeat(&mut row, ' ', pad);
    push_char(&mut row, ' ');
    push_char(&mut row, '|');
    assert(row@ =~= boxed_row(cs@.subrange(from as int, to as int), width as nat));
    out.push(row);
}

fn skip_ws_from(cs: &Vec<char>, from: usize) -> (k: usize)
    requires
        from <= cs.len(),
    ensures
        from <= k <= cs.len(),
        trim_start(cs@.skip(from as int)) == cs@.skip(k as int),
{
    let mut k = from;
    while k < cs.len() && is_ws_char(cs[k])
        invariant
            from <= k <= cs.len(),
            forall|i: int| from <= i < k ==> is_ws(#[trigger] cs@[i]),
        decreases cs.len() - k,
    {
        k = k + 1;
    }
    proof {
        let s = cs@.skip(from as int);
        assert forall|i: int| 0 <= i < k - from implies is_ws(#[trigger] s[i]) by {
            assert(s[i] == cs@[from + i]);
        }
        if k < cs.len() {
            assert(s[k - from] == cs@[k as int]);
        }
        lemma_trim_start_skip(s, k - from);
        assert(s.skip(k - from) =~= cs@.skip(k as int));
    }
    k
}

fn push_wrapped_line(out: &mut Vec<String>, line: &str, width: usize)
    requires
        40 <= width <= 118,
    ensures
        final(out)@.map_values(|s: String| s@) == old(out)@.map_values(|s: String| s@) + wrap_line(
            line@,
            width as nat,
        ),
{
    let cs = chars_of(line);
    let mut start: usize = 0;
    let ghost base = old(out)@.map_values(|s: String| s@);
    assert(cs@.skip(0) =~= cs@);
    while cs.len() - start > width
        invariant
            start <= cs.len(),
            40 <= width <= 118,
            cs@ == line@,
            out@.map_values(|s: String| s@) + wrap_line(cs@.skip(start as int), width as nat) == base
                + wrap_line(line@, width as nat),
        decreases cs.len() - start,
    {
        let ghost cur = cs@.skip(start as int);
        let ghost before = out@.map_values(|s: String| s@);
        let k = split_at_width(&cs, start, width);
        proof {
            lemma_last_ws_below_bounds(cur, width as int);
        }
        push_boxed_row(out, &cs, start, start + k, width);
        let next = skip_ws_from(&cs, start + k);
        proof {
            assert(cs@.subrange(start as int, start + k) =~= cur.take(k as int));
            assert(cs@.skip(start + k) =~= cur.skip(k as int));
            assert(out@.map_values(|s: String| s@) =~= before.push(boxed_row(cur.take(k as int), width as nat)));
            assert(wrap_line(cur, width as nat) == seq![boxed_row(cur.take(k as int), width as nat)]
                + wrap_line(trim_start(cur.skip(k as int)), width as nat));
            assert(before.push(boxed_row(cur.take(k as int), width as nat)) + wrap_line(
                cs@.skip(next as int),
                width as nat,
            ) =~= before + wrap_line(cur, width as nat));
        }
        start = next;
    }
    let ghost cur = cs@.skip(start as int);
    let ghost before = out@.map_values(|s: String| s@);
    let len = cs.len();
    push_boxed_row(out, &cs, start, len, width);
    assert(cs@.subrange(start as int, len as int) =~= cur);
    assert(out@.map_values(|s: String| s@) =~= before.push(boxed_row(cur, width as nat)));
    assert(before.push(boxed_row(cur, width as nat)) =~= before + wrap_line(cur, width as nat));
}

fn border_row(width: usize) -> (r: String)
    requires
        width <= 118,
    ensures
        r@ == panel_border(width as nat),
{
    let mut s = String::new();
    push_char(&mut s, '+');
    push_repeat(&mut s, '-', width + 2);
    push_char(&mut s, '+');
    assert(s@ =~= panel_border(width as nat));
    s
}

fn join_with_newlines(rows: &Vec<String>) -> (r: String)
    ensures
        r@ == join_rows(rows@.map_values(|s: String| s@)),
{
    let ghost rv = rows@.map_values(|s: String| s@);
    let mut out = String::new();
    let mut i: usize = 0;
    assert(rv.take(0) =~= Seq::<Seq<char>>::empty());
    while i < rows.len()
        invariant
            i <= rows.len(),
            rv == rows@.map_values(|s: String| s@),
            out@ == join_rows(rv.take(i as int)),
        decreases rows.len() - i,
    {
        let ghost before = out@;
        if i > 0 {
            push_char(&mut out, '\n');
        }
        crate::strings::push_str(&mut out, rows[i].as_str());
        proof {
            assert(rv.take(i + 1).drop_last() =~= rv.take(i as int));
            assert(rv.take(i + 1).last() == rows@[i as int]@);
            if i == 0 {
                assert(out@ =~= rv.take(1)[0]);
            } else {
                assert(out@ =~= before + seq!['\n'] + rv.take(i + 1).last());
            }
        }
        i = i + 1;
    }
    assert(rv.take(rows.len() as int) =~= rv);
    out
}

fn char_count(s: &str) -> (r: usize)
    ensures
        r == s@.len(),
{
    s.unicode_len()
}

/// The lines framed in a box whose width fits the longest line (between 40
/// and 118 characters), longer lines wrapped at word boundaries.
pub fn boxed_text_panel(lines: &[String]) -> (r: String)
    ensures
        r@ == spec_boxed_text_panel(lines@.map_values(|s: String| s@)),
{
    let ghost lv = lines@.map_values(|s: String| s@);
    let mut longest: usize = 0;
    let mut i: usize = 0;
    assert(lv.take(0) =~= Seq::<Seq<char>>::empty());
    while i < lines.len()
        invariant
            i <= lines.len(),
            lv == lines@.map_values(|s: String| s@),
            longest == max_line_len(lv.take(i as int)),
        decreases lines.len() - i,
    {
        assert(lv.take(i + 1).drop_last() =~= lv.take(i as int));
        assert(lv.take(i + 1).last() == lines@[i as int]@);
        let n = char_count(lines[i].as_str());
        if n > longest {
            longest = n;
        }
        i = i + 1;
    }
    assert(lv.take(lines.len() as int) =~= lv);
    let m = if lines.len() == 0 {
        11
    } else {
        longest
    };
    let width = if m < 40 {
        40
    } else if m > 118 {
        118
    } else {
        m
    };
    let mut rows: Vec<String> = Vec::new();
    rows.push(border_row(width));
    let mut j: usize = 0;
    assert(rows@.map_values(|s: String| s@) =~= seq![panel_border(width as nat)]);
    while j < lines.len()
        invariant
            j <= lines.len(),
            lv == lines@.map_values(|s: String| s@),
            40 <= width <= 118,
            width == panel_width(lv),
            rows@.map_values(|s: String| s@) == seq![panel_border(width as nat)] + panel_rows(
                lv.take(j as int),
                width as nat,
            ),
        decreases lines.len() - j,
    {
        proof {
            assert(lv.take(j + 1).drop_last() =~= lv.take(j as int));
            assert(lv.take(j + 1).last() == lines@[j as int]@);
        }
        let ghost before = rows@.map_values(|s: String| s@);
        push_wrapped_line(&mut rows, lines[j].as_str(), width);
        assert(rows@.map_values(|s: String| s@) =~= seq![panel_border(width as nat)] + panel_rows(
            lv.take(j + 1),
            width as nat,
        ));
        j = j + 1;
    }
    let ghost before = rows@.map_values(|s: String| s@);
    rows.push(border_row(width));
    assert(lv.take(lines.len() as int) =~= lv);
    assert(rows@.map_values(|s: String| s@) =~= seq![panel_border(width as nat)] + panel_rows(
        lv,
        width as nat,
    ) + seq![panel_border(width as nat)]);
    join_with_newlines(&rows)
}

proof fn lemma_wrap_rows_width(cur: Seq<char>, width: nat)
    requires
        width > 0,
    ensures
        forall|i: int|
            0 <= i < wrap_line(cur, width).len() ==> (#[trigger] wrap_line(cur, width)[i]).len()
                == width + 4,
    decreases cur.len(),
{
    if cur.len() > width {
        let k = spec_split_at_width(cur, width);
        lemma_last_ws_below_bounds(cur, width as int);
        lemma_trim_start_len(cur.skip(k));
        let rest = trim_start(cur.skip(k));
        lemma_wrap_rows_width(rest, width);
        let head = boxed_row(cur.take(k), width);
        assert(head.len() == width + 4);
        let rows = wrap_line(cur, width);
        assert(rows == seq![head] + wrap_line(rest, width));
        assert forall|i: int| 0 <= i < rows.len() implies (#[trigger] rows[i]).len() == width + 4 by {
            if i > 0 {
                assert(rows[i] == wrap_line(rest, width)[i - 1]);
            }
        }
    }
}

proof fn lemma_panel_rows_width(lines: Seq<Seq<char>>, width: nat)
    requires
        width > 0,
    ensures
        forall|i: int|
            0 <= i < panel_rows(lines, width).len() ==> (#[trigger] panel_rows(lines, width)[i]).len()
                == width + 4,
    decreases lines.len(),
{
    if lines.len() > 0 {
        lemma_panel_rows_width(lines.drop_last(), width);
        lemma_wrap_rows_width(lines.last(), width);
        let a = panel_rows(lines.drop_last(), width);
        let b = wrap_line(lines.last(), width);
        assert forall|i: int| 0 <= i < (a + b).len() implies (#[trigger] (a + b)[i]).len() == width
            + 4 by {
            if i < a.len() {
                assert((a + b)[i] == a[i]);
            } else {
                assert((a + b)[i] == b[i - a.len()]);
            }
        }
    }
}

/// Every row of a boxed panel, the borders included, is as wide as the
/// frame: the panel width plus four characters.
pub proof fn lemma_boxed_panel_rows_are_even(lines: Seq<Seq<char>>)
    ensures
        ({
            let w = panel_width(lines);
            let rows = seq![panel_border(w)] + panel_rows(lines, w) + seq![panel_border(w)];
            &&& spec_boxed_text_panel(lines) == join_rows(rows)
            &&& forall|i: int| 0 <= i < rows.len() ==> (#[trigger] rows[i]).len() == w + 4
        }),
{
    let w = panel_width(lines);
    lemma_panel_rows_width(lines, w);
    let mid = panel_rows(lines, w);
    let rows = seq![panel_border(w)] + mid + seq![panel_border(w)];
    assert forall|i: int| 0 <= i < rows.len() implies (#[trigger] rows[i]).len() == w + 4 by {
        if i == 0 {
        } else if i <= mid.len() {
            assert(rows[i] == mid[i - 1]);
        } else {
            assert(rows[i] == panel_border(w));
        }
    }
}

} // verus!
