//! Decimal rendering and character repetition used by status lines.

use vstd::prelude::*;
use crate::strings::push_char;

verus! {

/// The ASCII digit for `d < 10`.
pub open spec fn digit(d: nat) -> char {
    (('0' as u32) + d) as char
}

/// The decimal text of `n` (what `format!("{n}")` prints).
pub open spec fn decimal(n: nat) -> Seq<char>
    decreases n,
{
    if n < 10 {
        seq![digit(n)]
    } else {
        decimal(n / 10).push(digit(n % 10))
    }
}

/// The decimal text of a signed number.
pub open spec fn signed_decimal(n: int) -> Seq<char> {
    if n < 0 {
        seq!['-'] + decimal((-n) as nat)
    } else {
        decimal(n as nat)
    }
}

fn digit_char(d: u64) -> (c: char)
    requires
        d < 10,
    ensures
        c == digit(d as nat),
{
    let c = (48u64 + d) as u8 as char;
    assert(c == digit(d as nat)) by {
        assert('0' as u32 == 48);
    }
    c
}

/// Appends the decimal text of `n`.
pub fn push_decimal(out: &mut String, n: u64)
    ensures
        final(out)@ == old(out)@ + decimal(n as nat),
    decreases n,
{
    if n >= 10 {
        push_decimal(out, n / 10);
    }
    let c = digit_char(n % 10);
    push_char(out, c);
    proof {
        if n >= 10 {
            assert(old(out)@ + decimal(n as nat) =~= old(out)@ + decimal((n / 10) as nat) + seq![c]);
        } else {
            assert(old(out)@ + decimal(n as nat) =~= old(out)@.push(c));
        }
    }
}

/// The decimal text of `n`.
pub fn u64_to_string(n: u64) -> (r: String)
    ensures
        r@ == decimal(n as nat),
{
    let mut r = String::new();
    push_decimal(&mut r, n);
    assert(r@ =~= decimal(n as nat));
    r
}

/// The decimal text of a signed number.
pub fn i64_to_string(n: i64) -> (r: String)
    ensures
        r@ == signed_decimal(n as int),
{
    let mut r = String::new();
    if n < 0 {
        push_char(&mut r, '-');
        let m: u64 = if n == i64::MIN {
            9223372036854775808u64
        } else {
            (-n) as u64
        };
        push_decimal(&mut r, m);
        assert(r@ =~= signed_decimal(n as int));
    } else {
        push_decimal(&mut r, n as u64);
        assert(r@ =~= signed_decimal(n as int));
    }
    r
}

/// `c` repeated `n` times.
pub open spec fn repeat_char(c: char, n: nat) -> Seq<char> {
    Seq::new(n, |_i: int| c)
}

/// Appends `n` copies of `c`.
pub fn push_repeat(out: &mut String, c: char, n: usize)
    ensures
        final(out)@ == old(out)@ + repeat_char(c, n as nat),
{
    let mut i: usize = 0;
    while i < n
        invariant
            i <= n,
            out@ == old(out)@ + repeat_char(c, i as nat),
        decreases n - i,
    {
        push_char(out, c);
        assert(old(out)@ + repeat_char(c, (i + 1) as nat) =~= (old(out)@ + repeat_char(c, i as nat)).push(c));
        i = i + 1;
    }
}

} // verus!
