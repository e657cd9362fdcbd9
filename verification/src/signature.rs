//! The visibility signature of an operator status text: the first eight
//! bytes of its SHA-256 digest, in lowercase hexadecimal.

use vstd::prelude::*;
use sha2::Digest;
use crate::strings::push_char;

verus! {

/// The SHA-256 digest of a byte string, as the sha2 crate computes it.
pub uninterp spec fn sha256_digest(bytes: Seq<u8>) -> Seq<u8>;

/// sha2's `Sha256::digest(bytes)` as a vector. It is trusted to be
/// `sha256_digest(bytes)`, a function of the bytes alone, of the 32 bytes
/// that SHA-256 outputs.
#[verifier::external_body]
fn sha256(bytes: &[u8]) -> (r: Vec<u8>)
    ensures
        r@ == sha256_digest(bytes@),
        r@.len() == 32,
{
    sha2::Sha256::digest(bytes).to_vec()
}

/// A hexadecimal digit, lowercase.
pub open spec fn hex_digit(d: nat) -> char {
    if d < 10 {
        (('0' as u32) + d) as char
    } else {
        (('a' as u32) + d - 10) as char
    }
}

/// The two hexadecimal digits of a byte.
pub open spec fn hex_byte(b: u8) -> Seq<char> {
    seq![hex_digit((b / 16) as nat), hex_digit((b % 16) as nat)]
}

/// The hexadecimal text of a byte string.
pub open spec fn hex_bytes(bs: Seq<u8>) -> Seq<char>
    decreases bs.len(),
{
    if bs.len() == 0 {
        Seq::empty()
    } else {
        hex_bytes(bs.drop_last()) + hex_byte(bs.last())
    }
}

/// The visibility signature of a text.
pub open spec fn spec_visibility_signature(text: Seq<char>) -> Seq<char> {
    hex_bytes(sha256_digest(vstd::utf8::encode_utf8(text)).take(8))
}

fn hex_digit_char(d: u8) -> (c: char)
    requires
        d < 16,
    ensures
        c == hex_digit(d as nat),
{
    if d < 10 {
        let c = (48u8 + d) as char;
        assert(c == hex_digit(d as nat)) by {
            assert('0' as u32 == 48);
        }
        c
    } else {
        let c = (87u8 + d) as char;
        assert(c == hex_digit(d as nat)) by {
            assert('a' as u32 == 97);
        }
        c
    }
}

/// The signature of an operator status text: the first eight bytes of the
/// SHA-256 digest of its UTF-8 bytes, as sixteen lowercase hexadecimal
/// digits.
pub fn visibility_signature(text: &str) -> (r: String)
    ensures
        r@ == spec_visibility_signature(text@),
        r@.len() == 16,
{
    let digest = sha256(text.as_bytes());
    let ghost prefix = digest@.take(8);
    let mut out = String::new();
    let mut i: usize = 0;
    assert(prefix.take(0) =~= Seq::<u8>::empty());
    while i < 8
        invariant
            i <= 8,
            digest@.len() == 32,
            prefix == digest@.take(8),
            out@ == hex_bytes(prefix.take(i as int)),
            out@.len() == 2 * i,
        decreases 8 - i,
    {
        let b = digest[i];
        push_char(&mut out, hex_digit_char(b / 16));
        push_char(&mut out, hex_digit_char(b % 16));
        proof {
            assert(prefix.take(i + 1).drop_last() =~= prefix.take(i as int));
            assert(prefix.take(i + 1).last() == b);
            assert(out@ =~= hex_bytes(prefix.take(i as int)) + hex_byte(b));
        }
        i = i + 1;
    }
    assert(prefix.take(8) =~= prefix);
    out
}

} // verus!
