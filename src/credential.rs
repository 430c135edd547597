//! The administrator credential and its comparison against the server secret.

use vstd::prelude::*;
use vstd::utf8::encode_utf8_decode_utf8;

verus! {

/// A credential supplied by a caller, borrowed for the length of one request.
pub struct AdminLogin<'r> {
    pub password: &'r str,
}

proof fn lemma_or_xor_zero(d: u8, x: u8, y: u8)
    ensures
        (d | (x ^ y)) == 0u8 <==> (d == 0u8 && x == y),
{
    assert((d | (x ^ y)) == 0u8 <==> (d == 0u8 && x == y)) by (bit_vector);
}

/// Compares two byte strings in time that depends on the length of `given`
/// alone: every byte of `given` is examined whatever the content or length of
/// `expected`.
pub fn bytes_match(given: &[u8], expected: &[u8]) -> (r: bool)
    ensures
        r == (given@ == expected@),
{
    let glen = given.len();
    let elen = expected.len();
    let mut diff: u8 = if glen == elen {
        0
    } else {
        1
    };
    let mut i: usize = 0;
    while i < glen
        invariant
            glen == given@.len(),
            elen == expected@.len(),
            i <= glen,
            (diff == 0) == (glen == elen && forall|j: int|
                0 <= j < i ==> given@[j] == expected@[j]),
        decreases glen - i,
    {
        let other: u8 = if elen == 0 {
            0
        } else {
            expected[i % elen]
        };
        proof {
            lemma_or_xor_zero(diff, given@[i as int], other);
            if glen == elen {
                assert(i % elen == i) by (nonlinear_arith)
                    requires
                        i < elen,
                ;
            }
        }
        diff = diff | (given[i] ^ other);
        i = i + 1;
    }
    if diff == 0 {
        assert(given@ =~= expected@);
    }
    diff == 0
}

/// Compares two strings with `bytes_match`, on their UTF-8 encodings.
pub fn secrets_match(given: &str, expected: &str) -> (r: bool)
    ensures
        r == (given@ == expected@),
{
    let r = bytes_match(given.as_bytes(), expected.as_bytes());
    proof {
        encode_utf8_decode_utf8(given@);
        encode_utf8_decode_utf8(expected@);
    }
    r
}

} // verus!
