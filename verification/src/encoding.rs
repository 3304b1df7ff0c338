//! Standard base64 (RFC 4648 alphabet, with `=` padding) through the
//! `base64` crate.

use base64::Engine;
use vstd::prelude::*;

verus! {

/// The character of the standard base64 alphabet for a 6-bit value:
/// `A`-`Z`, `a`-`z`, `0`-`9`, `+`, `/`.
pub open spec fn base64_char(v: nat) -> char {
    if v < 26 {
        ((v + 65) as u32) as char
    } else if v < 52 {
        ((v + 71) as u32) as char
    } else if v < 62 {
        ((v - 4) as u32) as char
    } else if v == 62 {
        '+'
    } else {
        '/'
    }
}

/// The standard base64 encoding of `b`: every three bytes become four
/// characters; a final group of one or two bytes is padded with `=`.
pub open spec fn base64_encode(b: Seq<u8>) -> Seq<char>
    decreases b.len(),
{
    if b.len() == 0 {
        Seq::empty()
    } else if b.len() == 1 {
        seq![base64_char(b[0] as nat / 4), base64_char((b[0] as nat % 4) * 16), '=', '=']
    } else if b.len() == 2 {
        seq![
            base64_char(b[0] as nat / 4),
            base64_char((b[0] as nat % 4) * 16 + b[1] as nat / 16),
            base64_char((b[1] as nat % 16) * 4),
            '=',
        ]
    } else {
        seq![
            base64_char(b[0] as nat / 4),
            base64_char((b[0] as nat % 4) * 16 + b[1] as nat / 16),
            base64_char((b[1] as nat % 16) * 4 + b[2] as nat / 64),
            base64_char(b[2] as nat % 64),
        ] + base64_encode(b.skip(3))
    }
}

/// `base64::engine::general_purpose::STANDARD.encode`.
///
/// Claimed of it: the standard alphabet with padding, as `base64_encode`
/// states. It panics when the encoded length overflows `usize`, which the
/// precondition rules out.
#[verifier::external_body]
pub(crate) fn encode_base64(bytes: &[u8]) -> (r: String)
    requires
        (bytes@.len() + 2) / 3 * 4 <= usize::MAX,
    ensures
        r@ == base64_encode(bytes@),
{
    base64::engine::general_purpose::STANDARD.encode(bytes)
}

} // verus!
