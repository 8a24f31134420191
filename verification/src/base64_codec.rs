//! Standard base64 text (RFC 4648, `+` and `/`, `=` padding), written by
//! the `base64` crate behind a trusted wrapper.
use vstd::prelude::*;

verus! {

/// The character of a 6-bit value in the standard base64 alphabet
/// `A-Z a-z 0-9 + /`.
pub open spec fn base64_digit(v: int) -> char {
    if v < 26 {
        (65 + v) as char
    } else if v < 52 {
        (97 + v - 26) as char
    } else if v < 62 {
        (48 + v - 52) as char
    } else if v == 62 {
        '+'
    } else {
        '/'
    }
}

/// Standard base64 with padding: each group of three bytes becomes four
/// characters of six bits each; a last group of one or two bytes becomes
/// two or three characters, padded with `=` to four.
pub open spec fn base64_text(data: Seq<u8>) -> Seq<char>
    decreases data.len(),
{
    if data.len() == 0 {
        Seq::empty()
    } else {
        let b0 = data[0] as int;
        let b1 = if data.len() >= 2 {
            data[1] as int
        } else {
            0
        };
        let b2 = if data.len() >= 3 {
            data[2] as int
        } else {
            0
        };
        let c0 = base64_digit(b0 / 4);
        let c1 = base64_digit((b0 % 4) * 16 + b1 / 16);
        let c2 = base64_digit((b1 % 16) * 4 + b2 / 64);
        let c3 = base64_digit(b2 % 64);
        if data.len() == 1 {
            seq![c0, c1, '=', '=']
        } else if data.len() == 2 {
            seq![c0, c1, c2, '=']
        } else {
            seq![c0, c1, c2, c3] + base64_text(data.skip(3))
        }
    }
}

/// Encodes bytes with `base64::engine::general_purpose::STANDARD`
/// (`Engine::encode`).
///
/// Claimed of the outside code: `STANDARD` is the RFC 4648 standard
/// alphabet with padding, so the text is [`base64_text`] of the bytes.
/// `encode` panics only when the encoded length overflows `usize`, which
/// `requires` rules out.
#[verifier::external_body]
pub(crate) fn base64_standard(data: &[u8]) -> (s: String)
    requires
        (data@.len() / 3) * 4 + 4 <= usize::MAX,
    ensures
        s@ == base64_text(data@),
{
    base64::Engine::encode(&base64::engine::general_purpose::STANDARD, data)
}

} // verus!
