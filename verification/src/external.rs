//! The calls this library makes into `base64` and into the parts of `std` that
//! vstd gives no specification. Each item here is trusted: Verus believes its
//! contract without reading its body.

use base64::Engine;
use vstd::prelude::*;

verus! {

/// The length of the padded base64 encoding of `n` bytes.
pub open spec fn base64_len(n: nat) -> nat {
    4 * ((n + 2) / 3)
}

/// The character of the standard base64 alphabet (RFC 4648, table 1) for a
/// six-bit value.
pub open spec fn base64_digit(v: u8) -> char {
    if v < 26 {
        (v + 65) as char
    } else if v < 52 {
        (v - 26 + 97) as char
    } else if v < 62 {
        (v - 52 + 48) as char
    } else if v == 62 {
        '+'
    } else {
        '/'
    }
}

/// Standard base64 with `=` padding (RFC 4648, section 4): each group of three
/// bytes becomes four digits; a final group of one or two bytes is padded.
pub open spec fn base64_standard(s: Seq<u8>) -> Seq<char>
    decreases s.len(),
{
    if s.len() == 0 {
        Seq::empty()
    } else if s.len() == 1 {
        seq![base64_digit(s[0] >> 2), base64_digit((s[0] & 3) << 4), '=', '=']
    } else if s.len() == 2 {
        seq![
            base64_digit(s[0] >> 2),
            base64_digit(((s[0] & 3) << 4) | (s[1] >> 4)),
            base64_digit((s[1] & 15) << 2),
            '=',
        ]
    } else {
        seq![
            base64_digit(s[0] >> 2),
            base64_digit(((s[0] & 3) << 4) | (s[1] >> 4)),
            base64_digit(((s[1] & 15) << 2) | (s[2] >> 6)),
            base64_digit(s[2] & 63),
        ] + base64_standard(s.skip(3))
    }
}

/// Calls `Engine::encode` of `base64::engine::general_purpose::STANDARD`, the
/// standard alphabet with padding. The contract claims that the result is the
/// RFC 4648 encoding of the input. The call panics when the encoded length
/// does not fit in a `usize`; `requires` leaves that out.
#[verifier::external_body]
pub(crate) fn base64_encode(bytes: &[u8]) -> (encoded: String)
    requires
        base64_len(bytes@.len()) <= usize::MAX,
    ensures
        encoded@ == base64_standard(bytes@),
{
    base64::engine::general_purpose::STANDARD.encode(bytes)
}

/// A Unicode scalar value: a code point that is not a surrogate.
pub open spec fn is_scalar_value(v: u32) -> bool {
    v < 0xd800 || (0xe000 <= v && v <= 0x10ffff)
}

/// Calls `char::from_u32`, which the standard library documents as returning
/// the `char` whose value is `v` when `v` is a Unicode scalar value, and
/// `None` otherwise.
#[verifier::external_body]
pub(crate) fn char_from_u32(v: u32) -> (c: Option<char>)
    ensures
        c == (if is_scalar_value(v) { Some(v as char) } else { None::<char> }),
{
    char::from_u32(v)
}

/// Calls `String::push`, which appends one character to the string.
#[verifier::external_body]
pub(crate) fn string_push(s: &mut String, c: char)
    ensures
        final(s)@ == old(s)@.push(c),
{
    s.push(c)
}

} // verus!
