//! Hex encoding and decoding of byte strings, with exact specifications.
//!
//! The executable work is done by `alloy_primitives::hex` (the `const-hex`
//! crate); the spec functions here state precisely what those calls return.

use vstd::prelude::*;
use vstd::string::StringSliceAdditionalSpecFns;

verus! {

/// Whether a byte is an ASCII hex digit, either case.
pub open spec fn is_hex_digit_byte(b: u8) -> bool {
    (48 <= b <= 57)  // '0'..'9'
    || (97 <= b <= 102)  // 'a'..'f'
    || (65 <= b <= 70)  // 'A'..'F'
}

/// Numeric value of an ASCII hex digit byte.
pub open spec fn hex_digit_value(b: u8) -> u8
    recommends
        is_hex_digit_byte(b),
{
    if b <= 57 {
        (b - 48) as u8
    } else if b >= 97 {
        (b - 97 + 10) as u8
    } else {
        (b - 65 + 10) as u8
    }
}

/// The input bytes with an optional leading `0x` or `0X` removed.
pub open spec fn strip_hex_prefix(s: Seq<u8>) -> Seq<u8> {
    if s.len() >= 2 && s[0] == 48 && (s[1] == 120 || s[1] == 88) {
        s.skip(2)
    } else {
        s
    }
}

/// Whether every byte of the sequence is a hex digit.
pub open spec fn all_hex_digits(s: Seq<u8>) -> bool {
    forall|i: int| 0 <= i < s.len() ==> is_hex_digit_byte(s[i])
}

/// Whether a hex string (as its UTF-8 bytes) decodes: even byte length, and
/// only hex digits after the optional prefix.
pub open spec fn hex_decode_ok(s: Seq<u8>) -> bool {
    s.len() % 2 == 0 && all_hex_digits(strip_hex_prefix(s))
}

/// The bytes encoded by a sequence of hex digit bytes, two digits per byte,
/// high nibble first.
pub open spec fn hex_pairs(s: Seq<u8>) -> Seq<u8> {
    Seq::new(
        s.len() / 2,
        |i: int| (hex_digit_value(s[2 * i]) * 16 + hex_digit_value(s[2 * i + 1])) as u8,
    )
}

/// What a successful hex decode returns.
pub open spec fn spec_hex_decode(s: Seq<u8>) -> Seq<u8> {
    hex_pairs(strip_hex_prefix(s))
}

/// The lowercase hex digit for a nibble value.
pub open spec fn hex_char_lower(v: u8) -> char
    recommends
        v < 16,
{
    if v < 10 {
        ((48 + v) as u8) as char
    } else {
        ((97 + v - 10) as u8) as char
    }
}

/// The lowercase hex encoding of a byte string, two digits per byte, high
/// nibble first, without a prefix.
pub open spec fn hex_lower_chars(bytes: Seq<u8>) -> Seq<char> {
    Seq::new(
        bytes.len() * 2,
        |i: int| if i % 2 == 0 {
            hex_char_lower(bytes[i / 2] >> 4u8)
        } else {
            hex_char_lower(bytes[i / 2] & 0x0fu8)
        },
    )
}

/// Relies on `alloy_primitives::hex::decode` (`const_hex::decode`): it fails
/// on an odd byte length, strips an optional `0x`/`0X` prefix, accepts hex
/// digits of either case, and returns one byte per digit pair, high nibble
/// first.
#[verifier::external_body]
pub(crate) fn hex_decode(s: &str) -> (r: Option<Vec<u8>>)
    ensures
        match r {
            Some(v) => hex_decode_ok(s.spec_bytes()) && v@ == spec_hex_decode(s.spec_bytes()),
            None => !hex_decode_ok(s.spec_bytes()),
        },
{
    alloy_primitives::hex::decode(s).ok()
}

/// Relies on `alloy_primitives::hex::encode` (`const_hex::encode`): lowercase
/// hex, two digits per input byte, high nibble first, no prefix.
#[verifier::external_body]
pub(crate) fn hex_encode(bytes: &[u8]) -> (r: String)
    ensures
        r@ == hex_lower_chars(bytes@),
{
    alloy_primitives::hex::encode(bytes)
}

} // verus!
