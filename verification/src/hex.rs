//! Hexadecimal text of byte strings, as the `hex` functions of alloy encode and
//! decode it: lower-case digits, two per byte, without a prefix when encoding;
//! either case and an optional `0x` prefix when decoding.

use vstd::prelude::*;
use crate::text::{ascii_chars, all_ascii, string_from_ascii};

verus! {

/// The ASCII code of the lower-case hex digit of a value below sixteen.
pub open spec fn hex_digit(v: u8) -> u8 {
    if v < 10 { (48 + v) as u8 } else { (87 + v) as u8 }
}

/// The hex digits of a byte string: the high then the low half of each byte.
pub open spec fn spec_hex_digits(bytes: Seq<u8>) -> Seq<u8> {
    Seq::new(2 * bytes.len(), |i: int|
        if i % 2 == 0 { hex_digit(bytes[i / 2] / 16) } else { hex_digit(bytes[i / 2] % 16) })
}

/// The hex text of a byte string.
pub open spec fn spec_hex_encode(bytes: Seq<u8>) -> Seq<char> {
    ascii_chars(spec_hex_digits(bytes))
}

fn digit(v: u8) -> (r: u8)
    requires
        v < 16,
    ensures
        r == hex_digit(v),
        r < 128,
{
    if v < 10 { 48 + v } else { 87 + v }
}

/// Encodes bytes as lower-case hex text.
pub fn encode(bytes: &[u8]) -> (r: String)
    requires
        bytes@.len() <= usize::MAX / 2,
    ensures
        r@ == spec_hex_encode(bytes@),
{
    let mut out: Vec<u8> = Vec::with_capacity(bytes.len() * 2);
    let mut i: usize = 0;
    while i < bytes.len()
        invariant
            i <= bytes@.len(),
            bytes@.len() <= usize::MAX / 2,
            out@.len() == 2 * i,
            forall|j: int| 0 <= j < 2 * i ==> #[trigger] out@[j] == spec_hex_digits(bytes@)[j],
            all_ascii(out@),
        decreases bytes@.len() - i,
    {
        let b = bytes[i];
        out.push(digit(b / 16));
        out.push(digit(b % 16));
        i += 1;
    }
    assert(out@ =~= spec_hex_digits(bytes@));
    string_from_ascii(out.as_slice())
}

/// The value of a hex digit in either case, if the byte is one.
pub open spec fn hex_value(c: u8) -> Option<u8> {
    if 48 <= c <= 57 {
        Some((c - 48) as u8)
    } else if 97 <= c <= 102 {
        Some((c - 87) as u8)
    } else if 65 <= c <= 70 {
        Some((c - 55) as u8)
    } else {
        None
    }
}

/// The text without a leading `0x` or `0X`.
pub open spec fn strip_hex_prefix(text: Seq<u8>) -> Seq<u8> {
    if text.len() >= 2 && text[0] == 48 && (text[1] == 120 || text[1] == 88) {
        text.subrange(2, text.len() as int)
    } else {
        text
    }
}

/// Why hex text does not decode.
#[derive(Debug, Clone, Copy, PartialEq, Eq, Structural)]
pub enum HexError {
    /// The text has an odd number of bytes.
    OddLength,
    /// The byte at this index (after the prefix) is not a hex digit.
    InvalidHexCharacter { index: usize },
}

/// Hex text decodes when its length is even and every byte after the prefix
/// is a hex digit.
pub open spec fn hex_decodable(text: Seq<u8>) -> bool {
    &&& text.len() % 2 == 0
    &&& forall|i: int| 0 <= i < strip_hex_prefix(text).len() ==> (#[trigger] hex_value(strip_hex_prefix(text)[i])) is Some
}

/// The bytes of decodable hex text: each pair of digits is one byte, high
/// digit first.
pub open spec fn spec_hex_decode(text: Seq<u8>) -> Seq<u8> {
    let digits = strip_hex_prefix(text);
    Seq::new(digits.len() / 2, |i: int|
        (hex_value(digits[2 * i])->0 * 16 + hex_value(digits[2 * i + 1])->0) as u8)
}

fn value_of(c: u8) -> (r: Option<u8>)
    ensures
        r == hex_value(c),
{
    if 48 <= c && c <= 57 {
        Some(c - 48)
    } else if 97 <= c && c <= 102 {
        Some(c - 87)
    } else if 65 <= c && c <= 70 {
        Some(c - 55)
    } else {
        None
    }
}

/// Decodes hex text. Fails on text of odd length, and otherwise at the first
/// byte after the prefix that is no hex digit.
pub fn decode(text: &[u8]) -> (r: Result<Vec<u8>, HexError>)
    ensures
        match r {
            Ok(bytes) => hex_decodable(text@) && bytes@ == spec_hex_decode(text@),
            Err(HexError::OddLength) => text@.len() % 2 != 0,
            Err(HexError::InvalidHexCharacter { index }) => {
                &&& text@.len() % 2 == 0
                &&& index < strip_hex_prefix(text@).len()
                &&& hex_value(strip_hex_prefix(text@)[index as int]) is None
                &&& forall|j: int| 0 <= j < index ==> (#[trigger] hex_value(strip_hex_prefix(text@)[j])) is Some
            },
        },
        r is Ok <==> hex_decodable(text@),
{
    if text.len() % 2 != 0 {
        return Err(HexError::OddLength);
    }
    let start: usize = if text.len() >= 2 && text[0] == 48 && (text[1] == 120 || text[1] == 88) { 2 } else { 0 };
    let ghost digits = strip_hex_prefix(text@);
    assert(digits =~= text@.subrange(start as int, text@.len() as int));
    let n = text.len() - start;
    assert(n % 2 == 0);
    let mut out: Vec<u8> = Vec::with_capacity(n / 2);
    let mut k: usize = 0;
    while k < n / 2
        invariant
            digits == text@.subrange(start as int, text@.len() as int),
            digits == strip_hex_prefix(text@),
            start <= text@.len(),
            text@.len() % 2 == 0,
            n == text@.len() - start,
            n % 2 == 0,
            k <= n / 2,
            out@.len() == k,
            forall|j: int| 0 <= j < 2 * k ==> (#[trigger] hex_value(digits[j])) is Some,
            forall|j: int| 0 <= j < k ==> #[trigger] out@[j] == (hex_value(digits[2 * j])->0 * 16 + hex_value(digits[2 * j + 1])->0) as u8,
        decreases n / 2 - k,
    {
        assert(2 * k + 1 < n);
        assert(text@.len() == text.len());
        let hi_at = start + 2 * k;
        let hi = match value_of(text[hi_at]) {
            Some(v) => v,
            None => {
                assert(text@[hi_at as int] == digits[2 * k]);
                return Err(HexError::InvalidHexCharacter { index: 2 * k });
            },
        };
        let lo = match value_of(text[hi_at + 1]) {
            Some(v) => v,
            None => {
                assert(text@[hi_at + 1] == digits[2 * k + 1]);
                assert forall|j: int| 0 <= j < 2 * k + 1 implies (#[trigger] hex_value(digits[j])) is Some by {
                    if j == 2 * k {
                        assert(text@[hi_at as int] == digits[2 * k]);
                    }
                }
                return Err(HexError::InvalidHexCharacter { index: 2 * k + 1 });
            },
        };
        assert(text@[hi_at as int] == digits[2 * k]);
        assert(text@[hi_at + 1] == digits[2 * k + 1]);
        out.push(hi * 16 + lo);
        k += 1;
    }
    assert(out@ =~= spec_hex_decode(text@));
    Ok(out)
}

/// Decoding gives back what encoding encoded: the hex text of any bytes is
/// decodable hex, with no prefix, and decodes to the same bytes.
pub proof fn lemma_hex_round_trip(bytes: Seq<u8>)
    ensures
        hex_decodable(spec_hex_digits(bytes)),
        spec_hex_decode(spec_hex_digits(bytes)) == bytes,
{
    let digits = spec_hex_digits(bytes);
    assert forall|i: int| 0 <= i < digits.len() implies (48 <= #[trigger] digits[i] <= 57 || 97 <= digits[i] <= 102) by {
        let b = bytes[i / 2];
        assert(b / 16 < 16 && b % 16 < 16);
    }
    if digits.len() >= 2 {
        assert(digits[1] != 120 && digits[1] != 88);
    }
    assert(strip_hex_prefix(digits) == digits);
    assert forall|i: int| 0 <= i < digits.len() implies (#[trigger] hex_value(digits[i])) is Some by {}
    assert(digits.len() % 2 == 0);
    let decoded = spec_hex_decode(digits);
    assert forall|k: int| 0 <= k < bytes.len() implies #[trigger] decoded[k] == bytes[k] by {
        let b = bytes[k];
        assert((2 * k) / 2 == k);
        assert((2 * k + 1) / 2 == k);
        assert((2 * k) % 2 == 0);
        assert((2 * k + 1) % 2 == 1);
        assert(hex_value(digits[2 * k]) == Some(b / 16));
        assert(hex_value(digits[2 * k + 1]) == Some(b % 16));
        assert((b / 16) * 16 + b % 16 == b);
    }
    assert(decoded =~= bytes);
}


/// The ASCII code of the upper-case hex digit of a value below sixteen.
pub open spec fn hex_digit_upper(v: u8) -> u8 {
    if v < 10 { (48 + v) as u8 } else { (55 + v) as u8 }
}

/// The upper-case hex digits of a byte string.
pub open spec fn spec_hex_digits_upper(bytes: Seq<u8>) -> Seq<u8> {
    Seq::new(2 * bytes.len(), |i: int|
        if i % 2 == 0 { hex_digit_upper(bytes[i / 2] / 16) } else { hex_digit_upper(bytes[i / 2] % 16) })
}

/// The hex digits are the sixteen digits of either case, each with its
/// value: every digit of value `v` below sixteen, lower- or upper-case, has
/// the value `v`, and a byte with a value is one of those two digits of it.
pub proof fn lemma_hex_digits_of_either_case(v: u8, c: u8)
    requires
        v < 16,
    ensures
        hex_value(hex_digit(v)) == Some(v),
        hex_value(hex_digit_upper(v)) == Some(v),
        hex_value(c) matches Some(w) ==> w < 16 && (c == hex_digit(w) || c == hex_digit_upper(w)),
{
}

/// Upper-case hex text decodes as well: the upper-case hex digits of any
/// bytes are decodable hex and decode to the same bytes.
pub proof fn lemma_upper_hex_round_trip(bytes: Seq<u8>)
    ensures
        hex_decodable(spec_hex_digits_upper(bytes)),
        spec_hex_decode(spec_hex_digits_upper(bytes)) == bytes,
{
    let digits = spec_hex_digits_upper(bytes);
    assert forall|i: int| 0 <= i < digits.len() implies (48 <= #[trigger] digits[i] <= 57 || 65 <= digits[i] <= 70) by {
        let b = bytes[i / 2];
        assert(b / 16 < 16 && b % 16 < 16);
    }
    if digits.len() >= 2 {
        assert(digits[1] != 120 && digits[1] != 88);
    }
    assert(strip_hex_prefix(digits) == digits);
    assert forall|i: int| 0 <= i < digits.len() implies (#[trigger] hex_value(digits[i])) is Some by {}
    assert(digits.len() % 2 == 0);
    let decoded = spec_hex_decode(digits);
    assert forall|k: int| 0 <= k < bytes.len() implies #[trigger] decoded[k] == bytes[k] by {
        let b = bytes[k];
        assert((2 * k) / 2 == k);
        assert((2 * k + 1) / 2 == k);
        assert((2 * k) % 2 == 0);
        assert((2 * k + 1) % 2 == 1);
        assert(hex_value(digits[2 * k]) == Some(b / 16));
        assert(hex_value(digits[2 * k + 1]) == Some(b % 16));
        assert((b / 16) * 16 + b % 16 == b);
    }
    assert(decoded =~= bytes);
}


/// Hex text may carry a `0x` or `0X` prefix: the hex digits of any bytes
/// after either prefix decode to the same bytes.
pub proof fn lemma_prefixed_hex_round_trip(bytes: Seq<u8>, upper_x: bool)
    ensures
        ({
            let text = seq![48u8, if upper_x { 88u8 } else { 120u8 }] + spec_hex_digits(bytes);
            &&& hex_decodable(text)
            &&& spec_hex_decode(text) == bytes
        }),
{
    let digits = spec_hex_digits(bytes);
    let text = seq![48u8, if upper_x { 88u8 } else { 120u8 }] + digits;
    assert(strip_hex_prefix(text) =~= digits);
    lemma_hex_round_trip(bytes);
    if digits.len() >= 2 {
        let b = bytes[0];
        assert(b / 16 < 16);
        assert(digits[1] != 120 && digits[1] != 88);
    }
    assert(strip_hex_prefix(digits) == digits);
}

} // verus!
