//! Decimal numerals in request fields.

use vstd::prelude::*;
use crate::error::ProtocolError;

verus! {

/// Whether `byte` is one of the ASCII digits `0` to `9`.
pub open spec fn is_digit(byte: u8) -> bool {
    0x30 <= byte <= 0x39
}

/// Whether every byte of `bytes` is an ASCII digit.
pub open spec fn all_digits(bytes: Seq<u8>) -> bool {
    forall|i: int| 0 <= i < bytes.len() ==> is_digit(#[trigger] bytes[i])
}

/// The number that a run of ASCII digits writes in base ten.
pub open spec fn digits_value(digits: Seq<u8>) -> nat
    decreases digits.len(),
{
    if digits.len() == 0 {
        0
    } else {
        10 * digits_value(digits.drop_last()) + (digits.last() - 0x30) as nat
    }
}

/// The integer that `bytes` writes as a numeral: an optional `-`, then one or
/// more ASCII digits and nothing else. `None` for any other text.
pub open spec fn numeral_value(bytes: Seq<u8>) -> Option<int> {
    if bytes.len() > 0 && bytes[0] == 0x2d {
        let digits = bytes.skip(1);
        if digits.len() > 0 && all_digits(digits) {
            Some(-(digits_value(digits) as int))
        } else {
            None
        }
    } else if bytes.len() > 0 && all_digits(bytes) {
        Some(digits_value(bytes) as int)
    } else {
        None
    }
}

/// What reading `bytes` as a signed 64-bit number gives: the value of the
/// numeral, `Overflow` for a numeral out of range, `InvalidFrameType` for a
/// text that is no numeral.
pub open spec fn spec_parse_decimal(bytes: Seq<u8>) -> Result<int, ProtocolError> {
    match numeral_value(bytes) {
        None => Err(ProtocolError::InvalidFrameType),
        Some(value) => if i64::MIN <= value <= i64::MAX {
            Ok(value)
        } else {
            Err(ProtocolError::Overflow)
        },
    }
}

/// Appending one digit multiplies the value by ten and adds the digit.
proof fn lemma_digits_value_push(bytes: Seq<u8>, start: int, end: int)
    requires
        0 <= start <= end < bytes.len(),
    ensures
        digits_value(bytes.subrange(start, end + 1)) == 10 * digits_value(
            bytes.subrange(start, end),
        ) + (bytes[end] - 0x30) as nat,
{
    let longer = bytes.subrange(start, end + 1);
    assert(longer.drop_last() =~= bytes.subrange(start, end));
    assert(longer.last() == bytes[end]);
}

/// Reads `bytes` as a signed 64-bit decimal number.
pub fn parse_decimal(bytes: &[u8]) -> (result: Result<i64, ProtocolError>)
    ensures
        match result {
            Ok(value) => spec_parse_decimal(bytes@) == Ok::<int, ProtocolError>(value as int),
            Err(e) => spec_parse_decimal(bytes@) == Err::<int, ProtocolError>(e),
        },
{
    let n = bytes.len();
    if n == 0 {
        return Err(ProtocolError::InvalidFrameType);
    }
    let negative = bytes[0] == 0x2d;
    let start: usize = if negative { 1 } else { 0 };
    if start == n {
        return Err(ProtocolError::InvalidFrameType);
    }
    let limit: u64 = if negative { 0x8000_0000_0000_0000 } else { 0x7fff_ffff_ffff_ffff };
    let mut magnitude: u64 = 0;
    let mut exceeded = false;
    let mut i: usize = start;
    assert(bytes@.subrange(start as int, start as int) =~= Seq::<u8>::empty());
    while i < n
        invariant
            n == bytes@.len(),
            start <= i <= n,
            negative == (bytes@[0] == 0x2d),
            start == if negative { 1usize } else { 0usize },
            limit == if negative { 0x8000_0000_0000_0000u64 } else { 0x7fff_ffff_ffff_ffffu64 },
            all_digits(bytes@.subrange(start as int, i as int)),
            !exceeded ==> magnitude == digits_value(bytes@.subrange(start as int, i as int))
                && magnitude <= limit,
            exceeded ==> digits_value(bytes@.subrange(start as int, i as int)) > limit,
        decreases n - i,
    {
        let byte = bytes[i];
        if byte < 0x30 || byte > 0x39 {
            proof {
                let digits = bytes@.subrange(start as int, n as int);
                assert(digits[i - start] == byte);
                assert(!all_digits(digits));
                assert(negative ==> digits =~= bytes@.skip(1));
                assert(!negative ==> digits =~= bytes@);
            }
            return Err(ProtocolError::InvalidFrameType);
        }
        let digit: u64 = (byte - 0x30) as u64;
        proof {
            lemma_digits_value_push(bytes@, start as int, i as int);
            let longer = bytes@.subrange(start as int, i + 1);
            assert forall|k: int| 0 <= k < longer.len() implies is_digit(#[trigger] longer[k]) by {
                if k < i - start {
                    assert(longer[k] == bytes@.subrange(start as int, i as int)[k]);
                }
            }
        }
        if !exceeded {
            if magnitude > (limit - digit) / 10 {
                exceeded = true;
            } else {
                magnitude = magnitude * 10 + digit;
            }
        }
        i = i + 1;
    }
    proof {
        let digits = bytes@.subrange(start as int, n as int);
        assert(negative ==> digits =~= bytes@.skip(1));
        assert(!negative ==> digits =~= bytes@);
    }
    if exceeded {
        Err(ProtocolError::Overflow)
    } else if negative {
        if magnitude == 0x8000_0000_0000_0000 {
            Ok(i64::MIN)
        } else {
            Ok(0 - (magnitude as i64))
        }
    } else {
        Ok(magnitude as i64)
    }
}

} // verus!
