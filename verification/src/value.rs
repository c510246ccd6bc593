//! Reading a transferred value from its text, in hexadecimal or decimal.

use crate::model::{amount_of, text_of, uint256_bound, SimulationError, Uint256};
use vstd::prelude::*;
use vstd::string::StrSliceExecFns;

verus! {

/// One of the characters `0` to `9`.
pub open spec fn is_dec_digit(c: char) -> bool {
    0x30 <= c as u32 <= 0x39
}

/// A decimal digit, or one of the letters `a` to `f` in either case.
pub open spec fn is_hex_digit(c: char) -> bool {
    is_dec_digit(c) || 0x61 <= c as u32 <= 0x66 || 0x41 <= c as u32 <= 0x46
}

/// The number that one digit stands for.
pub open spec fn digit_value(c: char) -> nat {
    if is_dec_digit(c) {
        (c as u32 - 0x30) as nat
    } else if 0x61 <= c as u32 <= 0x66 {
        (c as u32 - 0x61 + 10) as nat
    } else {
        (c as u32 - 0x41 + 10) as nat
    }
}

/// The number that a string of digits stands for in a base, most significant
/// digit first. The empty string stands for zero.
pub open spec fn number_value(digits: Seq<char>, base: nat) -> nat
    decreases digits.len(),
{
    if digits.len() == 0 {
        0
    } else {
        number_value(digits.drop_last(), base) * base + digit_value(digits.last())
    }
}

/// Whether a text starts with the characters `0x`.
pub open spec fn has_hex_prefix(text: Seq<char>) -> bool {
    text.len() >= 2 && text[0] == '0' && text[1] == 'x'
}

/// The value of a decimal text: every character is a decimal digit and the
/// number fits in 256 bits.
pub open spec fn parse_decimal(text: Seq<char>) -> Option<nat> {
    if (forall|i: int| 0 <= i < text.len() ==> is_dec_digit(#[trigger] text[i])) && number_value(
        text,
        10,
    ) < uint256_bound() {
        Some(number_value(text, 10))
    } else {
        None
    }
}

/// The value of a hexadecimal text: after one leading `0x`, if there is one,
/// at most 64 characters follow, each a hexadecimal digit.
pub open spec fn parse_hex(text: Seq<char>) -> Option<nat> {
    let digits = if has_hex_prefix(text) {
        text.skip(2)
    } else {
        text
    };
    if digits.len() <= 64 && (forall|i: int|
        0 <= i < digits.len() ==> is_hex_digit(#[trigger] digits[i])) {
        Some(number_value(digits, 16))
    } else {
        None
    }
}

/// What a client's value text normalizes to: nothing where there is no text,
/// the hexadecimal reading where the text starts with `0x`, the decimal
/// reading otherwise.
pub open spec fn normalized(value: Option<Seq<char>>) -> Result<Option<nat>, SimulationError> {
    match value {
        None => Ok(None),
        Some(text) => if has_hex_prefix(text) {
            match parse_hex(text) {
                Some(v) => Ok(Some(v)),
                None => Err(SimulationError::InvalidHexValue),
            }
        } else {
            match parse_decimal(text) {
                Some(v) => Ok(Some(v)),
                None => Err(SimulationError::InvalidDecimalValue),
            }
        },
    }
}

/// Trusted: `U256::from_dec_str` of the `uint` crate, reached through
/// `ethers::abi::Uint`. It reads the bytes in order, multiplying by ten and
/// adding each digit, and fails on a byte that is no decimal digit and on
/// overflow of 256 bits; the limbs of the result are least significant first.
#[verifier::external_body]
fn parse_decimal_u256(text: &str) -> (r: Option<Uint256>)
    ensures
        amount_of(r) == parse_decimal(text@),
{
    match ethers::abi::Uint::from_dec_str(text) {
        Ok(v) => Some(Uint256 { limbs: v.0 }),
        Err(_) => None,
    }
}

/// Trusted: the `FromStr` impl of `U256` in the `uint` crate, reached through
/// `ethers::abi::Uint`. It strips one leading `0x`, rejects more than 64
/// remaining bytes, and decodes the rest as big-endian hexadecimal digits of
/// either case, an odd count included; the limbs of the result are least
/// significant first.
#[verifier::external_body]
fn parse_hex_u256(text: &str) -> (r: Option<Uint256>)
    ensures
        amount_of(r) == parse_hex(text@),
{
    match text.parse::<ethers::abi::Uint>() {
        Ok(v) => Some(Uint256 { limbs: v.0 }),
        Err(_) => None,
    }
}

/// Whether a text starts with the characters `0x`.
pub fn starts_with_hex_prefix(text: &str) -> (r: bool)
    ensures
        r == has_hex_prefix(text@),
{
    text.unicode_len() >= 2 && text.get_char(0) == '0' && text.get_char(1) == 'x'
}

/// Normalizes the value of a request.
///
/// No text gives no value. A text that starts with `0x` is read as
/// hexadecimal, any other as decimal; a text that does not read is rejected
/// with the error of its base.
pub fn normalize_value(value: &Option<String>) -> (r: Result<Option<Uint256>, SimulationError>)
    ensures
        match normalized(text_of(*value)) {
            Ok(v) => r is Ok && amount_of(r->Ok_0) == v,
            Err(e) => r is Err && r->Err_0 == e,
        },
{
    match value {
        None => Ok(None),
        Some(text) => {
            if starts_with_hex_prefix(text.as_str()) {
                match parse_hex_u256(text.as_str()) {
                    Some(v) => Ok(Some(v)),
                    None => Err(SimulationError::InvalidHexValue),
                }
            } else {
                match parse_decimal_u256(text.as_str()) {
                    Some(v) => Ok(Some(v)),
                    None => Err(SimulationError::InvalidDecimalValue),
                }
            }
        },
    }
}

} // verus!
