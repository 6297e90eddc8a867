//! How the standard library reads whole numbers from text.

use vstd::prelude::*;

verus! {

/// The value of a digit in the given radix, which is 10 or 16.
pub open spec fn digit_value(c: char, radix: nat) -> Option<nat> {
    if '0' <= c <= '9' {
        Some((c as nat - '0' as nat) as nat)
    } else if radix == 16 && 'a' <= c <= 'f' {
        Some((c as nat - 'a' as nat + 10) as nat)
    } else if radix == 16 && 'A' <= c <= 'F' {
        Some((c as nat - 'A' as nat + 10) as nat)
    } else {
        None
    }
}

/// The number that one or more digits denote, the first digit counting
/// most; `None` if there is no digit or something that is no digit.
pub open spec fn digits_value(s: Seq<char>, radix: nat) -> Option<nat>
    decreases s.len(),
{
    if s.len() == 0 {
        None
    } else if s.len() == 1 {
        digit_value(s[0], radix)
    } else {
        match (digits_value(s.drop_last(), radix), digit_value(s.last(), radix)) {
            (Some(high), Some(low)) => Some(high * radix + low),
            _ => None,
        }
    }
}

/// A text without a leading plus sign.
pub open spec fn unsigned_body(s: Seq<char>) -> Seq<char> {
    if s.len() > 0 && s[0] == '+' {
        s.subrange(1, s.len() as int)
    } else {
        s
    }
}

/// The byte that a text denotes in the given radix: an optional plus
/// sign, then digits, the number being at most 255.
pub open spec fn text_u8(s: Seq<char>, radix: nat) -> Option<u8> {
    match digits_value(unsigned_body(s), radix) {
        Some(v) => if v <= u8::MAX {
            Some(v as u8)
        } else {
            None
        },
        None => None,
    }
}

/// The 32-bit number that a text denotes in decimal: an optional plus or
/// minus sign, then digits, the number fitting in 32 bits.
pub open spec fn text_i32(s: Seq<char>) -> Option<i32> {
    if s.len() > 0 && s[0] == '-' {
        match digits_value(s.subrange(1, s.len() as int), 10) {
            Some(v) => if v <= 0x8000_0000 {
                Some((0 - v) as i32)
            } else {
                None
            },
            None => None,
        }
    } else {
        match digits_value(unsigned_body(s), 10) {
            Some(v) => if v <= i32::MAX {
                Some(v as i32)
            } else {
                None
            },
            None => None,
        }
    }
}

/// `std::num::ParseIntError`, carried through as an opaque value.
#[verifier::external_type_specification]
#[verifier::external_body]
pub struct ExParseIntError(std::num::ParseIntError);

/// Calls `u8::from_str_radix` with radix 16, which reads an optional
/// plus sign and then hexadecimal digits of either case.
#[verifier::external_body]
pub(crate) fn parse_hex_u8(s: &str) -> (r: Option<u8>)
    ensures
        r == text_u8(s@, 16),
{
    u8::from_str_radix(s, 16).ok()
}

/// Calls `str::parse::<u8>`, which reads an optional plus sign and then
/// decimal digits.
#[verifier::external_body]
pub(crate) fn parse_decimal_u8(s: &str) -> (r: Option<u8>)
    ensures
        r == text_u8(s@, 10),
{
    s.parse::<u8>().ok()
}

/// Calls `str::parse::<i32>`, which reads an optional sign and then
/// decimal digits.
#[verifier::external_body]
pub(crate) fn parse_i32(s: &str) -> (r: Result<i32, std::num::ParseIntError>)
    ensures
        r is Ok <==> text_i32(s@) is Some,
        r is Ok ==> Some(r->Ok_0) == text_i32(s@),
{
    s.parse::<i32>()
}

} // verus!
