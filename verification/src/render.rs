//! Decimal rendering of integers.

use vstd::prelude::*;

verus! {

/// The decimal digits of a natural number, without leading zeros.
pub open spec fn digits(n: nat) -> Seq<char>
    decreases n,
{
    if n < 10 {
        seq![(48u8 + n as u8) as char]
    } else {
        digits(n / 10).push((48u8 + (n % 10) as u8) as char)
    }
}

/// The decimal digits of `n`, with a leading minus sign if it is
/// negative.
pub open spec fn decimal(n: int) -> Seq<char> {
    if n < 0 {
        seq!['-'] + digits((0 - n) as nat)
    } else {
        digits(n as nat)
    }
}

/// Calls `i64::to_string`, which prints the number in decimal, with a
/// minus sign if it is negative.
#[verifier::external_body]
pub(crate) fn render_int(v: i64) -> (r: String)
    ensures
        r@ == decimal(v as int),
{
    v.to_string()
}

} // verus!
