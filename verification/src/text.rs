//! Text operations of the standard library that the rest of the crate
//! builds on, each under a name of its own.

use vstd::prelude::*;

verus! {

/// A text without its leading and trailing white space, as `str::trim`
/// leaves it.
pub uninterp spec fn trimmed(s: Seq<char>) -> Seq<char>;

/// A text in lower case, as `str::to_lowercase` gives it.
pub uninterp spec fn lower(s: Seq<char>) -> Seq<char>;

/// Calls `str::trim`.
#[verifier::external_body]
pub(crate) fn trim(s: &str) -> (r: &str)
    ensures
        r@ == trimmed(s@),
{
    s.trim()
}

/// Calls `str::to_lowercase`.
#[verifier::external_body]
pub(crate) fn lowercase(s: &str) -> (r: String)
    ensures
        r@ == lower(s@),
{
    s.to_lowercase()
}

} // verus!
