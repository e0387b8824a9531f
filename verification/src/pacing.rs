//! The pause between two votes.

use vstd::prelude::*;

verus! {

/// Shortest pause between two votes, in seconds.
pub const NAP_MIN: u64 = 5;

/// Bound that a pause between two votes stays under, in seconds.
pub const NAP_END: u64 = 30;

/// Whether `seconds` is a pause that may separate two votes.
pub open spec fn is_nap(seconds: u64) -> bool {
    NAP_MIN <= seconds < NAP_END
}

/// Calls `rand::Rng::gen_range` on the generator that `rand::thread_rng`
/// returns, with the half-open range from `low` to `high`. Trusted: the
/// number lies in that range. `gen_range` panics on an empty range, which
/// the precondition leaves out. Nothing is claimed of how the numbers are
/// spread.
#[verifier::external_body]
fn draw(low: u64, high: u64) -> (drawn: u64)
    requires
        low < high,
    ensures
        low <= drawn < high,
{
    rand::Rng::gen_range(&mut rand::thread_rng(), low..high)
}

/// Picks the pause that follows a vote, in seconds: a number drawn at random
/// from `NAP_MIN` up to, and not including, `NAP_END`.
pub fn nap_length() -> (seconds: u64)
    ensures
        is_nap(seconds),
{
    draw(NAP_MIN, NAP_END)
}

} // verus!
