//! The one source of randomness of the display.

use vstd::prelude::*;
use rand::Rng;

verus! {

/// A number drawn at random between `low` and `high`.
///
/// Calls `rand::thread_rng()` and, on the generator it returns,
/// `Rng::gen_range(low, high)`. That method panics when `low >= high`, which
/// the precondition rules out; otherwise it returns a value that is at least
/// `low` and less than `high`. Which one is not stated: two calls may differ.
/// The generator seeds itself from the operating system; should that fail,
/// the program ends, whatever the arguments.
#[verifier::external_body]
pub(crate) fn uniform(low: i32, high: i32) -> (drawn: i32)
    requires
        low < high,
    ensures
        low <= drawn < high,
{
    rand::thread_rng().gen_range(low, high)
}

} // verus!
