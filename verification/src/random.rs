//! The source of chance.

use rand::Rng;
use vstd::prelude::*;

verus! {

/// A number drawn at random from `low` up to, but not including, `high`.
///
/// Calls `Rng::gen_range` on the generator that `rand::thread_rng` returns.
/// For integers the result is at least `low` and less than `high`; the call
/// panics unless `low < high`, and where the system has no entropy to seed
/// the generator with. Nothing else is known of the result: two calls may
/// differ.
#[verifier::external_body]
pub(crate) fn draw(low: u64, high: u64) -> (r: u64)
    requires
        low < high,
    ensures
        low <= r < high,
{
    rand::thread_rng().gen_range(low, high)
}

} // verus!
