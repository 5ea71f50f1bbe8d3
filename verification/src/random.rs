//! The source of randomness.

use vstd::prelude::*;
use rand::Rng;

verus! {

/// Draws an integer from `low..high` with `rand::thread_rng().gen_range`.
///
/// Not verified. The contract claims only what holds of every draw: the
/// result lies in the half-open range. `gen_range` panics on an empty
/// range, which the precondition excludes. The generator is seeded from the
/// operating system the first time a thread uses it, and panics if that
/// fails.
#[verifier::external_body]
pub(crate) fn random_between(low: i64, high: i64) -> (r: i64)
    requires
        low < high,
    ensures
        low <= r < high,
{
    rand::thread_rng().gen_range(low..high)
}

} // verus!
