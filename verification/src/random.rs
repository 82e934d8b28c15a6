//! The source of chance.

use rand::Rng;
use vstd::prelude::*;

verus! {

/// Draws a number with `rand::Rng::gen_range(low..=high)` on the generator
/// that `rand::thread_rng()` hands out.
///
/// Trusted, not proved: the number lies in the closed range. Which number
/// comes is left open, so two draws need not agree. An empty range, on which
/// `gen_range` panics, is excluded. The generator panics on its first use in
/// a thread if the operating system gives it no seed.
#[verifier::external_body]
pub(crate) fn random_in(low: i32, high: i32) -> (n: i32)
    requires
        low <= high,
    ensures
        low <= n <= high,
{
    rand::thread_rng().gen_range(low..=high)
}

} // verus!
