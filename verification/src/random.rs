//! The one place where chance enters the game.

use rand::Rng;
use vstd::prelude::*;

verus! {

/// Draws a number from `0..bound` with `Rng::gen_range` on the generator that
/// `rand::thread_rng` hands out.
///
/// Trusted: the draw lies in the half-open range, which is what `gen_range`
/// documents for a range `low..high`. Nothing is claimed about which number
/// comes, and two calls may differ. `gen_range` panics on an empty range,
/// which `bound > 0` rules out; `thread_rng` panics where the system gives it
/// nothing to seed the generator with, which no argument can rule out.
#[verifier::external_body]
pub(crate) fn random_below(bound: u32) -> (drawn: u32)
    requires
        bound > 0,
    ensures
        drawn < bound,
{
    rand::thread_rng().gen_range(0..bound)
}

} // verus!
