//! The pseudo-random source of the game.

use rand::Rng;
use vstd::prelude::*;

verus! {

/// Draws an integer from `low..high` with `rand::Rng::gen_range` on the
/// thread-local generator. The only claim is that the draw lies in the range;
/// an empty range, on which `gen_range` panics, is excluded.
#[verifier::external_body]
pub(crate) fn gen_range(low: i32, high: i32) -> (value: i32)
    requires
        low < high,
    ensures
        low <= value < high,
{
    rand::thread_rng().gen_range(low..high)
}

/// Draws a boolean with `rand::Rng::gen_ratio` on the thread-local generator:
/// true with a chance of `numerator` in `denominator`. As documented there, a
/// zero numerator always gives false and a numerator equal to the denominator
/// always gives true; the inputs on which `gen_ratio` panics are excluded.
#[verifier::external_body]
pub(crate) fn gen_ratio(numerator: u32, denominator: u32) -> (hit: bool)
    requires
        denominator != 0,
        numerator <= denominator,
    ensures
        numerator == 0 ==> !hit,
        numerator == denominator ==> hit,
{
    rand::thread_rng().gen_ratio(numerator, denominator)
}

} // verus!
