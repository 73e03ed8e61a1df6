//! The random draws. Nothing here is predicted: a contract only bounds a draw.

use rand::distributions::{Distribution, Uniform};
use rand::Rng;
use vstd::prelude::*;

verus! {

/// One draw of `rand::Rng::gen_range` on the inclusive range `min..=max`,
/// made with the generator of the current thread (`rand::thread_rng`).
///
/// Trusted: the draw lies in the range. `gen_range` panics on an empty
/// range, which `requires` leaves out.
#[verifier::external_body]
pub(crate) fn uniform_random(min: i64, max: i64) -> (draw: i64)
    requires
        min <= max,
    ensures
        min <= draw <= max,
{
    rand::thread_rng().gen_range(min..=max)
}

/// One sample of the distribution `rand::distributions::Uniform` over the
/// inclusive range `min..=max`, taken with the generator of the current
/// thread.
///
/// Trusted: the sample lies in the range. Building the distribution panics
/// when `min` is above `max`, which `requires` leaves out.
#[verifier::external_body]
pub(crate) fn uniform_sample(min: i32, max: i32) -> (draw: i32)
    requires
        min <= max,
    ensures
        min <= draw <= max,
{
    let mut rng = rand::thread_rng();
    Uniform::from(min..=max).sample(&mut rng)
}

} // verus!
