//! Trusted boundary to the `rand` crate.
//!
//! The simulation draws entropy only for the launch direction of new balls.
//! The caller owns a [`rand::rngs::ThreadRng`] handle and threads it
//! explicitly through every call that needs randomness.

use rand::Rng;
use vstd::prelude::*;

verus! {

/// `rand`'s handle to the thread-local generator, declared so that verified
/// code can hold one and pass it along.  Its values are opaque here.
#[verifier::external_type_specification]
#[verifier::external_body]
pub struct ExThreadRng(rand::rngs::ThreadRng);

/// Relies on `rand::thread_rng`: returns a handle to the thread-local
/// generator.  Nothing is promised about the values it will produce.
#[verifier::external_body]
pub(crate) fn fresh_rng() -> rand::rngs::ThreadRng {
    rand::thread_rng()
}

/// Relies on `Rng::gen::<bool>`: draws one random boolean.  Nothing can be
/// promised of a random draw, so this has no postcondition.
#[verifier::external_body]
pub(crate) fn coin_flip(rng: &mut rand::rngs::ThreadRng) -> bool {
    rng.gen::<bool>()
}

/// Relies on `Rng::gen_range`: returns a value of the given inclusive range.
/// It panics when the range is empty, which the precondition rules out.
#[verifier::external_body]
pub(crate) fn int_in_range(rng: &mut rand::rngs::ThreadRng, lo: i64, hi: i64) -> (r: i64)
    requires
        lo <= hi,
    ensures
        lo <= r <= hi,
{
    rng.gen_range(lo..=hi)
}

} // verus!
