//! The random source behind `Grid::randomize`: the `rand` crate's standard
//! generator. What it draws is not worked out here, only named: a draw is
//! a function of the generator's state. The declarations in this file are
//! believed, not proved; the odds of a draw are handed in by the verified
//! code that asks for it.

use rand::rngs::StdRng;
use rand::Rng;
use rand::SeedableRng;
use vstd::prelude::*;

verus! {

/// `rand::rngs::StdRng`, carried through verified code as an opaque value.
#[verifier::external_type_specification]
#[verifier::external_body]
pub struct ExStdRng(rand::rngs::StdRng);

/// What `rand::Rng::random_ratio(numerator, denominator)` returns when it
/// is called on a generator in the state of `rng`. A `StdRng` is a ChaCha
/// generator that is never seeded anew, so the draw depends on its state
/// and on the two numbers alone.
pub uninterp spec fn ratio_draw(rng: StdRng, numerator: u32, denominator: u32) -> bool;

/// The state in which `rand::Rng::random_ratio(numerator, denominator)`
/// leaves a generator that it found in the state of `rng`.
pub uninterp spec fn after_ratio_draw(rng: StdRng, numerator: u32, denominator: u32) -> StdRng;

/// One draw of `rand::Rng::random_ratio(numerator, denominator)`: `true`
/// with a chance of `numerator` in `denominator`. The call panics where the
/// denominator is zero or the numerator exceeds it, so those are left out.
/// The draw and the state that the generator is left in depend on the
/// state it was found in and on the two numbers alone, and are known here
/// by their names, `ratio_draw` and `after_ratio_draw`. Beside the names
/// stands what the crate's documentation promises of every draw: it is
/// `true` where numerator and denominator are equal, and `false` where the
/// numerator is zero. Where the two are equal the generator is not read;
/// otherwise one 64-bit number is taken from it.
#[verifier::external_body]
pub(crate) fn draw_ratio(rng: &mut StdRng, numerator: u32, denominator: u32) -> (heads: bool)
    requires
        denominator != 0,
        numerator <= denominator,
    ensures
        heads == ratio_draw(*old(rng), numerator, denominator),
        *final(rng) == after_ratio_draw(*old(rng), numerator, denominator),
        numerator == denominator ==> heads,
        numerator == 0 ==> !heads,
{
    rng.random_ratio(numerator, denominator)
}

/// A fresh `StdRng`, seeded by `rand::SeedableRng::from_rng` from the
/// thread-local generator that `rand::rng()` hands out. Nothing is claimed
/// of its state. The thread-local generator takes its own seed from the
/// operating system when a thread first asks for it; `rand` panics there if
/// the system has no entropy to give.
#[verifier::external_body]
pub(crate) fn entropy_rng() -> (rng: StdRng) {
    StdRng::from_rng(&mut rand::rng())
}

} // verus!
