//! The random source of the scene and the draws that the scene makes from it.

use crate::geometry::UNIT;
use rand::rngs::StdRng;
use rand::Rng;
use vstd::prelude::*;

verus! {

/// `rand::rngs::StdRng`, the generator that the scene draws from. Nothing is
/// known of its state: a value of this type is only handed on to the draws.
#[verifier::external_type_specification]
#[verifier::external_body]
pub struct ExStdRng(StdRng);

/// `rand::Rng::gen_range` on a half-open range of `i64`. The call panics on an
/// empty range, which the precondition excludes; on any other range the value
/// it returns lies inside the range. Which value comes back is not stated.
#[verifier::external_body]
pub(crate) fn sample_between(rng: &mut StdRng, low: i64, high: i64) -> (value: i64)
    requires
        low < high,
    ensures
        low <= value < high,
{
    rng.gen_range(low..high)
}

/// A random fraction of one, in sub-units: at least zero and less than `UNIT`.
pub fn draw_fraction(rng: &mut StdRng) -> (fraction: i64)
    ensures
        0 <= fraction < UNIT,
{
    sample_between(rng, 0, UNIT)
}

} // verus!
