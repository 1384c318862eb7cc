//! Randomness source: a seedable generator of the `rand` crate, reached
//! through a thin trusted layer.

use vstd::prelude::*;
use rand::RngExt;

verus! {

/// Declares rand's `StdRng` so that a generator can cross the library's
/// signatures; the library never looks inside one.
#[verifier::external_type_specification]
#[verifier::external_body]
pub struct ExStdRng(rand::rngs::StdRng);

/// Relies on rand's `RngExt::random_range` over an `i64` range: the value
/// drawn lies in `[lo, hi)`, and the call panics only on an empty range,
/// which the precondition rules out. Nothing more is assumed of the draw.
#[verifier::external_body]
pub(crate) fn draw_i64(rng: &mut rand::rngs::StdRng, lo: i64, hi: i64) -> (r: i64)
    requires
        lo < hi,
    ensures
        lo <= r < hi,
{
    rng.random_range(lo..hi)
}

} // verus!
