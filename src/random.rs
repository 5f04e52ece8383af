use vstd::prelude::*;

use rand::rngs::StdRng;
use rand::Rng;

verus! {

/// The seedable generator of the `rand` crate; opaque here.
#[verifier::external_type_specification]
#[verifier::external_body]
pub struct ExStdRng(StdRng);

/// Relies on rand's `Rng::gen_range`: on the non-empty range `low..high` it
/// returns a value drawn from `[low, high)` (it panics only on an empty range).
#[verifier::external_body]
pub(crate) fn draw_in_range(rng: &mut StdRng, low: i64, high: i64) -> (r: i64)
    requires
        low < high,
    ensures
        low <= r < high,
{
    rng.gen_range(low..high)
}

} // verus!
