//! The random sources that the library draws from.
use vstd::prelude::*;

verus! {

/// Declares `rand::rngs::StdRng`, the seedable generator that resampling
/// draws from; it is carried through opaquely.
#[verifier::external_type_specification]
#[verifier::external_body]
pub struct ExStdRng(rand::rngs::StdRng);

/// Relies on `rand::Rng::random_range`: on a non-empty half-open range
/// `low..high` it returns a value in that range (it panics only on an empty one).
#[verifier::external_body]
pub(crate) fn draw_index(low: usize, high: usize, rng: &mut rand::rngs::StdRng) -> (r: usize)
    requires
        low < high,
    ensures
        low <= r < high,
{
    rand::Rng::random_range(rng, low..high)
}

} // verus!
