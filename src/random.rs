//! The random draws that the library takes from `rand`.
use rand::distr::weighted::{Error as WeightError, WeightedIndex};
use rand::rngs::ThreadRng;
use vstd::prelude::*;

verus! {

#[verifier::external_type_specification]
#[verifier::external_body]
pub struct ExThreadRng(ThreadRng);

#[verifier::external_type_specification]
#[verifier::external_body]
pub struct ExWeightError(WeightError);

/// A `rand` weighted-index distribution over `u64` weights. Verus cannot
/// declare `WeightedIndex` itself (its bound is an outside trait), so it is
/// held here, out of Verus's sight.
#[verifier::external_body]
pub struct WeightedDraw {
    index: WeightedIndex<u64>,
}

/// The weights that a draw was built from.
pub uninterp spec fn draw_weights(d: WeightedDraw) -> Seq<u64>;

/// The sum of a sequence of weights.
pub open spec fn weight_total(w: Seq<u64>) -> int
    decreases w.len(),
{
    if w.len() == 0 {
        0
    } else {
        weight_total(w.drop_last()) + w.last()
    }
}

/// Relies on rand::rng: a handle to the thread-local generator.
#[verifier::external_body]
pub(crate) fn thread_rng() -> ThreadRng {
    rand::rng()
}

/// Relies on rand's WeightedIndex::new: it fails exactly when the weights are
/// empty, add up to zero, or overflow when summed; otherwise it keeps them.
#[verifier::external_body]
pub(crate) fn weighted_draw(weights: &Vec<u64>) -> (r: Result<WeightedDraw, WeightError>)
    ensures
        r is Ok <==> (weights@.len() > 0 && 0 < weight_total(weights@) <= u64::MAX),
        r matches Ok(d) ==> draw_weights(d) == weights@,
{
    match WeightedIndex::new(weights) {
        Ok(index) => Ok(WeightedDraw { index }),
        Err(e) => Err(e),
    }
}

/// Relies on rand's Distribution::sample for WeightedIndex: the draw is an
/// index into the weights it was built from.
#[verifier::external_body]
pub(crate) fn sample_index(d: &WeightedDraw, rng: &mut ThreadRng) -> (r: usize)
    ensures
        r < draw_weights(*d).len(),
{
    rand::distr::Distribution::sample(&d.index, rng)
}

} // verus!
