use vstd::prelude::*;
use rand::distr::Distribution;
use rand::distr::weighted::WeightedIndex;
use rand::Rng;
use rand_chacha::ChaCha8Rng;

verus! {

/// Relies on rand's `WeightedIndex::new` over the weights (widened to
/// `u64`) and its `sample`. `new` refuses an empty list and an all-zero one,
/// and a total that overflows, which `u32` weights cannot reach while there
/// are at most `u32::MAX` of them. `sample` draws below the total and returns
/// the index whose cumulative run holds the value drawn, so its weight is
/// positive.
#[verifier::external_body]
fn weighted_index(rng: &mut ChaCha8Rng, weights: &Vec<u32>) -> (r: Option<usize>)
    ensures
        r matches Some(i) ==> i < weights@.len() && weights@[i as int] > 0,
        weights@.len() <= u32::MAX && (exists|i: int|
            0 <= i < weights@.len() && #[trigger] weights@[i] > 0) ==> r is Some,
{
    WeightedIndex::<u64>::new(weights.iter().map(|w| *w as u64)).ok().map(|d| d.sample(rng))
}

/// Relies on rand's `Rng::random_range(0..n)`: an index drawn uniformly
/// below `n`; it panics on an empty range, which `requires` leaves out.
#[verifier::external_body]
fn uniform_index(rng: &mut ChaCha8Rng, n: usize) -> (r: usize)
    requires
        n > 0,
    ensures
        r < n,
{
    rng.random_range(0..n)
}

/// Whether some individual has a positive fitness.
pub open spec fn some_positive(fitness: Seq<u32>) -> bool {
    exists|i: int| 0 <= i < fitness.len() && #[trigger] fitness[i] > 0
}

/// Picks a parent from a scored population, given as its fitness values.
pub trait SelectionMethod {
    /// The index of the individual picked. While some fitness is positive,
    /// an individual of fitness zero is never picked.
    fn select(&self, rng: &mut ChaCha8Rng, fitness: &Vec<u32>) -> (r: usize)
        requires
            fitness@.len() > 0,
            fitness@.len() <= u32::MAX,
        ensures
            r < fitness@.len(),
            some_positive(fitness@) ==> fitness@[r as int] > 0,
    ;
}

/// Fitness-proportionate selection. Where every fitness is zero, every
/// individual is equally likely instead.
pub struct RouletteWheelSelection;

impl SelectionMethod for RouletteWheelSelection {
    fn select(&self, rng: &mut ChaCha8Rng, fitness: &Vec<u32>) -> (r: usize) {
        match weighted_index(rng, fitness) {
            Some(i) => i,
            None => uniform_index(rng, fitness.len()),
        }
    }
}

} // verus!
