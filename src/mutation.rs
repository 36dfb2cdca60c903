use vstd::prelude::*;
use rand_chacha::ChaCha8Rng;

use crate::chromosome::Chromosome;

verus! {

/// Perturbs a chromosome in place, keeping its length. The perturbations
/// themselves (Gaussian noise on real-valued genes, say) are for the user of
/// the library to give.
pub trait MutationMethod<G> {
    fn mutate(&self, rng: &mut ChaCha8Rng, child: &mut Chromosome<G>)
        ensures
            final(child)@.len() == old(child)@.len(),
    ;
}

} // verus!
