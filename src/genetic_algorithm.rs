use vstd::prelude::*;
use rand_chacha::ChaCha8Rng;

use crate::chromosome::Chromosome;
use crate::crossover::CrossoverMethod;
use crate::mutation::MutationMethod;
use crate::selection::SelectionMethod;

verus! {

/// How one child of a generation was made: the indices of its two parents,
/// in the order they were selected, and the child their crossover gave,
/// before mutation.
pub struct Breeding<G> {
    pub parent_a: usize,
    pub parent_b: usize,
    pub crossed: Chromosome<G>,
}

/// Every chromosome of the population has the length of the first.
pub open spec fn uniform_length<G>(population: Seq<Chromosome<G>>) -> bool {
    forall|i: int| 0 <= i < population.len() ==> (#[trigger] population[i])@.len() == population[0]@.len()
}

/// `b` records a child of `population`: both parents are members, and each
/// gene of the crossed child is the gene of one parent at the same position.
pub open spec fn bred_from<G>(b: Breeding<G>, population: Seq<Chromosome<G>>) -> bool {
    &&& b.parent_a < population.len()
    &&& b.parent_b < population.len()
    &&& b.crossed@.len() == population[0]@.len()
    &&& forall|i: int|
        0 <= i < b.crossed@.len() ==> #[trigger] b.crossed@[i] == population[b.parent_a as int]@[i]
            || b.crossed@[i] == population[b.parent_b as int]@[i]
}

/// One generational step: select two parents, cross them over, mutate the
/// child, for every slot of the population.
pub struct GeneticAlgorithm<S, C, M> {
    selection_method: S,
    crossover_method: C,
    mutation_method: M,
}

impl<S, C, M> GeneticAlgorithm<S, C, M> {
    pub closed spec fn spec_selection_method(&self) -> S {
        self.selection_method
    }

    pub closed spec fn spec_crossover_method(&self) -> C {
        self.crossover_method
    }

    pub closed spec fn spec_mutation_method(&self) -> M {
        self.mutation_method
    }
}

impl<S: SelectionMethod, C: CrossoverMethod, M> GeneticAlgorithm<S, C, M> {
    pub fn new(selection_method: S, crossover_method: C, mutation_method: M) -> (r: Self)
        ensures
            r.spec_selection_method() == selection_method,
            r.spec_crossover_method() == crossover_method,
            r.spec_mutation_method() == mutation_method,
    {
        GeneticAlgorithm { selection_method, crossover_method, mutation_method }
    }

    /// Makes one child before mutation: selects parent A, then parent B,
    /// and crosses them over, all from `rng`. While some fitness is
    /// positive, neither parent has fitness zero.
    pub fn breed<G: Copy>(
        &self,
        rng: &mut ChaCha8Rng,
        population: &Vec<Chromosome<G>>,
        fitness: &Vec<u32>,
    ) -> (r: Breeding<G>)
        requires
            population@.len() > 0,
            fitness@.len() == population@.len(),
            fitness@.len() <= u32::MAX,
            uniform_length(population@),
        ensures
            bred_from(r, population@),
            crate::selection::some_positive(fitness@) ==> fitness@[r.parent_a as int] > 0
                && fitness@[r.parent_b as int] > 0,
    {
        let a = self.selection_method.select(rng, fitness);
        let b = self.selection_method.select(rng, fitness);
        assert(population@[a as int]@.len() == population@[0]@.len());
        assert(population@[b as int]@.len() == population@[0]@.len());
        let crossed = self.crossover_method.crossover(rng, &population[a], &population[b]);
        Breeding { parent_a: a, parent_b: b, crossed }
    }

    /// Builds the next generation from `population`, whose individual `i`
    /// has the fitness `fitness[i]`. For each slot in order it breeds a child
    /// (parent A, parent B, crossover) and mutates it, all from the one
    /// stream `rng`. Returns the new generation, as large as the old and of
    /// the same chromosome length, beside how each child was bred.
    pub fn evolve<G: Copy>(
        &self,
        rng: &mut ChaCha8Rng,
        population: &Vec<Chromosome<G>>,
        fitness: &Vec<u32>,
    ) -> (r: (Vec<Chromosome<G>>, Vec<Breeding<G>>)) where M: MutationMethod<G>
        requires
            population@.len() > 0,
            fitness@.len() == population@.len(),
            fitness@.len() <= u32::MAX,
            uniform_length(population@),
        ensures
            r.0@.len() == population@.len(),
            r.1@.len() == population@.len(),
            forall|k: int| 0 <= k < r.0@.len() ==> (#[trigger] r.0@[k])@.len() == population@[0]@.len(),
            forall|k: int| 0 <= k < r.1@.len() ==> bred_from(#[trigger] r.1@[k], population@),
            crate::selection::some_positive(fitness@) ==> forall|k: int|
                0 <= k < r.1@.len() ==> fitness@[(#[trigger] r.1@[k]).parent_a as int] > 0
                    && fitness@[r.1@[k].parent_b as int] > 0,
    {
        let n = population.len();
        let mut next: Vec<Chromosome<G>> = Vec::new();
        let mut bred: Vec<Breeding<G>> = Vec::new();
        let mut k: usize = 0;
        while k < n
            invariant
                n == population@.len(),
                fitness@.len() == n,
                n > 0,
                fitness@.len() <= u32::MAX,
                uniform_length(population@),
                k <= n,
                next@.len() == k,
                bred@.len() == k,
                forall|j: int| 0 <= j < k ==> (#[trigger] next@[j])@.len() == population@[0]@.len(),
                forall|j: int| 0 <= j < k ==> bred_from(#[trigger] bred@[j], population@),
                crate::selection::some_positive(fitness@) ==> forall|j: int|
                    0 <= j < k ==> fitness@[(#[trigger] bred@[j]).parent_a as int] > 0
                        && fitness@[bred@[j].parent_b as int] > 0,
            decreases n - k,
        {
            let breeding = self.breed(rng, population, fitness);
            let mut child = breeding.crossed.duplicate();
            self.mutation_method.mutate(rng, &mut child);
            next.push(child);
            bred.push(breeding);
            k = k + 1;
        }
        (next, bred)
    }
}

/// Crossing a one-member population with itself gives back that member,
/// gene for gene: each child, before mutation, equals the only parent.
pub proof fn lemma_single_member_crossed_unchanged<G>(b: Breeding<G>, population: Seq<Chromosome<G>>)
    requires
        population.len() == 1,
        bred_from(b, population),
    ensures
        b.crossed@ == population[0]@,
{
    assert(b.crossed@ =~= population[0]@);
}

} // verus!
