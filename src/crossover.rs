use vstd::prelude::*;
use rand::Rng;
use rand_chacha::ChaCha8Rng;

use crate::chromosome::Chromosome;

verus! {

/// The child that uniform crossover makes from two parents of one length:
/// at each position the gene of `a` where the coin shows heads, else that of `b`.
pub open spec fn uniform_child<G>(coins: Seq<bool>, a: Seq<G>, b: Seq<G>) -> Seq<G> {
    Seq::new(a.len(), |i: int| if coins[i] { a[i] } else { b[i] })
}

/// Relies on rand's `Rng::random_ratio(1, 2)`: one fair coin drawn from `rng`.
#[verifier::external_body]
fn fair_coin(rng: &mut ChaCha8Rng) -> (r: bool) {
    rng.random_ratio(1, 2)
}

/// Combines two parents of one length into a child of that length, each of
/// whose genes is the gene of one parent at the same position.
pub trait CrossoverMethod {
    fn crossover<G: Copy>(
        &self,
        rng: &mut ChaCha8Rng,
        parent_a: &Chromosome<G>,
        parent_b: &Chromosome<G>,
    ) -> (r: Chromosome<G>)
        requires
            parent_a@.len() == parent_b@.len(),
        ensures
            r@.len() == parent_a@.len(),
            forall|i: int|
                0 <= i < r@.len() ==> #[trigger] r@[i] == parent_a@[i] || r@[i] == parent_b@[i],
    ;
}

/// Uniform crossover: each gene of the child comes from one parent or the
/// other, by one fair coin per position.
pub struct UniformCrossover;

impl UniformCrossover {
    /// Builds the child from coins that were already drawn, one per position.
    pub fn crossover_with<G: Copy>(
        &self,
        coins: &Vec<bool>,
        parent_a: &Chromosome<G>,
        parent_b: &Chromosome<G>,
    ) -> (r: Chromosome<G>)
        requires
            parent_a@.len() == parent_b@.len(),
            coins@.len() == parent_a@.len(),
        ensures
            r@ == uniform_child(coins@, parent_a@, parent_b@),
    {
        let n = parent_a.len();
        let mut genes: Vec<G> = Vec::new();
        let mut i: usize = 0;
        while i < n
            invariant
                n == parent_a@.len(),
                parent_a@.len() == parent_b@.len(),
                coins@.len() == n,
                i <= n,
                genes@ == uniform_child(coins@, parent_a@, parent_b@).take(i as int),
            decreases n - i,
        {
            let gene = if coins[i] { parent_a.get(i) } else { parent_b.get(i) };
            genes.push(gene);
            i = i + 1;
            assert(genes@ =~= uniform_child(coins@, parent_a@, parent_b@).take(i as int));
        }
        assert(genes@ =~= uniform_child(coins@, parent_a@, parent_b@));
        Chromosome::new(genes)
    }

    /// Draws one coin per position from `rng`, in position order, and builds
    /// the child from them. Returns the coins drawn beside the child.
    pub fn crossover_drawn<G: Copy>(
        &self,
        rng: &mut ChaCha8Rng,
        parent_a: &Chromosome<G>,
        parent_b: &Chromosome<G>,
    ) -> (r: (Chromosome<G>, Vec<bool>))
        requires
            parent_a@.len() == parent_b@.len(),
        ensures
            r.1@.len() == parent_a@.len(),
            r.0@ == uniform_child(r.1@, parent_a@, parent_b@),
    {
        let n = parent_a.len();
        let mut coins: Vec<bool> = Vec::new();
        let mut i: usize = 0;
        while i < n
            invariant
                n == parent_a@.len(),
                i <= n,
                coins@.len() == i,
            decreases n - i,
        {
            coins.push(fair_coin(rng));
            i = i + 1;
        }
        let child = self.crossover_with(&coins, parent_a, parent_b);
        (child, coins)
    }
}

impl CrossoverMethod for UniformCrossover {
    fn crossover<G: Copy>(
        &self,
        rng: &mut ChaCha8Rng,
        parent_a: &Chromosome<G>,
        parent_b: &Chromosome<G>,
    ) -> (r: Chromosome<G>) {
        let (child, coins) = self.crossover_drawn(rng, parent_a, parent_b);
        proof {
            lemma_crossover_keeps_parent_genes(coins@, parent_a@, parent_b@);
        }
        child
    }
}

/// Uniform crossover never invents a gene: each gene of the child is the
/// gene of one of the two parents at the same position.
pub proof fn lemma_crossover_keeps_parent_genes<G>(coins: Seq<bool>, a: Seq<G>, b: Seq<G>)
    requires
        a.len() == b.len(),
        coins.len() == a.len(),
    ensures
        uniform_child(coins, a, b).len() == a.len(),
        forall|i: int|
            0 <= i < a.len() ==> #[trigger] uniform_child(coins, a, b)[i] == a[i]
                || uniform_child(coins, a, b)[i] == b[i],
{
}

} // verus!
