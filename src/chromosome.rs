use vstd::prelude::*;

verus! {

/// An ordered sequence of genes: the unit that crossover and mutation act on.
pub struct Chromosome<G> {
    genes: Vec<G>,
}

impl<G> View for Chromosome<G> {
    type V = Seq<G>;

    closed spec fn view(&self) -> Seq<G> {
        self.genes@
    }
}

impl<G: Copy> Chromosome<G> {
    pub fn new(genes: Vec<G>) -> (r: Self)
        ensures
            r@ == genes@,
    {
        Chromosome { genes }
    }

    pub fn len(&self) -> (r: usize)
        ensures
            r == self@.len(),
    {
        self.genes.len()
    }

    pub fn is_empty(&self) -> (r: bool)
        ensures
            r == (self@.len() == 0),
    {
        self.genes.len() == 0
    }

    pub fn get(&self, index: usize) -> (r: G)
        requires
            index < self@.len(),
        ensures
            r == self@[index as int],
    {
        self.genes[index]
    }

    /// Replaces the gene at `index`, leaving the others as they were.
    pub fn set(&mut self, index: usize, gene: G)
        requires
            index < old(self)@.len(),
        ensures
            final(self)@ == old(self)@.update(index as int, gene),
    {
        self.genes.set(index, gene);
    }

    /// A copy of the chromosome, gene for gene.
    pub fn duplicate(&self) -> (r: Self)
        ensures
            r@ == self@,
    {
        let mut genes: Vec<G> = Vec::new();
        let mut i: usize = 0;
        while i < self.genes.len()
            invariant
                i <= self.genes@.len(),
                genes@ == self.genes@.take(i as int),
            decreases self.genes@.len() - i,
        {
            genes.push(self.genes[i]);
            i = i + 1;
            assert(genes@ =~= self.genes@.take(i as int));
        }
        assert(genes@ =~= self.genes@);
        Chromosome { genes }
    }

    pub fn genes(&self) -> (r: &Vec<G>)
        ensures
            r@ == self@,
    {
        &self.genes
    }

    pub fn into_genes(self) -> (r: Vec<G>)
        ensures
            r@ == self@,
    {
        self.genes
    }
}

} // verus!
