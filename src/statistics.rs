use vstd::prelude::*;

verus! {

/// The sum of the values, added left to right.
pub open spec fn fitness_sum(s: Seq<u32>) -> int
    decreases s.len(),
{
    if s.len() == 0 {
        0
    } else {
        fitness_sum(s.drop_last()) + s.last()
    }
}

/// What a population's fitness values come to: the least, the greatest, the
/// sum and the count. The mean is `sum_fitness / count`.
pub struct Statistics {
    pub min_fitness: u32,
    pub max_fitness: u32,
    pub sum_fitness: u64,
    pub count: usize,
}

impl Statistics {
    pub fn new(fitness: &Vec<u32>) -> (r: Self)
        requires
            fitness@.len() > 0,
            fitness@.len() <= u32::MAX,
        ensures
            exists|i: int| 0 <= i < fitness@.len() && #[trigger] fitness@[i] == r.min_fitness,
            forall|i: int| 0 <= i < fitness@.len() ==> r.min_fitness <= #[trigger] fitness@[i],
            exists|i: int| 0 <= i < fitness@.len() && #[trigger] fitness@[i] == r.max_fitness,
            forall|i: int| 0 <= i < fitness@.len() ==> r.max_fitness >= #[trigger] fitness@[i],
            r.sum_fitness == fitness_sum(fitness@),
            r.count == fitness@.len(),
    {
        let n = fitness.len();
        let mut min_fitness = fitness[0];
        let mut max_fitness = fitness[0];
        let mut sum: u64 = 0;
        let mut i: usize = 0;
        while i < n
            invariant
                n == fitness@.len(),
                0 < n <= u32::MAX,
                i <= n,
                sum == fitness_sum(fitness@.take(i as int)),
                sum <= i * 0xFFFF_FFFFu64,
                exists|j: int| 0 <= j < n && #[trigger] fitness@[j] == min_fitness,
                exists|j: int| 0 <= j < n && #[trigger] fitness@[j] == max_fitness,
                forall|j: int| 0 <= j < i ==> min_fitness <= #[trigger] fitness@[j],
                forall|j: int| 0 <= j < i ==> max_fitness >= #[trigger] fitness@[j],
            decreases n - i,
        {
            let f = fitness[i];
            if f < min_fitness {
                min_fitness = f;
            }
            if f > max_fitness {
                max_fitness = f;
            }
            assert(sum + f <= (i + 1) * 0xFFFF_FFFFu64) by (nonlinear_arith)
                requires
                    sum <= i * 0xFFFF_FFFFu64,
                    f <= 0xFFFF_FFFFu64,
            ;
            assert(fitness@.take(i + 1).drop_last() =~= fitness@.take(i as int));
            sum = sum + f as u64;
            i = i + 1;
        }
        assert(fitness@.take(n as int) =~= fitness@);
        Statistics { min_fitness, max_fitness, sum_fitness: sum, count: n }
    }
}

} // verus!
