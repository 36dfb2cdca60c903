use neuroevolution::chromosome::Chromosome;
use neuroevolution::crossover::{CrossoverMethod, UniformCrossover};
use neuroevolution::mutation::MutationMethod;
use neuroevolution::genetic_algorithm::GeneticAlgorithm;
use neuroevolution::selection::{RouletteWheelSelection, SelectionMethod};
use neuroevolution::statistics::Statistics;
use rand::{Rng, SeedableRng};
use rand_chacha::ChaCha8Rng;

struct GaussianMutation {
    chance: f32,
    coefficient: f32,
}

impl MutationMethod<f32> for GaussianMutation {
    fn mutate(&self, rng: &mut ChaCha8Rng, child: &mut Chromosome<f32>) {
        for i in 0..child.len() {
            let p: f32 = rng.random();
            if p < self.chance {
                let delta: f32 = rng.random_range(-1.0..=1.0);
                let gene = child.get(i);
                child.set(i, gene + delta * self.coefficient);
            }
        }
    }
}

struct NoMutation;

impl MutationMethod<f32> for NoMutation {
    fn mutate(&self, _rng: &mut ChaCha8Rng, _child: &mut Chromosome<f32>) {}
}

fn chromosome(genes: &[f32]) -> Chromosome<f32> {
    Chromosome::new(genes.to_vec())
}

fn start_population() -> Vec<Chromosome<f32>> {
    vec![
        chromosome(&[0.0, 0.0, 0.0]),
        chromosome(&[1.0, 1.0, 1.0]),
        chromosome(&[1.0, 2.0, 1.0]),
        chromosome(&[1.0, 2.0, 4.0]),
    ]
}

fn sum_fitness(population: &[Chromosome<f32>]) -> Vec<u32> {
    population
        .iter()
        .map(|c| c.genes().iter().sum::<f32>().max(0.0).round() as u32)
        .collect()
}

fn run_generations(seed: u8, generations: usize) -> Vec<Vec<f32>> {
    let mut rng = ChaCha8Rng::from_seed([seed; 32]);
    let ga = GeneticAlgorithm::new(
        RouletteWheelSelection,
        UniformCrossover,
        GaussianMutation { chance: 0.5, coefficient: 0.5 },
    );
    let mut population = start_population();
    for _ in 0..generations {
        let fitness = sum_fitness(&population);
        population = ga.evolve(&mut rng, &population, &fitness).0;
    }
    population.into_iter().map(|c| c.into_genes()).collect()
}

#[test]
fn chromosome_access() {
    let mut c = chromosome(&[1.0, 2.0, 3.0]);
    assert_eq!(c.len(), 3);
    assert!(!c.is_empty());
    assert_eq!(c.get(1), 2.0);
    c.set(1, 5.0);
    assert_eq!(c.genes(), &vec![1.0, 5.0, 3.0]);
    assert!(Chromosome::<f32>::new(vec![]).is_empty());
}

#[test]
fn crossover_with_follows_the_coins() {
    let a = chromosome(&[1.0, 2.0, 3.0, 4.0]);
    let b = chromosome(&[-1.0, -2.0, -3.0, -4.0]);
    let child = UniformCrossover.crossover_with(&vec![true, false, false, true], &a, &b);
    assert_eq!(child.into_genes(), vec![1.0, -2.0, -3.0, 4.0]);
}

#[test]
fn crossover_drawn_mixes_parents() {
    let mut rng = ChaCha8Rng::from_seed([0; 32]);
    let a = Chromosome::new(vec![0u8; 100]);
    let b = Chromosome::new(vec![1u8; 100]);
    let (child, coins) = UniformCrossover.crossover_drawn(&mut rng, &a, &b);
    assert_eq!(coins.len(), 100);
    let genes = child.into_genes();
    for (gene, coin) in genes.iter().zip(coins.iter()) {
        assert_eq!(*gene, if *coin { 0 } else { 1 });
    }
    let from_a = genes.iter().filter(|g| **g == 0).count();
    assert!(from_a > 20 && from_a < 80);
}

#[test]
fn crossover_keeps_parent_genes() {
    let mut rng = ChaCha8Rng::from_seed([3; 32]);
    let a = chromosome(&[0.5, 1.5, 2.5, 3.5, 4.5]);
    let b = chromosome(&[9.0, 8.0, 7.0, 6.0, 5.0]);
    let child = UniformCrossover.crossover(&mut rng, &a, &b);
    assert_eq!(child.len(), 5);
    for i in 0..5 {
        assert!(child.get(i) == a.get(i) || child.get(i) == b.get(i));
    }
}

#[test]
fn selection_follows_the_only_positive_weight() {
    let mut rng = ChaCha8Rng::from_seed([1; 32]);
    for _ in 0..50 {
        assert_eq!(RouletteWheelSelection.select(&mut rng, &vec![0u32, 0, 5, 0]), 2);
    }
}

#[test]
fn selection_with_all_zero_fitness() {
    let mut rng = ChaCha8Rng::from_seed([2; 32]);
    let fitness = vec![0u32, 0, 0, 0];
    let mut seen = [false; 4];
    for _ in 0..200 {
        let i = RouletteWheelSelection.select(&mut rng, &fitness);
        assert!(i < 4);
        seen[i] = true;
    }
    assert!(seen.iter().all(|s| *s));
}

#[test]
fn selection_is_fitness_proportionate() {
    let mut rng = ChaCha8Rng::from_seed([4; 32]);
    let fitness = vec![1u32, 3];
    let picks = (0..4000).filter(|_| RouletteWheelSelection.select(&mut rng, &fitness) == 1).count();
    assert!(picks > 2700 && picks < 3300);
}

#[test]
fn evolve_keeps_population_size() {
    let mut rng = ChaCha8Rng::from_seed([5; 32]);
    let ga = GeneticAlgorithm::new(RouletteWheelSelection, UniformCrossover, NoMutation);
    for n in 1..6 {
        let population: Vec<Chromosome<f32>> =
            (0..n).map(|i| chromosome(&[i as f32, 1.0])).collect();
        let fitness: Vec<u32> = (0..n).map(|i| i as u32).collect();
        let (next, bred) = ga.evolve(&mut rng, &population, &fitness);
        assert_eq!(bred.len(), n);
        assert_eq!(next.len(), n);
        for c in &next {
            assert_eq!(c.len(), 2);
        }
    }
}

#[test]
fn evolve_without_mutation_recombines_parents() {
    let mut rng = ChaCha8Rng::from_seed([6; 32]);
    let ga = GeneticAlgorithm::new(RouletteWheelSelection, UniformCrossover, NoMutation);
    let population = start_population();
    let fitness = sum_fitness(&population);
    let (next, bred) = ga.evolve(&mut rng, &population, &fitness);
    for (c, b) in next.iter().zip(bred.iter()) {
        assert_eq!(c.genes(), b.crossed.genes());
        for i in 0..3 {
            let g = c.get(i);
            assert!(g == population[b.parent_a].get(i) || g == population[b.parent_b].get(i));
        }
    }
    for c in &next {
        for i in 0..3 {
            assert!(population.iter().any(|p| p.get(i) == c.get(i)));
        }
    }
}

#[test]
fn evolve_is_deterministic() {
    let first = run_generations(0, 1);
    let second = run_generations(0, 1);
    assert_eq!(first, second);
}

#[test]
fn evolve_ten_generations_reproducible() {
    let first = run_generations(0, 10);
    let second = run_generations(0, 10);
    assert_eq!(first.len(), 4);
    for genes in &first {
        assert_eq!(genes.len(), 3);
    }
    assert_eq!(first, second);
    assert_ne!(first, run_generations(7, 10));
}

#[test]
fn breed_takes_genes_from_population() {
    let mut rng = ChaCha8Rng::from_seed([8; 32]);
    let ga = GeneticAlgorithm::new(RouletteWheelSelection, UniformCrossover, NoMutation);
    let population = start_population();
    let fitness = vec![0u32, 0, 0, 4];
    for _ in 0..20 {
        let bred = ga.breed(&mut rng, &population, &fitness);
        // Only the last individual has any fitness, so both parents are it.
        assert_eq!((bred.parent_a, bred.parent_b), (3, 3));
        assert_eq!(bred.crossed.genes(), population[3].genes());
    }
}

#[test]
fn evolve_single_member_without_mutation() {
    let mut rng = ChaCha8Rng::from_seed([9; 32]);
    let ga = GeneticAlgorithm::new(
        RouletteWheelSelection,
        UniformCrossover,
        GaussianMutation { chance: 0.0, coefficient: 0.5 },
    );
    let population = vec![chromosome(&[1.0, 2.0, 4.0])];
    for fitness in [0u32, 7] {
        let (next, bred) = ga.evolve(&mut rng, &population, &vec![fitness]);
        assert_eq!(next.len(), 1);
        assert_eq!(next[0].genes(), population[0].genes());
        assert_eq!((bred[0].parent_a, bred[0].parent_b), (0, 0));
    }
}

#[test]
fn chromosome_duplicate() {
    let c = chromosome(&[3.0, 1.0]);
    let d = c.duplicate();
    assert_eq!(d.genes(), c.genes());
}

#[test]
fn statistics_of_fitness() {
    let stats = Statistics::new(&vec![0u32, 1, 1, 4]);
    assert_eq!(stats.min_fitness, 0);
    assert_eq!(stats.max_fitness, 4);
    assert_eq!(stats.sum_fitness, 6);
    assert_eq!(stats.count, 4);
    assert_eq!(stats.sum_fitness as f64 / stats.count as f64, 1.5);
}

#[test]
fn statistics_of_one_value() {
    let stats = Statistics::new(&vec![u32::MAX]);
    assert_eq!((stats.min_fitness, stats.max_fitness), (u32::MAX, u32::MAX));
    assert_eq!(stats.sum_fitness, u32::MAX as u64);
}

#[test]
fn statistics_sum_does_not_wrap() {
    let stats = Statistics::new(&vec![u32::MAX, u32::MAX, 3]);
    assert_eq!(stats.sum_fitness, 2 * u32::MAX as u64 + 3);
    assert_eq!(stats.min_fitness, 3);
}
