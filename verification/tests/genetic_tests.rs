use std::collections::BTreeMap;

use rand::SeedableRng;
use rand_chacha::ChaCha8Rng;

use neuroevo::GeneticAlgorithm;
use neuroevo::chromosome::Chromosome;
use neuroevo::crossover::{CrossoverMethod, UniformCrossover};
use neuroevo::individual::{Individual, TestIndividual};
use neuroevo::mutation::{GaussianMutation, MutationMethod};
use neuroevo::selection::{RouletteWheelSelection, SelectionMethod};
use neuroevo::statistics::Statistics;

fn chromosome(genes: &[f32]) -> Chromosome {
    Chromosome::from_genes(genes.iter().map(|g| g.to_bits()).collect())
}

fn individual(genes: &[f32]) -> TestIndividual {
    TestIndividual::create(chromosome(genes))
}

fn genes_of(individual: &TestIndividual) -> Vec<f32> {
    individual
        .chromosome()
        .genes()
        .iter()
        .map(|g| f32::from_bits(*g))
        .collect()
}

#[test]
fn crossover_test() {
    let mut rng = ChaCha8Rng::from_seed(Default::default());
    let parent_a = chromosome(&(1..=100).map(|n| n as f32).collect::<Vec<f32>>());
    let parent_b = chromosome(&(1..=100).map(|n| -n as f32).collect::<Vec<f32>>());

    let child = UniformCrossover::new().crossover(&mut rng, &parent_a, &parent_b);

    let diff_a = child
        .genes()
        .iter()
        .zip(parent_a.genes().iter())
        .filter(|(c, p)| c != p)
        .count();
    let diff_b = child
        .genes()
        .iter()
        .zip(parent_b.genes().iter())
        .filter(|(c, p)| c != p)
        .count();

    assert_eq!(diff_a, 49);
    assert_eq!(diff_b, 51);
}

#[test]
fn selection_test() {
    let method = RouletteWheelSelection::default();
    let mut rng = ChaCha8Rng::from_seed(Default::default());

    let population = vec![
        TestIndividual::new(2.0f32.to_bits()),
        TestIndividual::new(1.0f32.to_bits()),
        TestIndividual::new(4.0f32.to_bits()),
        TestIndividual::new(3.0f32.to_bits()),
    ];

    let mut actual_histogram: BTreeMap<i32, i32> = BTreeMap::new();
    for _ in 0..1000 {
        let chosen = method.select(&mut rng, &population);
        *actual_histogram
            .entry(f32::from_bits(chosen.fitness()) as i32)
            .or_default() += 1;
    }

    let mut expected_histogram: BTreeMap<i32, i32> = BTreeMap::new();
    expected_histogram.insert(1, 98);
    expected_histogram.insert(2, 202);
    expected_histogram.insert(3, 278);
    expected_histogram.insert(4, 422);

    assert_eq!(actual_histogram, expected_histogram);

    // higher fitness earns an equal or higher selection count
    assert!(actual_histogram[&1] <= actual_histogram[&2]);
    assert!(actual_histogram[&2] <= actual_histogram[&3]);
    assert!(actual_histogram[&3] <= actual_histogram[&4]);
}

#[test]
fn selection_all_zero_fitness_falls_back() {
    let method = RouletteWheelSelection::default();
    let mut rng = ChaCha8Rng::from_seed(Default::default());

    let population = vec![
        TestIndividual::new(0.0f32.to_bits()),
        TestIndividual::new(0.0f32.to_bits()),
        TestIndividual::new(0.0f32.to_bits()),
    ];

    // the degenerate all-zero population is served by a uniform fallback
    // rather than a fault; every draw yields some member
    for _ in 0..100 {
        let chosen = method.select(&mut rng, &population);
        assert_eq!(chosen.fitness(), 0);
    }
}

#[test]
fn lib_test() {
    let mut rng = ChaCha8Rng::from_seed(Default::default());

    let ga = GeneticAlgorithm::new(
        RouletteWheelSelection::default(),
        UniformCrossover::new(),
        GaussianMutation::new(1, 2, 0.5f32.to_bits()),
    );

    let mut population = vec![
        individual(&[0.0, 0.0, 0.0]),
        individual(&[1.0, 1.0, 1.0]),
        individual(&[1.0, 2.0, 1.0]),
        individual(&[1.0, 2.0, 4.0]),
    ];

    for _ in 0..10 {
        population = ga.evolve(&mut rng, &population).0;
    }

    let expected: [[f32; 3]; 4] = [
        [0.44769490, 2.0648358, 4.3058133],
        [1.21268670, 1.5538777, 2.8869110],
        [1.06176780, 2.2657390, 4.4287640],
        [0.95909685, 2.4618788, 4.0247330],
    ];

    assert_eq!(population.len(), expected.len());
    for (member, exp) in population.iter().zip(expected.iter()) {
        assert_eq!(genes_of(member), exp.to_vec());
    }
}

#[test]
fn evolve_is_deterministic() {
    let build = || {
        GeneticAlgorithm::new(
            RouletteWheelSelection::default(),
            UniformCrossover::new(),
            GaussianMutation::new(1, 2, 0.5f32.to_bits()),
        )
    };
    let seed = [7u8; 32];

    let mut rng_one = ChaCha8Rng::from_seed(seed);
    let mut rng_two = ChaCha8Rng::from_seed(seed);
    let population = vec![
        individual(&[0.5, -1.5, 2.25]),
        individual(&[3.0, 0.125, -0.75]),
        individual(&[1.0, 1.0, 1.0]),
    ];

    let out_one = build().evolve(&mut rng_one, &population).0;
    let out_two = build().evolve(&mut rng_two, &population).0;

    assert_eq!(out_one.len(), out_two.len());
    for (a, b) in out_one.iter().zip(out_two.iter()) {
        assert_eq!(a.chromosome().genes(), b.chromosome().genes());
    }
}

#[test]
fn evolve_keeps_population_size() {
    for size in 1..6usize {
        let ga = GeneticAlgorithm::new(
            RouletteWheelSelection::default(),
            UniformCrossover::new(),
            GaussianMutation::new(1, 4, 1.25f32.to_bits()),
        );
        let mut rng = ChaCha8Rng::from_seed(Default::default());
        let population: Vec<TestIndividual> =
            (0..size).map(|k| individual(&[k as f32, 1.0])).collect();
        let (next, _) = ga.evolve(&mut rng, &population);
        assert_eq!(next.len(), size);
    }
}

#[test]
fn mutation_zero_chance_changes_nothing() {
    let mutation = GaussianMutation::new(0, 1, 3.5f32.to_bits());
    let mut rng = ChaCha8Rng::from_seed([3u8; 32]);
    let mut child = chromosome(&[1.0, -2.5, 0.0, 4.25, -0.125]);
    let before = child.genes().clone();
    mutation.mutate(&mut rng, &mut child);
    assert_eq!(child.genes(), &before);
}

#[test]
fn mutation_full_chance_moves_each_gene_at_most_coefficient() {
    let coeff = 0.5f32;
    let mutation = GaussianMutation::new(1, 1, coeff.to_bits());
    for seed in 0..16u8 {
        let mut rng = ChaCha8Rng::from_seed([seed; 32]);
        let start = [1.0f32, -2.5, 0.0, 4.25, -0.125, 7.5];
        let mut child = chromosome(&start);
        mutation.mutate(&mut rng, &mut child);
        for (g, o) in child.genes().iter().zip(start.iter()) {
            let delta = (f32::from_bits(*g) - o).abs();
            assert!(delta <= coeff);
        }
    }
}

#[test]
fn mutation_zero_coefficient_touches_without_changing() {
    let mutation = GaussianMutation::new(1, 1, 0.0f32.to_bits());
    let mut rng = ChaCha8Rng::from_seed([5u8; 32]);
    let mut child = chromosome(&[1.0, -2.5, 0.0, 4.25]);
    let before = child.genes().clone();
    mutation.mutate(&mut rng, &mut child);
    for (g, o) in child.genes().iter().zip(before.iter()) {
        assert_eq!(f32::from_bits(*g), f32::from_bits(*o));
    }
}

#[test]
fn crossover_of_empty_genomes_is_empty() {
    let mut rng = ChaCha8Rng::from_seed(Default::default());
    let parent_a = chromosome(&[]);
    let parent_b = chromosome(&[]);
    let child = UniformCrossover::new().crossover(&mut rng, &parent_a, &parent_b);
    assert_eq!(child.len(), 0);
}

#[test]
fn mutation_checked_constructor_rejects_bad_chance() {
    assert!(GaussianMutation::new_checked(1, 0, 0).is_none());
    assert!(GaussianMutation::new_checked(3, 2, 0).is_none());
    assert!(GaussianMutation::new_checked(0, 1, 0).is_some());
    assert!(GaussianMutation::new_checked(2, 2, 0).is_some());
}

#[test]
fn statistics_exact_values() {
    let population = vec![
        TestIndividual::new(1.0f32.to_bits()),
        TestIndividual::new(2.0f32.to_bits()),
        TestIndividual::new(3.0f32.to_bits()),
        TestIndividual::new(4.0f32.to_bits()),
    ];
    let stats = Statistics::new(&population);
    assert_eq!(stats.min_fitness(), 1.0f32.to_bits());
    assert_eq!(stats.max_fitness(), 4.0f32.to_bits());
    assert_eq!(stats.avg_fitness(), 2.5f32.to_bits());
}

#[test]
fn statistics_single_member() {
    let population = vec![TestIndividual::new(6.25f32.to_bits())];
    let stats = Statistics::new(&population);
    assert_eq!(stats.min_fitness(), 6.25f32.to_bits());
    assert_eq!(stats.max_fitness(), 6.25f32.to_bits());
    assert_eq!(stats.avg_fitness(), 6.25f32.to_bits());
}

#[test]
fn test_individual_sums_its_genes() {
    let member = individual(&[1.0, 2.0, 4.0]);
    assert_eq!(member.fitness(), 7.0f32.to_bits());
}

#[test]
fn chromosome_accessors() {
    let c = chromosome(&[3.0, 1.0, 2.0]);
    assert_eq!(c.len(), 3);
    assert_eq!(c.gene(0), 3.0f32.to_bits());
    assert_eq!(c.gene(2), 2.0f32.to_bits());
    let genes = c.into_genes();
    assert_eq!(genes, vec![3.0f32.to_bits(), 1.0f32.to_bits(), 2.0f32.to_bits()]);
}
