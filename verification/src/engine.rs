//! The evolution engine: one generational replacement step.

use vstd::prelude::*;
use crate::crossover::CrossoverMethod;
use crate::individual::Individual;
use crate::mutation::MutationMethod;
use crate::selection::SelectionMethod;
use crate::statistics::{Statistics, spec_fitnesses};
use crate::fbits::{spec_sum_fold, spec_min_fold, spec_max_fold, spec_div_bits, spec_uint_bits};

verus! {

/// The engine holds one strategy of each kind and no state of its own
/// between calls.
pub struct GeneticAlgorithm<S, C, M> {
    selection_method: S,
    crossover_method: C,
    mutation_method: M,
}

impl<S, C, M> GeneticAlgorithm<S, C, M> {
    pub closed spec fn selection_spec(&self) -> &S {
        &self.selection_method
    }

    pub closed spec fn crossover_spec(&self) -> &C {
        &self.crossover_method
    }

    pub closed spec fn mutation_spec(&self) -> &M {
        &self.mutation_method
    }

    pub fn new(selection_method: S, crossover_method: C, mutation_method: M) -> (r: Self)
        ensures
            *r.selection_spec() == selection_method,
            *r.crossover_spec() == crossover_method,
            *r.mutation_spec() == mutation_method,
    {
        GeneticAlgorithm { selection_method, crossover_method, mutation_method }
    }

    /// One evolution step: statistics are computed over the input
    /// population, and exactly as many offspring are produced as there are
    /// members, each bred by selecting two parents by fitness, recombining
    /// their genomes, perturbing the child genome in place, and
    /// constructing a fresh individual from it.
    ///
    /// All members must expose genomes of one common length; every
    /// offspring exposes a genome of that same length.
    pub fn evolve<I: Individual>(
        &self,
        rng: &mut rand_chacha::ChaCha8Rng,
        population: &Vec<I>,
    ) -> (r: (Vec<I>, Statistics)) where
        S: SelectionMethod,
        C: CrossoverMethod,
        M: MutationMethod,

        requires
            population@.len() > 0,
            forall|i: int|
                0 <= i < population@.len() ==> (#[trigger] population@[i]).has_chromosome(),
            forall|i: int|
                0 <= i < population@.len() ==> (#[trigger] population@[i]).chromosome_spec().len()
                    == population@[0].chromosome_spec().len(),
        ensures
            r.0@.len() == population@.len(),
            forall|k: int|
                0 <= k < r.0@.len() ==> (#[trigger] r.0@[k]).has_chromosome()
                    && r.0@[k].chromosome_spec().len() == population@[0].chromosome_spec().len(),
            r.1.min_spec() == spec_min_fold(spec_fitnesses(population@)),
            r.1.max_spec() == spec_max_fold(spec_fitnesses(population@)),
            r.1.avg_spec() == spec_div_bits(
                spec_sum_fold(spec_fitnesses(population@)),
                spec_uint_bits(population@.len()),
            ),
    {
        let ghost gene_count = population@[0].chromosome_spec().len();
        let n = population.len();
        let mut new_population: Vec<I> = Vec::new();
        let mut k: usize = 0;
        while k < n
            invariant
                k <= n,
                n == population@.len(),
                n > 0,
                gene_count == population@[0].chromosome_spec().len(),
                forall|i: int|
                    0 <= i < population@.len() ==> (#[trigger] population@[i]).has_chromosome(),
                forall|i: int|
                    0 <= i < population@.len() ==> (
                    #[trigger] population@[i]).chromosome_spec().len() == gene_count,
                new_population@.len() == k,
                forall|j: int|
                    0 <= j < k ==> (#[trigger] new_population@[j]).has_chromosome()
                        && new_population@[j].chromosome_spec().len() == gene_count,
            decreases n - k,
        {
            let parent_a = self.selection_method.select(rng, population);
            proof {
                let ia = choose|i: int|
                    0 <= i < population@.len() && *parent_a == population@[i];
                assert(population@[ia].has_chromosome());
                assert(population@[ia].chromosome_spec().len() == gene_count);
            }
            let chromosome_a = parent_a.chromosome();
            let parent_b = self.selection_method.select(rng, population);
            proof {
                let ib = choose|i: int|
                    0 <= i < population@.len() && *parent_b == population@[i];
                assert(population@[ib].has_chromosome());
                assert(population@[ib].chromosome_spec().len() == gene_count);
            }
            let chromosome_b = parent_b.chromosome();
            let mut child = self.crossover_method.crossover(rng, chromosome_a, chromosome_b);
            self.mutation_method.mutate(rng, &mut child);
            let offspring = I::create(child);
            new_population.push(offspring);
            k = k + 1;
        }
        let stats = Statistics::new(population);
        (new_population, stats)
    }
}

} // verus!
