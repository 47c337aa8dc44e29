//! Recombination of two parent genomes into a child genome.

use vstd::prelude::*;
use crate::chromosome::Chromosome;
use crate::rng::coin;

verus! {

/// A crossover strategy: combines two equal-length parent genomes into a
/// child of the same length whose every gene comes from one parent or the
/// other at the same position.
pub trait CrossoverMethod {
    fn crossover(
        &self,
        rng: &mut rand_chacha::ChaCha8Rng,
        parent_a: &Chromosome,
        parent_b: &Chromosome,
    ) -> (r: Chromosome)
        requires
            parent_a@.len() == parent_b@.len(),
        ensures
            r@.len() == parent_a@.len(),
            forall|i: int|
                0 <= i < r@.len() ==> r@[i] == parent_a@[i] || r@[i] == parent_b@[i],
    ;
}

/// Uniform crossover: every gene position is decided by an independent fair
/// coin flip.
#[derive(Clone, Debug)]
pub struct UniformCrossover;

impl UniformCrossover {
    pub fn new() -> (r: Self)
        ensures
            r == UniformCrossover,
    {
        UniformCrossover
    }
}

impl Default for UniformCrossover {
    fn default() -> (r: Self)
        ensures
            r == UniformCrossover,
    {
        UniformCrossover
    }
}

impl CrossoverMethod for UniformCrossover {
    fn crossover(
        &self,
        rng: &mut rand_chacha::ChaCha8Rng,
        parent_a: &Chromosome,
        parent_b: &Chromosome,
    ) -> (r: Chromosome) {
        let n = parent_a.len();
        let mut genes: Vec<u32> = Vec::new();
        let mut i: usize = 0;
        while i < n
            invariant
                i <= n,
                n == parent_a@.len(),
                n == parent_b@.len(),
                genes@.len() == i,
                forall|j: int|
                    0 <= j < i ==> genes@[j] == parent_a@[j] || genes@[j] == parent_b@[j],
            decreases n - i,
        {
            let g = if coin(rng, 1, 2) {
                parent_a.gene(i)
            } else {
                parent_b.gene(i)
            };
            genes.push(g);
            i = i + 1;
        }
        Chromosome::from_genes(genes)
    }
}

} // verus!
