//! The individual abstraction: a fitness-bearing entity constructible from
//! and reducible to a chromosome.

use vstd::prelude::*;
use crate::chromosome::Chromosome;
use crate::fbits::{fadd, spec_sum_fold};

verus! {

/// Capability set of one member of a population.  Fitness is carried as the
/// bit pattern of a non-negative single-precision score.
pub trait Individual: Sized {
    /// The fitness this individual reports; deterministic in its state.
    spec fn fitness_spec(&self) -> u32;

    /// Whether genome access is supported for this individual.
    spec fn has_chromosome(&self) -> bool;

    /// The genes this individual exposes, where it has them.
    spec fn chromosome_spec(&self) -> Seq<u32>;

    fn fitness(&self) -> (r: u32)
        ensures
            r == self.fitness_spec(),
    ;

    fn chromosome(&self) -> (r: &Chromosome)
        requires
            self.has_chromosome(),
        ensures
            r@ == self.chromosome_spec(),
    ;

    /// Builds a new individual purely from a genome.
    fn create(chromosome: Chromosome) -> (r: Self)
        ensures
            r.has_chromosome(),
            r.chromosome_spec() == chromosome@,
    ;
}

/// A stand-in individual for exercising the engine and the selection logic
/// in isolation from genome machinery.
#[derive(Debug)]
pub enum TestIndividual {
    /// For runs that require access to the chromosome.
    WithChromosome { chromosome: Chromosome },
    /// For runs that only need a fitness; genome access is unsupported.
    WithFitness { fitness: u32 },
}

impl TestIndividual {
    pub fn new(fitness: u32) -> (r: Self)
        ensures
            r == (TestIndividual::WithFitness { fitness }),
    {
        TestIndividual::WithFitness { fitness }
    }
}

impl Individual for TestIndividual {
    open spec fn fitness_spec(&self) -> u32 {
        match self {
            TestIndividual::WithChromosome { chromosome } => spec_sum_fold(chromosome@),
            TestIndividual::WithFitness { fitness } => *fitness,
        }
    }

    open spec fn has_chromosome(&self) -> bool {
        self is WithChromosome
    }

    open spec fn chromosome_spec(&self) -> Seq<u32> {
        match self {
            TestIndividual::WithChromosome { chromosome } => chromosome@,
            TestIndividual::WithFitness { .. } => Seq::empty(),
        }
    }

    /// The chromosome variant scores the running sum of its genes.
    fn fitness(&self) -> (r: u32) {
        match self {
            TestIndividual::WithChromosome { chromosome } => {
                let genes = chromosome.genes();
                let n = genes.len();
                let mut acc: u32 = 0;
                let mut i: usize = 0;
                while i < n
                    invariant
                        i <= n,
                        n == genes@.len(),
                        acc == spec_sum_fold(genes@.take(i as int)),
                    decreases n - i,
                {
                    proof {
                        assert(genes@.take(i + 1).drop_last() =~= genes@.take(i as int));
                    }
                    acc = fadd(acc, genes[i]);
                    i = i + 1;
                }
                proof {
                    assert(genes@.take(n as int) =~= genes@);
                }
                acc
            },
            TestIndividual::WithFitness { fitness } => *fitness,
        }
    }

    fn chromosome(&self) -> (r: &Chromosome) {
        match self {
            TestIndividual::WithChromosome { chromosome } => chromosome,
            TestIndividual::WithFitness { .. } => {
                // excluded by the precondition: genome access is a defined
                // fatal error for the fitness-only variant
                proof {
                    assert(false);
                }
                unreached()
            },
        }
    }

    fn create(chromosome: Chromosome) -> (r: Self) {
        TestIndividual::WithChromosome { chromosome }
    }
}

} // verus!
