//! Aggregate fitness figures over one population snapshot.

use vstd::prelude::*;
use crate::fbits::{
    fadd, fdiv, flt, fgt, fuint, spec_sum_fold, spec_min_fold, spec_max_fold, spec_add_bits,
    spec_div_bits, spec_uint_bits, ZERO_BITS,
};
use crate::individual::Individual;

verus! {

/// The fitness values a population reports, in order.
pub open spec fn spec_fitnesses<I: Individual>(s: Seq<I>) -> Seq<u32> {
    s.map(|i: int, x: I| x.fitness_spec())
}

/// Immutable snapshot of the least, greatest and average fitness over one
/// population, each carried as an encoded value.
#[derive(Clone, Debug)]
pub struct Statistics {
    min_fitness: u32,
    max_fitness: u32,
    avg_fitness: u32,
}

impl Statistics {
    pub closed spec fn min_spec(&self) -> u32 {
        self.min_fitness
    }

    pub closed spec fn max_spec(&self) -> u32 {
        self.max_fitness
    }

    pub closed spec fn avg_spec(&self) -> u32 {
        self.avg_fitness
    }

    /// Computes the snapshot: the running minimum, maximum and sum of the
    /// population's fitness values, the sum then divided by the population
    /// size.
    pub fn new<I: Individual>(population: &Vec<I>) -> (r: Self)
        requires
            population@.len() > 0,
        ensures
            r.min_spec() == spec_min_fold(spec_fitnesses(population@)),
            r.max_spec() == spec_max_fold(spec_fitnesses(population@)),
            r.avg_spec() == spec_div_bits(
                spec_sum_fold(spec_fitnesses(population@)),
                spec_uint_bits(population@.len()),
            ),
    {
        let ghost fits = spec_fitnesses(population@);
        let n = population.len();
        let first = population[0].fitness();
        let mut min_fitness: u32 = first;
        let mut max_fitness: u32 = first;
        let mut sum_fitness: u32 = fadd(ZERO_BITS, first);
        let mut i: usize = 1;
        proof {
            assert(fits[0] == population@[0].fitness_spec());
            assert(fits.take(1).len() == 1);
            assert(fits.take(1).last() == fits[0]);
            assert(fits.take(1).drop_last() =~= Seq::<u32>::empty());
            assert(spec_sum_fold(Seq::<u32>::empty()) == ZERO_BITS);
            assert(spec_sum_fold(fits.take(1)) == spec_add_bits(
                spec_sum_fold(fits.take(1).drop_last()),
                fits.take(1).last(),
            ));
            assert(spec_sum_fold(fits.take(1)) == spec_add_bits(ZERO_BITS, fits[0]));
            assert(spec_min_fold(fits.take(1)) == fits[0]);
            assert(spec_max_fold(fits.take(1)) == fits[0]);
        }
        while i < n
            invariant
                1 <= i <= n,
                n == population@.len(),
                fits == spec_fitnesses(population@),
                fits.len() == n,
                min_fitness == spec_min_fold(fits.take(i as int)),
                max_fitness == spec_max_fold(fits.take(i as int)),
                sum_fitness == spec_sum_fold(fits.take(i as int)),
            decreases n - i,
        {
            let f = population[i].fitness();
            proof {
                assert(fits[i as int] == population@[i as int].fitness_spec());
                assert(fits.take(i + 1).drop_last() =~= fits.take(i as int));
                assert(fits.take(i + 1).len() == i + 1);
                assert(fits.take(i + 1).last() == fits[i as int]);
            }
            min_fitness = if flt(f, min_fitness) {
                f
            } else {
                min_fitness
            };
            max_fitness = if fgt(f, max_fitness) {
                f
            } else {
                max_fitness
            };
            sum_fitness = fadd(sum_fitness, f);
            i = i + 1;
        }
        proof {
            assert(fits.take(n as int) =~= fits);
        }
        let avg_fitness = fdiv(sum_fitness, fuint(n));
        Statistics { min_fitness, max_fitness, avg_fitness }
    }

    pub fn min_fitness(&self) -> (r: u32)
        ensures
            r == self.min_spec(),
    {
        self.min_fitness
    }

    pub fn max_fitness(&self) -> (r: u32)
        ensures
            r == self.max_spec(),
    {
        self.max_fitness
    }

    pub fn avg_fitness(&self) -> (r: u32)
        ensures
            r == self.avg_spec(),
    {
        self.avg_fitness
    }
}

} // verus!
