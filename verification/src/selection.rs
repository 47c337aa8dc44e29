//! Choice of a parent from a population.

use vstd::prelude::*;
use crate::individual::Individual;
use crate::rng::gen_index;
use crate::statistics::spec_fitnesses;
use crate::uniform::{weighted_draw, spec_pick_weighted, spec_weights_usable};

verus! {

/// A selection strategy: picks one member of a non-empty population without
/// mutating it.
pub trait SelectionMethod {
    fn select<'a, I: Individual>(
        &self,
        rng: &mut rand_chacha::ChaCha8Rng,
        population: &'a Vec<I>,
    ) -> (r: &'a I)
        requires
            population@.len() > 0,
        ensures
            exists|i: int| 0 <= i < population@.len() && *r == population@[i],
    ;
}

/// Fitness-proportionate selection: each member is picked with probability
/// proportional to its fitness.  A population whose fitness values are
/// unusable as weights — all zero, or one negative or NaN — falls back to a
/// uniform pick instead of faulting.
#[derive(Clone, Debug)]
pub struct RouletteWheelSelection;

impl RouletteWheelSelection {
    pub fn new() -> (r: Self)
        ensures
            r == RouletteWheelSelection,
    {
        RouletteWheelSelection
    }
}

impl Default for RouletteWheelSelection {
    fn default() -> (r: Self)
        ensures
            r == RouletteWheelSelection,
    {
        RouletteWheelSelection
    }
}

impl SelectionMethod for RouletteWheelSelection {
    /// When the population's fitness values are usable as weights, the
    /// picked member is the one the weighted pick maps some draw to.
    fn select<'a, I: Individual>(
        &self,
        rng: &mut rand_chacha::ChaCha8Rng,
        population: &'a Vec<I>,
    ) -> (r: &'a I)
        ensures
            spec_weights_usable(spec_fitnesses(population@)) ==> exists|v: u32|
                #![trigger spec_pick_weighted(spec_fitnesses(population@), v)]
                spec_pick_weighted(spec_fitnesses(population@), v) matches Some(i) && *r
                    == population@[i],
    {
        let n = population.len();
        let mut fits: Vec<u32> = Vec::new();
        let mut i: usize = 0;
        while i < n
            invariant
                i <= n,
                n == population@.len(),
                fits@.len() == i,
                forall|j: int| 0 <= j < i ==> fits@[j] == population@[j].fitness_spec(),
            decreases n - i,
        {
            let f = population[i].fitness();
            fits.push(f);
            i = i + 1;
        }
        proof {
            assert(fits@ =~= spec_fitnesses(population@));
        }
        match weighted_draw(rng, &fits) {
            Some(j) => {
                proof {
                    let v0 = choose|v: u32| spec_pick_weighted(fits@, v) == Some(j as int);
                    assert(spec_pick_weighted(spec_fitnesses(population@), v0) matches Some(i)
                        && *(&population[j as int]) == population@[i]);
                }
                &population[j]
            },
            None => {
                let j = gen_index(rng, n);
                &population[j]
            },
        }
    }
}

} // verus!
