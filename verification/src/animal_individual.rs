//! The individual an agent presents to the engine: its satiation as
//! fitness, its brain's parameters as genome.

use vstd::prelude::*;
use crate::brain::{Brain, spec_brain_param_count, spec_brain_shape};
use crate::chromosome::Chromosome;
use crate::fbits::{fuint, spec_uint_bits, ZERO_BITS};
use crate::individual::Individual;
use crate::network::{spec_chained, spec_network_weights};

verus! {

#[derive(Debug)]
pub struct AnimalIndividual {
    fitness: u32,
    chromosome: Chromosome,
}

impl AnimalIndividual {
    /// Captures an agent: its satiation, encoded as a fitness score, and
    /// its brain's flattened parameters.
    pub fn from_animal(satiation: usize, brain: &Brain) -> (r: Self)
        ensures
            r.fitness_spec() == spec_uint_bits(satiation as nat),
            r.has_chromosome(),
            r.chromosome_spec() == spec_network_weights(brain.nn.layers_spec()),
    {
        let fitness = fuint(satiation);
        let chromosome = brain.as_chromosome();
        AnimalIndividual { fitness, chromosome }
    }

    /// Rebuilds the brain this individual's genome encodes, for an eye with
    /// the given cell count.
    pub fn into_brain(self, cells: usize) -> (r: Brain)
        requires
            0 < cells,
            cells <= usize::MAX / 2,
            self.chromosome_spec().len() == spec_brain_param_count(cells as nat),
        ensures
            spec_chained(r.nn.layers_spec()),
            spec_brain_shape(r.nn.layers_spec(), cells as nat),
            spec_network_weights(r.nn.layers_spec()) == self.chromosome_spec(),
    {
        Brain::from_chromosome(self.chromosome, cells)
    }
}

impl Individual for AnimalIndividual {
    closed spec fn fitness_spec(&self) -> u32 {
        self.fitness
    }

    open spec fn has_chromosome(&self) -> bool {
        true
    }

    closed spec fn chromosome_spec(&self) -> Seq<u32> {
        self.chromosome@
    }

    fn fitness(&self) -> (r: u32) {
        self.fitness
    }

    fn chromosome(&self) -> (r: &Chromosome) {
        &self.chromosome
    }

    /// A freshly constructed individual scores zero until re-evaluated.
    fn create(chromosome: Chromosome) -> (r: Self)
        ensures
            r.fitness_spec() == ZERO_BITS,
    {
        AnimalIndividual { fitness: 0, chromosome }
    }
}

} // verus!
