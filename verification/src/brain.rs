//! A network-backed brain for a sighted agent, bridged to the genome codec.
//!
//! The agent's eye is described here by its cell count alone; the brain's
//! topology is derived from it: one input per eye cell, a hidden layer of
//! twice that, and two outputs.

use vstd::prelude::*;
use crate::chromosome::Chromosome;
use crate::layer::{Layer, LayerTopology, spec_layer_wf};
use crate::network::{
    Network, spec_network_wf, spec_chained, spec_network_weights, spec_param_count,
    lemma_network_weights_len,
};

verus! {

#[derive(Debug)]
pub struct Brain {
    pub nn: Network,
}

/// The topology a brain derives from an eye with `cells` cells.
pub open spec fn spec_brain_topology(cells: nat) -> Seq<nat> {
    seq![cells, 2 * cells, 2]
}

pub open spec fn spec_topology_sizes(topo: Seq<LayerTopology>) -> Seq<nat> {
    topo.map(|i: int, t: LayerTopology| t.neurons as nat)
}

/// The shape a brain's network derives from an eye with `cells` cells: a
/// hidden layer of twice the cell count, each neuron reading one input per
/// cell, then an output layer of two neurons, each reading one input per
/// hidden neuron.
pub open spec fn spec_brain_shape(layers: Seq<Layer>, cells: nat) -> bool {
    &&& layers.len() == 2
    &&& layers[0].neurons@.len() == 2 * cells
    &&& spec_layer_wf(layers[0], cells)
    &&& layers[1].neurons@.len() == 2
    &&& spec_layer_wf(layers[1], 2 * cells)
}

impl Brain {
    /// The layer sizes for an eye with the given cell count.
    pub fn topology(cells: usize) -> (r: Vec<LayerTopology>)
        requires
            0 < cells,
            cells <= usize::MAX / 2,
        ensures
            spec_topology_sizes(r@) == spec_brain_topology(cells as nat),
            r@.len() == 3,
            r@[0].neurons == cells,
            r@[1].neurons == 2 * cells,
            r@[2].neurons == 2,
            forall|i: int| 0 <= i < r@.len() ==> (#[trigger] r@[i]).neurons > 0,
    {
        let mut topo: Vec<LayerTopology> = Vec::new();
        topo.push(LayerTopology { neurons: cells });
        topo.push(LayerTopology { neurons: 2 * cells });
        topo.push(LayerTopology { neurons: 2 });
        proof {
            assert(spec_topology_sizes(topo@) =~= spec_brain_topology(cells as nat));
        }
        topo
    }

    /// A brain with random parameters for an eye with the given cell count.
    pub fn random(rng: &mut rand_chacha::ChaCha8Rng, cells: usize) -> (r: Brain)
        requires
            0 < cells,
            cells <= usize::MAX / 2,
        ensures
            spec_chained(r.nn.layers_spec()),
            spec_brain_shape(r.nn.layers_spec(), cells as nat),
    {
        let topo = Brain::topology(cells);
        let nn = Network::random(rng, &topo);
        proof {
            assert(spec_network_wf(nn.layers_spec(), topo@));
        }
        Brain { nn }
    }

    /// This brain's parameters, flattened into a genome.
    pub fn as_chromosome(&self) -> (r: Chromosome)
        ensures
            r@ == spec_network_weights(self.nn.layers_spec()),
    {
        Chromosome::from_genes(self.nn.weights())
    }

    /// Rebuilds a brain for an eye with the given cell count from a genome;
    /// the genome must hold exactly the derived topology's parameter count.
    pub fn from_chromosome(chromosome: Chromosome, cells: usize) -> (r: Brain)
        requires
            0 < cells,
            cells <= usize::MAX / 2,
            chromosome@.len() == spec_brain_param_count(cells as nat),
        ensures
            spec_chained(r.nn.layers_spec()),
            spec_brain_shape(r.nn.layers_spec(), cells as nat),
            spec_network_weights(r.nn.layers_spec()) == chromosome@,
    {
        let topo = Brain::topology(cells);
        proof {
            lemma_brain_param_count(topo@, cells as nat);
        }
        let genes = chromosome.into_genes();
        let nn = Network::from_weights(&topo, &genes);
        proof {
            assert(spec_network_wf(nn.layers_spec(), topo@));
        }
        Brain { nn }
    }
}

/// Parameter count of the derived topology: the hidden layer takes twice
/// the cell count of neurons with one bias and one weight per cell each,
/// and the output layer takes two neurons with one bias and one weight per
/// hidden neuron each.
pub open spec fn spec_brain_param_count(cells: nat) -> int {
    2 * (cells as int) * (1 + cells as int) + 2 * (1 + 2 * (cells as int))
}

/// A brain-shaped network's flattened encoding holds exactly the derived
/// parameter count of values.
pub proof fn lemma_brain_weights_len(layers: Seq<Layer>, cells: nat)
    requires
        spec_brain_shape(layers, cells),
        cells <= usize::MAX / 2,
    ensures
        spec_network_weights(layers).len() == spec_brain_param_count(cells),
{
    let topo = seq![
        LayerTopology { neurons: cells as usize },
        LayerTopology { neurons: (2 * cells) as usize },
        LayerTopology { neurons: 2 as usize },
    ];
    assert(spec_network_wf(layers, topo));
    lemma_network_weights_len(layers, topo);
    assert(spec_topology_sizes(topo) =~= spec_brain_topology(cells));
    lemma_brain_param_count(topo, cells);
}

proof fn lemma_brain_param_count(topo: Seq<LayerTopology>, cells: nat)
    requires
        spec_topology_sizes(topo) == spec_brain_topology(cells),
        topo.len() == 3,
    ensures
        spec_param_count(topo) == spec_brain_param_count(cells),
{
    assert(topo[0].neurons == cells && topo[1].neurons == 2 * cells && topo[2].neurons == 2) by {
        assert(spec_topology_sizes(topo)[0] == topo[0].neurons as nat);
        assert(spec_topology_sizes(topo)[1] == topo[1].neurons as nat);
        assert(spec_topology_sizes(topo)[2] == topo[2].neurons as nat);
    }
    assert(topo.drop_first().drop_first() =~= topo.skip(2));
    assert(topo.skip(2).len() == 1);
    assert(spec_param_count(topo.skip(2)) == 0);
    assert(topo.drop_first()[0] == topo[1] && topo.drop_first()[1] == topo[2]);
    assert(topo.drop_first().len() == 2);
    assert(spec_param_count(topo.drop_first()) == topo.drop_first()[1].neurons * (1
        + topo.drop_first()[0].neurons) + spec_param_count(topo.drop_first().drop_first()));
    assert(spec_param_count(topo) == topo[1].neurons * (1 + topo[0].neurons) + (topo[2].neurons * (1
        + topo[1].neurons) + spec_param_count(topo.drop_first().drop_first())));
}

} // verus!
