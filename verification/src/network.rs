//! A layered feedforward network and its genome codec.

use vstd::prelude::*;
use crate::layer::{
    Layer, LayerTopology, spec_layer_wf, spec_layer_weights,
};
use crate::neuron::spec_neuron_out;

verus! {

#[derive(Debug)]
pub struct Network {
    layers: Vec<Layer>,
}

/// Number of values the genome encoding of a network with this topology
/// holds: for each adjacent pair of sizes, one bias and one weight per
/// input for every neuron of the later layer.
pub open spec fn spec_param_count(topo: Seq<LayerTopology>) -> int
    decreases topo.len(),
{
    if topo.len() < 2 {
        0
    } else {
        topo[1].neurons * (1 + topo[0].neurons) + spec_param_count(topo.drop_first())
    }
}

/// The network has one layer per adjacent pair of the topology's sizes,
/// with the declared neuron count and input count.
pub open spec fn spec_network_wf(layers: Seq<Layer>, topo: Seq<LayerTopology>) -> bool {
    &&& layers.len() + 1 == topo.len()
    &&& forall|i: int|
        0 <= i < layers.len() ==> (#[trigger] layers[i]).neurons@.len() == topo[i + 1].neurons
    &&& forall|i: int|
        0 <= i < layers.len() ==> spec_layer_wf(#[trigger] layers[i], topo[i].neurons as nat)
}

/// Consecutive layers fit together: each layer is non-empty, its neurons
/// agree on their input count, and that count equals the previous layer's
/// neuron count.
pub open spec fn spec_chained(layers: Seq<Layer>) -> bool {
    &&& layers.len() > 0
    &&& forall|i: int| 0 <= i < layers.len() ==> (#[trigger] layers[i]).neurons@.len() > 0
    &&& forall|i: int|
        0 <= i < layers.len() ==> spec_layer_wf(
            #[trigger] layers[i],
            layers[i].neurons@[0].weights@.len(),
        )
    &&& forall|i: int|
        1 <= i < layers.len() ==> (#[trigger] layers[i]).neurons@[0].weights@.len() == layers[
            i - 1
        ].neurons@.len()
}

/// The canonical genome encoding: each layer's slice in order.
pub open spec fn spec_network_weights(layers: Seq<Layer>) -> Seq<u32>
    decreases layers.len(),
{
    if layers.len() == 0 {
        Seq::empty()
    } else {
        spec_network_weights(layers.drop_last()) + spec_layer_weights(layers.last())
    }
}

/// The input vector folded through the layers in order.
pub open spec fn spec_propagate(layers: Seq<Layer>, xs: Seq<u32>) -> Seq<u32>
    decreases layers.len(),
{
    if layers.len() == 0 {
        xs
    } else {
        spec_propagate(
            layers.drop_first(),
            Seq::new(layers.first().neurons@.len(), |j: int| spec_neuron_out(
                layers.first().neurons@[j],
                xs,
            )),
        )
    }
}

impl Network {
    pub closed spec fn layers_spec(&self) -> Seq<Layer> {
        self.layers@
    }

    /// The input size the first layer expects.
    pub open spec fn input_size_spec(&self) -> nat {
        self.layers_spec()[0].neurons@[0].weights@.len()
    }

    /// The neuron count of the last layer.
    pub open spec fn output_size_spec(&self) -> nat {
        self.layers_spec().last().neurons@.len()
    }

    pub fn layer_count(&self) -> (r: usize)
        ensures
            r == self.layers_spec().len(),
    {
        self.layers.len()
    }

    /// Builds one random layer per adjacent pair of topology sizes.
    pub fn random(rng: &mut rand_chacha::ChaCha8Rng, layers: &Vec<LayerTopology>) -> (r: Network)
        requires
            layers@.len() > 1,
            forall|i: int| 0 <= i < layers@.len() ==> (#[trigger] layers@[i]).neurons > 0,
        ensures
            spec_network_wf(r.layers_spec(), layers@),
            spec_chained(r.layers_spec()),
    {
        let n = layers.len();
        let mut built: Vec<Layer> = Vec::new();
        let mut i: usize = 0;
        while i + 1 < n
            invariant
                i + 1 <= n,
                n == layers@.len(),
                n > 1,
                forall|k: int| 0 <= k < layers@.len() ==> (#[trigger] layers@[k]).neurons > 0,
                built@.len() == i,
                forall|k: int|
                    0 <= k < i ==> (#[trigger] built@[k]).neurons@.len() == layers@[k + 1].neurons,
                forall|k: int|
                    0 <= k < i ==> spec_layer_wf(#[trigger] built@[k], layers@[k].neurons as nat),
            decreases n - i,
        {
            let layer = Layer::random(rng, layers[i].neurons, layers[i + 1].neurons);
            built.push(layer);
            i = i + 1;
        }
        let r = Network { layers: built };
        proof {
            assert forall|k: int| 0 <= k < r.layers_spec().len() implies (
            #[trigger] r.layers_spec()[k]).neurons@[0].weights@.len() == layers@[k].neurons by {
                assert(spec_layer_wf(r.layers_spec()[k], layers@[k].neurons as nat));
                assert(r.layers_spec()[k].neurons@.len() > 0);
            }
        }
        r
    }

    /// Folds the inputs through the layers in order; the input vector's
    /// length must match the first layer's expectation.
    pub fn propagate(&self, inputs: Vec<u32>) -> (r: Vec<u32>)
        requires
            spec_chained(self.layers_spec()),
            inputs@.len() == self.input_size_spec(),
        ensures
            r@ == spec_propagate(self.layers_spec(), inputs@),
            r@.len() == self.output_size_spec(),
    {
        let ghost all = self.layers_spec();
        let n = self.layers.len();
        let mut cur = inputs;
        let mut i: usize = 0;
        proof {
            assert(all.skip(0) =~= all);
        }
        while i < n
            invariant
                i <= n,
                n == all.len(),
                all == self.layers_spec(),
                spec_chained(all),
                spec_propagate(all, inputs@) == spec_propagate(all.skip(i as int), cur@),
                cur@.len() == if i < n {
                    all[i as int].neurons@[0].weights@.len()
                } else {
                    all.last().neurons@.len()
                },
            decreases n - i,
        {
            let ghost rest = all.skip(i as int);
            proof {
                assert(rest.first() == all[i as int]);
                assert(rest.drop_first() =~= all.skip(i + 1));
            }
            let next = self.layers[i].propagate(&cur);
            proof {
                assert(next@ =~= Seq::new(all[i as int].neurons@.len(), |j: int| spec_neuron_out(
                    all[i as int].neurons@[j],
                    cur@,
                )));
            }
            cur = next;
            i = i + 1;
        }
        proof {
            assert(all.skip(n as int) =~= Seq::<Layer>::empty());
        }
        cur
    }

    /// Length-checked propagation: yields the fold where the input length
    /// matches the first layer's expectation, and nothing otherwise.
    pub fn propagate_checked(&self, inputs: Vec<u32>) -> (r: Option<Vec<u32>>)
        requires
            spec_chained(self.layers_spec()),
        ensures
            r is Some <==> inputs@.len() == self.input_size_spec(),
            r matches Some(o) ==> o@ == spec_propagate(self.layers_spec(), inputs@),
    {
        let expected = self.layers[0].neurons[0].weights.len();
        if inputs.len() == expected {
            Some(self.propagate(inputs))
        } else {
            None
        }
    }

    /// The canonical genome encoding: every neuron's bias followed by its
    /// weights, neurons in layer order and within-layer order.
    pub fn weights(&self) -> (r: Vec<u32>)
        ensures
            r@ == spec_network_weights(self.layers_spec()),
    {
        let n = self.layers.len();
        let mut out: Vec<u32> = Vec::new();
        let mut i: usize = 0;
        proof {
            assert(out@ =~= spec_network_weights(self.layers_spec().take(0)));
        }
        while i < n
            invariant
                i <= n,
                n == self.layers_spec().len(),
                out@ == spec_network_weights(self.layers_spec().take(i as int)),
            decreases n - i,
        {
            proof {
                assert(self.layers_spec().take(i + 1).drop_last() =~= self.layers_spec().take(
                    i as int,
                ));
                assert(self.layers_spec().take(i + 1).last() == self.layers_spec()[i as int]);
            }
            self.layers[i].weights_into(&mut out);
            i = i + 1;
        }
        proof {
            assert(self.layers_spec().take(n as int) =~= self.layers_spec());
        }
        out
    }

    /// Reconstructs a network layer by layer, consuming exactly one bias
    /// plus one weight per input for every neuron, in the same order
    /// `weights` emits; the flat sequence must hold exactly the topology's
    /// parameter count.
    pub fn from_weights(layers: &Vec<LayerTopology>, values: &Vec<u32>) -> (r: Network)
        requires
            layers@.len() > 1,
            forall|i: int| 0 <= i < layers@.len() ==> (#[trigger] layers@[i]).neurons > 0,
            values@.len() == spec_param_count(layers@),
        ensures
            spec_network_wf(r.layers_spec(), layers@),
            spec_chained(r.layers_spec()),
            spec_network_weights(r.layers_spec()) == values@,
    {
        let n = layers.len();
        let mut built: Vec<Layer> = Vec::new();
        let mut pos: usize = 0;
        let mut i: usize = 0;
        proof {
            assert(layers@.skip(0) =~= layers@);
            assert(spec_network_weights(built@) =~= values@.subrange(0, 0));
        }
        while i + 1 < n
            invariant
                i + 1 <= n,
                n == layers@.len(),
                n > 1,
                forall|k: int| 0 <= k < layers@.len() ==> (#[trigger] layers@[k]).neurons > 0,
                built@.len() == i,
                forall|k: int|
                    0 <= k < i ==> (#[trigger] built@[k]).neurons@.len() == layers@[k + 1].neurons,
                forall|k: int|
                    0 <= k < i ==> spec_layer_wf(#[trigger] built@[k], layers@[k].neurons as nat),
                pos as int + spec_param_count(layers@.skip(i as int)) == values@.len(),
                spec_network_weights(built@) == values@.subrange(0, pos as int),
            decreases n - i,
        {
            let ghost rest = layers@.skip(i as int);
            proof {
                lemma_param_count_nonneg(rest.drop_first());
                assert(rest.drop_first() =~= layers@.skip(i + 1));
                assert(rest[0] == layers@[i as int]);
                assert(rest[1] == layers@[i + 1]);
                assert(spec_param_count(rest) == rest[1].neurons * (1 + rest[0].neurons)
                    + spec_param_count(rest.drop_first()));
            }
            let ghost pos_before = pos as int;
            let layer = Layer::from_weights(layers[i].neurons, layers[i + 1].neurons, values, &mut pos);
            proof {
                assert(built@.push(layer).drop_last() =~= built@);
                assert(values@.subrange(0, pos as int) =~= values@.subrange(0, pos_before)
                    + values@.subrange(pos_before, pos as int));
            }
            built.push(layer);
            i = i + 1;
        }
        let r = Network { layers: built };
        proof {
            assert(layers@.skip(n - 1).len() == 1);
            assert(spec_param_count(layers@.skip(n - 1)) == 0);
            assert(values@.subrange(0, pos as int) =~= values@);
            assert forall|k: int| 0 <= k < r.layers_spec().len() implies (
            #[trigger] r.layers_spec()[k]).neurons@[0].weights@.len() == layers@[k].neurons by {
                assert(spec_layer_wf(r.layers_spec()[k], layers@[k].neurons as nat));
                assert(r.layers_spec()[k].neurons@.len() > 0);
            }
        }
        r
    }
}

/// Weight codec round trip: the canonical flat encoding of a well-formed
/// network determines the network.  Two networks of one topology whose
/// encodings agree hold the same bias and the same weights in every neuron
/// of every layer — so rebuilding a network from its own flattened weights
/// reproduces it exactly.
pub proof fn lemma_weights_determine_network(
    a: Seq<Layer>,
    b: Seq<Layer>,
    topo: Seq<LayerTopology>,
)
    requires
        spec_network_wf(a, topo),
        spec_network_wf(b, topo),
        spec_network_weights(a) == spec_network_weights(b),
    ensures
        a.len() == b.len(),
        forall|i: int|
            0 <= i < a.len() ==> (#[trigger] a[i]).neurons@.len() == b[i].neurons@.len(),
        forall|i: int, j: int|
            0 <= i < a.len() && 0 <= j < a[i].neurons@.len() ==> a[i].neurons@[j].bias
                == b[i].neurons@[j].bias && a[i].neurons@[j].weights@ == b[i].neurons@[j].weights@,
    decreases a.len(),
{
    if a.len() == 0 {
    } else {
        let last = a.len() - 1;
        let input = topo[last].neurons as nat;
        let count = topo[last + 1].neurons as nat;
        assert(spec_layer_wf(a[last], input));
        assert(spec_layer_wf(b[last], input));
        let x1 = spec_network_weights(a.drop_last());
        let y1 = spec_layer_weights(a.last());
        let x2 = spec_network_weights(b.drop_last());
        let y2 = spec_layer_weights(b.last());
        crate::layer::lemma_neurons_weights_len(a.last().neurons@, input);
        crate::layer::lemma_neurons_weights_len(b.last().neurons@, input);
        assert(y1.len() == y2.len());
        assert(x1 =~= (x1 + y1).subrange(0, x1.len() as int));
        assert(x2 =~= (x2 + y2).subrange(0, x2.len() as int));
        assert(y1 =~= (x1 + y1).subrange(x1.len() as int, (x1 + y1).len() as int));
        assert(y2 =~= (x2 + y2).subrange(x2.len() as int, (x2 + y2).len() as int));
        assert(x1 == x2);
        assert(y1 == y2);
        assert(spec_network_wf(a.drop_last(), topo.drop_last())) by {
            assert forall|i: int| 0 <= i < a.drop_last().len() implies (
            #[trigger] a.drop_last()[i]).neurons@.len() == topo.drop_last()[i + 1].neurons by {
                assert(a.drop_last()[i] == a[i]);
            }
            assert forall|i: int| 0 <= i < a.drop_last().len() implies spec_layer_wf(
                #[trigger] a.drop_last()[i],
                topo.drop_last()[i].neurons as nat,
            ) by {
                assert(a.drop_last()[i] == a[i]);
                assert(spec_layer_wf(a[i], topo[i].neurons as nat));
            }
        }
        assert(spec_network_wf(b.drop_last(), topo.drop_last())) by {
            assert forall|i: int| 0 <= i < b.drop_last().len() implies (
            #[trigger] b.drop_last()[i]).neurons@.len() == topo.drop_last()[i + 1].neurons by {
                assert(b.drop_last()[i] == b[i]);
            }
            assert forall|i: int| 0 <= i < b.drop_last().len() implies spec_layer_wf(
                #[trigger] b.drop_last()[i],
                topo.drop_last()[i].neurons as nat,
            ) by {
                assert(b.drop_last()[i] == b[i]);
                assert(spec_layer_wf(b[i], topo[i].neurons as nat));
            }
        }
        lemma_weights_determine_network(a.drop_last(), b.drop_last(), topo.drop_last());
        crate::layer::lemma_neurons_weights_determine(
            a.last().neurons@,
            b.last().neurons@,
            input,
        );
        assert forall|i: int| 0 <= i < a.len() implies (#[trigger] a[i]).neurons@.len()
            == b[i].neurons@.len() by {
            if i < last {
                assert(a.drop_last()[i] == a[i]);
                assert(b.drop_last()[i] == b[i]);
            } else {
                assert(a[i] == a.last() && b[i] == b.last());
            }
        }
        assert forall|i: int, j: int|
            0 <= i < a.len() && 0 <= j < a[i].neurons@.len() implies a[i].neurons@[j].bias
            == b[i].neurons@[j].bias && a[i].neurons@[j].weights@ == b[i].neurons@[j].weights@ by {
            if i < last {
                assert(a.drop_last()[i] == a[i]);
                assert(b.drop_last()[i] == b[i]);
            } else {
                assert(a[i] == a.last() && b[i] == b.last());
            }
        }
    }
}

/// The last adjacent pair of a topology contributes its own window's count.
proof fn lemma_param_count_last(topo: Seq<LayerTopology>)
    requires
        topo.len() >= 2,
    ensures
        spec_param_count(topo) == spec_param_count(topo.drop_last()) + topo[topo.len()
            - 1].neurons * (1 + topo[topo.len() - 2].neurons),
    decreases topo.len(),
{
    assert(spec_param_count(topo) == topo[1].neurons * (1 + topo[0].neurons) + spec_param_count(
        topo.drop_first(),
    ));
    if topo.len() == 2 {
        assert(topo.drop_last().len() == 1);
        assert(topo.drop_first().len() == 1);
        assert(spec_param_count(topo.drop_last()) == 0);
        assert(spec_param_count(topo.drop_first()) == 0);
    } else {
        lemma_param_count_last(topo.drop_first());
        assert(topo.drop_first().drop_last() =~= topo.drop_last().drop_first());
        assert(topo.drop_last()[0] == topo[0] && topo.drop_last()[1] == topo[1]);
        assert(topo.drop_first()[topo.drop_first().len() - 1] == topo[topo.len() - 1]);
        assert(topo.drop_first()[topo.drop_first().len() - 2] == topo[topo.len() - 2]);
        assert(topo.drop_last().len() >= 2);
        assert(spec_param_count(topo.drop_last()) == topo.drop_last()[1].neurons * (1
            + topo.drop_last()[0].neurons) + spec_param_count(topo.drop_last().drop_first()));
    }
}

/// A well-formed network's flattened encoding holds exactly the topology's
/// parameter count of values.
pub proof fn lemma_network_weights_len(layers: Seq<Layer>, topo: Seq<LayerTopology>)
    requires
        spec_network_wf(layers, topo),
    ensures
        spec_network_weights(layers).len() == spec_param_count(topo),
    decreases layers.len(),
{
    if layers.len() == 0 {
        assert(topo.len() == 1);
    } else {
        let last = layers.len() - 1;
        assert(spec_layer_wf(layers[last], topo[last].neurons as nat));
        assert(spec_network_wf(layers.drop_last(), topo.drop_last())) by {
            assert forall|i: int| 0 <= i < layers.drop_last().len() implies (
            #[trigger] layers.drop_last()[i]).neurons@.len() == topo.drop_last()[i + 1].neurons by {
                assert(layers.drop_last()[i] == layers[i]);
            }
            assert forall|i: int| 0 <= i < layers.drop_last().len() implies spec_layer_wf(
                #[trigger] layers.drop_last()[i],
                topo.drop_last()[i].neurons as nat,
            ) by {
                assert(layers.drop_last()[i] == layers[i]);
                assert(spec_layer_wf(layers[i], topo[i].neurons as nat));
            }
        }
        lemma_network_weights_len(layers.drop_last(), topo.drop_last());
        crate::layer::lemma_neurons_weights_len(
            layers.last().neurons@,
            topo[last].neurons as nat,
        );
        lemma_param_count_last(topo);
    }
}

/// The parameter count of any topology is non-negative.
pub proof fn lemma_param_count_nonneg(topo: Seq<LayerTopology>)
    ensures
        spec_param_count(topo) >= 0,
    decreases topo.len(),
{
    if topo.len() >= 2 {
        lemma_param_count_nonneg(topo.drop_first());
        assert(topo[1].neurons * (1 + topo[0].neurons) >= 0) by (nonlinear_arith)
            requires
                topo[1].neurons >= 0,
                topo[0].neurons >= 0,
        ;
    }
}

} // verus!
