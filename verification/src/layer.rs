//! One layer of neurons, all reading the same inputs.

use vstd::prelude::*;
use crate::neuron::{
    Neuron, spec_neuron_out, spec_neuron_weights,
};

verus! {

#[derive(Debug)]
pub struct Layer {
    pub neurons: Vec<Neuron>,
}

/// Declared size of one layer in a topology descriptor.
#[derive(Debug)]
pub struct LayerTopology {
    pub neurons: usize,
}

/// Every neuron of the layer expects `input` inputs.
pub open spec fn spec_layer_wf(l: Layer, input: nat) -> bool {
    forall|j: int|
        0 <= j < l.neurons@.len() ==> (#[trigger] l.neurons@[j]).weights@.len() == input
}

/// The layer's genome slice: each neuron's slice in order.
pub open spec fn spec_neurons_weights(ns: Seq<Neuron>) -> Seq<u32>
    decreases ns.len(),
{
    if ns.len() == 0 {
        Seq::empty()
    } else {
        spec_neurons_weights(ns.drop_last()) + spec_neuron_weights(ns.last())
    }
}

pub open spec fn spec_layer_weights(l: Layer) -> Seq<u32> {
    spec_neurons_weights(l.neurons@)
}

impl Layer {
    /// Builds `output_neurons` random neurons, each drawing its bias and
    /// `input_neurons` weights in order.
    pub fn random(
        rng: &mut rand_chacha::ChaCha8Rng,
        input_neurons: usize,
        output_neurons: usize,
    ) -> (r: Layer)
        ensures
            r.neurons@.len() == output_neurons,
            spec_layer_wf(r, input_neurons as nat),
    {
        let mut neurons: Vec<Neuron> = Vec::new();
        let mut i: usize = 0;
        while i < output_neurons
            invariant
                i <= output_neurons,
                neurons@.len() == i,
                forall|j: int|
                    0 <= j < i ==> (#[trigger] neurons@[j]).weights@.len() == input_neurons,
            decreases output_neurons - i,
        {
            neurons.push(Neuron::random(rng, input_neurons));
            i = i + 1;
        }
        Layer { neurons }
    }

    /// One response per neuron, in order.
    pub fn propagate(&self, inputs: &Vec<u32>) -> (r: Vec<u32>)
        requires
            spec_layer_wf(*self, inputs@.len()),
        ensures
            r@.len() == self.neurons@.len(),
            forall|j: int|
                0 <= j < r@.len() ==> r@[j] == spec_neuron_out(self.neurons@[j], inputs@),
    {
        let n = self.neurons.len();
        let mut out: Vec<u32> = Vec::new();
        let mut i: usize = 0;
        while i < n
            invariant
                i <= n,
                n == self.neurons@.len(),
                spec_layer_wf(*self, inputs@.len()),
                out@.len() == i,
                forall|j: int|
                    0 <= j < i ==> out@[j] == spec_neuron_out(self.neurons@[j], inputs@),
            decreases n - i,
        {
            out.push(self.neurons[i].propagate(inputs));
            i = i + 1;
        }
        out
    }

    /// Consumes exactly `output_size` neurons' worth of values — one bias
    /// plus `input_size` weights each — from the flat sequence, advancing
    /// the cursor.
    pub fn from_weights(
        input_size: usize,
        output_size: usize,
        values: &Vec<u32>,
        pos: &mut usize,
    ) -> (r: Layer)
        requires
            *old(pos) + output_size * (1 + input_size) <= values@.len(),
        ensures
            r.neurons@.len() == output_size,
            spec_layer_wf(r, input_size as nat),
            *final(pos) == *old(pos) + output_size * (1 + input_size),
            spec_layer_weights(r) == values@.subrange(*old(pos) as int, *final(pos) as int),
    {
        let ghost p0 = *old(pos) as int;
        let mut neurons: Vec<Neuron> = Vec::new();
        let mut i: usize = 0;
        proof {
            assert(spec_neurons_weights(neurons@) =~= values@.subrange(p0, p0));
        }
        while i < output_size
            invariant
                i <= output_size,
                p0 == *old(pos) as int,
                *pos == *old(pos) + i * (1 + input_size),
                p0 + output_size * (1 + input_size) <= values@.len(),
                neurons@.len() == i,
                forall|j: int|
                    0 <= j < i ==> (#[trigger] neurons@[j]).weights@.len() == input_size,
                spec_neurons_weights(neurons@) == values@.subrange(p0, *pos as int),
            decreases output_size - i,
        {
            proof {
                assert((i + 1) * (1 + input_size) == i * (1 + input_size) + (1 + input_size))
                    by (nonlinear_arith);
                assert(i * (1 + input_size) >= 0) by (nonlinear_arith)
                    requires
                        i >= 0,
                        input_size >= 0,
                ;
                assert((i + 1) * (1 + input_size) <= output_size * (1 + input_size))
                    by (nonlinear_arith)
                    requires
                        i + 1 <= output_size,
                        input_size >= 0,
                ;
            }
            let ghost pos_before = *pos as int;
            let neuron = Neuron::from_weights(input_size, values, pos);
            proof {
                assert(neurons@.push(neuron).drop_last() =~= neurons@);
                assert(values@.subrange(p0, *pos as int) =~= values@.subrange(p0, pos_before)
                    + values@.subrange(pos_before, *pos as int));
            }
            neurons.push(neuron);
            i = i + 1;
        }
        let r = Layer { neurons };
        r
    }

    /// Appends this layer's genome slice to the flat sequence being built.
    pub fn weights_into(&self, out: &mut Vec<u32>)
        ensures
            final(out)@ == old(out)@ + spec_layer_weights(*self),
    {
        let ghost base = old(out)@;
        let n = self.neurons.len();
        let mut i: usize = 0;
        proof {
            assert(base + spec_neurons_weights(self.neurons@.take(0)) =~= base);
        }
        while i < n
            invariant
                i <= n,
                n == self.neurons@.len(),
                out@ == base + spec_neurons_weights(self.neurons@.take(i as int)),
            decreases n - i,
        {
            proof {
                assert(self.neurons@.take(i + 1).drop_last() =~= self.neurons@.take(i as int));
                assert(self.neurons@.take(i + 1).last() == self.neurons@[i as int]);
            }
            self.neurons[i].weights_into(out);
            i = i + 1;
        }
        proof {
            assert(self.neurons@.take(n as int) =~= self.neurons@);
        }
    }
}

/// The genome slice of `n` neurons with `input` inputs each holds exactly
/// `n * (1 + input)` values.
pub proof fn lemma_neurons_weights_len(ns: Seq<Neuron>, input: nat)
    requires
        forall|j: int| 0 <= j < ns.len() ==> (#[trigger] ns[j]).weights@.len() == input,
    ensures
        spec_neurons_weights(ns).len() == ns.len() * (1 + input),
    decreases ns.len(),
{
    if ns.len() == 0 {
    } else {
        assert forall|j: int| 0 <= j < ns.drop_last().len() implies (
        #[trigger] ns.drop_last()[j]).weights@.len() == input by {
            assert(ns.drop_last()[j] == ns[j]);
        }
        lemma_neurons_weights_len(ns.drop_last(), input);
        assert(spec_neuron_weights(ns.last()).len() == 1 + input);
        assert(ns.len() * (1 + input) == (ns.len() - 1) * (1 + input) + (1 + input))
            by (nonlinear_arith);
    }
}

/// Two neuron rows of one shape with the same genome slice agree on every
/// bias and every weight: the flattening loses nothing.
pub proof fn lemma_neurons_weights_determine(ns1: Seq<Neuron>, ns2: Seq<Neuron>, input: nat)
    requires
        ns1.len() == ns2.len(),
        forall|j: int| 0 <= j < ns1.len() ==> (#[trigger] ns1[j]).weights@.len() == input,
        forall|j: int| 0 <= j < ns2.len() ==> (#[trigger] ns2[j]).weights@.len() == input,
        spec_neurons_weights(ns1) == spec_neurons_weights(ns2),
    ensures
        forall|j: int|
            0 <= j < ns1.len() ==> (#[trigger] ns1[j]).bias == ns2[j].bias && ns1[j].weights@
                == ns2[j].weights@,
    decreases ns1.len(),
{
    if ns1.len() == 0 {
    } else {
        let x1 = spec_neurons_weights(ns1.drop_last());
        let y1 = spec_neuron_weights(ns1.last());
        let x2 = spec_neurons_weights(ns2.drop_last());
        let y2 = spec_neuron_weights(ns2.last());
        assert forall|j: int| 0 <= j < ns1.drop_last().len() implies (
        #[trigger] ns1.drop_last()[j]).weights@.len() == input by {
            assert(ns1.drop_last()[j] == ns1[j]);
        }
        assert forall|j: int| 0 <= j < ns2.drop_last().len() implies (
        #[trigger] ns2.drop_last()[j]).weights@.len() == input by {
            assert(ns2.drop_last()[j] == ns2[j]);
        }
        lemma_neurons_weights_len(ns1.drop_last(), input);
        lemma_neurons_weights_len(ns2.drop_last(), input);
        assert(x1.len() == x2.len());
        assert(x1 =~= (x1 + y1).subrange(0, x1.len() as int));
        assert(x2 =~= (x2 + y2).subrange(0, x2.len() as int));
        assert(y1 =~= (x1 + y1).subrange(x1.len() as int, (x1 + y1).len() as int));
        assert(y2 =~= (x2 + y2).subrange(x2.len() as int, (x2 + y2).len() as int));
        assert(x1 == x2);
        assert(y1 == y2);
        lemma_neurons_weights_determine(ns1.drop_last(), ns2.drop_last(), input);
        assert(ns1.last().bias == y1[0] && ns2.last().bias == y2[0]);
        assert(ns1.last().weights@ =~= y1.subrange(1, y1.len() as int));
        assert(ns2.last().weights@ =~= y2.subrange(1, y2.len() as int));
        assert forall|j: int| 0 <= j < ns1.len() implies (#[trigger] ns1[j]).bias == ns2[j].bias
            && ns1[j].weights@ == ns2[j].weights@ by {
            if j < ns1.len() - 1 {
                assert(ns1.drop_last()[j] == ns1[j]);
                assert(ns2.drop_last()[j] == ns2[j]);
            } else {
                assert(ns1[j] == ns1.last());
                assert(ns2[j] == ns2.last());
            }
        }
    }
}

} // verus!
