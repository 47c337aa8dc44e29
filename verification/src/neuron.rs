//! A single neuron: one bias and one weight per input.

use vstd::prelude::*;
use crate::fbits::{
    fadd, fmul, fgt, spec_add_bits, spec_mul_bits, gt_bits, ZERO_BITS,
};
use crate::uniform::{draw_pm1, spec_pm1_value};

verus! {

#[derive(Debug)]
pub struct Neuron {
    pub bias: u32,
    pub weights: Vec<u32>,
}

/// Running sum of the pairwise products of inputs and weights, accumulated
/// from zero in order.
pub open spec fn spec_dot(xs: Seq<u32>, ws: Seq<u32>) -> u32
    decreases xs.len(),
{
    if xs.len() == 0 {
        ZERO_BITS
    } else {
        spec_add_bits(spec_dot(xs.drop_last(), ws.drop_last()), spec_mul_bits(xs.last(), ws.last()))
    }
}

/// The rectifier: a value not greater than zero, or NaN, clamps to
/// positive zero.
pub open spec fn spec_relu(t: u32) -> u32 {
    if gt_bits(t, ZERO_BITS) {
        t
    } else {
        ZERO_BITS
    }
}

/// A neuron's response: the rectified sum of its bias and the dot product
/// of its weights with the inputs.
pub open spec fn spec_neuron_out(n: Neuron, xs: Seq<u32>) -> u32 {
    spec_relu(spec_add_bits(n.bias, spec_dot(xs, n.weights@)))
}

/// A neuron's slice of the genome encoding: its bias followed by its
/// weights.
pub open spec fn spec_neuron_weights(n: Neuron) -> Seq<u32> {
    seq![n.bias] + n.weights@
}

impl Neuron {
    /// Draws the bias and then each weight from the uniform inclusive range
    /// [-1, 1]: every parameter is the range transform of one raw draw.
    pub fn random(rng: &mut rand_chacha::ChaCha8Rng, input_size: usize) -> (r: Neuron)
        ensures
            r.weights@.len() == input_size,
            exists|v: u32| r.bias == spec_pm1_value(v),
            forall|j: int|
                #![trigger r.weights@[j]]
                0 <= j < input_size ==> exists|v: u32| r.weights@[j] == spec_pm1_value(v),
    {
        let bias = draw_pm1(rng);
        let mut weights: Vec<u32> = Vec::new();
        let mut i: usize = 0;
        while i < input_size
            invariant
                i <= input_size,
                weights@.len() == i,
                forall|j: int|
                    #![trigger weights@[j]]
                    0 <= j < i ==> exists|v: u32| weights@[j] == spec_pm1_value(v),
            decreases input_size - i,
        {
            weights.push(draw_pm1(rng));
            i = i + 1;
        }
        Neuron { bias, weights }
    }

    pub fn propagate(&self, inputs: &Vec<u32>) -> (r: u32)
        requires
            inputs@.len() == self.weights@.len(),
        ensures
            r == spec_neuron_out(*self, inputs@),
    {
        let n = inputs.len();
        let mut acc: u32 = ZERO_BITS;
        let mut i: usize = 0;
        while i < n
            invariant
                i <= n,
                n == inputs@.len(),
                n == self.weights@.len(),
                acc == spec_dot(inputs@.take(i as int), self.weights@.take(i as int)),
            decreases n - i,
        {
            proof {
                assert(inputs@.take(i + 1).drop_last() =~= inputs@.take(i as int));
                assert(self.weights@.take(i + 1).drop_last() =~= self.weights@.take(i as int));
            }
            acc = fadd(acc, fmul(inputs[i], self.weights[i]));
            i = i + 1;
        }
        proof {
            assert(inputs@.take(n as int) =~= inputs@);
            assert(self.weights@.take(n as int) =~= self.weights@);
        }
        let t = fadd(self.bias, acc);
        if fgt(t, ZERO_BITS) {
            t
        } else {
            ZERO_BITS
        }
    }

    /// Consumes exactly one bias and `input_size` weights from the flat
    /// sequence, advancing the cursor.
    pub fn from_weights(input_size: usize, values: &Vec<u32>, pos: &mut usize) -> (r: Neuron)
        requires
            *old(pos) + 1 + input_size <= values@.len(),
        ensures
            r.weights@.len() == input_size,
            *final(pos) == *old(pos) + 1 + input_size,
            spec_neuron_weights(r) == values@.subrange(*old(pos) as int, *final(pos) as int),
    {
        let ghost p0 = *old(pos) as int;
        let vlen = values.len();
        let bias = values[*pos];
        *pos = *pos + 1;
        let mut weights: Vec<u32> = Vec::new();
        let mut i: usize = 0;
        proof {
            assert(weights@ =~= values@.subrange(p0 + 1, p0 + 1));
        }
        while i < input_size
            invariant
                i <= input_size,
                *pos == *old(pos) + 1 + i,
                p0 == *old(pos) as int,
                p0 + 1 + input_size <= values@.len(),
                vlen == values@.len(),
                bias == values@[p0],
                weights@ == values@.subrange(p0 + 1, p0 + 1 + i),
            decreases input_size - i,
        {
            proof {
                assert(values@.subrange(p0 + 1, p0 + 1 + i + 1) =~= values@.subrange(
                    p0 + 1,
                    p0 + 1 + i,
                ).push(values@[p0 + 1 + i]));
            }
            weights.push(values[*pos]);
            *pos = *pos + 1;
            i = i + 1;
        }
        let r = Neuron { bias, weights };
        proof {
            assert(spec_neuron_weights(r) =~= values@.subrange(p0, p0 + 1 + input_size));
        }
        r
    }

    /// Appends this neuron's genome slice — bias, then weights — to the
    /// flat sequence being built.
    pub fn weights_into(&self, out: &mut Vec<u32>)
        ensures
            final(out)@ == old(out)@ + spec_neuron_weights(*self),
    {
        let ghost base = old(out)@;
        out.push(self.bias);
        let n = self.weights.len();
        let mut i: usize = 0;
        proof {
            assert(base + seq![self.bias] + self.weights@.take(0) =~= base.push(self.bias));
        }
        while i < n
            invariant
                i <= n,
                n == self.weights@.len(),
                out@ == base + seq![self.bias] + self.weights@.take(i as int),
            decreases n - i,
        {
            proof {
                assert(self.weights@.take(i + 1) =~= self.weights@.take(i as int).push(
                    self.weights@[i as int],
                ));
            }
            out.push(self.weights[i]);
            i = i + 1;
        }
        proof {
            assert(self.weights@.take(n as int) =~= self.weights@);
            assert(base + seq![self.bias] + self.weights@ =~= base + spec_neuron_weights(*self));
        }
    }
}

} // verus!
