//! In-place perturbation of a child genome.

use vstd::prelude::*;
use crate::chromosome::Chromosome;
use crate::fbits::{
    fadd, fmul, fdiv, fuint, spec_add_bits, spec_mul_bits, spec_div_bits, spec_uint_bits, ONE_BITS,
    NEG_ONE_BITS,
};
use crate::rng::{coin, gen_u32};

verus! {

/// A gene after one perturbation: the signed offset added to it is the
/// coefficient, under a sign of one or minus one, scaled by a 24-bit
/// fraction of the unit interval.
pub open spec fn spec_perturbed(gene: u32, coeff: u32, sign: u32, fraction: nat) -> u32 {
    spec_add_bits(
        gene,
        spec_mul_bits(
            spec_mul_bits(sign, coeff),
            spec_mul_bits(
                spec_div_bits(ONE_BITS, spec_uint_bits(0x100_0000)),
                spec_uint_bits(fraction),
            ),
        ),
    )
}

/// One gene's worth of mutation outcome: the new gene is the old one with
/// one signed, fraction-scaled offset of the coefficient added.
pub open spec fn spec_is_perturbed_gene(new_gene: u32, old_gene: u32, coeff: u32) -> bool {
    exists|sign: u32, fraction: nat|
        (sign == ONE_BITS || sign == NEG_ONE_BITS) && fraction < 0x100_0000 && new_gene
            == spec_perturbed(old_gene, coeff, sign, fraction)
}

/// A mutation strategy: perturbs a genome in place without changing its
/// length.
pub trait MutationMethod {
    fn mutate(&self, rng: &mut rand_chacha::ChaCha8Rng, child: &mut Chromosome)
        ensures
            final(child)@.len() == old(child)@.len(),
    ;
}

/// Per-gene probabilistic perturbation bounded by a magnitude coefficient.
///
/// Each gene is touched with probability `chance_num` in `chance_den`; a
/// touched gene has a signed offset added whose magnitude is drawn uniformly
/// from zero to the coefficient.  The magnitude draw is uniform rather than
/// normally distributed; the traditional name is kept.
#[derive(Debug)]
pub struct GaussianMutation {
    /// Probability of changing a gene, as a ratio:
    /// - 0 in d: no genes will be touched
    /// - d in d: all genes will be touched
    chance_num: u32,
    chance_den: u32,
    /// Magnitude of that change, an encoded value:
    /// - zero: touched genes are unchanged in value
    /// - three: touched genes move by at most three
    coeff: u32,
}

impl GaussianMutation {
    /// The chance ratio lies in [0, 1].
    #[verifier::type_invariant]
    pub closed spec fn wf(&self) -> bool {
        0 < self.chance_den && self.chance_num <= self.chance_den
    }

    pub closed spec fn chance_zero(&self) -> bool {
        self.chance_num == 0
    }

    pub closed spec fn chance_num_spec(&self) -> u32 {
        self.chance_num
    }

    pub closed spec fn chance_den_spec(&self) -> u32 {
        self.chance_den
    }

    pub closed spec fn coeff_spec(&self) -> u32 {
        self.coeff
    }

    /// Builds the strategy.  The chance ratio must lie in [0, 1]: the
    /// numerator may not exceed the denominator and the denominator may not
    /// be zero.
    pub fn new(chance_num: u32, chance_den: u32, coeff: u32) -> (r: Self)
        requires
            0 < chance_den,
            chance_num <= chance_den,
        ensures
            r.chance_num_spec() == chance_num,
            r.chance_den_spec() == chance_den,
            r.coeff_spec() == coeff,
            r.chance_zero() <==> chance_num == 0,
    {
        GaussianMutation { chance_num, chance_den, coeff }
    }

    /// Validating constructor: rejects a chance ratio outside [0, 1].
    pub fn new_checked(chance_num: u32, chance_den: u32, coeff: u32) -> (r: Option<Self>)
        ensures
            r matches Some(m) ==> m.chance_num_spec() == chance_num && m.chance_den_spec()
                == chance_den && m.coeff_spec() == coeff && (m.chance_zero() <==> chance_num == 0),
            r is Some <==> 0 < chance_den && chance_num <= chance_den,
    {
        if 0 < chance_den && chance_num <= chance_den {
            Some(GaussianMutation { chance_num, chance_den, coeff })
        } else {
            None
        }
    }
}

impl MutationMethod for GaussianMutation {
    fn mutate(&self, rng: &mut rand_chacha::ChaCha8Rng, child: &mut Chromosome)
        ensures
            self.chance_zero() ==> final(child)@ == old(child)@,
            forall|i: int|
                0 <= i < old(child)@.len() ==> final(child)@[i] == old(child)@[i]
                    || #[trigger] spec_is_perturbed_gene(
                    final(child)@[i],
                    old(child)@[i],
                    self.coeff_spec(),
                ),
            self.chance_num_spec() == self.chance_den_spec() ==> forall|i: int|
                0 <= i < old(child)@.len() ==> #[trigger] spec_is_perturbed_gene(
                    final(child)@[i],
                    old(child)@[i],
                    self.coeff_spec(),
                ),
    {
        proof {
            use_type_invariant(self);
        }
        let n = child.len();
        // the unit draw's scale factor: one over two to the twenty-fourth
        let scale = fdiv(ONE_BITS, fuint(0x100_0000usize));
        let mut i: usize = 0;
        while i < n
            invariant
                self.wf(),
                i <= n,
                n == child@.len(),
                child@.len() == old(child)@.len(),
                scale == spec_div_bits(ONE_BITS, spec_uint_bits(0x100_0000)),
                self.chance_zero() ==> child@ == old(child)@,
                forall|j: int| i <= j < n ==> child@[j] == old(child)@[j],
                forall|j: int|
                    0 <= j < i ==> child@[j] == old(child)@[j] || #[trigger] spec_is_perturbed_gene(
                        child@[j],
                        old(child)@[j],
                        self.coeff_spec(),
                    ),
                self.chance_num_spec() == self.chance_den_spec() ==> forall|j: int|
                    0 <= j < i ==> #[trigger] spec_is_perturbed_gene(
                        child@[j],
                        old(child)@[j],
                        self.coeff_spec(),
                    ),
            decreases n - i,
        {
            let sign_negative = coin(rng, 1, 2);
            let touched = coin(rng, self.chance_num, self.chance_den);
            if touched {
                let v = gen_u32(rng);
                let magnitude = fmul(scale, fuint((v >> 8) as usize));
                let sign = if sign_negative {
                    NEG_ONE_BITS
                } else {
                    ONE_BITS
                };
                let offset = fmul(fmul(sign, self.coeff), magnitude);
                let g = child.gene(i);
                child.set_gene(i, fadd(g, offset));
                proof {
                    assert(!self.chance_zero());
                    assert((v >> 8) < 0x100_0000u32) by (bit_vector);
                    assert(child@[i as int] == spec_perturbed(
                        old(child)@[i as int],
                        self.coeff_spec(),
                        sign,
                        (v >> 8) as nat,
                    ));
                    assert(spec_is_perturbed_gene(
                        child@[i as int],
                        old(child)@[i as int],
                        self.coeff_spec(),
                    ));
                }
            }
            i = i + 1;
        }
    }
}

} // verus!
