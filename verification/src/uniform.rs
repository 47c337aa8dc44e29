//! Draws of single-precision values from the random source.
//!
//! The random source yields raw 32-bit draws; the transforms below turn one
//! draw into a uniformly distributed encoded value, following the
//! multiply-based scheme of the rand crate's uniform samplers so that a
//! seeded source reproduces the same stream of values: a draw's top 23 bits
//! become the fraction of a value in [1, 2), one is subtracted, and the
//! result is scaled into the requested range, with the scale factor nudged
//! down one pattern at a time until the range's bound is respected.
//!
//! Each transform is a pure function of the draw and its operands, and is
//! specified exactly; only the draw itself is random.

use vstd::prelude::*;
use crate::fbits::{
    fadd, fsub, fmul, fdiv, fge, fgt, fle, flt, feq, ffinite, spec_add_bits, spec_sub_bits,
    spec_mul_bits, spec_div_bits, ge_bits, gt_bits, le_bits, lt_bits, eq_bits, is_finite_bits,
    ZERO_BITS, ONE_BITS, NEG_ONE_BITS,
};
use crate::rng::gen_u32;

verus! {

/// The largest drawable value in [1, 2) — every fraction bit set — less one.
pub open spec fn spec_max_rand() -> u32 {
    spec_sub_bits(0x3FFF_FFFF, ONE_BITS)
}

/// A draw's top 23 bits under the exponent of [1, 2), shifted down to
/// [0, 1).
pub open spec fn spec_unit_value(draw: u32) -> u32 {
    spec_sub_bits(0x3F80_0000 | (draw >> 9), ONE_BITS)
}

/// How far a scale factor reaches: the range's low end plus the scale
/// times the largest unit value.
pub open spec fn spec_reach(scale: u32, max_rand: u32, low: u32) -> u32 {
    spec_add_bits(spec_mul_bits(scale, max_rand), low)
}

/// Whether a scale factor overshoots the range's high end: at or past it
/// for a half-open range, strictly past it for an inclusive one.
pub open spec fn spec_overshoots(scale: u32, max_rand: u32, low: u32, high: u32, strict: bool) -> bool {
    if strict {
        gt_bits(spec_reach(scale, max_rand, low), high)
    } else {
        ge_bits(spec_reach(scale, max_rand, low), high)
    }
}

/// The scale factor after nudging down one pattern at a time while it
/// overshoots, stopping at zero.
pub open spec fn spec_settled_scale(scale: u32, max_rand: u32, low: u32, high: u32, strict: bool) -> u32
    decreases scale,
{
    if !spec_overshoots(scale, max_rand, low, high, strict) {
        scale
    } else if scale == 0 {
        0
    } else {
        spec_settled_scale((scale - 1) as u32, max_rand, low, high, strict)
    }
}

/// The running total of a non-empty weight sequence, accumulated in order
/// from the first weight.
pub open spec fn spec_running_total(s: Seq<u32>) -> u32
    decreases s.len(),
{
    if s.len() <= 1 {
        s[0]
    } else {
        spec_add_bits(spec_running_total(s.drop_last()), s.last())
    }
}

/// The cumulative totals a weighted pick searches: entry `j` is the total
/// of the first `j + 1` weights; the full total is left off.
pub open spec fn spec_cums(s: Seq<u32>) -> Seq<u32> {
    Seq::new((s.len() - 1) as nat, |j: int| spec_running_total(s.take(j + 1)))
}

/// Whether a weight sequence can serve a weighted pick: non-empty, every
/// weight at least zero, and a total that is a positive finite value whose
/// settled scale factor no longer overshoots it.
pub open spec fn spec_weights_usable(s: Seq<u32>) -> bool {
    &&& s.len() > 0
    &&& forall|i: int| 0 <= i < s.len() ==> ge_bits(#[trigger] s[i], ZERO_BITS)
    &&& !eq_bits(spec_running_total(s), ZERO_BITS)
    &&& lt_bits(ZERO_BITS, spec_running_total(s))
    &&& is_finite_bits(spec_sub_bits(spec_running_total(s), ZERO_BITS))
    &&& !spec_overshoots(
        spec_settled_scale(
            spec_sub_bits(spec_running_total(s), ZERO_BITS),
            spec_max_rand(),
            ZERO_BITS,
            spec_running_total(s),
            false,
        ),
        spec_max_rand(),
        ZERO_BITS,
        spec_running_total(s),
        false,
    )
}

/// The index a weighted pick yields for a given draw: the unit value of
/// the draw is scaled into [0, total), and the pick is the number of
/// cumulative totals that do not exceed it.  Unusable weights yield
/// nothing.
pub open spec fn spec_pick_weighted(s: Seq<u32>, draw: u32) -> Option<int> {
    if !spec_weights_usable(s) {
        None
    } else {
        let total = spec_running_total(s);
        let scale = spec_settled_scale(
            spec_sub_bits(total, ZERO_BITS),
            spec_max_rand(),
            ZERO_BITS,
            total,
            false,
        );
        let chosen = spec_add_bits(spec_mul_bits(spec_unit_value(draw), scale), ZERO_BITS);
        Some(spec_count_at_most(spec_cums(s), chosen))
    }
}

/// How many leading entries of the cumulative totals do not exceed the
/// chosen threshold.
pub open spec fn spec_count_at_most(cum: Seq<u32>, chosen: u32) -> int
    decreases cum.len(),
{
    if cum.len() == 0 {
        0
    } else if le_bits(cum[0], chosen) {
        1 + spec_count_at_most(cum.drop_first(), chosen)
    } else {
        0
    }
}

/// Counting leading not-exceeding entries equals the position of the first
/// exceeding one.
proof fn lemma_count_at_most(cum: Seq<u32>, chosen: u32, k: int)
    requires
        0 <= k <= cum.len(),
        forall|j: int| 0 <= j < k ==> le_bits(#[trigger] cum[j], chosen),
        k == cum.len() || !le_bits(cum[k], chosen),
    ensures
        spec_count_at_most(cum, chosen) == k,
    decreases cum.len(),
{
    if cum.len() == 0 {
    } else if k == 0 {
    } else {
        assert(le_bits(cum[0], chosen));
        assert forall|j: int| 0 <= j < k - 1 implies le_bits(
            #[trigger] cum.drop_first()[j],
            chosen,
        ) by {
            assert(cum.drop_first()[j] == cum[j + 1]);
        }
        if k < cum.len() {
            assert(cum.drop_first()[k - 1] == cum[k]);
        }
        lemma_count_at_most(cum.drop_first(), chosen, k - 1);
    }
}

/// The weighted pick, as a function of one raw draw.
pub(crate) fn pick_weighted(weights: &Vec<u32>, draw: u32) -> (r: Option<usize>)
    ensures
        r matches Some(i) ==> i < weights@.len() && spec_pick_weighted(weights@, draw) == Some(
            i as int,
        ),
        r is None <==> !spec_weights_usable(weights@),
{
    let ghost s = weights@;
    let n = weights.len();
    if n == 0 {
        return None;
    }
    let mut total: u32 = weights[0];
    if !fge(total, ZERO_BITS) {
        return None;
    }
    let mut cum: Vec<u32> = Vec::new();
    let mut k: usize = 1;
    proof {
        assert(s.take(1).len() == 1);
        assert(total == spec_running_total(s.take(1)));
    }
    while k < n
        invariant
            1 <= k <= n,
            n == s.len(),
            s == weights@,
            forall|i: int| 0 <= i < k ==> ge_bits(#[trigger] s[i], ZERO_BITS),
            total == spec_running_total(s.take(k as int)),
            cum@.len() == k - 1,
            forall|j: int| 0 <= j < k - 1 ==> cum@[j] == spec_running_total(s.take(j + 1)),
        decreases n - k,
    {
        let w = weights[k];
        if !fge(w, ZERO_BITS) {
            return None;
        }
        cum.push(total);
        proof {
            assert(s.take(k + 1).drop_last() =~= s.take(k as int));
            assert(s.take(k + 1).last() == s[k as int]);
        }
        total = fadd(total, w);
        k = k + 1;
    }
    proof {
        assert(s.take(n as int) =~= s);
        assert(cum@ =~= spec_cums(s));
    }
    if feq(total, ZERO_BITS) {
        return None;
    }
    if !flt(ZERO_BITS, total) {
        return None;
    }
    let max_rand = fsub(0x3FFF_FFFFu32, ONE_BITS);
    let mut scale = fsub(total, ZERO_BITS);
    if !ffinite(scale) {
        return None;
    }
    let ghost scale0 = scale;
    while fge(fadd(fmul(scale, max_rand), ZERO_BITS), total)
        invariant
            s == weights@,
            max_rand == spec_max_rand(),
            total == spec_running_total(s),
            scale0 == spec_sub_bits(spec_running_total(s), ZERO_BITS),
            spec_settled_scale(scale, max_rand, ZERO_BITS, total, false) == spec_settled_scale(
                scale0,
                max_rand,
                ZERO_BITS,
                total,
                false,
            ),
        decreases scale,
    {
        if scale == 0 {
            // the settled scale still overshoots: the weights are unusable
            proof {
                assert(spec_overshoots(0u32, max_rand, ZERO_BITS, total, false));
                assert(spec_settled_scale(0u32, max_rand, ZERO_BITS, total, false) == 0u32);
                assert(spec_settled_scale(scale0, max_rand, ZERO_BITS, total, false) == 0u32);
                assert(!spec_weights_usable(s));
            }
            return None;
        }
        scale = scale - 1;
    }
    proof {
        assert(spec_settled_scale(scale, max_rand, ZERO_BITS, total, false) == scale);
        assert(spec_settled_scale(scale0, max_rand, ZERO_BITS, total, false) == scale);
        assert(spec_weights_usable(s));
    }
    let ghost chosen_spec = spec_add_bits(spec_mul_bits(spec_unit_value(draw), scale), ZERO_BITS);
    let value0_1 = fsub(0x3F80_0000u32 | (draw >> 9), ONE_BITS);
    let chosen = fadd(fmul(value0_1, scale), ZERO_BITS);
    let mut idx: usize = 0;
    while idx < cum.len() && fle(cum[idx], chosen)
        invariant
            idx <= cum@.len(),
            cum@.len() == n - 1,
            1 <= n,
            chosen == chosen_spec,
            forall|j: int| 0 <= j < idx ==> le_bits(#[trigger] cum@[j], chosen),
        decreases cum@.len() - idx,
    {
        idx = idx + 1;
    }
    proof {
        lemma_count_at_most(cum@, chosen, idx as int);
        assert(spec_pick_weighted(s, draw) == Some(idx as int));
    }
    Some(idx)
}

/// Weighted choice: picks an index with probability proportional to the
/// encoded weight at that index, by a single draw against the running
/// cumulative weights.  Yields nothing when the weights are unusable —
/// callers fall back to a uniform pick.
pub(crate) fn weighted_draw(rng: &mut rand_chacha::ChaCha8Rng, weights: &Vec<u32>) -> (r: Option<
    usize,
>)
    ensures
        r matches Some(i) ==> i < weights@.len() && exists|v: u32| spec_pick_weighted(
            weights@,
            v,
        ) == Some(i as int),
        r is None <==> !spec_weights_usable(weights@),
{
    let v = gen_u32(rng);
    let r = pick_weighted(weights, v);
    proof {
        if r is Some {
            assert(spec_pick_weighted(weights@, v) == Some(r->Some_0 as int));
        }
    }
    r
}

/// The settled scale factor for the inclusive range [-1, 1].
pub open spec fn spec_pm1_scale() -> u32 {
    spec_settled_scale(
        spec_div_bits(spec_sub_bits(ONE_BITS, NEG_ONE_BITS), spec_max_rand()),
        spec_max_rand(),
        NEG_ONE_BITS,
        ONE_BITS,
        true,
    )
}

/// The value in [-1, 1] that one raw draw maps to: the draw's unit value
/// under the settled scale, shifted down by one.
pub open spec fn spec_pm1_value(draw: u32) -> u32 {
    spec_add_bits(spec_mul_bits(spec_unit_value(draw), spec_pm1_scale()), NEG_ONE_BITS)
}

/// The inclusive-range transform, as a function of one raw draw.
pub(crate) fn unit_range_value(draw: u32) -> (r: u32)
    ensures
        r == spec_pm1_value(draw),
{
    // the largest drawable value in [1, 2) — every fraction bit set — less one
    let max_rand = fsub(0x3FFF_FFFFu32, ONE_BITS);
    let mut scale = fdiv(fsub(ONE_BITS, NEG_ONE_BITS), max_rand);
    let ghost scale0 = scale;
    while scale != 0 && fgt(fadd(fmul(scale, max_rand), NEG_ONE_BITS), ONE_BITS)
        invariant
            max_rand == spec_max_rand(),
            spec_settled_scale(scale, max_rand, NEG_ONE_BITS, ONE_BITS, true) == spec_settled_scale(
                scale0,
                max_rand,
                NEG_ONE_BITS,
                ONE_BITS,
                true,
            ),
        decreases scale,
    {
        scale = scale - 1;
    }
    proof {
        assert(spec_settled_scale(0u32, max_rand, NEG_ONE_BITS, ONE_BITS, true) == 0u32);
        assert(spec_settled_scale(scale, max_rand, NEG_ONE_BITS, ONE_BITS, true) == scale);
        assert(scale == spec_pm1_scale());
    }
    fadd(fmul(fsub(0x3F80_0000u32 | (draw >> 9), ONE_BITS), scale), NEG_ONE_BITS)
}

/// One uniformly distributed value from the inclusive range [-1, 1].
pub(crate) fn draw_pm1(rng: &mut rand_chacha::ChaCha8Rng) -> (r: u32)
    ensures
        exists|v: u32| r == spec_pm1_value(v),
{
    let v = gen_u32(rng);
    let r = unit_range_value(v);
    proof {
        assert(r == spec_pm1_value(v));
    }
    r
}

} // verus!
