//! One-pole low-pass parameter smoothing: each stepped UI control is pulled
//! toward its target by a fixed fraction of the remaining gap every sample,
//! turning stepped values into click-free control signals.
use vstd::prelude::*;
use crate::fixed::{SCALE, CLIP, spec_mul, spec_add, spec_sub, spec_div, fmul, fadd, fsub, fdiv};

verus! {

/// Two pi in fixed point.
pub const TAU: i64 = 6_283_185;

/// One smoothing step: the state moves toward the input by the coefficient's
/// fraction of the gap.
pub open spec fn spec_onepole(coeff: int, state: int, x: int) -> int {
    spec_add(state, spec_mul(coeff, spec_sub(x, state)))
}

/// The smoothing coefficient for a cutoff frequency at a sample rate, both in
/// fixed-point hertz: with `w = 2*pi*cutoff/rate`, the coefficient is
/// `w / (w + 1)`, which always lies in `[0, 1]`.
pub open spec fn spec_coeff_for_cutoff(cutoff: int, rate: int) -> int {
    spec_div(spec_div(spec_mul(TAU as int, cutoff), rate), spec_add(spec_div(spec_mul(TAU as int, cutoff), rate), SCALE as int))
}

proof fn lemma_div_le(a: int, b: int, c: int) by (nonlinear_arith)
    requires
        0 < b,
        0 <= a,
        a <= b * c,
    ensures
        a / b <= c,
{
}

proof fn lemma_mul_nonneg(a: int, b: int) by (nonlinear_arith)
    requires
        0 <= a,
        0 <= b,
    ensures
        0 <= a * b,
{
}

/// Smoothing never overshoots: one step lands between the previous state and
/// the target, so a control signal moves toward each new value monotonically
/// and click-free, whatever the coefficient.
pub proof fn lemma_onepole_no_overshoot(coeff: int, state: int, x: int)
    requires
        0 <= coeff <= SCALE,
        -CLIP <= state <= CLIP,
        -CLIP <= x <= CLIP,
    ensures
        state <= x ==> state <= spec_onepole(coeff, state, x) <= x,
        x <= state ==> x <= spec_onepole(coeff, state, x) <= state,
{
    let g = x - state;
    let gap = spec_sub(x, state);
    if g >= 0 {
        assert(coeff * gap <= SCALE * gap) by (nonlinear_arith)
            requires
                0 <= coeff <= SCALE,
                0 <= gap,
        ;
        lemma_mul_nonneg(coeff, gap);
        vstd::arithmetic::div_mod::lemma_div_pos_is_pos(coeff * gap, SCALE as int);
        vstd::arithmetic::div_mod::lemma_div_is_ordered(coeff * gap, SCALE * gap, SCALE as int);
        vstd::arithmetic::div_mod::lemma_div_multiples_vanish(gap, SCALE as int);
        assert(SCALE * gap == gap * SCALE) by (nonlinear_arith);
    } else {
        assert(SCALE * (-gap) >= coeff * (-gap)) by (nonlinear_arith)
            requires
                0 <= coeff <= SCALE,
                0 <= -gap,
        ;
        lemma_mul_nonneg(coeff, -gap);
        vstd::arithmetic::div_mod::lemma_div_pos_is_pos(coeff * (-gap), SCALE as int);
        vstd::arithmetic::div_mod::lemma_div_is_ordered(
            coeff * (-gap),
            SCALE * (-gap),
            SCALE as int,
        );
        vstd::arithmetic::div_mod::lemma_div_multiples_vanish(-gap, SCALE as int);
        assert(SCALE * -gap == -gap * SCALE) by (nonlinear_arith);
        assert(coeff * gap == -(coeff * (-gap))) by (nonlinear_arith);
    }
}

/// A one-pole low-pass filter on fixed-point control values.
pub struct OnePole {
    pub coeff: i64,
    pub state: i64,
}

impl OnePole {
    /// A coefficient is a fraction of one; the state stays representable.
    pub open spec fn wf(&self) -> bool {
        &&& 0 <= self.coeff <= SCALE
        &&& -CLIP <= self.state <= CLIP
    }

    /// A fresh filter at rest with no smoothing configured.
    pub fn new() -> (r: Self)
        ensures
            r.wf(),
            r.coeff == 0,
            r.state == 0,
    {
        OnePole { coeff: 0, state: 0 }
    }

    /// Retune the filter; the state carries over.
    pub fn set_coeff(&mut self, c: i64)
        requires
            old(self).wf(),
            0 <= c <= SCALE,
        ensures
            final(self).wf(),
            final(self).coeff == c,
            final(self).state == old(self).state,
    {
        self.coeff = c;
    }

    /// Advance the filter by one sample.
    pub fn step(&mut self, x: i64) -> (y: i64)
        requires
            old(self).wf(),
        ensures
            final(self).wf(),
            final(self).coeff == old(self).coeff,
            final(self).state == spec_onepole(old(self).coeff as int, old(self).state as int, x as int),
            y == final(self).state,
    {
        let gap: i64 = fsub(x, self.state);
        let delta: i64 = fmul(self.coeff, gap);
        self.state = fadd(self.state, delta);
        self.state
    }
}

/// Compute the smoothing coefficient for a cutoff frequency at a sample rate,
/// both in fixed-point hertz.
pub fn coeff_for_cutoff(cutoff: i64, rate: i64) -> (c: i64)
    requires
        0 <= cutoff,
        0 < rate,
    ensures
        c == spec_coeff_for_cutoff(cutoff as int, rate as int),
        0 <= c <= SCALE,
{
    let w: i64 = fdiv(fmul(TAU, cutoff), rate);
    proof {
        crate::fixed::lemma_fixed_nonneg(TAU as int, cutoff as int);
        crate::fixed::lemma_fixed_nonneg(spec_mul(TAU as int, cutoff as int), rate as int);
    }
    let d: i64 = fadd(w, SCALE);
    proof {
        assert(0 < d && w <= d);
        assert((w as int) * (SCALE as int) <= (d as int) * (SCALE as int)) by (nonlinear_arith)
            requires
                0 <= w as int <= d as int,
        ;
        lemma_mul_nonneg(w as int, SCALE as int);
        lemma_div_le((w as int) * (SCALE as int), d as int, SCALE as int);
        vstd::arithmetic::div_mod::lemma_div_pos_is_pos((w as int) * (SCALE as int), d as int);
    }
    fdiv(w, d)
}

} // verus!
