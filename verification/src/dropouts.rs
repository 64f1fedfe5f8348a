//! The dropout engine: a stochastic amplitude modulator simulating tape
//! signal loss.  Two externally stepped smoothed-random sources are averaged,
//! their magnitude is twice square-rooted — biasing the multiplier toward one
//! with occasional dips toward zero — and the result scales the input.  The
//! stage's output is then crossfaded with the dry signal by the dropout
//! amount, so a zero amount passes the signal through untouched.
use vstd::prelude::*;
use crate::fixed::{
    SCALE, CLIP, spec_mul, spec_add, spec_sub, spec_abs, spec_sqrt, spec_isqrt, fmul, fadd, fsub,
    fabs, fsqrt, lemma_mul_unit, lemma_mul_zero, lemma_isqrt_le, lemma_fraction_attenuates,
};

verus! {

/// The dropout multiplier from one sample of the two noise sources: their
/// average's magnitude, square-rooted twice.
pub open spec fn spec_drop_mult(n1: int, n2: int) -> int {
    spec_sqrt(spec_sqrt(spec_abs(spec_mul(spec_add(n1, n2), 500_000))))
}

/// Linear crossfade from `a` (at `x == 0`) to `b` (at `x == 1`).
pub open spec fn spec_xfade(a: int, x: int, b: int) -> int {
    spec_add(spec_mul(a, spec_sub(1_000_000, x)), spec_mul(b, x))
}

/// One full dropout stage on an input sample: the modulated signal crossfaded
/// with the dry signal by the dropout amount.
pub open spec fn spec_dropout_stage(input: int, amount: int, n1: int, n2: int) -> int {
    spec_xfade(input, amount, spec_mul(spec_drop_mult(n1, n2), input))
}

/// With a zero dropout amount the stage returns its input exactly, whatever
/// the noise sources produced: the crossfade identity.
pub proof fn lemma_dropout_bypass(input: int, n1: int, n2: int)
    requires
        -CLIP <= input <= CLIP,
    ensures
        spec_dropout_stage(input, 0, n1, n2) == input,
{
    lemma_mul_unit(input);
    lemma_mul_zero(spec_mul(spec_drop_mult(n1, n2), input));
}

/// With the noise sources inside their unit range, the dropout multiplier
/// lies in `[0, 1]`: mostly transparent, dipping toward zero, never a gain.
pub proof fn lemma_drop_mult_bounded(n1: int, n2: int)
    requires
        -(SCALE as int) <= n1 <= SCALE,
        -(SCALE as int) <= n2 <= SCALE,
    ensures
        0 <= spec_drop_mult(n1, n2) <= SCALE,
{
    let s = spec_add(n1, n2);
    let sa = spec_abs(s);
    // the averaged magnitude is at most the unit
    assert(0 <= sa * 500_000 <= 2_000_000 * 500_000) by (nonlinear_arith)
        requires
            0 <= sa <= 2_000_000,
    ;
    vstd::arithmetic::div_mod::lemma_div_pos_is_pos(sa * 500_000, SCALE as int);
    vstd::arithmetic::div_mod::lemma_div_is_ordered(
        sa * 500_000,
        2_000_000int * 500_000,
        SCALE as int,
    );
    vstd::arithmetic::div_mod::lemma_div_multiples_vanish(SCALE as int, SCALE as int);
    if s < 0 {
        assert(s * 500_000 == -(sa * 500_000)) by (nonlinear_arith)
            requires
                sa == -s,
        ;
    }
    let a = spec_abs(spec_mul(s, 500_000));
    assert(0 <= a <= SCALE);
    // each square root of a unit-bounded value stays unit-bounded
    assert(a * SCALE < (SCALE as int + 1) * (SCALE as int + 1)) by (nonlinear_arith)
        requires
            0 <= a <= SCALE as int,
            SCALE as int == 1_000_000,
    ;
    lemma_isqrt_le(a * SCALE, SCALE as int);
    let r1 = spec_isqrt(a * SCALE);
    assert(r1 * SCALE < (SCALE as int + 1) * (SCALE as int + 1)) by (nonlinear_arith)
        requires
            0 <= r1 <= SCALE as int,
            SCALE as int == 1_000_000,
    ;
    lemma_isqrt_le(r1 * SCALE, SCALE as int);
}

/// The dropout modulation can only attenuate: with unit-range noise the
/// modulated signal's magnitude never exceeds the input's.
pub proof fn lemma_dropout_attenuates(input: int, n1: int, n2: int)
    requires
        -(SCALE as int) <= n1 <= SCALE,
        -(SCALE as int) <= n2 <= SCALE,
    ensures
        spec_abs(spec_mul(spec_drop_mult(n1, n2), input)) <= spec_abs(input),
{
    lemma_drop_mult_bounded(n1, n2);
    lemma_fraction_attenuates(spec_drop_mult(n1, n2), input);
}

/// Linear crossfade between two fixed-point signals.
pub fn xfade(a: i64, x: i64, b: i64) -> (r: i64)
    ensures
        r == spec_xfade(a as int, x as int, b as int),
{
    fadd(fmul(a, fsub(1_000_000, x)), fmul(b, x))
}

/// The dropout modulator for one channel.  The smoothed-random sources
/// themselves live with the host; their fixed irrational frequencies are
/// calibration constants carried here, in fixed-point hertz.
pub struct Dropouts {
    pub freq_1: i64,
    pub freq_2: i64,
}

impl Dropouts {
    /// A fresh modulator with the two fixed generator frequencies,
    /// mutually irrational so the sources never phase-lock.
    pub fn new() -> (r: Self)
        ensures
            r.freq_1 == 7_047_397,
            r.freq_2 == 11_149_467,
    {
        Dropouts { freq_1: 7_047_397, freq_2: 11_149_467 }
    }

    /// Retune for a sample rate.  The generator frequencies are absolute and
    /// do not depend on the rate, so the modulator is left unchanged.
    pub fn set_sr(&mut self, _sr: i64)
        ensures
            *final(self) == *old(self),
    {
    }

    /// Scale an input sample by the dropout multiplier computed from one
    /// sample of each noise source.
    pub fn step(&self, input: i64, n1: i64, n2: i64) -> (r: i64)
        ensures
            r == spec_mul(spec_drop_mult(n1 as int, n2 as int), input as int),
    {
        let avg: i64 = fmul(fadd(n1, n2), 500_000);
        let mult: i64 = fsqrt(fsqrt(fabs(avg)));
        fmul(mult, input)
    }
}

} // verus!
