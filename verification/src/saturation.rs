//! The saturation stage: the input is driven into the external hysteresis
//! saturator pre-scaled by the drive amount and rescaled by its inverse
//! afterwards, so the nonlinearity's operating point stays put across the
//! saturation control's range — intensity is decoupled from loudness.
use vstd::prelude::*;
use crate::fixed::{
    SCALE, spec_mul, spec_div, spec_abs, fmul, fdiv, lemma_mul_odd, lemma_div_odd,
    lemma_fixed_nonneg,
};
use vstd::arithmetic::div_mod::{
    lemma_fundamental_div_mod, lemma_mod_bound, lemma_div_is_ordered, lemma_div_multiples_vanish,
    lemma_div_pos_is_pos,
};

verus! {

/// Drive the input toward the saturator: pre-scale by the drive amount.
pub fn sat_drive(x: i64, sat: i64) -> (r: i64)
    ensures
        r == spec_mul(x as int, sat as int),
{
    fmul(x, sat)
}

/// Restore the saturator's output: rescale by the inverse of the drive.
pub fn sat_restore(y: i64, sat: i64) -> (r: i64)
    ensures
        r == spec_div(y as int, sat as int),
{
    fdiv(y, sat)
}

/// The drive/restore scaling around the saturator is odd-symmetric about
/// zero: when the saturator is the pure unity pass — what it reduces to at
/// zero squareness — negating the input negates the stage's output.
pub proof fn lemma_sat_stage_odd(x: int, sat: int)
    ensures
        spec_div(spec_mul(-x, sat), sat) == -spec_div(spec_mul(x, sat), sat),
{
    lemma_mul_odd(x, sat);
    lemma_div_odd(spec_mul(x, sat), sat);
}

proof fn lemma_mul_le_mono(a: int, b: int, c: int) by (nonlinear_arith)
    requires
        a <= b,
        0 <= c,
    ensures
        a * c <= b * c,
{
}

/// The saturation stage never amplifies: whenever the saturator's response is
/// passive — its output magnitude at most its driven input's — the restored
/// output's magnitude is at most the stage input's.
pub proof fn lemma_sat_stage_compresses(x: int, sat: int, h: int)
    requires
        0 < sat,
        spec_abs(h) <= spec_abs(spec_mul(x, sat)),
    ensures
        spec_abs(spec_div(h, sat)) <= spec_abs(x),
{
    let ax = spec_abs(x);
    let m = spec_abs(h);
    // the driven magnitude is the magnitude driven
    lemma_fixed_nonneg(ax, sat);
    if x < 0 {
        lemma_mul_odd(ax, sat);
    }
    assert(spec_abs(spec_mul(x, sat)) == spec_mul(ax, sat));
    // the driven magnitude is under the unclipped quotient
    assert(0 <= ax * sat) by (nonlinear_arith)
        requires
            0 <= ax,
            0 < sat,
    ;
    let q = (ax * sat) / (SCALE as int);
    lemma_div_pos_is_pos(ax * sat, SCALE as int);
    assert(spec_mul(ax, sat) <= q);
    assert(m <= q);
    // the restored magnitude is the magnitude restored
    lemma_fixed_nonneg(m, sat);
    if h < 0 {
        lemma_div_odd(m, sat);
    }
    assert(spec_abs(spec_div(h, sat)) == spec_div(m, sat));
    // m * SCALE <= q * SCALE <= ax * sat
    lemma_mul_le_mono(m, q, SCALE as int);
    lemma_fundamental_div_mod(ax * sat, SCALE as int);
    lemma_mod_bound(ax * sat, SCALE as int);
    assert((SCALE as int) * q == q * (SCALE as int)) by (nonlinear_arith);
    assert(q * (SCALE as int) <= ax * sat);
    // hence the restored quotient is at most ax
    assert(0 <= m * SCALE) by (nonlinear_arith)
        requires
            0 <= m,
    ;
    lemma_div_is_ordered(m * SCALE, ax * sat, sat);
    lemma_div_multiples_vanish(ax, sat);
    assert(sat * ax == ax * sat) by (nonlinear_arith);
    lemma_div_pos_is_pos(m * SCALE, sat);
    assert(spec_div(m, sat) <= ax);
}

} // verus!
