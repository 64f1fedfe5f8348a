//! The pitch/read-head engine: two wrap-around read positions per stereo
//! pair.  With no pitch shift selected the positions are pinned to the delay
//! time scaled by the channel's period constant; with a shift selected they
//! slide each sample and wrap by a single correction step — deliberately not
//! a full modulo, so a slide larger than the period under- or over-corrects,
//! a known boundary trait of the emulation.
use vstd::prelude::*;
use crate::fixed::{CLIP, spec_mul, spec_add, spec_sub, spec_div, spec_abs, fmul, fadd, fsub, fdiv};

verus! {

/// Natural logarithm of two, in fixed point: the left channel's period
/// constant; the right channel uses its square.
pub const LN2: i64 = 693_147;

/// Left-channel wrap period: `time_ms * ln 2`.
pub open spec fn spec_left_period(time_ms: int) -> int {
    spec_mul(time_ms, LN2 as int)
}

/// Right-channel wrap period: `time_ms * ln 2 * ln 2`.
pub open spec fn spec_right_period(time_ms: int) -> int {
    spec_mul(spec_mul(time_ms, LN2 as int), LN2 as int)
}

/// Distance a read head slides per sample: `shift / rate * 1000`, the shift
/// ratio turned into milliseconds of tape per sample.
pub open spec fn spec_slide_step(shift: int, rate: int) -> int {
    spec_mul(spec_div(shift, rate), 1_000_000_000)
}

/// One sliding update: decrement by the slide step, then wrap by adding the
/// period if the position fell below zero, and by subtracting it once if the
/// result then exceeds the period.
pub open spec fn spec_slide(pos: int, shift: int, rate: int, period: int) -> int {
    let moved = spec_sub(pos, spec_slide_step(shift, rate));
    let lifted = if moved < 0 {
        spec_add(moved, period)
    } else {
        moved
    };
    if lifted > period {
        spec_sub(lifted, period)
    } else {
        lifted
    }
}

/// The single-step wrap keeps a sliding read position inside its period
/// whenever one sample's slide does not exceed the period — the boundary
/// condition the wrap scheme is stated under.  A slide larger than the
/// period under- or over-corrects by design.
pub proof fn lemma_slide_stays_in_period(pos: int, shift: int, rate: int, period: int)
    requires
        0 <= pos <= period,
        period <= CLIP as int / 2,
        spec_abs(spec_slide_step(shift, rate)) <= period,
    ensures
        0 <= spec_slide(pos, shift, rate, period) <= period,
{
}

/// The two per-channel read positions, in fixed-point milliseconds.
pub struct ReadHeads {
    pub left_pos: i64,
    pub right_pos: i64,
}

fn slide(pos: i64, shift: i64, rate: i64, period: i64) -> (r: i64)
    ensures
        r == spec_slide(pos as int, shift as int, rate as int, period as int),
{
    let step: i64 = fmul(fdiv(shift, rate), 1_000_000_000);
    let mut p: i64 = fsub(pos, step);
    if p < 0 {
        p = fadd(p, period);
    }
    if p > period {
        p = fsub(p, period);
    }
    p
}

impl ReadHeads {
    /// Fresh read heads at the tape's origin.
    pub fn new() -> (r: Self)
        ensures
            r.left_pos == 0,
            r.right_pos == 0,
    {
        ReadHeads { left_pos: 0, right_pos: 0 }
    }

    /// Advance both read heads by one sample.  With both shift ratios zero
    /// the heads are pinned to the channel periods of the current delay time
    /// — the static-state invariant; with either nonzero, both heads slide
    /// and wrap.  The branch is shared, not per-channel.
    pub fn advance(&mut self, shift_l: i64, shift_r: i64, time_ms: i64, rate: i64)
        ensures
            shift_l == 0 && shift_r == 0 ==> {
                &&& final(self).left_pos == spec_left_period(time_ms as int)
                &&& final(self).right_pos == spec_right_period(time_ms as int)
            },
            shift_l != 0 || shift_r != 0 ==> {
                &&& final(self).left_pos == spec_slide(
                    old(self).left_pos as int,
                    shift_l as int,
                    rate as int,
                    spec_left_period(time_ms as int),
                )
                &&& final(self).right_pos == spec_slide(
                    old(self).right_pos as int,
                    shift_r as int,
                    rate as int,
                    spec_right_period(time_ms as int),
                )
            },
    {
        let left_period: i64 = fmul(time_ms, LN2);
        let right_period: i64 = fmul(left_period, LN2);
        if shift_l != 0 || shift_r != 0 {
            self.left_pos = slide(self.left_pos, shift_l, rate, left_period);
            self.right_pos = slide(self.right_pos, shift_r, rate, right_period);
        } else {
            self.left_pos = left_period;
            self.right_pos = right_period;
        }
    }
}

} // verus!
