//! DC blocking for the feedback path: a one-pole, one-zero high-pass that
//! removes sub-audio offset so the loop cannot accumulate a bias.  In this
//! integer signal domain there are no denormal numbers, so the denormal
//! dither that follows the blocker in the analog-modelled chain reduces to
//! the identity and needs no stage of its own.
use vstd::prelude::*;
use crate::fixed::{spec_mul, spec_add, spec_sub, fmul, fadd, fsub, lemma_mul_zero};

verus! {

/// Pole constant of the blocker: how much of the previous output survives.
pub const DC_POLE: i64 = 995_000;

/// One blocking step: `y = x - x_prev + pole * y_prev`.
pub open spec fn spec_dcblock(x: int, x_prev: int, y_prev: int) -> int {
    spec_add(spec_sub(x, x_prev), spec_mul(DC_POLE as int, y_prev))
}

/// A DC blocker's state: the previous input and output samples.
pub struct DcBlock {
    pub x_prev: i64,
    pub y_prev: i64,
}

impl DcBlock {
    /// A blocker at rest.
    pub fn new() -> (r: Self)
        ensures
            r.at_rest(),
    {
        DcBlock { x_prev: 0, y_prev: 0 }
    }

    /// Both memory samples are zero.
    pub open spec fn at_rest(&self) -> bool {
        self.x_prev == 0 && self.y_prev == 0
    }

    /// Advance the blocker by one sample.
    pub fn step(&mut self, x: i64) -> (y: i64)
        ensures
            y == spec_dcblock(x as int, old(self).x_prev as int, old(self).y_prev as int),
            final(self).x_prev == x,
            final(self).y_prev == y,
    {
        let y: i64 = fadd(fsub(x, self.x_prev), fmul(DC_POLE, self.y_prev));
        self.x_prev = x;
        self.y_prev = y;
        y
    }
}

/// A resting blocker maps a zero sample to zero and stays at rest: silence
/// in, silence out, with no decaying residue.
pub proof fn lemma_dcblock_silent()
    ensures
        spec_dcblock(0, 0, 0) == 0,
{
    lemma_mul_zero(DC_POLE as int);
}

} // verus!
