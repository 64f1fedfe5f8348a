//! The modulation engine: combines four wow oscillators and seven flutter
//! generators into the per-tap delay-offset modulation.  Raising the bounded
//! generator outputs to even powers yields a smoothly varying, non-negative
//! jitter envelope; the exponents and weights are tuned constants.
use vstd::prelude::*;
use crate::fixed::{
    spec_mul, spec_add, spec_pow4, spec_pow6, spec_pow8, spec_pow12, spec_pow16, fmul, fadd,
    fpow4, fpow6, fpow8, fpow12, fpow16,
};

verus! {

/// Spike flutter: five triangle generators raised to the powers 4, 6, 8, 12
/// and 16, weighted 0.1, 0.325, 0.55, 0.775 and 1.0, summed, scaled by 10.
pub open spec fn spec_spike_flutter(t1: int, t2: int, t3: int, t4: int, t5: int) -> int {
    spec_mul(
        spec_add(
            spec_add(
                spec_add(
                    spec_add(
                        spec_mul(spec_pow4(t1), 100_000),
                        spec_mul(spec_pow6(t2), 325_000),
                    ),
                    spec_mul(spec_pow8(t3), 550_000),
                ),
                spec_mul(spec_pow12(t4), 775_000),
            ),
            spec_pow16(t5),
        ),
        10_000_000,
    )
}

/// Rotor flutter: two sine generators raised to the fourth power, summed,
/// weighted 0.333.
pub open spec fn spec_rotor_flutter(s1: int, s2: int) -> int {
    spec_mul(spec_add(spec_pow4(s1), spec_pow4(s2)), 333_000)
}

/// Total flutter: the spike and rotor branches added.
pub open spec fn spec_total_flutter(t1: int, t2: int, t3: int, t4: int, t5: int, s1: int, s2: int) -> int {
    spec_add(spec_spike_flutter(t1, t2, t3, t4, t5), spec_rotor_flutter(s1, s2))
}

/// Wow modulation for one tap: `vibe * wow^4 * tap_gain`.  The fourth power
/// removes the sign and biases the wobble toward zero with occasional spikes.
pub open spec fn spec_wow(vibe: int, osc: int, tap_gain: int) -> int {
    spec_mul(spec_mul(vibe, spec_pow4(osc)), tap_gain)
}

/// A tap's delay offset: its base position, plus the wow modulation, plus the
/// total flutter scaled by the flutter depth.
pub open spec fn spec_tap_offset(
    base: int,
    vibe: int,
    osc: int,
    tap_gain: int,
    flutter: int,
    depth: int,
) -> int {
    spec_add(spec_add(base, spec_wow(vibe, osc, tap_gain)), spec_mul(flutter, depth))
}

/// Combine the seven flutter generator outputs of one sample.
pub fn total_flutter(t1: i64, t2: i64, t3: i64, t4: i64, t5: i64, s1: i64, s2: i64) -> (r: i64)
    ensures
        r == spec_total_flutter(
            t1 as int,
            t2 as int,
            t3 as int,
            t4 as int,
            t5 as int,
            s1 as int,
            s2 as int,
        ),
{
    let spike: i64 = fmul(
        fadd(
            fadd(
                fadd(
                    fadd(fmul(fpow4(t1), 100_000), fmul(fpow6(t2), 325_000)),
                    fmul(fpow8(t3), 550_000),
                ),
                fmul(fpow12(t4), 775_000),
            ),
            fpow16(t5),
        ),
        10_000_000,
    );
    let rotor: i64 = fmul(fadd(fpow4(s1), fpow4(s2)), 333_000);
    fadd(spike, rotor)
}

/// Compute a tap's modulated delay offset for one sample.
pub fn tap_offset(base: i64, vibe: i64, osc: i64, tap_gain: i64, flutter: i64, depth: i64) -> (r: i64)
    ensures
        r == spec_tap_offset(
            base as int,
            vibe as int,
            osc as int,
            tap_gain as int,
            flutter as int,
            depth as int,
        ),
{
    let wow: i64 = fmul(fmul(vibe, fpow4(osc)), tap_gain);
    fadd(fadd(base, wow), fmul(flutter, depth))
}

} // verus!
