//! The macro mapper: a pure function from the smoothed macro controls (and
//! the raw pitch-mode control) to the micro-parameters the DSP stages consume.
//! It owns no state; every sample recomputes every output from its inputs.
use vstd::prelude::*;
use crate::fixed::{spec_mul, spec_add, spec_sub, spec_pow4, fmul, fadd, fsub, fpow4};
use crate::pitch::{spec_pitch_bucket, spec_pitch_table, pitch_shifts};

verus! {

/// Delay time in fixed-point milliseconds: `time * 4450 + 50`, spanning
/// 50 ms to 4.5 s over the control's nominal range.
pub open spec fn spec_time_ms(time: int) -> int {
    spec_add(spec_mul(time, 4_450_000_000), 50_000_000)
}

/// Flutter depth: the age control squared.
pub open spec fn spec_flutter_depth(age: int) -> int {
    spec_mul(age, age)
}

/// Saturation drive: the raw control rescaled to `raw * 2 + 0.25`.
pub open spec fn spec_sat_drive(sat_raw: int) -> int {
    spec_add(spec_mul(sat_raw, 2_000_000), 250_000)
}

/// Hysteresis squareness: `0.8 - sat * 0.8`.
pub open spec fn spec_squareness(sat: int) -> int {
    spec_sub(800_000, spec_mul(sat, 800_000))
}

/// Hysteresis coercivity: `sat * 0.1`.
pub open spec fn spec_coercivity(sat: int) -> int {
    spec_mul(sat, 100_000)
}

/// Tone cutoff in fixed-point hertz: the smoothed tone control raised to the
/// fourth power, scaled to an 18 kHz ceiling.
pub open spec fn spec_tone_cutoff(tone: int) -> int {
    spec_mul(spec_pow4(tone), 18_000_000_000)
}

/// Feedback gain: the feedback control scaled by 0.95, keeping the loop
/// short of unity.
pub open spec fn spec_feedback_gain(fb: int) -> int {
    spec_mul(fb, 950_000)
}

/// Dry gain: `1 - wet + 2`.  This is not a complementary crossfade with the
/// wet gain; the constant offset is part of the effect's stated behaviour.
pub open spec fn spec_dry_gain(wet: int) -> int {
    spec_add(spec_sub(1_000_000, wet), 2_000_000)
}

/// The micro-parameters one sample of the chain consumes.
pub struct MicroParams {
    pub time_ms: i64,
    pub flutter_depth: i64,
    pub drop_amount: i64,
    pub sat: i64,
    pub squareness: i64,
    pub coercivity: i64,
    pub tone_cutoff_hz: i64,
    pub shift_l: i64,
    pub shift_r: i64,
    pub feedback_gain: i64,
    pub dry_gain: i64,
    pub wet_gain: i64,
}

/// Map the smoothed macro controls, and the raw pitch-mode control, to the
/// micro-parameters.  Pure: no state is read or carried between calls.
pub fn macro_map(
    time: i64,
    age: i64,
    tone: i64,
    pitch_raw: i64,
    fb: i64,
    sat_raw: i64,
    wet: i64,
) -> (m: MicroParams)
    ensures
        m.time_ms == spec_time_ms(time as int),
        m.flutter_depth == spec_flutter_depth(age as int),
        m.drop_amount == age,
        m.sat == spec_sat_drive(sat_raw as int),
        m.squareness == spec_squareness(m.sat as int),
        m.coercivity == spec_coercivity(m.sat as int),
        m.tone_cutoff_hz == spec_tone_cutoff(tone as int),
        (m.shift_l as int, m.shift_r as int) == spec_pitch_table(spec_pitch_bucket(pitch_raw as int)),
        m.feedback_gain == spec_feedback_gain(fb as int),
        m.dry_gain == spec_dry_gain(wet as int),
        m.wet_gain == wet,
{
    let sat: i64 = fadd(fmul(sat_raw, 2_000_000), 250_000);
    let shifts: (i64, i64) = pitch_shifts(pitch_raw);
    MicroParams {
        time_ms: fadd(fmul(time, 4_450_000_000), 50_000_000),
        flutter_depth: fmul(age, age),
        drop_amount: age,
        sat,
        squareness: fsub(800_000, fmul(sat, 800_000)),
        coercivity: fmul(sat, 100_000),
        tone_cutoff_hz: fmul(fpow4(tone), 18_000_000_000),
        shift_l: shifts.0,
        shift_r: shifts.1,
        feedback_gain: fmul(fb, 950_000),
        dry_gain: fadd(fsub(1_000_000, wet), 2_000_000),
        wet_gain: wet,
    }
}

} // verus!
