//! The per-sample orchestration engine.  Each audio frame runs in three
//! phases around the external DSP collaborators:
//!
//! 1. `sample_begin` — smooth the macro controls, map them to
//!    micro-parameters, advance the read heads, compute the four modulated
//!    tap offsets, and drive the (feedback-summed) inputs toward the
//!    hysteresis saturator.
//! 2. The host configures the saturator with the plan's squareness and
//!    coercivity and steps it on the driven samples; `sample_mid` restores
//!    the saturated samples and applies the dropout stage, yielding what the
//!    host feeds the delay lines and tone filters.
//! 3. The host steps delay and tone; `sample_end` conditions the wet samples
//!    into the next-sample feedback accumulators and mixes the stereo output.
//!
//! Every phase's result is a spec function of the state before it and the
//! values handed in: the engine holds no hidden state and draws on no source
//! of nondeterminism of its own.
use vstd::prelude::*;
use crate::fixed::{
    spec_mul, spec_add, spec_div, fmul, fadd, lemma_mul_zero,
};
use crate::params::EffectParameters;
use crate::pitch::{spec_pitch_bucket, spec_pitch_table};
use crate::smooth::{OnePole, spec_onepole, spec_coeff_for_cutoff, coeff_for_cutoff};
use crate::mapper::{
    MicroParams, macro_map, spec_time_ms, spec_flutter_depth, spec_sat_drive, spec_squareness,
    spec_coercivity, spec_tone_cutoff, spec_feedback_gain, spec_dry_gain,
};
use crate::modulation::{spec_total_flutter, spec_tap_offset, total_flutter, tap_offset};
use crate::dropouts::{Dropouts, spec_dropout_stage, xfade};
use crate::readhead::{ReadHeads, spec_left_period, spec_right_period, spec_slide};
use crate::dcblock::{DcBlock, spec_dcblock, lemma_dcblock_silent};
use crate::saturation::{sat_drive, sat_restore};

verus! {

/// Modulation-source outputs for one sample, handed in by the host: four wow
/// oscillators, five asymmetric-triangle and two sine flutter generators.
pub struct OscFrame {
    pub wow_1: i64,
    pub wow_2: i64,
    pub wow_3: i64,
    pub wow_4: i64,
    pub tri_1: i64,
    pub tri_2: i64,
    pub tri_3: i64,
    pub tri_4: i64,
    pub tri_5: i64,
    pub sin_1: i64,
    pub sin_2: i64,
}

/// What the control phase of one sample settles: the micro-parameters, the
/// four modulated tap offsets, and the dry and saturator-driven samples.
pub struct SamplePlan {
    pub micro: MicroParams,
    pub offset_l_1: i64,
    pub offset_l_2: i64,
    pub offset_r_1: i64,
    pub offset_r_2: i64,
    pub dry_l: i64,
    pub dry_r: i64,
    pub pre_l: i64,
    pub pre_r: i64,
}

/// The fixed oscillator frequencies the host must give its modulation
/// sources, in fixed-point hertz: mutually irrational ratios, so no pair
/// ever phase-locks into an audible periodic beat.
pub struct OscSetup {
    pub wow_1: i64,
    pub wow_2: i64,
    pub wow_3: i64,
    pub wow_4: i64,
    pub tri_1: i64,
    pub tri_2: i64,
    pub tri_3: i64,
    pub tri_4: i64,
    pub tri_5: i64,
    pub sin_1: i64,
    pub sin_2: i64,
}

/// The engine state owned by the audio thread.
pub struct Effect {
    pub params: EffectParameters,
    pub sample_rate: i64,
    pub smooth_time: OnePole,
    pub smooth_vibe: OnePole,
    pub smooth_age: OnePole,
    pub smooth_tone: OnePole,
    pub smooth_pitch: OnePole,
    pub smooth_feedback: OnePole,
    pub smooth_sat: OnePole,
    pub smooth_wet: OnePole,
    pub heads: ReadHeads,
    pub dc_block_l: DcBlock,
    pub dc_block_r: DcBlock,
    pub drop_l: Dropouts,
    pub drop_r: Dropouts,
    pub fb_l: i64,
    pub fb_r: i64,
}

/// Smoothed value of the time control for the sample being computed.
pub open spec fn s_time(e: Effect) -> int {
    spec_onepole(e.smooth_time.coeff as int, e.smooth_time.state as int, e.params@[0] as int)
}

/// Smoothed value of the vibe control.
pub open spec fn s_vibe(e: Effect) -> int {
    spec_onepole(e.smooth_vibe.coeff as int, e.smooth_vibe.state as int, e.params@[1] as int)
}

/// Smoothed value of the age control.
pub open spec fn s_age(e: Effect) -> int {
    spec_onepole(e.smooth_age.coeff as int, e.smooth_age.state as int, e.params@[2] as int)
}

/// Smoothed value of the tone control.
pub open spec fn s_tone(e: Effect) -> int {
    spec_onepole(e.smooth_tone.coeff as int, e.smooth_tone.state as int, e.params@[3] as int)
}

/// Smoothed value of the pitch-mode control.  The table selection reads the
/// raw control; the smoothed value is still advanced every sample.
pub open spec fn s_pitch(e: Effect) -> int {
    spec_onepole(e.smooth_pitch.coeff as int, e.smooth_pitch.state as int, e.params@[4] as int)
}

/// Smoothed value of the feedback control.
pub open spec fn s_feedback(e: Effect) -> int {
    spec_onepole(
        e.smooth_feedback.coeff as int,
        e.smooth_feedback.state as int,
        e.params@[5] as int,
    )
}

/// Smoothed value of the saturation control.
pub open spec fn s_sat(e: Effect) -> int {
    spec_onepole(e.smooth_sat.coeff as int, e.smooth_sat.state as int, e.params@[6] as int)
}

/// Smoothed value of the dry/wet control.
pub open spec fn s_wet(e: Effect) -> int {
    spec_onepole(e.smooth_wet.coeff as int, e.smooth_wet.state as int, e.params@[7] as int)
}

/// The micro-parameters one sample computes from the smoothed controls and
/// the raw pitch-mode control.
pub open spec fn spec_micro(e: Effect) -> MicroParams {
    MicroParams {
        time_ms: spec_time_ms(s_time(e)) as i64,
        flutter_depth: spec_flutter_depth(s_age(e)) as i64,
        drop_amount: s_age(e) as i64,
        sat: spec_sat_drive(s_sat(e)) as i64,
        squareness: spec_squareness(spec_sat_drive(s_sat(e))) as i64,
        coercivity: spec_coercivity(spec_sat_drive(s_sat(e))) as i64,
        tone_cutoff_hz: spec_tone_cutoff(s_tone(e)) as i64,
        shift_l: spec_pitch_table(spec_pitch_bucket(e.params@[4] as int)).0 as i64,
        shift_r: spec_pitch_table(spec_pitch_bucket(e.params@[4] as int)).1 as i64,
        feedback_gain: spec_feedback_gain(s_feedback(e)) as i64,
        dry_gain: spec_dry_gain(s_wet(e)) as i64,
        wet_gain: s_wet(e) as i64,
    }
}

/// The read heads after one sample: pinned to the channel periods while no
/// shift is selected, sliding with single-step wrap otherwise.
pub open spec fn spec_heads_after(e: Effect) -> ReadHeads {
    let m = spec_micro(e);
    if m.shift_l == 0 && m.shift_r == 0 {
        ReadHeads {
            left_pos: spec_left_period(m.time_ms as int) as i64,
            right_pos: spec_right_period(m.time_ms as int) as i64,
        }
    } else {
        ReadHeads {
            left_pos: spec_slide(
                e.heads.left_pos as int,
                m.shift_l as int,
                e.sample_rate as int,
                spec_left_period(m.time_ms as int),
            ) as i64,
            right_pos: spec_slide(
                e.heads.right_pos as int,
                m.shift_r as int,
                e.sample_rate as int,
                spec_right_period(m.time_ms as int),
            ) as i64,
        }
    }
}

/// The engine state after the control phase: smoothers advanced, read heads
/// moved, everything else untouched.
pub open spec fn spec_state_after_begin(e: Effect) -> Effect {
    Effect {
        smooth_time: OnePole { coeff: e.smooth_time.coeff, state: s_time(e) as i64 },
        smooth_vibe: OnePole { coeff: e.smooth_vibe.coeff, state: s_vibe(e) as i64 },
        smooth_age: OnePole { coeff: e.smooth_age.coeff, state: s_age(e) as i64 },
        smooth_tone: OnePole { coeff: e.smooth_tone.coeff, state: s_tone(e) as i64 },
        smooth_pitch: OnePole { coeff: e.smooth_pitch.coeff, state: s_pitch(e) as i64 },
        smooth_feedback: OnePole {
            coeff: e.smooth_feedback.coeff,
            state: s_feedback(e) as i64,
        },
        smooth_sat: OnePole { coeff: e.smooth_sat.coeff, state: s_sat(e) as i64 },
        smooth_wet: OnePole { coeff: e.smooth_wet.coeff, state: s_wet(e) as i64 },
        heads: spec_heads_after(e),
        ..e
    }
}

/// The plan the control phase hands on, as a function of the state before
/// the sample, the modulation-source outputs, and the input samples.
pub open spec fn spec_plan(e: Effect, osc: OscFrame, in_l: i64, in_r: i64) -> SamplePlan {
    let m = spec_micro(e);
    let h = spec_heads_after(e);
    let flut = spec_total_flutter(
        osc.tri_1 as int,
        osc.tri_2 as int,
        osc.tri_3 as int,
        osc.tri_4 as int,
        osc.tri_5 as int,
        osc.sin_1 as int,
        osc.sin_2 as int,
    );
    SamplePlan {
        micro: m,
        offset_l_1: spec_tap_offset(
            m.time_ms as int,
            s_vibe(e),
            osc.wow_1 as int,
            8_000_000,
            flut,
            m.flutter_depth as int,
        ) as i64,
        offset_l_2: spec_tap_offset(
            h.left_pos as int,
            s_vibe(e),
            osc.wow_2 as int,
            10_000_000,
            flut,
            m.flutter_depth as int,
        ) as i64,
        offset_r_1: spec_tap_offset(
            m.time_ms as int,
            s_vibe(e),
            osc.wow_3 as int,
            8_000_000,
            flut,
            m.flutter_depth as int,
        ) as i64,
        offset_r_2: spec_tap_offset(
            h.right_pos as int,
            s_vibe(e),
            osc.wow_4 as int,
            10_000_000,
            flut,
            m.flutter_depth as int,
        ) as i64,
        dry_l: spec_add(in_l as int, e.fb_l as int) as i64,
        dry_r: spec_add(in_r as int, e.fb_r as int) as i64,
        pre_l: spec_mul(spec_add(in_l as int, e.fb_l as int), m.sat as int) as i64,
        pre_r: spec_mul(spec_add(in_r as int, e.fb_r as int), m.sat as int) as i64,
    }
}

/// What the middle phase returns for the saturator outputs and dropout-noise
/// samples of one sample: the restored signals through the dropout stage.
pub open spec fn spec_mid(
    plan: SamplePlan,
    hyst_l: int,
    hyst_r: int,
    noise_l_1: int,
    noise_l_2: int,
    noise_r_1: int,
    noise_r_2: int,
) -> (int, int) {
    (
        spec_dropout_stage(
            spec_div(hyst_l, plan.micro.sat as int),
            plan.micro.drop_amount as int,
            noise_l_1,
            noise_l_2,
        ),
        spec_dropout_stage(
            spec_div(hyst_r, plan.micro.sat as int),
            plan.micro.drop_amount as int,
            noise_r_1,
            noise_r_2,
        ),
    )
}

/// The engine state after the output phase: the wet samples scaled by the
/// feedback gain, DC-blocked, and stored for the next sample's injection.
pub open spec fn spec_state_after_end(e: Effect, plan: SamplePlan, wet_l: int, wet_r: int) -> Effect {
    let send_l = spec_mul(wet_l, plan.micro.feedback_gain as int);
    let send_r = spec_mul(wet_r, plan.micro.feedback_gain as int);
    let cond_l = spec_dcblock(send_l, e.dc_block_l.x_prev as int, e.dc_block_l.y_prev as int);
    let cond_r = spec_dcblock(send_r, e.dc_block_r.x_prev as int, e.dc_block_r.y_prev as int);
    Effect {
        dc_block_l: DcBlock { x_prev: send_l as i64, y_prev: cond_l as i64 },
        dc_block_r: DcBlock { x_prev: send_r as i64, y_prev: cond_r as i64 },
        fb_l: cond_l as i64,
        fb_r: cond_r as i64,
        ..e
    }
}

/// The stereo output of one sample: wet by the wet gain plus the captured
/// dry by the dry gain, per channel.
pub open spec fn spec_output(plan: SamplePlan, wet_l: int, wet_r: int) -> (int, int) {
    (
        spec_add(
            spec_mul(wet_l, plan.micro.wet_gain as int),
            spec_mul(plan.dry_l as int, plan.micro.dry_gain as int),
        ),
        spec_add(
            spec_mul(wet_r, plan.micro.wet_gain as int),
            spec_mul(plan.dry_r as int, plan.micro.dry_gain as int),
        ),
    )
}

impl Effect {
    /// The smoothers carry fractional coefficients and bounded state, and the
    /// sample rate is positive.
    pub open spec fn wf(&self) -> bool {
        &&& self.smooth_time.wf()
        &&& self.smooth_vibe.wf()
        &&& self.smooth_age.wf()
        &&& self.smooth_tone.wf()
        &&& self.smooth_pitch.wf()
        &&& self.smooth_feedback.wf()
        &&& self.smooth_sat.wf()
        &&& self.smooth_wet.wf()
        &&& 0 < self.sample_rate
    }

    /// Retune the eight parameter smoothers to their fixed cutoff
    /// frequencies — 0.5, 2, 7.5 Hz and 20 Hz for the rest — at the current
    /// sample rate.  The smoother states carry over.
    fn retune_smoothers(&mut self)
        requires
            old(self).wf(),
        ensures
            final(self).wf(),
            *final(self) == (Effect {
                smooth_time: OnePole {
                    coeff: spec_coeff_for_cutoff(500_000, old(self).sample_rate as int) as i64,
                    state: old(self).smooth_time.state,
                },
                smooth_vibe: OnePole {
                    coeff: spec_coeff_for_cutoff(2_000_000, old(self).sample_rate as int) as i64,
                    state: old(self).smooth_vibe.state,
                },
                smooth_age: OnePole {
                    coeff: spec_coeff_for_cutoff(7_500_000, old(self).sample_rate as int) as i64,
                    state: old(self).smooth_age.state,
                },
                smooth_tone: OnePole {
                    coeff: spec_coeff_for_cutoff(20_000_000, old(self).sample_rate as int) as i64,
                    state: old(self).smooth_tone.state,
                },
                smooth_pitch: OnePole {
                    coeff: spec_coeff_for_cutoff(20_000_000, old(self).sample_rate as int) as i64,
                    state: old(self).smooth_pitch.state,
                },
                smooth_feedback: OnePole {
                    coeff: spec_coeff_for_cutoff(20_000_000, old(self).sample_rate as int) as i64,
                    state: old(self).smooth_feedback.state,
                },
                smooth_sat: OnePole {
                    coeff: spec_coeff_for_cutoff(20_000_000, old(self).sample_rate as int) as i64,
                    state: old(self).smooth_sat.state,
                },
                smooth_wet: OnePole {
                    coeff: spec_coeff_for_cutoff(20_000_000, old(self).sample_rate as int) as i64,
                    state: old(self).smooth_wet.state,
                },
                ..*old(self)
            }),
    {
        let rate: i64 = self.sample_rate;
        self.smooth_time.set_coeff(coeff_for_cutoff(500_000, rate));
        self.smooth_vibe.set_coeff(coeff_for_cutoff(2_000_000, rate));
        self.smooth_age.set_coeff(coeff_for_cutoff(7_500_000, rate));
        self.smooth_tone.set_coeff(coeff_for_cutoff(20_000_000, rate));
        self.smooth_pitch.set_coeff(coeff_for_cutoff(20_000_000, rate));
        self.smooth_feedback.set_coeff(coeff_for_cutoff(20_000_000, rate));
        self.smooth_sat.set_coeff(coeff_for_cutoff(20_000_000, rate));
        self.smooth_wet.set_coeff(coeff_for_cutoff(20_000_000, rate));
    }

    /// Adopt a new sample rate and retune every frequency-bearing part of
    /// the engine to it.
    pub fn set_sample_rate(&mut self, rate: i64)
        requires
            old(self).wf(),
            0 < rate,
        ensures
            final(self).wf(),
            final(self).sample_rate == rate,
            *final(self) == (Effect {
                sample_rate: rate,
                smooth_time: OnePole {
                    coeff: spec_coeff_for_cutoff(500_000, rate as int) as i64,
                    state: old(self).smooth_time.state,
                },
                smooth_vibe: OnePole {
                    coeff: spec_coeff_for_cutoff(2_000_000, rate as int) as i64,
                    state: old(self).smooth_vibe.state,
                },
                smooth_age: OnePole {
                    coeff: spec_coeff_for_cutoff(7_500_000, rate as int) as i64,
                    state: old(self).smooth_age.state,
                },
                smooth_tone: OnePole {
                    coeff: spec_coeff_for_cutoff(20_000_000, rate as int) as i64,
                    state: old(self).smooth_tone.state,
                },
                smooth_pitch: OnePole {
                    coeff: spec_coeff_for_cutoff(20_000_000, rate as int) as i64,
                    state: old(self).smooth_pitch.state,
                },
                smooth_feedback: OnePole {
                    coeff: spec_coeff_for_cutoff(20_000_000, rate as int) as i64,
                    state: old(self).smooth_feedback.state,
                },
                smooth_sat: OnePole {
                    coeff: spec_coeff_for_cutoff(20_000_000, rate as int) as i64,
                    state: old(self).smooth_sat.state,
                },
                smooth_wet: OnePole {
                    coeff: spec_coeff_for_cutoff(20_000_000, rate as int) as i64,
                    state: old(self).smooth_wet.state,
                },
                ..*old(self)
            }),
    {
        self.sample_rate = rate;
        self.retune_smoothers();
    }

    /// One-time setup: retune the smoothers at the current rate and hand the
    /// host the fixed modulation-source frequencies it must assign.
    pub fn init(&mut self) -> (setup: OscSetup)
        requires
            old(self).wf(),
        ensures
            final(self).wf(),
            *final(self) == (Effect {
                smooth_time: OnePole {
                    coeff: spec_coeff_for_cutoff(500_000, old(self).sample_rate as int) as i64,
                    state: old(self).smooth_time.state,
                },
                smooth_vibe: OnePole {
                    coeff: spec_coeff_for_cutoff(2_000_000, old(self).sample_rate as int) as i64,
                    state: old(self).smooth_vibe.state,
                },
                smooth_age: OnePole {
                    coeff: spec_coeff_for_cutoff(7_500_000, old(self).sample_rate as int) as i64,
                    state: old(self).smooth_age.state,
                },
                smooth_tone: OnePole {
                    coeff: spec_coeff_for_cutoff(20_000_000, old(self).sample_rate as int) as i64,
                    state: old(self).smooth_tone.state,
                },
                smooth_pitch: OnePole {
                    coeff: spec_coeff_for_cutoff(20_000_000, old(self).sample_rate as int) as i64,
                    state: old(self).smooth_pitch.state,
                },
                smooth_feedback: OnePole {
                    coeff: spec_coeff_for_cutoff(20_000_000, old(self).sample_rate as int) as i64,
                    state: old(self).smooth_feedback.state,
                },
                smooth_sat: OnePole {
                    coeff: spec_coeff_for_cutoff(20_000_000, old(self).sample_rate as int) as i64,
                    state: old(self).smooth_sat.state,
                },
                smooth_wet: OnePole {
                    coeff: spec_coeff_for_cutoff(20_000_000, old(self).sample_rate as int) as i64,
                    state: old(self).smooth_wet.state,
                },
                ..*old(self)
            }),
            setup == (OscSetup {
                wow_1: 450_609i64,
                wow_2: 651_766i64,
                wow_3: 622_496i64,
                wow_4: 854_651i64,
                tri_1: 886_164i64,
                tri_2: 543_996i64,
                tri_3: 333_947i64,
                tri_4: 205_002i64,
                tri_5: 125_846i64,
                sin_1: 5_537_241i64,
                sin_2: 8_959_444i64,
            }),
    {
        self.retune_smoothers();
        OscSetup {
            wow_1: 450_609,
            wow_2: 651_766,
            wow_3: 622_496,
            wow_4: 854_651,
            tri_1: 886_164,
            tri_2: 543_996,
            tri_3: 333_947,
            tri_4: 205_002,
            tri_5: 125_846,
            sin_1: 5_537_241,
            sin_2: 8_959_444,
        }
    }

    /// The control phase of one sample.
    pub fn sample_begin(&mut self, osc: &OscFrame, in_l: i64, in_r: i64) -> (plan: SamplePlan)
        requires
            old(self).wf(),
        ensures
            final(self).wf(),
            *final(self) == spec_state_after_begin(*old(self)),
            plan == spec_plan(*old(self), *osc, in_l, in_r),
    {
        let p_time: i64 = self.params.get_parameter(0);
        let p_vibe: i64 = self.params.get_parameter(1);
        let p_age: i64 = self.params.get_parameter(2);
        let p_tone: i64 = self.params.get_parameter(3);
        let p_pitch: i64 = self.params.get_parameter(4);
        let p_fb: i64 = self.params.get_parameter(5);
        let p_sat: i64 = self.params.get_parameter(6);
        let p_wet: i64 = self.params.get_parameter(7);

        let time: i64 = self.smooth_time.step(p_time);
        let vibe: i64 = self.smooth_vibe.step(p_vibe);
        let age: i64 = self.smooth_age.step(p_age);
        let tone: i64 = self.smooth_tone.step(p_tone);
        let _pitch: i64 = self.smooth_pitch.step(p_pitch);
        let fb: i64 = self.smooth_feedback.step(p_fb);
        let sat_raw: i64 = self.smooth_sat.step(p_sat);
        let wet: i64 = self.smooth_wet.step(p_wet);

        let micro: MicroParams = macro_map(time, age, tone, p_pitch, fb, sat_raw, wet);

        self.heads.advance(micro.shift_l, micro.shift_r, micro.time_ms, self.sample_rate);

        let flut: i64 = total_flutter(
            osc.tri_1,
            osc.tri_2,
            osc.tri_3,
            osc.tri_4,
            osc.tri_5,
            osc.sin_1,
            osc.sin_2,
        );
        let offset_l_1: i64 = tap_offset(
            micro.time_ms,
            vibe,
            osc.wow_1,
            8_000_000,
            flut,
            micro.flutter_depth,
        );
        let offset_l_2: i64 = tap_offset(
            self.heads.left_pos,
            vibe,
            osc.wow_2,
            10_000_000,
            flut,
            micro.flutter_depth,
        );
        let offset_r_1: i64 = tap_offset(
            micro.time_ms,
            vibe,
            osc.wow_3,
            8_000_000,
            flut,
            micro.flutter_depth,
        );
        let offset_r_2: i64 = tap_offset(
            self.heads.right_pos,
            vibe,
            osc.wow_4,
            10_000_000,
            flut,
            micro.flutter_depth,
        );

        let dry_l: i64 = fadd(in_l, self.fb_l);
        let dry_r: i64 = fadd(in_r, self.fb_r);
        let pre_l: i64 = sat_drive(dry_l, micro.sat);
        let pre_r: i64 = sat_drive(dry_r, micro.sat);

        SamplePlan {
            micro,
            offset_l_1,
            offset_l_2,
            offset_r_1,
            offset_r_2,
            dry_l,
            dry_r,
            pre_l,
            pre_r,
        }
    }

    /// The conditioning phase of one sample: restore the saturator outputs
    /// and pass them through the dropout stage.  The results go to the delay
    /// and tone collaborators.
    pub fn sample_mid(
        &self,
        plan: &SamplePlan,
        hyst_l: i64,
        hyst_r: i64,
        noise_l_1: i64,
        noise_l_2: i64,
        noise_r_1: i64,
        noise_r_2: i64,
    ) -> (out: (i64, i64))
        ensures
            (out.0 as int, out.1 as int) == spec_mid(
                *plan,
                hyst_l as int,
                hyst_r as int,
                noise_l_1 as int,
                noise_l_2 as int,
                noise_r_1 as int,
                noise_r_2 as int,
            ),
    {
        let l: i64 = sat_restore(hyst_l, plan.micro.sat);
        let r: i64 = sat_restore(hyst_r, plan.micro.sat);
        let l_dropped: i64 = self.drop_l.step(l, noise_l_1, noise_l_2);
        let r_dropped: i64 = self.drop_r.step(r, noise_r_1, noise_r_2);
        let l_out: i64 = xfade(l, plan.micro.drop_amount, l_dropped);
        let r_out: i64 = xfade(r, plan.micro.drop_amount, r_dropped);
        (l_out, r_out)
    }

    /// The output phase of one sample: store the conditioned feedback for the
    /// next sample and mix the stereo output.
    pub fn sample_end(&mut self, plan: &SamplePlan, wet_l: i64, wet_r: i64) -> (out: (i64, i64))
        ensures
            *final(self) == spec_state_after_end(*old(self), *plan, wet_l as int, wet_r as int),
            (out.0 as int, out.1 as int) == spec_output(*plan, wet_l as int, wet_r as int),
            final(self).wf() <==> old(self).wf(),
    {
        let send_l: i64 = fmul(wet_l, plan.micro.feedback_gain);
        let send_r: i64 = fmul(wet_r, plan.micro.feedback_gain);
        let cond_l: i64 = self.dc_block_l.step(send_l);
        let cond_r: i64 = self.dc_block_r.step(send_r);
        self.fb_l = cond_l;
        self.fb_r = cond_r;
        let out_l: i64 = fadd(fmul(wet_l, plan.micro.wet_gain), fmul(plan.dry_l, plan.micro.dry_gain));
        let out_r: i64 = fadd(fmul(wet_r, plan.micro.wet_gain), fmul(plan.dry_r, plan.micro.dry_gain));
        (out_l, out_r)
    }
}

impl Default for Effect {
    /// A fresh engine at a 44.1 kHz default rate: default parameters, all
    /// smoothers and blockers at rest, read heads at the origin, feedback
    /// accumulators empty.  The smoothers carry no cutoff until `init` or
    /// `set_sample_rate` retunes them.
    fn default() -> (r: Self)
        ensures
            r.wf(),
            r.params@ == crate::params::spec_default_params(),
            r.sample_rate == 44_100_000_000,
            r.smooth_time == (OnePole { coeff: 0i64, state: 0i64 }),
            r.smooth_vibe == (OnePole { coeff: 0i64, state: 0i64 }),
            r.smooth_age == (OnePole { coeff: 0i64, state: 0i64 }),
            r.smooth_tone == (OnePole { coeff: 0i64, state: 0i64 }),
            r.smooth_pitch == (OnePole { coeff: 0i64, state: 0i64 }),
            r.smooth_feedback == (OnePole { coeff: 0i64, state: 0i64 }),
            r.smooth_sat == (OnePole { coeff: 0i64, state: 0i64 }),
            r.smooth_wet == (OnePole { coeff: 0i64, state: 0i64 }),
            r.heads == (ReadHeads { left_pos: 0i64, right_pos: 0i64 }),
            r.dc_block_l.at_rest(),
            r.dc_block_r.at_rest(),
            r.fb_l == 0,
            r.fb_r == 0,
    {
        Effect {
            params: EffectParameters::default(),
            sample_rate: 44_100_000_000,
            smooth_time: OnePole::new(),
            smooth_vibe: OnePole::new(),
            smooth_age: OnePole::new(),
            smooth_tone: OnePole::new(),
            smooth_pitch: OnePole::new(),
            smooth_feedback: OnePole::new(),
            smooth_sat: OnePole::new(),
            smooth_wet: OnePole::new(),
            heads: ReadHeads::new(),
            dc_block_l: DcBlock::new(),
            dc_block_r: DcBlock::new(),
            drop_l: Dropouts::new(),
            drop_r: Dropouts::new(),
            fb_l: 0,
            fb_r: 0,
        }
    }
}

/// The engine is a pure function of (state, inputs).  Every phase's next
/// state and outputs are spec functions of the state before it and the
/// collaborator values handed in — the engine itself holds no hidden state
/// and consults no source of nondeterminism, so two runs from equal states
/// on equal inputs agree sample for sample.
pub proof fn lemma_engine_pure(
    e1: Effect,
    e2: Effect,
    osc1: OscFrame,
    osc2: OscFrame,
    in_l1: i64,
    in_l2: i64,
    in_r1: i64,
    in_r2: i64,
    plan1: SamplePlan,
    plan2: SamplePlan,
    wet_l1: int,
    wet_l2: int,
    wet_r1: int,
    wet_r2: int,
)
    requires
        e1 == e2,
        osc1 == osc2,
        in_l1 == in_l2,
        in_r1 == in_r2,
        plan1 == plan2,
        wet_l1 == wet_l2,
        wet_r1 == wet_r2,
    ensures
        spec_state_after_begin(e1) == spec_state_after_begin(e2),
        spec_plan(e1, osc1, in_l1, in_r1) == spec_plan(e2, osc2, in_l2, in_r2),
        spec_state_after_end(e1, plan1, wet_l1, wet_r1) == spec_state_after_end(
            e2,
            plan2,
            wet_l2,
            wet_r2,
        ),
        spec_output(plan1, wet_l1, wet_r1) == spec_output(plan2, wet_l2, wet_r2),
{
}

/// Disabling feedback silences the loop at once: with a zero feedback gain
/// the value sent into the conditioning chain is exactly zero, and a resting
/// DC blocker maps it to an exactly zero stored accumulator and stays at
/// rest — so the accumulators are zero within one sample and remain zero for
/// as long as the gain stays zero.
pub proof fn lemma_feedback_disabled(e: Effect, plan: SamplePlan, wet_l: int, wet_r: int)
    requires
        plan.micro.feedback_gain == 0,
        e.dc_block_l.at_rest(),
        e.dc_block_r.at_rest(),
    ensures
        spec_state_after_end(e, plan, wet_l, wet_r).fb_l == 0,
        spec_state_after_end(e, plan, wet_l, wet_r).fb_r == 0,
        spec_state_after_end(e, plan, wet_l, wet_r).dc_block_l.at_rest(),
        spec_state_after_end(e, plan, wet_l, wet_r).dc_block_r.at_rest(),
    {
    lemma_mul_zero(wet_l);
    lemma_mul_zero(wet_r);
    lemma_dcblock_silent();
}

} // verus!
