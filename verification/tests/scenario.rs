//! An end-to-end impulse scenario at 44.1 kHz: delay time 0.25, no vibe or
//! age, raw saturation zero, feedback off, half wet.  The host-side delay
//! line is stood in for by a plain two-tap ring buffer, and the hysteresis
//! saturator by the unity pass; the tone filter is bypassed.  A unit impulse
//! must come back as exactly one echo per tap, quieter than the input, with
//! exact silence everywhere else in a one-second window.
use vibe_machine::effect::{Effect, OscFrame};

fn silent_mod_frame() -> OscFrame {
    OscFrame {
        wow_1: 0,
        wow_2: 0,
        wow_3: 0,
        wow_4: 0,
        tri_1: 0,
        tri_2: 0,
        tri_3: 0,
        tri_4: 0,
        tri_5: 0,
        sin_1: 0,
        sin_2: 0,
    }
}

struct TestDelay {
    buf: Vec<i64>,
    t: usize,
}

impl TestDelay {
    fn new() -> Self {
        TestDelay { buf: vec![0; 65536], t: 0 }
    }

    fn offset_to_samples(offset_micro_ms: i64) -> usize {
        // truncating fractional offsets to whole samples at 44.1 kHz
        ((offset_micro_ms as i128) * 44_100 / 1_000_000_000) as usize
    }

    fn step(&mut self, x: i64, offset_1: i64, offset_2: i64) -> i64 {
        self.buf[self.t % 65536] = x;
        let k1 = Self::offset_to_samples(offset_1);
        let k2 = Self::offset_to_samples(offset_2);
        let a = if k1 <= self.t { self.buf[(self.t - k1) % 65536] } else { 0 };
        let b = if k2 <= self.t { self.buf[(self.t - k2) % 65536] } else { 0 };
        self.t += 1;
        (a + b) / 2
    }
}

#[test]
fn impulse_returns_one_quiet_echo_per_tap_and_silence_elsewhere() {
    let mut e = Effect::default();
    let _ = e.init();
    // pin the smoothers at their settled targets: time 0.25, tone 0.8,
    // pitch raw 0.5 (neutral bucket), saturation raw 0, wet 0.5
    e.smooth_time.state = 250_000;
    e.smooth_tone.state = 800_000;
    e.smooth_wet.state = 500_000;

    let mut delay_l = TestDelay::new();
    let mut delay_r = TestDelay::new();
    let frame = silent_mod_frame();

    // 0.25 * 4450 + 50 = 1162.5 ms -> 51266 whole samples; the pinned
    // read-head taps sit at 1162.5 * ln2 = 805.783387 ms -> 35535 on the
    // left and 1162.5 * ln2 * ln2 = 558.526337 ms -> 24631 on the right
    let echo_left = 35_535usize;
    let echo_right = 24_631usize;
    let echo_far = 51_266usize;

    for t in 0..52_000usize {
        let input: i64 = if t == 0 { 1_000_000 } else { 0 };
        let plan = e.sample_begin(&frame, input, input);
        assert_eq!(plan.micro.time_ms, 1_162_500_000);
        assert_eq!((plan.micro.shift_l, plan.micro.shift_r), (0, 0));
        // unity saturator: the driven samples come straight back
        let (mid_l, mid_r) = e.sample_mid(&plan, plan.pre_l, plan.pre_r, 0, 0, 0, 0);
        let wet_l = delay_l.step(mid_l, plan.offset_l_1, plan.offset_l_2);
        let wet_r = delay_r.step(mid_r, plan.offset_r_1, plan.offset_r_2);
        let (out_l, out_r) = e.sample_end(&plan, wet_l, wet_r);

        let expected_l: i64 = if t == 0 {
            2_500_000 // the dry impulse at gain 1 - 0.5 + 2
        } else if t == echo_left || t == echo_far {
            250_000 // half-amplitude tap echo at wet gain 0.5
        } else {
            0
        };
        let expected_r: i64 = if t == 0 {
            2_500_000
        } else if t == echo_right || t == echo_far {
            250_000
        } else {
            0
        };
        assert_eq!(out_l, expected_l, "left sample {}", t);
        assert_eq!(out_r, expected_r, "right sample {}", t);
        // the echo stays below the input's magnitude
        assert!(t == 0 || out_l.abs() < 1_000_000);
        // feedback is disabled: the accumulators hold exact zero throughout
        assert_eq!(e.fb_l, 0);
        assert_eq!(e.fb_r, 0);
    }
}
