use vibe_machine::dcblock::DcBlock;
use vibe_machine::dropouts::{xfade, Dropouts};
use vibe_machine::mapper::macro_map;
use vibe_machine::modulation::{tap_offset, total_flutter};
use vibe_machine::readhead::ReadHeads;
use vibe_machine::saturation::{sat_drive, sat_restore};
use vibe_machine::smooth::{coeff_for_cutoff, OnePole};

#[test]
fn smoother_closes_the_gap_by_its_coefficient() {
    let mut f = OnePole::new();
    f.set_coeff(500_000);
    assert_eq!(f.step(1_000_000), 500_000);
    assert_eq!(f.step(1_000_000), 750_000);
    // a zero coefficient freezes the state
    let mut g = OnePole::new();
    assert_eq!(g.step(1_000_000), 0);
}

#[test]
fn smoothing_coefficients_at_the_default_rate() {
    // 0.5 Hz and 20 Hz cutoffs at 44.1 kHz
    assert_eq!(coeff_for_cutoff(500_000, 44_100_000_000), 70);
    assert_eq!(coeff_for_cutoff(20_000_000, 44_100_000_000), 2840);
}

#[test]
fn macro_mapping_of_the_default_controls() {
    // smoothed controls: time 0.25, age 0, tone 0.8, pitch raw 0.5,
    // feedback 0, saturation 0, wet 0.5
    let m = macro_map(250_000, 0, 800_000, 500_000, 0, 0, 500_000);
    assert_eq!(m.time_ms, 1_162_500_000); // 0.25 * 4450 + 50 = 1162.5 ms
    assert_eq!(m.flutter_depth, 0);
    assert_eq!(m.drop_amount, 0);
    assert_eq!(m.sat, 250_000); // 0 * 2 + 0.25
    assert_eq!(m.squareness, 600_000); // 0.8 - 0.25 * 0.8
    assert_eq!(m.coercivity, 25_000); // 0.25 * 0.1
    assert_eq!(m.tone_cutoff_hz, 7_372_800_000); // 0.8^4 * 18000 Hz
    assert_eq!((m.shift_l, m.shift_r), (0, 0));
    assert_eq!(m.feedback_gain, 0);
    assert_eq!(m.dry_gain, 2_500_000); // 1 - 0.5 + 2
    assert_eq!(m.wet_gain, 500_000);
}

#[test]
fn flutter_combination_at_full_generator_swing() {
    // all generators at 1.0: 10*(0.1+0.325+0.55+0.775+1.0) + 0.333*(1+1)
    assert_eq!(total_flutter(1_000_000, 1_000_000, 1_000_000, 1_000_000, 1_000_000, 1_000_000, 1_000_000), 28_166_000);
}

#[test]
fn tap_offset_combines_base_wow_and_flutter() {
    // base 1, vibe 1, wow 1 with gain 8, flutter 1 at depth 1: 1 + 8 + 1
    assert_eq!(tap_offset(1_000_000, 1_000_000, 1_000_000, 8_000_000, 1_000_000, 1_000_000), 10_000_000);
    // no vibe and no depth leaves the base alone
    assert_eq!(tap_offset(1_000_000, 0, 987_654, 8_000_000, 654_321, 0), 1_000_000);
}

#[test]
fn dropout_multiplier_biases_toward_one() {
    let d = Dropouts::new();
    // noise averaging to 0.5: multiplier 0.5^(1/4) = 0.840895...
    assert_eq!(d.step(1_000_000, 640_000, 360_000), 840_895);
    // silent noise sources mute the modulated path entirely
    assert_eq!(d.step(1_000_000, 0, 0), 0);
    // full-swing noise leaves the signal transparent, never amplified
    assert_eq!(d.step(1_000_000, 1_000_000, 1_000_000), 1_000_000);
    assert_eq!(d.step(500_000, -1_000_000, -1_000_000), 500_000);
}

#[test]
fn dropout_crossfade_identity_at_zero_amount() {
    // with a zero dropout amount the stage output is bit-identical to input
    let d = Dropouts::new();
    for input in [-1_000_000i64, -1, 0, 1, 123_456, 1_000_000] {
        let modulated = d.step(input, 250_000, -750_000);
        assert_eq!(xfade(input, 0, modulated), input);
    }
}

#[test]
fn dropout_generator_frequencies_are_fixed() {
    let d = Dropouts::new();
    assert_eq!(d.freq_1, 7_047_397);
    assert_eq!(d.freq_2, 11_149_467);
    let mut d2 = Dropouts::new();
    d2.set_sr(96_000_000_000);
    assert_eq!(d2.freq_1, 7_047_397);
    assert_eq!(d2.freq_2, 11_149_467);
}

#[test]
fn crossfade_blends_linearly() {
    assert_eq!(xfade(0, 500_000, 1_000_000), 500_000);
    assert_eq!(xfade(1_000_000, 1_000_000, -1_000_000), -1_000_000);
}

#[test]
fn saturation_scaling_is_odd_and_restores_the_drive() {
    assert_eq!(sat_drive(800_000, 250_000), 200_000);
    assert_eq!(sat_restore(200_000, 250_000), 800_000);
    assert_eq!(sat_drive(-800_000, 250_000), -200_000);
    assert_eq!(sat_restore(-200_000, 250_000), -800_000);
}

#[test]
fn saturation_round_trip_never_amplifies() {
    for x in [-1_000_000i64, -333_333, -1, 0, 1, 99_999, 333_333, 1_000_000] {
        for sat in [1i64, 250_000, 300_000, 1_000_000, 2_250_000] {
            let driven = sat_drive(x, sat);
            let restored = sat_restore(driven, sat);
            assert!(restored.abs() <= x.abs());
        }
    }
}

#[test]
fn static_read_heads_pin_to_the_channel_periods() {
    let mut heads = ReadHeads::new();
    // 1 ms delay: periods ln2 and ln2^2 of it
    heads.advance(0, 0, 1_000_000, 44_100_000_000);
    assert_eq!(heads.left_pos, 693_147);
    assert_eq!(heads.right_pos, 480_452);
}

#[test]
fn sliding_read_heads_wrap_by_one_step() {
    let mut heads = ReadHeads::new();
    // an upward shift slides the head below zero; one period is added back
    heads.advance(500_000, 0, 1_000_000, 44_100_000_000);
    assert_eq!(heads.left_pos, 682_147); // -11000 + 693147
    assert_eq!(heads.right_pos, 0); // zero shift slides nowhere
    // a downward shift past the period subtracts it exactly once
    let mut heads2 = ReadHeads::new();
    heads2.left_pos = 693_147;
    heads2.advance(-500_000, 0, 1_000_000, 44_100_000_000);
    assert_eq!(heads2.left_pos, 11_000); // 693147 + 11000 - 693147
}

#[test]
fn dc_blocker_removes_a_standing_offset() {
    let mut b = DcBlock::new();
    assert_eq!(b.step(1_000_000), 1_000_000);
    assert_eq!(b.step(1_000_000), 995_000); // 0 + 0.995 * previous
    let mut silent = DcBlock::new();
    assert_eq!(silent.step(0), 0);
    assert_eq!(silent.step(0), 0);
}
