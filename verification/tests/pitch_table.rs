use vibe_machine::pitch::{pitch_bucket, pitch_shifts};

#[test]
fn buckets_quantize_by_rounding_half_up() {
    assert_eq!(pitch_bucket(0), 0);
    assert_eq!(pitch_bucket(-5), 0);
    assert_eq!(pitch_bucket(1_000_000), 130);
    assert_eq!(pitch_bucket(2_000_000), 130);
    // 0.5 * 130 = 65
    assert_eq!(pitch_bucket(500_000), 65);
    // 0.46 * 130 = 59.8 rounds to 60
    assert_eq!(pitch_bucket(460_000), 60);
    // 0.53 * 130 = 68.9 rounds to 69
    assert_eq!(pitch_bucket(530_000), 69);
    // 0.54 * 130 = 70.2 rounds to 70
    assert_eq!(pitch_bucket(540_000), 70);
}

#[test]
fn neutral_decade_selects_exactly_zero_shifts() {
    // every raw value whose bucket falls in 60..=69 selects (0, 0)
    assert_eq!(pitch_shifts(460_000), (0, 0));
    assert_eq!(pitch_shifts(500_000), (0, 0));
    assert_eq!(pitch_shifts(530_000), (0, 0));
}

#[test]
fn table_covers_all_thirteen_decades() {
    assert_eq!(pitch_shifts(0), (500_000, -500_000));
    assert_eq!(pitch_shifts(100_000), (-500_000, -500_000));
    assert_eq!(pitch_shifts(190_000), (-250_000, -500_000));
    assert_eq!(pitch_shifts(270_000), (1_000_000, -500_000));
    assert_eq!(pitch_shifts(345_000), (-250_000, -250_000));
    assert_eq!(pitch_shifts(420_000), (0, -250_000));
    assert_eq!(pitch_shifts(580_000), (500_000, 0));
    assert_eq!(pitch_shifts(650_000), (500_000, 500_000));
    assert_eq!(pitch_shifts(730_000), (500_000, -250_000));
    assert_eq!(pitch_shifts(800_000), (1_000_000, 500_000));
    assert_eq!(pitch_shifts(880_000), (1_000_000, 1_000_000));
    assert_eq!(pitch_shifts(1_000_000), (1_000_000, -250_000));
}
