use vibe_machine::fixed::{fabs, fadd, fdiv, fmul, fpow12, fpow4, fsqrt, fsub, isqrt_u128, CLIP, SCALE};

#[test]
fn multiplication_scales_and_truncates() {
    assert_eq!(fmul(2_000_000, 3_000_000), 6_000_000);
    assert_eq!(fmul(3, 500_000), 1);
    assert_eq!(fmul(-3, 500_000), -1);
    assert_eq!(fmul(1_000_000, -1_000_000), -1_000_000);
    assert_eq!(fmul(0, 123_456), 0);
    assert_eq!(fmul(123_456, SCALE), 123_456);
}

#[test]
fn multiplication_saturates_at_the_clip_bound() {
    assert_eq!(fmul(CLIP, CLIP), CLIP);
    assert_eq!(fmul(-CLIP, CLIP), -CLIP);
}

#[test]
fn division_scales_and_truncates() {
    assert_eq!(fdiv(1_000_000, 2_000_000), 500_000);
    assert_eq!(fdiv(-1_000_000, 2_000_000), -500_000);
    assert_eq!(fdiv(1, 3), 333_333);
    assert_eq!(fdiv(200_000, 250_000), 800_000);
}

#[test]
fn division_by_a_non_positive_divisor_yields_zero() {
    assert_eq!(fdiv(1_000_000, 0), 0);
    assert_eq!(fdiv(1_000_000, -5), 0);
}

#[test]
fn addition_and_subtraction_saturate() {
    assert_eq!(fadd(1, 2), 3);
    assert_eq!(fadd(CLIP, CLIP), CLIP);
    assert_eq!(fsub(-CLIP, CLIP), -CLIP);
    assert_eq!(fsub(5, 7), -2);
}

#[test]
fn magnitude() {
    assert_eq!(fabs(-42), 42);
    assert_eq!(fabs(42), 42);
    assert_eq!(fabs(0), 0);
}

#[test]
fn integer_square_root_brackets_its_argument() {
    assert_eq!(isqrt_u128(0), 0);
    assert_eq!(isqrt_u128(3), 1);
    assert_eq!(isqrt_u128(4), 2);
    assert_eq!(isqrt_u128(999_999), 999);
    assert_eq!(isqrt_u128(1_000_000), 1000);
}

#[test]
fn fixed_square_root_keeps_the_scale() {
    assert_eq!(fsqrt(4_000_000), 2_000_000);
    assert_eq!(fsqrt(0), 0);
    assert_eq!(fsqrt(1), 1000);
    assert_eq!(fsqrt(500_000), 707_106);
    assert_eq!(fsqrt(707_106), 840_895);
}

#[test]
fn even_powers_remove_the_sign() {
    assert_eq!(fpow4(-1_000_000), 1_000_000);
    assert_eq!(fpow4(500_000), 62_500);
    assert_eq!(fpow12(500_000), 244);
}
