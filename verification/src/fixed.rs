//! Saturating signed fixed-point arithmetic with a decimal scale.
//!
//! A value `v` stands for the real number `v / SCALE`.  Multiplication and
//! division truncate toward zero, as the machine's signed division does, and
//! every result is clamped into `[-CLIP, CLIP]`, so all operations are total:
//! the per-sample chain is defined for every representable input.
use vstd::prelude::*;

verus! {

/// Number of fixed-point units in 1.0.
pub const SCALE: i64 = 1_000_000;

/// Largest magnitude a fixed-point value may take (one trillion units of 1.0):
/// ample headroom above full-scale audio while keeping every sum of a few
/// terms inside `i64`.
pub const CLIP: i64 = 1_000_000_000_000_000_000;

/// Division truncating toward zero, for a positive divisor.
pub open spec fn tdiv(a: int, b: int) -> int {
    if a >= 0 {
        a / b
    } else {
        -((-a) / b)
    }
}

/// Clamp into the representable range `[-CLIP, CLIP]`.
pub open spec fn clip(x: int) -> int {
    if x > CLIP {
        CLIP as int
    } else if x < -(CLIP as int) {
        -(CLIP as int)
    } else {
        x
    }
}

/// Fixed-point product: `a * b / SCALE`, truncated toward zero, clamped.
pub open spec fn spec_mul(a: int, b: int) -> int {
    clip(tdiv(a * b, SCALE as int))
}

/// Fixed-point quotient: `a * SCALE / b`, truncated toward zero, clamped.
/// A divisor that is not positive yields zero, keeping the operation total.
pub open spec fn spec_div(a: int, b: int) -> int {
    if b <= 0 {
        0
    } else {
        clip(tdiv(a * SCALE, b))
    }
}

/// Saturating sum.
pub open spec fn spec_add(a: int, b: int) -> int {
    clip(a + b)
}

/// Saturating difference.
pub open spec fn spec_sub(a: int, b: int) -> int {
    clip(a - b)
}

/// Magnitude.
pub open spec fn spec_abs(x: int) -> int {
    if x < 0 {
        -x
    } else {
        x
    }
}

proof fn lemma_product_sign(a: int, b: int, ma: int, mb: int) by (nonlinear_arith)
    requires
        ma == spec_abs(a),
        mb == spec_abs(b),
    ensures
        a * b == if (a < 0) != (b < 0) {
            -(ma * mb)
        } else {
            ma * mb
        },
        ma * mb >= 0,
{
}

proof fn lemma_magnitude_product_bound(ma: int, mb: int) by (nonlinear_arith)
    requires
        0 <= ma <= 0x8000_0000_0000_0000,
        0 <= mb <= 0x8000_0000_0000_0000,
    ensures
        ma * mb <= 0x4000_0000_0000_0000_0000_0000_0000_0000,
{
}

/// Saturating fixed-point multiplication.
pub fn fmul(a: i64, b: i64) -> (r: i64)
    ensures
        r == spec_mul(a as int, b as int),
{
    let neg: bool = (a < 0) != (b < 0);
    let ma: u128 = if a >= 0 {
        a as u128
    } else {
        (-(a as i128)) as u128
    };
    let mb: u128 = if b >= 0 {
        b as u128
    } else {
        (-(b as i128)) as u128
    };
    proof {
        lemma_magnitude_product_bound(ma as int, mb as int);
    }
    let p: u128 = ma * mb;
    let q: u128 = p / (SCALE as u128);
    let bound: u128 = CLIP as u128;
    let m: u128 = if q > bound {
        bound
    } else {
        q
    };
    proof {
        lemma_product_sign(a as int, b as int, ma as int, mb as int);
    }
    if neg {
        -(m as i64)
    } else {
        m as i64
    }
}

/// Saturating fixed-point division; a non-positive divisor yields zero.
pub fn fdiv(a: i64, b: i64) -> (r: i64)
    ensures
        r == spec_div(a as int, b as int),
{
    if b <= 0 {
        return 0;
    }
    let neg: bool = a < 0;
    let ma: u128 = if a >= 0 {
        a as u128
    } else {
        (-(a as i128)) as u128
    };
    proof {
        lemma_magnitude_product_bound(ma as int, SCALE as int);
    }
    let p: u128 = ma * (SCALE as u128);
    let q: u128 = p / (b as u128);
    let bound: u128 = CLIP as u128;
    let m: u128 = if q > bound {
        bound
    } else {
        q
    };
    proof {
        lemma_product_sign(a as int, SCALE as int, ma as int, SCALE as int);
    }
    if neg {
        -(m as i64)
    } else {
        m as i64
    }
}

/// Saturating addition.
pub fn fadd(a: i64, b: i64) -> (r: i64)
    ensures
        r == spec_add(a as int, b as int),
{
    let s: i128 = a as i128 + b as i128;
    if s > CLIP as i128 {
        CLIP
    } else if s < -(CLIP as i128) {
        -CLIP
    } else {
        s as i64
    }
}

/// Saturating subtraction.
pub fn fsub(a: i64, b: i64) -> (r: i64)
    ensures
        r == spec_sub(a as int, b as int),
{
    let s: i128 = a as i128 - b as i128;
    if s > CLIP as i128 {
        CLIP
    } else if s < -(CLIP as i128) {
        -CLIP
    } else {
        s as i64
    }
}

/// Magnitude of a representable value.
pub fn fabs(x: i64) -> (r: i64)
    requires
        -CLIP <= x,
    ensures
        r == spec_abs(x as int),
{
    if x < 0 {
        -x
    } else {
        x
    }
}

/// Second power in fixed point.
pub open spec fn spec_pow2(x: int) -> int {
    spec_mul(x, x)
}

/// Fourth power, squared squares.
pub open spec fn spec_pow4(x: int) -> int {
    spec_mul(spec_pow2(x), spec_pow2(x))
}

/// Sixth power.
pub open spec fn spec_pow6(x: int) -> int {
    spec_mul(spec_pow4(x), spec_pow2(x))
}

/// Eighth power.
pub open spec fn spec_pow8(x: int) -> int {
    spec_mul(spec_pow4(x), spec_pow4(x))
}

/// Twelfth power.
pub open spec fn spec_pow12(x: int) -> int {
    spec_mul(spec_pow8(x), spec_pow4(x))
}

/// Sixteenth power.
pub open spec fn spec_pow16(x: int) -> int {
    spec_mul(spec_pow8(x), spec_pow8(x))
}

/// Fourth power of a fixed-point value.
pub fn fpow4(x: i64) -> (r: i64)
    ensures
        r == spec_pow4(x as int),
{
    let p2: i64 = fmul(x, x);
    fmul(p2, p2)
}

/// Sixth power of a fixed-point value.
pub fn fpow6(x: i64) -> (r: i64)
    ensures
        r == spec_pow6(x as int),
{
    let p2: i64 = fmul(x, x);
    let p4: i64 = fmul(p2, p2);
    fmul(p4, p2)
}

/// Eighth power of a fixed-point value.
pub fn fpow8(x: i64) -> (r: i64)
    ensures
        r == spec_pow8(x as int),
{
    let p2: i64 = fmul(x, x);
    let p4: i64 = fmul(p2, p2);
    fmul(p4, p4)
}

/// Twelfth power of a fixed-point value.
pub fn fpow12(x: i64) -> (r: i64)
    ensures
        r == spec_pow12(x as int),
{
    let p2: i64 = fmul(x, x);
    let p4: i64 = fmul(p2, p2);
    let p8: i64 = fmul(p4, p4);
    fmul(p8, p4)
}

/// Sixteenth power of a fixed-point value.
pub fn fpow16(x: i64) -> (r: i64)
    ensures
        r == spec_pow16(x as int),
{
    let p2: i64 = fmul(x, x);
    let p4: i64 = fmul(p2, p2);
    let p8: i64 = fmul(p4, p4);
    fmul(p8, p8)
}

/// `r` is the integer square root of `n`.
pub open spec fn is_sqrt(n: int, r: int) -> bool {
    &&& 0 <= r
    &&& r * r <= n
    &&& n < (r + 1) * (r + 1)
}

/// The integer square root, as the unique root the characterization admits.
pub open spec fn spec_isqrt(n: int) -> int {
    choose|r: int| is_sqrt(n, r)
}

/// Two integer square roots of the same number are equal.
pub proof fn lemma_sqrt_unique(n: int, r1: int, r2: int) by (nonlinear_arith)
    requires
        is_sqrt(n, r1),
        is_sqrt(n, r2),
    ensures
        r1 == r2,
{
}

/// Binary-search integer square root.
pub fn isqrt_u128(n: u128) -> (r: u128)
    ensures
        is_sqrt(n as int, r as int),
        r == spec_isqrt(n as int),
{
    let mut lo: u128 = 0;
    let mut hi: u128 = 18_446_744_073_709_551_616;
    proof {
        assert((18_446_744_073_709_551_616 as int) * (18_446_744_073_709_551_616 as int)
            > u128::MAX as int) by (nonlinear_arith);
    }
    while lo + 1 < hi
        invariant
            lo < hi,
            hi <= 18_446_744_073_709_551_616,
            (lo as int) * (lo as int) <= n as int,
            (n as int) < (hi as int) * (hi as int),
        decreases hi - lo,
    {
        let mid: u128 = lo + (hi - lo) / 2;
        proof {
            assert((mid as int) * (mid as int) <= u128::MAX as int) by (nonlinear_arith)
                requires
                    0 <= mid as int <= 18_446_744_073_709_551_615int,
            ;
        }
        if mid * mid <= n {
            lo = mid;
        } else {
            hi = mid;
        }
    }
    proof {
        assert(is_sqrt(n as int, lo as int));
        assert(is_sqrt(n as int, spec_isqrt(n as int)));
        lemma_sqrt_unique(n as int, lo as int, spec_isqrt(n as int));
    }
    lo
}

/// Every non-negative integer has an integer square root, so the chosen root
/// satisfies the characterization.
pub proof fn lemma_isqrt_exists(n: int)
    requires
        0 <= n,
    ensures
        is_sqrt(n, spec_isqrt(n)),
    decreases n,
{
    if n == 0 {
        assert(is_sqrt(0, 0)) by (nonlinear_arith);
    } else {
        lemma_isqrt_exists(n - 1);
        let r = spec_isqrt(n - 1);
        if n < (r + 1) * (r + 1) {
            assert(is_sqrt(n, r));
        } else {
            assert(is_sqrt(n, r + 1)) by (nonlinear_arith)
                requires
                    is_sqrt(n - 1, r),
                    !(n < (r + 1) * (r + 1)),
            ;
        }
        assert(exists|w: int| is_sqrt(n, w));
    }
}

/// The integer square root of anything below `(b + 1)^2` is at most `b`.
pub proof fn lemma_isqrt_le(n: int, b: int)
    requires
        0 <= n,
        0 <= b,
        n < (b + 1) * (b + 1),
    ensures
        0 <= spec_isqrt(n) <= b,
{
    lemma_isqrt_exists(n);
    let r = spec_isqrt(n);
    if r > b {
        assert((b + 1) * (b + 1) <= r * r) by (nonlinear_arith)
            requires
                0 <= b,
                b + 1 <= r,
        ;
    }
}

/// Scaling by a fraction of one never raises the magnitude.
pub proof fn lemma_fraction_attenuates(f: int, a: int)
    requires
        0 <= f <= SCALE,
    ensures
        spec_abs(spec_mul(f, a)) <= spec_abs(a),
{
    let aa = spec_abs(a);
    assert(0 <= f * aa <= SCALE * aa) by (nonlinear_arith)
        requires
            0 <= f <= SCALE,
            0 <= aa,
    ;
    vstd::arithmetic::div_mod::lemma_div_pos_is_pos(f * aa, SCALE as int);
    vstd::arithmetic::div_mod::lemma_div_is_ordered(f * aa, SCALE * aa, SCALE as int);
    vstd::arithmetic::div_mod::lemma_div_multiples_vanish(aa, SCALE as int);
    assert(SCALE * aa == aa * SCALE) by (nonlinear_arith);
    if a < 0 {
        assert(f * a == -(f * aa)) by (nonlinear_arith)
            requires
                aa == -a,
        ;
    }
}

/// Fixed-point square root: the integer square root of `x * SCALE`, so the
/// result carries the same scale as its argument.
pub open spec fn spec_sqrt(x: int) -> int {
    spec_isqrt(x * SCALE)
}

/// Fixed-point square root of a non-negative value.
pub fn fsqrt(x: i64) -> (r: i64)
    requires
        0 <= x,
    ensures
        r == spec_sqrt(x as int),
        0 <= r <= 4_000_000_000_000,
{
    proof {
        lemma_magnitude_product_bound(x as int, SCALE as int);
    }
    let n: u128 = (x as u128) * (SCALE as u128);
    proof {
        assert(n as int <= 9_223_372_036_854_775_807_000_000int) by (nonlinear_arith)
            requires
                n as int == (x as int) * (SCALE as int),
                0 <= x as int <= 9_223_372_036_854_775_807int,
                SCALE as int == 1_000_000int,
        ;
    }
    let r: u128 = isqrt_u128(n);
    proof {
        assert(r as int <= 4_000_000_000_000int) by (nonlinear_arith)
            requires
                0 <= r as int,
                (r as int) * (r as int) <= n as int,
                n as int <= 9_223_372_036_854_775_807_000_000int,
        ;
    }
    r as i64
}

/// Multiplying by one (`SCALE`) only clamps.
pub proof fn lemma_mul_unit(a: int)
    ensures
        spec_mul(a, SCALE as int) == clip(a),
{
    if a >= 0 {
        vstd::arithmetic::div_mod::lemma_div_multiples_vanish(a, SCALE as int);
        assert(SCALE as int * a == a * SCALE as int) by (nonlinear_arith);
    } else {
        vstd::arithmetic::div_mod::lemma_div_multiples_vanish(-a, SCALE as int);
        assert(SCALE as int * -a == -(a * SCALE as int)) by (nonlinear_arith);
    }
}

/// Multiplying by zero yields zero.
pub proof fn lemma_mul_zero(a: int)
    ensures
        spec_mul(a, 0) == 0,
        spec_mul(0, a) == 0,
{
    assert(a * 0 == 0) by (nonlinear_arith);
    assert(0 * a == 0) by (nonlinear_arith);
    assert(tdiv(0, SCALE as int) == 0);
}

/// Fixed-point products and quotients of non-negative values are non-negative.
pub proof fn lemma_fixed_nonneg(a: int, b: int)
    requires
        0 <= a,
        0 <= b,
    ensures
        0 <= spec_mul(a, b),
        0 <= spec_div(a, b),
{
    assert(0 <= a * b) by (nonlinear_arith)
        requires
            0 <= a,
            0 <= b,
    ;
    vstd::arithmetic::div_mod::lemma_div_pos_is_pos(a * b, SCALE as int);
    assert(0 <= a * SCALE) by (nonlinear_arith)
        requires
            0 <= a,
    ;
    if b > 0 {
        vstd::arithmetic::div_mod::lemma_div_pos_is_pos(a * SCALE, b);
    }
}

/// The fixed-point product is odd in its first argument.
pub proof fn lemma_mul_odd(a: int, b: int)
    ensures
        spec_mul(-a, b) == -spec_mul(a, b),
{
    assert((-a) * b == -(a * b)) by (nonlinear_arith);
}

/// The fixed-point quotient is odd in its numerator.
pub proof fn lemma_div_odd(a: int, b: int)
    ensures
        spec_div(-a, b) == -spec_div(a, b),
{
    if b > 0 {
        assert((-a) * SCALE == -(a * SCALE)) by (nonlinear_arith);
    }
}

} // verus!
