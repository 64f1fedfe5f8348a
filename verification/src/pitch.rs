//! The pitch-mode table: thirteen discrete (left, right) shift-ratio pairs,
//! each owning one decade of the quantized raw pitch-mode control, the last
//! bucket open-ended.  Selection is a pure function of the raw control value.
use vstd::prelude::*;
use crate::fixed::SCALE;

verus! {

/// The raw pitch-mode control, rounded half-up to `raw * 130` in whole
/// units and clamped into `0..=130`.
pub open spec fn spec_pitch_bucket(raw: int) -> int {
    if raw <= 0 {
        0
    } else if raw >= SCALE {
        130
    } else {
        (raw * 130 + 500_000) / 1_000_000
    }
}

/// The (left, right) shift-ratio pair, in fixed point, owned by a bucket.
pub open spec fn spec_pitch_table(b: int) -> (int, int) {
    if b <= 9 {
        (500_000, -500_000)
    } else if b <= 19 {
        (-500_000, -500_000)
    } else if b <= 29 {
        (-250_000, -500_000)
    } else if b <= 39 {
        (1_000_000, -500_000)
    } else if b <= 49 {
        (-250_000, -250_000)
    } else if b <= 59 {
        (0, -250_000)
    } else if b <= 69 {
        (0, 0)
    } else if b <= 79 {
        (500_000, 0)
    } else if b <= 89 {
        (500_000, 500_000)
    } else if b <= 99 {
        (500_000, -250_000)
    } else if b <= 109 {
        (1_000_000, 500_000)
    } else if b <= 119 {
        (1_000_000, 1_000_000)
    } else {
        (1_000_000, -250_000)
    }
}

/// Quantize the raw pitch-mode control to its bucket.
pub fn pitch_bucket(raw: i64) -> (b: u32)
    ensures
        b as int == spec_pitch_bucket(raw as int),
        b <= 130,
{
    if raw <= 0 {
        0
    } else if raw >= SCALE {
        130
    } else {
        let q: u64 = ((raw as u64) * 130 + 500_000) / 1_000_000;
        q as u32
    }
}

/// Select the shift-ratio pair for a raw pitch-mode control value.
pub fn pitch_shifts(raw: i64) -> (s: (i64, i64))
    ensures
        (s.0 as int, s.1 as int) == spec_pitch_table(spec_pitch_bucket(raw as int)),
{
    let b: u32 = pitch_bucket(raw);
    match b {
        0..=9 => (500_000, -500_000),
        10..=19 => (-500_000, -500_000),
        20..=29 => (-250_000, -500_000),
        30..=39 => (1_000_000, -500_000),
        40..=49 => (-250_000, -250_000),
        50..=59 => (0, -250_000),
        60..=69 => (0, 0),
        70..=79 => (500_000, 0),
        80..=89 => (500_000, 500_000),
        90..=99 => (500_000, -250_000),
        100..=109 => (1_000_000, 500_000),
        110..=119 => (1_000_000, 1_000_000),
        _ => (1_000_000, -250_000),
    }
}

/// Raw control values quantizing into the bucket 60..=69 select a shift pair
/// of exactly zero for both channels: the no-pitch-shift decade.
pub proof fn lemma_pitch_neutral_bucket(raw: int)
    requires
        60 <= spec_pitch_bucket(raw) <= 69,
    ensures
        spec_pitch_table(spec_pitch_bucket(raw)) == (0int, 0int),
{
}

} // verus!
