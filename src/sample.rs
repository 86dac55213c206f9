//! Fixed-point audio samples.
//!
//! A normalized sample `x` (nominal range `[-1, 1]`) is held as the integer
//! `round(x * UNITS_PER_FULL_SCALE)`. Values beyond full scale are allowed:
//! they mark clipping.

use vstd::prelude::*;

verus! {

/// Integer units in one full-scale amplitude.
pub const UNITS_PER_FULL_SCALE: i64 = 10_000_000;

/// Largest magnitude of a 16-bit PCM sample at full scale.
pub const PCM16_FULL_SCALE: i64 = 32767;

/// Absolute value of a sample.
pub open spec fn magnitude(s: i32) -> nat {
    if s < 0 {
        (-(s as int)) as nat
    } else {
        s as nat
    }
}

/// A sample counts as sound when its magnitude is strictly above the threshold.
pub open spec fn is_loud(s: i32, threshold: u32) -> bool {
    magnitude(s) > threshold as nat
}

/// `n / d` rounded to the nearest integer, halves away from zero.
pub open spec fn round_div(n: int, d: int) -> int
    recommends
        d > 0,
{
    if n >= 0 {
        (n + d / 2) / d
    } else {
        -((-n + d / 2) / d)
    }
}

pub open spec fn clamp(x: int, lo: int, hi: int) -> int {
    if x < lo {
        lo
    } else if x > hi {
        hi
    } else {
        x
    }
}

/// The 16-bit PCM value of a sample: `round(x * 32767)`, clamped to the range of `i16`.
pub open spec fn pcm16_of(s: i32) -> int {
    clamp(
        round_div(s as int * PCM16_FULL_SCALE as int, UNITS_PER_FULL_SCALE as int),
        i16::MIN as int,
        i16::MAX as int,
    )
}

pub fn sample_magnitude(s: i32) -> (r: u32)
    ensures
        r as nat == magnitude(s),
{
    if s < 0 {
        (-(s as i64)) as u32
    } else {
        s as u32
    }
}

pub fn sample_is_loud(s: i32, threshold: u32) -> (r: bool)
    ensures
        r == is_loud(s, threshold),
{
    sample_magnitude(s) > threshold
}

/// Converts a sample to 16-bit PCM, rounding to nearest and clamping out-of-range values.
pub fn to_pcm16(s: i32) -> (r: i16)
    ensures
        r as int == pcm16_of(s),
{
    let n: i64 = s as i64 * PCM16_FULL_SCALE;
    let half: i64 = UNITS_PER_FULL_SCALE / 2;
    assert(-0x8000_0000 * 32767 <= n <= 0x7fff_ffff * 32767) by (nonlinear_arith)
        requires
            n == s as int * 32767,
            -0x8000_0000 <= s <= 0x7fff_ffff,
    ;
    let q: i64 = if n >= 0 {
        (n + half) / UNITS_PER_FULL_SCALE
    } else {
        -((-n + half) / UNITS_PER_FULL_SCALE)
    };
    if q < i16::MIN as i64 {
        i16::MIN
    } else if q > i16::MAX as i64 {
        i16::MAX
    } else {
        q as i16
    }
}

} // verus!
