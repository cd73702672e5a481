//! Fixed-point helpers shared by the camera: clamping, wrapping into a period
//! and scaling a pointer displacement by a sensitivity.

use vstd::prelude::*;

verus! {

/// `value` limited from below by `low`, then from above by `high`.
///
/// This is `min(max(value, low), high)`; where `low <= high` the result lies in
/// `[low, high]`, and otherwise it is `high`.
pub open spec fn clamp_to(value: int, low: int, high: int) -> int {
    let raised = if value < low { low } else { value };
    if raised > high { high } else { raised }
}

/// `value` reduced into `[0, period)`.
pub open spec fn wrap_into(value: int, period: int) -> int {
    value % period
}

/// Limits `value` to the range given by `low` and `high`.
pub fn clamp(value: i128, low: i64, high: i64) -> (r: i64)
    ensures
        r == clamp_to(value as int, low as int, high as int),
{
    if value < low as i128 {
        if low > high { high } else { low }
    } else if value > high as i128 {
        high
    } else {
        value as i64
    }
}

/// Reduces `value` into `[0, period)`.
pub fn wrap(value: i128, period: i64) -> (r: i64)
    requires
        period > 0,
    ensures
        r == wrap_into(value as int, period as int),
        0 <= r < period,
{
    let reduced = value.checked_rem_euclid(period as i128);
    match reduced {
        Some(r) => r as i64,
        None => 0,
    }
}

/// The displacement from `from` to `to`, scaled by `speed`.
pub fn scaled_delta(from: i64, to: i64, speed: i64) -> (d: i128)
    ensures
        d == (to - from) * speed,
        -0x7FFF_FFFF_FFFF_FFFF_8000_0000_0000_0000 <= d <= 0x7FFF_FFFF_FFFF_FFFF_8000_0000_0000_0000,
{
    let delta: i128 = to as i128 - from as i128;
    proof {
        lemma_scaled_delta_fits(delta as int, speed as int);
    }
    delta * (speed as i128)
}

/// The product of the difference of two 64-bit values and a third fits in 128
/// bits, with room left to add a fourth.
proof fn lemma_scaled_delta_fits(delta: int, speed: int)
    requires
        -0xFFFF_FFFF_FFFF_FFFF <= delta <= 0xFFFF_FFFF_FFFF_FFFF,
        -0x8000_0000_0000_0000 <= speed <= 0x8000_0000_0000_0000,
    ensures
        -0x7FFF_FFFF_FFFF_FFFF_8000_0000_0000_0000 <= delta * speed
            <= 0x7FFF_FFFF_FFFF_FFFF_8000_0000_0000_0000,
{
    assert(-0x7FFF_FFFF_FFFF_FFFF_8000_0000_0000_0000 <= delta * speed
        <= 0x7FFF_FFFF_FFFF_FFFF_8000_0000_0000_0000) by (nonlinear_arith)
        requires
            -0xFFFF_FFFF_FFFF_FFFF <= delta <= 0xFFFF_FFFF_FFFF_FFFF,
            -0x8000_0000_0000_0000 <= speed <= 0x8000_0000_0000_0000,
    ;
}

/// Clamping never moves two values further apart: there is no jump at either
/// limit.
pub proof fn lemma_clamp_nonexpansive(a: int, b: int, low: int, high: int)
    requires
        a <= b,
    ensures
        clamp_to(a, low, high) <= clamp_to(b, low, high),
        clamp_to(b, low, high) - clamp_to(a, low, high) <= b - a,
{
}

/// Inside the limits clamping changes nothing, and the result always lies
/// within them.
pub proof fn lemma_clamp_range(value: int, low: int, high: int)
    requires
        low <= high,
    ensures
        low <= clamp_to(value, low, high) <= high,
        low <= value <= high ==> clamp_to(value, low, high) == value,
        clamp_to(clamp_to(value, low, high), low, high) == clamp_to(value, low, high),
{
}

} // verus!
