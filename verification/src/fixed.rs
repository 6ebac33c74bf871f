//! Fixed-point scalar arithmetic: truncating scaled products, clamping and
//! exponential smoothing steps, with exact specifications over `int`.

use vstd::prelude::*;

verus! {

use vstd::arithmetic::div_mod::lemma_div_basics_4;
use vstd::arithmetic::div_mod::lemma_div_basics_5;
use vstd::arithmetic::div_mod::lemma_div_by_multiple;
use vstd::arithmetic::div_mod::lemma_div_is_ordered;
use vstd::arithmetic::mul::lemma_mul_inequality;
use vstd::arithmetic::mul::lemma_mul_nonnegative;
use vstd::arithmetic::mul::lemma_mul_unary_negation;

/// Fixed-point values carry this many sub-unit steps per unit: spatial
/// coordinates, angles in radians, speeds and per-tick time deltas in seconds
/// are all stored as `i64` multiples of `1/SCALE`.
pub const SCALE: i64 = 1000;

/// `SCALE * SCALE`, the divisor that rescales the product of two fixed-point
/// factors.
pub const SCALE_SQ: i64 = 1_000_000;

/// Largest magnitude accepted for an input event delta, a configured speed or
/// a per-tick time delta (2^31).
pub const EVENT_MAX: i64 = 0x8000_0000;

/// Largest magnitude accepted for a camera scalar (zoom, yaw, pitch, a
/// position coordinate) and for its configured limits (2^40).
pub const VAL_MAX: i64 = 0x100_0000_0000;

/// Truncating (round-toward-zero) division of `a` by a positive `b`: the
/// result of hardware signed division, stated with Euclidean `/` on the
/// non-negative magnitude.
pub open spec fn trunc_div(a: int, b: int) -> int {
    if a >= 0 {
        a / b
    } else {
        -((-a) / b)
    }
}

/// `x` forced into the interval `[lo, hi]`.
pub open spec fn clamp_spec(x: int, lo: int, hi: int) -> int {
    if x < lo {
        lo
    } else if x > hi {
        hi
    } else {
        x
    }
}

/// Clamps a wide intermediate value into an `i64` interval.
pub fn clamp_to_i64(x: i128, lo: i64, hi: i64) -> (r: i64)
    requires
        lo <= hi,
    ensures
        r as int == clamp_spec(x as int, lo as int, hi as int),
{
    if x < lo as i128 {
        lo
    } else if x > hi as i128 {
        hi
    } else {
        x as i64
    }
}

/// Truncating division never grows the magnitude of the dividend.
pub proof fn lemma_trunc_div_bounds(a: int, b: int)
    requires
        0 < b,
    ensures
        a >= 0 ==> 0 <= trunc_div(a, b) <= a,
        a < 0 ==> a <= trunc_div(a, b) <= 0,
{
    if a >= 0 {
        lemma_div_basics_4(a, b);
        lemma_div_basics_5(a, b);
    } else {
        lemma_div_basics_4(-a, b);
        lemma_div_basics_5(-a, b);
    }
}

/// Truncating division of a signed wide value by a positive divisor, computed
/// through unsigned division on the magnitude.
fn trunc_div_i128(a: i128, b: i128) -> (r: i128)
    requires
        0 < b,
        i128::MIN < a,
    ensures
        r == trunc_div(a as int, b as int),
        a >= 0 ==> 0 <= r <= a,
        a < 0 ==> a <= r <= 0,
{
    proof {
        lemma_trunc_div_bounds(a as int, b as int);
    }
    if a >= 0 {
        let q: u128 = (a as u128) / (b as u128);
        q as i128
    } else {
        let m: u128 = (-a) as u128;
        let q: u128 = m / (b as u128);
        -(q as i128)
    }
}

/// One exponential-smoothing step: `current` moved toward `target` by the
/// fraction `alpha / SCALE` of their distance, truncated toward `current`.
pub open spec fn smooth_spec(current: int, target: int, alpha: int) -> int {
    current + trunc_div((target - current) * alpha, SCALE as int)
}

/// A truncated fraction `x * alpha / SCALE` with `0 <= alpha <= SCALE` lies
/// between 0 and `x`.
pub proof fn lemma_frac_between(x: int, alpha: int)
    requires
        0 <= alpha <= SCALE,
    ensures
        x >= 0 ==> 0 <= trunc_div(x * alpha, SCALE as int) <= x,
        x < 0 ==> x <= trunc_div(x * alpha, SCALE as int) <= 0,
{
    let s = SCALE as int;
    if x >= 0 {
        lemma_mul_nonnegative(x, alpha);
        lemma_mul_inequality(alpha, s, x);
        assert(x * alpha == alpha * x) by (nonlinear_arith);
        assert(x * s == s * x) by (nonlinear_arith);
        lemma_div_is_ordered(x * alpha, x * s, s);
        lemma_div_by_multiple(x, s);
        lemma_div_basics_4(x * alpha, s);
    } else {
        lemma_mul_nonnegative(-x, alpha);
        lemma_mul_inequality(alpha, s, -x);
        assert((-x) * alpha == alpha * (-x)) by (nonlinear_arith);
        assert((-x) * s == s * (-x)) by (nonlinear_arith);
        lemma_div_is_ordered((-x) * alpha, (-x) * s, s);
        lemma_div_by_multiple(-x, s);
        lemma_div_basics_4((-x) * alpha, s);
        lemma_mul_unary_negation(x, alpha);
    }
}

/// Law: smoothing by a fraction of at most one never snaps past the target
/// and never overshoots — the stepped value stays between the current value
/// and the target.
pub proof fn lemma_smooth_never_overshoots(current: int, target: int, alpha: int)
    requires
        0 <= alpha <= SCALE,
    ensures
        current <= target ==> current <= smooth_spec(current, target, alpha) <= target,
        target <= current ==> target <= smooth_spec(current, target, alpha) <= current,
{
    lemma_frac_between(target - current, alpha);
}

/// The truncated, scaled product `delta * speed * dt / SCALE_SQ`, computed
/// without overflow for event-bounded factors.
pub fn scaled_event(delta: i64, speed: i64, dt: i64) -> (r: i128)
    requires
        -EVENT_MAX <= delta <= EVENT_MAX,
        0 <= speed <= EVENT_MAX,
        0 <= dt <= EVENT_MAX,
    ensures
        r == trunc_div(delta * speed * dt, SCALE_SQ as int),
        -0x2000_0000_0000_0000_0000_0000 <= r <= 0x2000_0000_0000_0000_0000_0000,
{
    let mag: u64 = if delta >= 0 {
        delta as u64
    } else {
        (-delta) as u64
    };
    proof {
        lemma_event_product_bound(mag as int, speed as int, dt as int);
        if delta < 0 {
            lemma_mul_unary_negation(delta as int, speed as int);
            lemma_mul_unary_negation(delta as int * speed as int, dt as int);
        }
        lemma_trunc_div_bounds(mag as int * speed as int * dt as int, SCALE_SQ as int);
    }
    let prod: u128 = (mag as u128) * (speed as u128) * (dt as u128);
    let q: u128 = prod / (SCALE_SQ as u128);
    if delta >= 0 {
        q as i128
    } else {
        -(q as i128)
    }
}

/// A product of two factors bounded by 2^31 is bounded by 2^62.
pub proof fn lemma_event_alpha_bound(a: int, b: int)
    requires
        0 <= a <= EVENT_MAX,
        0 <= b <= EVENT_MAX,
    ensures
        0 <= a * b <= 0x4000_0000_0000_0000,
{
    assert(0 <= a * b <= 0x4000_0000_0000_0000) by (nonlinear_arith)
        requires
            0 <= a <= 0x8000_0000,
            0 <= b <= 0x8000_0000,
    ;
}

/// A product of three factors bounded by 2^31 is bounded by 2^93.
proof fn lemma_event_product_bound(a: int, b: int, c: int)
    requires
        0 <= a <= EVENT_MAX,
        0 <= b <= EVENT_MAX,
        0 <= c <= EVENT_MAX,
    ensures
        0 <= a * b <= 0x4000_0000_0000_0000,
        0 <= a * b * c <= 0x2000_0000_0000_0000_0000_0000,
{
    assert(0 <= a * b <= 0x4000_0000_0000_0000) by (nonlinear_arith)
        requires
            0 <= a <= 0x8000_0000,
            0 <= b <= 0x8000_0000,
    ;
    assert(0 <= a * b * c <= 0x2000_0000_0000_0000_0000_0000) by (nonlinear_arith)
        requires
            0 <= a * b <= 0x4000_0000_0000_0000,
            0 <= c <= 0x8000_0000,
    ;
}

/// One exponential-smoothing step toward `target`: never snaps past it and
/// never overshoots, because the interpolation fraction is at most one.
pub fn smooth_step(current: i64, target: i64, alpha: i64) -> (r: i64)
    requires
        -VAL_MAX <= current <= VAL_MAX,
        -VAL_MAX <= target <= VAL_MAX,
        0 <= alpha <= SCALE,
    ensures
        r == smooth_spec(current as int, target as int, alpha as int),
        current <= target ==> current <= r <= target,
        target <= current ==> target <= r <= current,
{
    let diff: i128 = target as i128 - current as i128;
    proof {
        lemma_diff_alpha_bound(diff as int, alpha as int);
        lemma_frac_between(diff as int, alpha as int);
    }
    let prod: i128 = diff * (alpha as i128);
    let step: i128 = trunc_div_i128(prod, SCALE as i128);
    (current as i128 + step) as i64
}

/// The product of a bounded difference and a fraction stays inside `i128`.
proof fn lemma_diff_alpha_bound(diff: int, alpha: int)
    requires
        -0x200_0000_0000 <= diff <= 0x200_0000_0000,
        0 <= alpha <= SCALE,
    ensures
        -0x4_0000_0000_0000 * SCALE <= diff * alpha <= 0x4_0000_0000_0000 * SCALE,
{
    assert(-0x4_0000_0000_0000 * 1000 <= diff * alpha <= 0x4_0000_0000_0000 * 1000)
        by (nonlinear_arith)
        requires
            -0x200_0000_0000 <= diff <= 0x200_0000_0000,
            0 <= alpha <= 1000,
    ;
}

} // verus!
