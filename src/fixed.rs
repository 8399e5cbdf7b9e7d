//! Fixed-point arithmetic shared by every control loop.
//!
//! A quantity is an `i64` counting millionths of its unit: `1_500_000` is 1.5.
//! Every stored quantity stays within `[-MAG, MAG]`, and intermediate
//! results are computed in `i128` and saturated back into that range.
use vstd::prelude::*;

verus! {

/// Number of fixed-point steps in one unit.
pub const SCALE: i64 = 1_000_000;

/// Largest magnitude of a stored quantity.
pub const MAG: i64 = 1_000_000_000_000;

/// Largest magnitude accepted by the multiplying helpers.
pub const WIDE: i64 = 1_000_000_000_000_000_000;

/// pi in millionths, used for angle conversions.
pub const PI_E6: i64 = 3_141_593;

pub open spec fn abs_spec(x: int) -> int {
    if x < 0 {
        -x
    } else {
        x
    }
}

/// A quantity that may be stored.
pub open spec fn within(x: int) -> bool {
    -MAG <= x <= MAG
}

/// A quantity that the multiplying helpers accept.
pub open spec fn wide(x: int) -> bool {
    -WIDE <= x <= WIDE
}

/// Division rounding toward zero, as integer division does.
pub open spec fn tdiv(a: int, b: int) -> int {
    let q = abs_spec(a) / abs_spec(b);
    if (a >= 0 && b > 0) || (a < 0 && b < 0) {
        q
    } else {
        -q
    }
}

pub open spec fn clamp_spec(x: int, lo: int, hi: int) -> int {
    if x < lo {
        lo
    } else if x > hi {
        hi
    } else {
        x
    }
}

/// Saturation into the storable range.
pub open spec fn sat(x: int) -> int {
    clamp_spec(x, -MAG as int, MAG as int)
}

/// Product of two fixed-point quantities.
pub open spec fn fmul_spec(a: int, b: int) -> int {
    sat(tdiv(a * b, SCALE as int))
}

/// Quotient of two fixed-point quantities.
pub open spec fn fdiv_spec(a: int, b: int) -> int {
    sat(tdiv(a * SCALE, b))
}

/// The value bounded in magnitude by `limit`, keeping its sign.
pub open spec fn limit_spec(limit: int, v: int) -> int {
    clamp_spec(v, -limit, limit)
}

/// Degrees to radians.
pub open spec fn deg_to_rad(d: int) -> int {
    sat(tdiv(d * PI_E6, 180_000_000))
}

/// Radians to degrees.
pub open spec fn rad_to_deg(r: int) -> int {
    sat(tdiv(r * 180_000_000, PI_E6 as int))
}

/// `r` is the integer square root of `n`.
pub open spec fn is_isqrt(n: int, r: int) -> bool {
    0 <= r && r * r <= n < (r + 1) * (r + 1)
}

proof fn lemma_div_le(a: nat, b: nat)
    requires
        b >= 1,
    ensures
        a / b <= a,
{
    vstd::arithmetic::div_mod::lemma_div_is_ordered_by_denominator(a as int, 1, b as int);
}

/// Truncating division of wide integers.
fn tdiv128(a: i128, b: i128) -> (r: i128)
    requires
        b != 0,
        -0x1000_0000_0000_0000_0000_0000_0000_0000 < a < 0x1000_0000_0000_0000_0000_0000_0000_0000,
        -0x1000_0000_0000_0000_0000_0000_0000_0000 < b < 0x1000_0000_0000_0000_0000_0000_0000_0000,
    ensures
        r == tdiv(a as int, b as int),
        abs_spec(r as int) <= abs_spec(a as int),
{
    let ua: u128 = if a < 0 { (-a) as u128 } else { a as u128 };
    let ub: u128 = if b < 0 { (-b) as u128 } else { b as u128 };
    let q: u128 = ua / ub;
    proof {
        lemma_div_le(ua as nat, ub as nat);
    }
    if (a >= 0 && b > 0) || (a < 0 && b < 0) {
        q as i128
    } else {
        -(q as i128)
    }
}

/// Saturates a wide integer into the storable range.
pub fn saturate(x: i128) -> (r: i64)
    ensures
        r == sat(x as int),
{
    if x < -(MAG as i128) {
        -MAG
    } else if x > MAG as i128 {
        MAG
    } else {
        x as i64
    }
}

pub fn clamp(x: i64, lo: i64, hi: i64) -> (r: i64)
    ensures
        r == clamp_spec(x as int, lo as int, hi as int),
{
    if x < lo {
        lo
    } else if x > hi {
        hi
    } else {
        x
    }
}

/// Bounds `v` in magnitude by `limit`, keeping its sign.
pub fn apply_limit(limit: i64, v: i64) -> (r: i64)
    requires
        limit >= 0,
    ensures
        r == limit_spec(limit as int, v as int),
        abs_spec(r as int) <= limit,
{
    clamp(v, -limit, limit)
}

/// Multiplies two fixed-point quantities.
pub fn fmul(a: i64, b: i64) -> (r: i64)
    requires
        wide(a as int),
        wide(b as int),
    ensures
        r == fmul_spec(a as int, b as int),
        within(r as int),
{
    proof {
        assert(-1_000_000_000_000_000_000_000_000_000_000_000_000 <= (a as int) * (b as int)
            <= 1_000_000_000_000_000_000_000_000_000_000_000_000) by (nonlinear_arith)
            requires
                -1_000_000_000_000_000_000 <= a <= 1_000_000_000_000_000_000,
                -1_000_000_000_000_000_000 <= b <= 1_000_000_000_000_000_000,
        ;
    }
    let p: i128 = (a as i128) * (b as i128);
    saturate(tdiv128(p, SCALE as i128))
}

/// Divides two fixed-point quantities.
pub fn fdiv(a: i64, b: i64) -> (r: i64)
    requires
        wide(a as int),
        wide(b as int),
        b != 0,
    ensures
        r == fdiv_spec(a as int, b as int),
        within(r as int),
{
    let p: i128 = (a as i128) * (SCALE as i128);
    saturate(tdiv128(p, b as i128))
}

/// Converts an angle in degrees to radians.
pub fn degrees_to_radians(d: i64) -> (r: i64)
    requires
        wide(d as int),
    ensures
        r == deg_to_rad(d as int),
        within(r as int),
{
    let p: i128 = (d as i128) * (PI_E6 as i128);
    saturate(tdiv128(p, 180_000_000))
}

/// Converts an angle in radians to degrees.
pub fn radians_to_degrees(r: i64) -> (d: i64)
    requires
        wide(r as int),
    ensures
        d == rad_to_deg(r as int),
        within(d as int),
{
    let p: i128 = (r as i128) * 180_000_000;
    saturate(tdiv128(p, PI_E6 as i128))
}

/// Integer square root: the largest `r` with `r * r <= n`.
pub fn isqrt(n: u128) -> (r: u128)
    requires
        n < 0x1_0000_0000_0000_0000_0000_0000_0000,
    ensures
        is_isqrt(n as int, r as int),
{
    let mut lo: u128 = 0;
    let mut hi: u128 = 0x1_0000_0000_0000_0000;
    while hi - lo > 1
        invariant
            lo < hi <= 0x1_0000_0000_0000_0000,
            (lo as int) * (lo as int) <= n,
            n < (hi as int) * (hi as int),
        decreases hi - lo,
    {
        let mid: u128 = lo + (hi - lo) / 2;
        proof {
            assert((mid as int) * (mid as int) < 0x1_0000_0000_0000_0000 * 0x1_0000_0000_0000_0000)
                by (nonlinear_arith)
                requires
                    mid < 0x1_0000_0000_0000_0000,
            ;
        }
        if mid * mid <= n {
            lo = mid;
        } else {
            hi = mid;
        }
    }
    lo
}

} // verus!
