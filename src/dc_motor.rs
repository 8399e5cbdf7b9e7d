//! Arithmetic of the two-pin direction driver and the PWM speed driver.
use vstd::prelude::*;

use crate::fixed::{saturate, sat, tdiv, within};
use crate::motor::RotationDirection;

verus! {

/// Duty, in percent, of the largest speed.
pub const FULL_SPEED_PERCENT: u16 = 100;

pub open spec fn map_range_spec(from_range: (i64, i64), to_range: (i64, i64), s: int) -> int {
    sat(
        to_range.0 + tdiv(
            (s - from_range.0) * (to_range.1 - to_range.0),
            from_range.1 - from_range.0,
        ),
    )
}

/// Maps `s` linearly from `from_range` onto `to_range`.
pub fn map_range(from_range: (i64, i64), to_range: (i64, i64), s: i64) -> (r: i64)
    requires
        within(from_range.0 as int),
        within(from_range.1 as int),
        from_range.0 != from_range.1,
        within(to_range.0 as int),
        within(to_range.1 as int),
        within(s as int),
    ensures
        r == map_range_spec(from_range, to_range, s as int),
{
    let a: i128 = (s as i128) - (from_range.0 as i128);
    let b: i128 = (to_range.1 as i128) - (to_range.0 as i128);
    proof {
        assert(-4_000_000_000_000_000_000_000_000 <= a * b <= 4_000_000_000_000_000_000_000_000)
            by (nonlinear_arith)
            requires
                -2_000_000_000_000 <= a <= 2_000_000_000_000,
                -2_000_000_000_000 <= b <= 2_000_000_000_000,
        ;
    }
    let q: i128 = a * b;
    let d: i128 = (from_range.1 as i128) - (from_range.0 as i128);
    let ua: u128 = if q < 0 { (-q) as u128 } else { q as u128 };
    let ud: u128 = if d < 0 { (-d) as u128 } else { d as u128 };
    let uq: u128 = ua / ud;
    proof {
        vstd::arithmetic::div_mod::lemma_div_is_ordered_by_denominator(ua as int, 1, ud as int);
    }
    let quotient: i128 = if (q >= 0 && d > 0) || (q < 0 && d < 0) {
        uq as i128
    } else {
        -(uq as i128)
    };
    saturate((to_range.0 as i128) + quotient)
}

/// PWM duty for a speed in percent: the driver's dead band `min_speed` is
/// added, the sum is capped at full speed and mapped onto `[0, max_duty]`.
pub open spec fn pwm_duty_spec(speed: u8, min_speed: u8, max_duty: u16) -> int {
    let percent = if speed + min_speed > 100 {
        100
    } else {
        speed + min_speed
    };
    percent * max_duty / 100
}

pub fn pwm_duty(speed: u8, min_speed: u8, max_duty: u16) -> (r: u16)
    ensures
        r == pwm_duty_spec(speed, min_speed, max_duty),
        r <= max_duty,
{
    let sum: u16 = speed as u16 + min_speed as u16;
    let percent: u16 = if sum > FULL_SPEED_PERCENT {
        FULL_SPEED_PERCENT
    } else {
        sum
    };
    let duty = map_range((0, FULL_SPEED_PERCENT as i64), (0, max_duty as i64), percent as i64);
    proof {
        let p = percent as int;
        let m = max_duty as int;
        assert(0 <= p * m <= 100 * m) by (nonlinear_arith)
            requires
                0 <= p <= 100,
                0 <= m,
        ;
        vstd::arithmetic::div_mod::lemma_div_is_ordered(p * m, 100 * m, 100);
        vstd::arithmetic::div_mod::lemma_div_multiples_vanish(m, 100);
        assert(100 * m == m * 100) by (nonlinear_arith);
    }
    duty as u16
}

/// Levels of the forward and backward pins for a direction.
pub open spec fn direction_pins_spec(direction: RotationDirection) -> (bool, bool) {
    match direction {
        RotationDirection::Clockwise => (true, false),
        RotationDirection::Counterclockwise => (false, true),
        RotationDirection::Stopped => (false, false),
    }
}

pub fn direction_pins(direction: RotationDirection) -> (r: (bool, bool))
    ensures
        r == direction_pins_spec(direction),
{
    match direction {
        RotationDirection::Clockwise => (true, false),
        RotationDirection::Counterclockwise => (false, true),
        RotationDirection::Stopped => (false, false),
    }
}

} // verus!
