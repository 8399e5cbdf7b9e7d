//! Quadrature encoder bookkeeping: turns raw counter readings into a
//! position and a velocity.
use vstd::prelude::*;

use crate::fixed::{fdiv, fdiv_spec, saturate, sat, within, MAG, SCALE};

verus! {

/// Position and velocity derived from a quadrature counter.
///
/// `ppr` is the number of counter pulses per unit of travel. The counter
/// runs opposite to the reported direction; `reverse` flips it back.
///
/// Each tick adds the counter's change, wrapped to 32 bits so that a
/// counter rolling over reads as a small step, to a running pulse total;
/// the position is always that total divided by `ppr`, so no rounding
/// accumulates from tick to tick.
#[derive(Clone, Copy, Debug)]
pub struct RotaryEncoder {
    pub ppr: i64,
    pub reverse: bool,
    /// Pulses counted since start-up, in the reported direction before `reverse`.
    pub total: i64,
    pub position: i64,
    pub velocity: i64,
    pub last_count: i64,
}

pub open spec fn maybe_reverse_spec(reverse: bool, v: int) -> int {
    if reverse {
        -v
    } else {
        v
    }
}

impl RotaryEncoder {
    pub open spec fn wf(&self) -> bool {
        &&& 0 < self.ppr <= MAG
        &&& within(self.total as int)
        &&& self.position == fdiv_spec(self.total * SCALE, self.ppr as int)
        &&& within(self.velocity as int)
        &&& within(self.last_count as int)
    }

    /// Change of the counter from the last reading to `count`, wrapped to 32 bits.
    pub open spec fn count_delta(&self, count: i64) -> i32 {
        (self.last_count - count) as i64 as i32
    }

    /// Pulse total after the counter reads `count`, before `reverse`.
    pub open spec fn next_total(&self, count: i64) -> int {
        sat(self.total + self.count_delta(count))
    }

    pub open spec fn next_position(&self, count: i64) -> int {
        fdiv_spec(self.next_total(count) * SCALE, self.ppr as int)
    }

    /// The encoder after a tick of `dt` seconds in which the counter read `count`.
    pub open spec fn after(&self, count: i64, dt: i64) -> RotaryEncoder {
        let position = self.next_position(count);
        RotaryEncoder {
            total: self.next_total(count) as i64,
            position: position as i64,
            velocity: fdiv_spec(position - self.position, dt as int) as i64,
            last_count: count,
            ..*self
        }
    }

    pub open spec fn position_spec(&self) -> int {
        maybe_reverse_spec(self.reverse, self.position as int)
    }

    pub open spec fn velocity_spec(&self) -> int {
        maybe_reverse_spec(self.reverse, self.velocity as int)
    }

    pub fn new(pulse_per_unit: i64, reverse: bool) -> (r: RotaryEncoder)
        requires
            0 < pulse_per_unit <= MAG,
        ensures
            r.wf(),
            r == (RotaryEncoder {
                ppr: pulse_per_unit,
                reverse,
                total: 0,
                position: 0,
                velocity: 0,
                last_count: 0,
            }),
    {
        RotaryEncoder { ppr: pulse_per_unit, reverse, total: 0, position: 0, velocity: 0, last_count: 0 }
    }

    fn maybe_reverse(&self, val: i64) -> (r: i64)
        requires
            within(val as int),
        ensures
            r == maybe_reverse_spec(self.reverse, val as int),
    {
        if self.reverse {
            -val
        } else {
            val
        }
    }

    /// Takes in a counter reading `count` after `dt` seconds.
    pub fn update(&mut self, count: i64, dt: i64)
        requires
            old(self).wf(),
            within(count as int),
            0 < dt <= MAG,
        ensures
            final(self).wf(),
            *final(self) == old(self).after(count, dt),
    {
        let change: i64 = self.last_count - count;
        #[verifier::truncate]
        let count_delta: i32 = change as i32;
        let total = saturate((self.total as i128) + (count_delta as i128));
        let position = fdiv(total * SCALE, self.ppr);
        self.velocity = fdiv(position - self.position, dt);
        self.position = position;
        self.total = total;
        self.last_count = count;
    }

    pub fn get_position(&self) -> (r: i64)
        requires
            self.wf(),
        ensures
            r == self.position_spec(),
            within(r as int),
    {
        self.maybe_reverse(self.position)
    }

    pub fn get_velocity(&self) -> (r: i64)
        requires
            self.wf(),
        ensures
            r == self.velocity_spec(),
            within(r as int),
    {
        self.maybe_reverse(self.velocity)
    }
}

} // verus!
