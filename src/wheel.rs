//! Velocity loop of one wheel.
use vstd::prelude::*;

use crate::encoder::RotaryEncoder;
use crate::fixed::{saturate, sat, within, MAG};
use crate::pid::Pid;

verus! {

/// Drives one wheel's actuator so that the measured velocity tracks a
/// setpoint. The controller is incremental: each tick adds its correction
/// to the speed the actuator already runs at.
///
/// The controller reads the velocity exactly as `get_speed` reports it, so
/// the setpoint, the reported speed and the feedback share one sign
/// convention. Matching the counter's direction to the actuator's is the
/// encoder's job (its `reverse` flag), not a negation in this loop: a
/// negated feedback would make a positive setpoint drive the wheel away
/// from it whenever the encoder already agrees with the actuator.
#[derive(Clone, Copy, Debug)]
pub struct Wheel {
    pub encoder: RotaryEncoder,
    pub pid: Pid,
    /// Largest velocity the wheel reaches; the unit of normalized speed.
    pub max_speed: i64,
}

impl Wheel {
    pub open spec fn wf(&self) -> bool {
        &&& self.encoder.wf()
        &&& self.pid.wf()
        &&& within(self.max_speed as int)
        &&& self.max_speed != 0
    }

    /// The encoder after the tick, and the measured velocity it gives.
    pub open spec fn measured(&self, count: i64, dt: i64) -> int {
        self.encoder.after(count, dt).velocity_spec()
    }

    /// The wheel after a tick.
    pub open spec fn after(&self, count: i64, dt: i64) -> Wheel {
        Wheel {
            encoder: self.encoder.after(count, dt),
            pid: self.pid.after(self.measured(count, dt) as i64),
            ..*self
        }
    }

    /// The actuator speed commanded by a tick in which the actuator ran at `actuator`.
    pub open spec fn command(&self, count: i64, actuator: i64, dt: i64) -> int {
        sat(actuator + self.pid.output_spec(self.measured(count, dt)))
    }

    pub fn new(encoder: RotaryEncoder, pid: Pid, max_speed: i64) -> (r: Wheel)
        requires
            encoder.wf(),
            pid.wf(),
            within(max_speed as int),
            max_speed != 0,
        ensures
            r.wf(),
            r == (Wheel { encoder, pid, max_speed }),
    {
        Wheel { encoder, pid, max_speed }
    }

    /// One tick of `dt` seconds: the counter read `count` and the actuator
    /// ran at `actuator`; returns the actuator's new speed.
    pub fn update(&mut self, count: i64, actuator: i64, dt: i64) -> (r: i64)
        requires
            old(self).wf(),
            within(count as int),
            within(actuator as int),
            0 < dt <= MAG,
        ensures
            final(self).wf(),
            *final(self) == old(self).after(count, dt),
            r == old(self).command(count, actuator, dt),
    {
        self.encoder.update(count, dt);
        let velocity = self.encoder.get_velocity();
        let control = self.pid.next_control_output(velocity).output;
        saturate((actuator as i128) + (control as i128))
    }

    /// Sets the target velocity.
    pub fn set_speed(&mut self, speed: i64)
        requires
            old(self).wf(),
            within(speed as int),
        ensures
            final(self).wf(),
            *final(self) == (Wheel { pid: Pid { setpoint: speed, ..old(self).pid }, ..*old(self) }),
    {
        self.pid.setpoint = speed;
    }

    /// The measured velocity.
    pub fn get_speed(&self) -> (r: i64)
        requires
            self.wf(),
        ensures
            r == self.encoder.velocity_spec(),
            within(r as int),
    {
        self.encoder.get_velocity()
    }

    /// The measured position.
    pub fn get_position(&self) -> (r: i64)
        requires
            self.wf(),
        ensures
            r == self.encoder.position_spec(),
            within(r as int),
    {
        self.encoder.get_position()
    }
}

} // verus!
