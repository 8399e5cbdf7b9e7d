//! Position loop of one wheel, built on its velocity loop.
use vstd::prelude::*;

use crate::fixed::{abs_spec, fdiv, fdiv_spec, fmul, fmul_spec, within, MAG, SCALE};
use crate::pid::Pid;
use crate::wheel::Wheel;

verus! {

/// Holds a wheel at a target position.
///
/// The controller works on normalized values: positions as a fraction of
/// `max_position`, speeds as a fraction of the wheel's `max_speed`. Its
/// output is added to the current normalized speed, scaled back, bounded
/// by `max_speed` and handed to the velocity loop as its setpoint.
///
/// Arrival latches: once the wheel has been seen within
/// `max_target_distance` of the target, the target counts as reached until
/// a new target is set, so a wheel resting on the tolerance boundary does
/// not flap between reached and not reached.
#[derive(Clone, Copy, Debug)]
pub struct WheelPositionController {
    pub wheel: Wheel,
    pub pid: Pid,
    pub max_position: i64,
    pub max_target_distance: i64,
    /// Cruise speed: bound on the velocity setpoint.
    pub max_speed: i64,
    pub reached: bool,
}

/// `x` bounded above by `m`, then below by `-m`.
pub open spec fn bound_speed(x: int, m: int) -> int {
    let upper = if x < m {
        x
    } else {
        m
    };
    if upper > -m {
        upper
    } else {
        -m
    }
}

impl WheelPositionController {
    pub open spec fn wf(&self) -> bool {
        &&& self.wheel.wf()
        &&& self.pid.wf()
        &&& within(self.max_position as int)
        &&& self.max_position != 0
        &&& 0 <= self.max_target_distance <= MAG
        &&& within(self.max_speed as int)
        &&& self.max_speed != 0
    }

    pub open spec fn target_spec(&self) -> int {
        fmul_spec(self.pid.setpoint as int, self.max_position as int)
    }

    /// `pos` lies within the tolerance of the target.
    pub open spec fn near_target(&self, pos: int) -> bool {
        abs_spec(pos - self.target_spec()) <= self.max_target_distance
    }

    pub open spec fn position_spec(&self) -> int {
        self.wheel.encoder.position_spec()
    }

    /// The velocity setpoint chosen by a tick that measured the wheel as `w`.
    pub open spec fn speed_setpoint(&self, w: Wheel) -> int {
        let position = fdiv_spec(w.encoder.position_spec(), self.max_position as int);
        let speed = fdiv_spec(w.encoder.velocity_spec(), w.max_speed as int);
        let control = self.pid.output_spec(position);
        bound_speed(fmul_spec(speed + control, w.max_speed as int), self.max_speed as int)
    }

    /// The controller after a tick.
    pub open spec fn after(&self, count: i64, dt: i64) -> WheelPositionController {
        let w = self.wheel.after(count, dt);
        let position = fdiv_spec(w.encoder.position_spec(), self.max_position as int);
        WheelPositionController {
            wheel: Wheel {
                pid: Pid { setpoint: self.speed_setpoint(w) as i64, ..w.pid },
                ..w
            },
            pid: self.pid.after(position as i64),
            reached: self.reached || self.near_target(w.encoder.position_spec()),
            ..*self
        }
    }

    pub fn new(wheel: Wheel, pid: Pid, max_position: i64, target_position_epsilon: i64) -> (r: Self)
        requires
            wheel.wf(),
            pid.wf(),
            within(max_position as int),
            max_position != 0,
            0 <= target_position_epsilon <= MAG,
        ensures
            r.wf(),
            r.wheel == wheel,
            r.pid == pid,
            r.max_position == max_position,
            r.max_target_distance == target_position_epsilon,
            r.max_speed == SCALE,
            r.reached == r.near_target(wheel.encoder.position_spec()),
            wheel.encoder.position_spec() == 0 && pid.setpoint == 0 ==> r.reached,
    {
        assert(0 * max_position == 0);
        let mut r = WheelPositionController {
            wheel,
            pid,
            max_position,
            max_target_distance: target_position_epsilon,
            max_speed: SCALE,
            reached: false,
        };
        r.reached = r.near(r.wheel.get_position());
        r
    }

    /// Whether `pos` lies within the tolerance of the target.
    fn near(&self, pos: i64) -> (r: bool)
        requires
            self.wf(),
            within(pos as int),
        ensures
            r == self.near_target(pos as int),
    {
        let diff = pos - self.get_target_position();
        diff <= self.max_target_distance && -diff <= self.max_target_distance
    }

    pub fn get_target_position(&self) -> (r: i64)
        requires
            self.wf(),
        ensures
            r == self.target_spec(),
            within(r as int),
    {
        self.denormalize_position(self.pid.setpoint)
    }

    fn normalize_position(&self, pos: i64) -> (r: i64)
        requires
            self.wf(),
            within(pos as int),
        ensures
            r == fdiv_spec(pos as int, self.max_position as int),
            within(r as int),
    {
        fdiv(pos, self.max_position)
    }

    fn denormalize_position(&self, pos: i64) -> (r: i64)
        requires
            self.wf(),
            within(pos as int),
        ensures
            r == fmul_spec(pos as int, self.max_position as int),
            within(r as int),
    {
        fmul(pos, self.max_position)
    }

    fn normalize_speed(&self, speed: i64) -> (r: i64)
        requires
            self.wf(),
            within(speed as int),
        ensures
            r == fdiv_spec(speed as int, self.wheel.max_speed as int),
            within(r as int),
    {
        fdiv(speed, self.wheel.max_speed)
    }

    fn denormalize_speed(&self, speed: i64) -> (r: i64)
        requires
            self.wf(),
            -2 * MAG <= speed <= 2 * MAG,
        ensures
            r == fmul_spec(speed as int, self.wheel.max_speed as int),
            within(r as int),
    {
        fmul(speed, self.wheel.max_speed)
    }

    /// Sets the cruise speed.
    pub fn set_speed(&mut self, speed: i64)
        requires
            old(self).wf(),
            within(speed as int),
            speed != 0,
        ensures
            final(self).wf(),
            *final(self) == (WheelPositionController { max_speed: speed, ..*old(self) }),
    {
        self.max_speed = speed;
    }

    /// The measured velocity.
    pub fn get_speed(&self) -> (r: i64)
        requires
            self.wf(),
        ensures
            r == self.wheel.encoder.velocity_spec(),
    {
        self.wheel.get_speed()
    }

    /// The measured position.
    pub fn get_position(&self) -> (r: i64)
        requires
            self.wf(),
        ensures
            r == self.position_spec(),
            within(r as int),
    {
        self.wheel.get_position()
    }

    /// Sets a new target position; it counts as reached at once only if
    /// the wheel already lies within the tolerance of it.
    pub fn set_position(&mut self, position: i64)
        requires
            old(self).wf(),
            within(position as int),
        ensures
            final(self).wf(),
            final(self).pid == (Pid {
                setpoint: fdiv_spec(position as int, old(self).max_position as int) as i64,
                ..old(self).pid
            }),
            final(self).reached == final(self).near_target(old(self).position_spec()),
            *final(self) == (WheelPositionController {
                pid: final(self).pid,
                reached: final(self).reached,
                ..*old(self)
            }),
    {
        self.pid.setpoint = self.normalize_position(position);
        let pos = self.wheel.get_position();
        self.reached = self.near(pos);
    }

    pub fn is_target_reached(&self) -> (r: bool)
        ensures
            r == self.reached,
    {
        self.reached
    }

    /// One tick of `dt` seconds: the counter read `count` and the actuator
    /// ran at `actuator`; returns the actuator's new speed.
    pub fn update(&mut self, count: i64, actuator: i64, dt: i64) -> (r: i64)
        requires
            old(self).wf(),
            within(count as int),
            within(actuator as int),
            0 < dt <= MAG,
        ensures
            final(self).wf(),
            *final(self) == old(self).after(count, dt),
            r == old(self).wheel.command(count, actuator, dt),
            old(self).reached ==> final(self).reached,
    {
        let command = self.wheel.update(count, actuator, dt);
        let measured = self.wheel.get_position();
        let position = self.normalize_position(measured);
        let current_speed = self.normalize_speed(self.wheel.get_speed());
        let control = self.pid.next_control_output(position).output;
        let new_speed = self.denormalize_speed(current_speed + control);
        let upper = if new_speed < self.max_speed {
            new_speed
        } else {
            self.max_speed
        };
        let bounded = if upper > -self.max_speed {
            upper
        } else {
            -self.max_speed
        };
        self.wheel.set_speed(bounded);
        if !self.reached {
            self.reached = self.near(measured);
        }
        command
    }
}

} // verus!

verus! {

/// Arrival latches: a position loop that reports its target reached still
/// reports it after any further tick, and a tick that measures the wheel
/// within the tolerance of the target makes it report so.
pub proof fn lemma_arrival_latches(s: WheelPositionController, count: i64, dt: i64)
    requires
        s.wf(),
    ensures
        s.reached ==> s.after(count, dt).reached,
        s.near_target(s.wheel.after(count, dt).encoder.position_spec()) ==> s.after(
            count,
            dt,
        ).reached,
        s.after(count, dt).target_spec() == s.target_spec(),
{
}

} // verus!
