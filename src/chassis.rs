//! Differential-drive chassis: atomic movements, odometry and heading hold.
use vstd::prelude::*;

use crate::fixed::{
    abs_spec,
    degrees_to_radians, deg_to_rad, fdiv, fdiv_spec, fmul, fmul_spec, saturate, sat, within, MAG,
    SCALE,
};
use crate::pid::Pid;
use crate::servo::WheelPositionController;

verus! {

/// Cruise speed requested by the caller: linear in length per second,
/// angular in degrees per second.
#[derive(Clone, Copy, Debug, PartialEq, Eq, Structural)]
pub struct ChassisSpeed {
    pub linear: i64,
    pub angular: i64,
}

/// A pose or a pose change: `linear` is (x, y) in length units. As the
/// chassis's estimate, `angular` is the heading in radians; as the goal of
/// a relative move, it is the final turn in degrees.
#[derive(Clone, Copy, Debug, PartialEq, Eq)]
pub struct ChassisPosition {
    pub linear: (i64, i64),
    pub angular: i64,
}

/// An indivisible motion: a straight drive by a distance, or a turn in
/// place by an angle in degrees.
#[derive(Clone, Copy, Debug, PartialEq, Eq, Structural)]
pub enum AtomicMovement {
    Linear(i64),
    Angular(i64),
}

/// Bookkeeping of the movement in flight.
#[derive(Clone, Copy, Debug, PartialEq, Eq)]
pub struct ChassisMovement {
    pub movement: AtomicMovement,
    /// Wheel positions at the previous tick.
    pub prev_pos: (i64, i64),
    /// Normalized heading when the movement began.
    pub start_rotation: i64,
}

/// What the hardware reported for one tick.
#[derive(Clone, Copy, Debug, PartialEq, Eq, Structural)]
pub struct ChassisReadings {
    pub left_count: i64,
    pub left_actuator: i64,
    pub right_count: i64,
    pub right_actuator: i64,
    /// Raw heading reading of the rotation sensor.
    pub rotation: i64,
}

/// Cosine and sine of the pose heading at the start of a tick.
#[derive(Clone, Copy, Debug, PartialEq, Eq, Structural)]
pub struct HeadingTrig {
    pub cos: i64,
    pub sin: i64,
}

/// New actuator speeds for the two wheels.
#[derive(Clone, Copy, Debug, PartialEq, Eq, Structural)]
pub struct WheelCommands {
    pub left: i64,
    pub right: i64,
}

/// Two position-controlled wheels and a rotation sensor.
#[derive(Clone, Copy, Debug)]
pub struct Chassis {
    pub wheels_distance: i64,
    pub speed: ChassisSpeed,
    pub current_movement: Option<ChassisMovement>,
    pub position: ChassisPosition,
    pub left: WheelPositionController,
    pub right: WheelPositionController,
    /// Last normalized heading of the rotation sensor.
    pub rotation: i64,
    /// Raw readings that map to the normalized headings -1 and 1.
    pub rotation_limits: (i64, i64),
    pub rotation_pid: Pid,
}

/// Gain applied to the heading-hold output before it biases the wheels.
pub const HEADING_HOLD_GAIN: i64 = 10;

pub open spec fn pose_ok(p: ChassisPosition) -> bool {
    within(p.linear.0 as int) && within(p.linear.1 as int) && within(p.angular as int)
}

pub open spec fn readings_ok(r: ChassisReadings) -> bool {
    &&& within(r.left_count as int)
    &&& within(r.left_actuator as int)
    &&& within(r.right_count as int)
    &&& within(r.right_actuator as int)
    &&& within(r.rotation as int)
}

pub open spec fn movement_ok(m: AtomicMovement) -> bool {
    match m {
        AtomicMovement::Linear(d) => within(d as int),
        AtomicMovement::Angular(a) => within(a as int),
    }
}

/// Linear map of the raw reading range onto [-1, 1].
pub open spec fn normalize_rotation_spec(limits: (i64, i64), val: int) -> int {
    sat(2 * fdiv_spec(val - limits.0, limits.1 - limits.0) - SCALE)
}

/// A speed cap after a heading-hold bias: a biased value of zero has no
/// normalized meaning and leaves the cap as it was.
pub open spec fn biased_cap(cap: i64, biased: int) -> i64 {
    if biased == 0 {
        cap
    } else {
        biased as i64
    }
}

/// Offset that each wheel travels, in opposite directions, to turn the
/// chassis in place by `angle` degrees.
pub open spec fn turn_offset(angle: int, wheels_distance: int) -> int {
    fmul_spec(deg_to_rad(angle), wheels_distance / 2)
}

/// Heading change of an in-place turn in which the left wheel travelled
/// `delta`. This assumes both wheels travel the same distance in opposite
/// directions: an approximation that a per-wheel arc model could replace.
pub open spec fn turn_heading_delta(delta: int, wheels_distance: int) -> int {
    fdiv_spec(2 * delta, wheels_distance)
}

impl Chassis {
    pub open spec fn wf(&self) -> bool {
        &&& 0 < self.wheels_distance <= MAG
        &&& within(self.speed.linear as int)
        &&& within(self.speed.angular as int)
        &&& pose_ok(self.position)
        &&& self.left.wf()
        &&& self.right.wf()
        &&& within(self.rotation as int)
        &&& within(self.rotation_limits.0 as int)
        &&& within(self.rotation_limits.1 as int)
        &&& self.rotation_limits.0 != self.rotation_limits.1
        &&& self.rotation_pid.wf()
        &&& match self.current_movement {
            Some(m) => {
                &&& movement_ok(m.movement)
                &&& within(m.prev_pos.0 as int)
                &&& within(m.prev_pos.1 as int)
                &&& within(m.start_rotation as int)
            },
            None => true,
        }
    }

    pub open spec fn wheel_positions_spec(&self) -> (int, int) {
        (self.left.position_spec(), self.right.position_spec())
    }

    pub open spec fn reached_spec(&self) -> bool {
        self.left.reached && self.right.reached
    }

    /// The chassis after a tick of `dt` seconds.
    pub open spec fn after(&self, r: ChassisReadings, h: HeadingTrig, dt: i64) -> Chassis {
        let left = self.left.after(r.left_count, dt);
        let right = self.right.after(r.right_count, dt);
        let rotation = normalize_rotation_spec(self.rotation_limits, r.rotation as int) as i64;
        let ticked = Chassis { left, right, rotation, ..*self };
        match self.current_movement {
            None => ticked,
            Some(m) => {
                let wp = (left.position_spec() as i64, right.position_spec() as i64);
                let d0 = wp.0 - m.prev_pos.0;
                let d1 = wp.1 - m.prev_pos.1;
                let delta = sat(m.start_rotation - rotation) as i64;
                let control = self.rotation_pid.output_spec(delta as int);
                let rotation_pid = self.rotation_pid.after(delta);
                let moved = match m.movement {
                    AtomicMovement::Linear(_) => Chassis {
                        position: ChassisPosition {
                            linear: (
                                sat(self.position.linear.0 + fmul_spec(h.cos as int, d0)) as i64,
                                sat(self.position.linear.1 + fmul_spec(h.sin as int, d1)) as i64,
                            ),
                            angular: self.position.angular,
                        },
                        left: WheelPositionController {
                            max_speed: biased_cap(
                                left.max_speed,
                                sat(self.speed.linear - HEADING_HOLD_GAIN * control),
                            ),
                            ..left
                        },
                        right: WheelPositionController {
                            max_speed: biased_cap(
                                right.max_speed,
                                sat(self.speed.linear + HEADING_HOLD_GAIN * control),
                            ),
                            ..right
                        },
                        rotation_pid,
                        ..ticked
                    },
                    AtomicMovement::Angular(_) => Chassis {
                        position: ChassisPosition {
                            angular: sat(
                                self.position.angular + turn_heading_delta(
                                    d0,
                                    self.wheels_distance as int,
                                ),
                            ) as i64,
                            ..self.position
                        },
                        rotation_pid,
                        ..ticked
                    },
                };
                Chassis {
                    current_movement: if moved.reached_spec() {
                        None
                    } else {
                        Some(ChassisMovement { prev_pos: wp, ..m })
                    },
                    ..moved
                }
            },
        }
    }

    /// The chassis after `move_atomic(mv)`.
    pub open spec fn after_move(&self, mv: AtomicMovement) -> Chassis {
        let wp = self.wheel_positions_spec();
        let started = Chassis {
            current_movement: Some(
                ChassisMovement {
                    movement: mv,
                    prev_pos: (wp.0 as i64, wp.1 as i64),
                    start_rotation: self.rotation,
                },
            ),
            ..*self
        };
        let (lt, rt, pid) = match mv {
            AtomicMovement::Linear(d) => (
                sat(wp.0 + d),
                sat(wp.1 + d),
                Pid { setpoint: 0, ..self.rotation_pid },
            ),
            AtomicMovement::Angular(a) => {
                let inc = turn_offset(a as int, self.wheels_distance as int);
                (sat(wp.0 + inc), sat(wp.1 - inc), self.rotation_pid)
            },
        };
        let left_pid = Pid {
            setpoint: fdiv_spec(lt, self.left.max_position as int) as i64,
            ..self.left.pid
        };
        let right_pid = Pid {
            setpoint: fdiv_spec(rt, self.right.max_position as int) as i64,
            ..self.right.pid
        };
        let left = WheelPositionController { pid: left_pid, ..self.left };
        let right = WheelPositionController { pid: right_pid, ..self.right };
        Chassis {
            left: WheelPositionController { reached: left.near_target(wp.0), ..left },
            right: WheelPositionController { reached: right.near_target(wp.1), ..right },
            rotation_pid: pid,
            ..started
        }
    }

    /// A chassis at rest at the origin. `rotation` is the sensor's current
    /// raw reading.
    pub fn new(
        left: WheelPositionController,
        right: WheelPositionController,
        rotation: i64,
        wheels_distance: i64,
        rotation_limits: (i64, i64),
        rotation_pid: Pid,
    ) -> (r: Chassis)
        requires
            left.wf(),
            right.wf(),
            within(rotation as int),
            0 < wheels_distance <= MAG,
            within(rotation_limits.0 as int),
            within(rotation_limits.1 as int),
            rotation_limits.0 != rotation_limits.1,
            rotation_pid.wf(),
        ensures
            r.wf(),
            r == (Chassis {
                wheels_distance,
                speed: ChassisSpeed { linear: 0, angular: 0 },
                current_movement: None,
                position: ChassisPosition { linear: (0, 0), angular: 0 },
                left,
                right,
                rotation: normalize_rotation_spec(rotation_limits, rotation as int) as i64,
                rotation_limits,
                rotation_pid,
            }),
    {
        Chassis {
            wheels_distance,
            speed: ChassisSpeed { linear: 0, angular: 0 },
            current_movement: None,
            position: ChassisPosition { linear: (0, 0), angular: 0 },
            left,
            right,
            rotation: normalize_rotation(rotation_limits, rotation),
            rotation_limits,
            rotation_pid,
        }
    }

    fn get_wheel_positions(&self) -> (r: (i64, i64))
        requires
            self.wf(),
        ensures
            r.0 == self.wheel_positions_spec().0,
            r.1 == self.wheel_positions_spec().1,
            within(r.0 as int),
            within(r.1 as int),
    {
        (self.left.get_position(), self.right.get_position())
    }

    /// Sets the cruise speed.
    pub fn set_speed(&mut self, speed: ChassisSpeed)
        requires
            old(self).wf(),
            within(speed.linear as int),
            within(speed.angular as int),
        ensures
            final(self).wf(),
            *final(self) == (Chassis { speed, ..*old(self) }),
    {
        self.speed = speed;
    }

    /// Measured velocities of the left and right wheel.
    pub fn get_speed(&self) -> (r: (i64, i64))
        requires
            self.wf(),
        ensures
            r.0 == self.left.wheel.encoder.velocity_spec(),
            r.1 == self.right.wheel.encoder.velocity_spec(),
    {
        (self.left.get_speed(), self.right.get_speed())
    }

    /// The estimated pose.
    pub fn get_position(&self) -> (r: ChassisPosition)
        ensures
            r == self.position,
    {
        self.position
    }

    /// Both wheels report their targets reached.
    pub fn is_target_reached(&self) -> (r: bool)
        ensures
            r == self.reached_spec(),
    {
        self.left.is_target_reached() && self.right.is_target_reached()
    }

    /// Starts `movement`, replacing any movement in flight. The movement's
    /// start heading is the normalized heading recorded at the last tick
    /// (or at construction): the chassis reads its sensor only in `update`.
    pub fn move_atomic(&mut self, movement: AtomicMovement)
        requires
            old(self).wf(),
            movement_ok(movement),
        ensures
            final(self).wf(),
            *final(self) == old(self).after_move(movement),
    {
        let wheel_positions = self.get_wheel_positions();
        self.current_movement = Some(
            ChassisMovement {
                movement,
                prev_pos: wheel_positions,
                start_rotation: self.rotation,
            },
        );
        match movement {
            AtomicMovement::Linear(distance) => {
                self.left.set_position(saturate((wheel_positions.0 as i128) + (distance as i128)));
                self.right.set_position(saturate((wheel_positions.1 as i128) + (distance as i128)));
                self.rotation_pid.setpoint = 0;
            },
            AtomicMovement::Angular(angle) => {
                let increment = fmul(degrees_to_radians(angle), self.wheels_distance / 2);
                self.left.set_position(saturate((wheel_positions.0 as i128) + (increment as i128)));
                self.right.set_position(saturate((wheel_positions.1 as i128) - (increment as i128)));
            },
        }
    }

    /// One tick of `dt` seconds: both wheels' loops run on the readings,
    /// and while a movement is in flight the pose is integrated and the
    /// heading hold biases the wheels. Returns the actuator speeds.
    pub fn update(&mut self, readings: ChassisReadings, heading: HeadingTrig, dt: i64) -> (r:
        WheelCommands)
        requires
            old(self).wf(),
            readings_ok(readings),
            within(heading.cos as int),
            within(heading.sin as int),
            0 < dt <= MAG,
        ensures
            final(self).wf(),
            *final(self) == old(self).after(readings, heading, dt),
            r == (WheelCommands {
                left: old(self).left.wheel.command(
                    readings.left_count,
                    readings.left_actuator,
                    dt,
                ) as i64,
                right: old(self).right.wheel.command(
                    readings.right_count,
                    readings.right_actuator,
                    dt,
                ) as i64,
            }),
    {
        let left = self.left.update(readings.left_count, readings.left_actuator, dt);
        let right = self.right.update(readings.right_count, readings.right_actuator, dt);
        let wheel_positions = self.get_wheel_positions();
        let rotation = normalize_rotation(self.rotation_limits, readings.rotation);
        self.rotation = rotation;
        match self.current_movement {
            None => {},
            Some(m) => {
                let delta = saturate((m.start_rotation as i128) - (rotation as i128));
                let d0 = wheel_positions.0 - m.prev_pos.0;
                let d1 = wheel_positions.1 - m.prev_pos.1;
                let control = self.rotation_pid.next_control_output(delta).output;
                match m.movement {
                    AtomicMovement::Linear(_) => {
                        let x = saturate(
                            (self.position.linear.0 as i128) + (fmul(heading.cos, d0) as i128),
                        );
                        let y = saturate(
                            (self.position.linear.1 as i128) + (fmul(heading.sin, d1) as i128),
                        );
                        self.position.linear = (x, y);
                        let bias = (HEADING_HOLD_GAIN as i128) * (control as i128);
                        let left_cap = saturate((self.speed.linear as i128) - bias);
                        let right_cap = saturate((self.speed.linear as i128) + bias);
                        if left_cap != 0 {
                            self.left.set_speed(left_cap);
                        }
                        if right_cap != 0 {
                            self.right.set_speed(right_cap);
                        }
                    },
                    AtomicMovement::Angular(_) => {
                        let turned = fdiv(2 * d0, self.wheels_distance);
                        self.position.angular = saturate(
                            (self.position.angular as i128) + (turned as i128),
                        );
                    },
                }
                if self.is_target_reached() {
                    self.current_movement = None;
                } else {
                    self.current_movement = Some(
                        ChassisMovement { prev_pos: wheel_positions, ..m },
                    );
                }
            },
        }
        WheelCommands { left, right }
    }
}

/// Maps a raw heading reading onto [-1, 1].
pub fn normalize_rotation(limits: (i64, i64), val: i64) -> (r: i64)
    requires
        within(limits.0 as int),
        within(limits.1 as int),
        limits.0 != limits.1,
        within(val as int),
    ensures
        r == normalize_rotation_spec(limits, val as int),
        within(r as int),
{
    let q = fdiv(val - limits.0, limits.1 - limits.0);
    saturate(2 * (q as i128) - (SCALE as i128))
}

} // verus!

verus! {

proof fn lemma_fmul_unit(d: int)
    requires
        within(d),
    ensures
        fmul_spec(SCALE as int, d) == d,
        fmul_spec(0, d) == 0,
{
    vstd::arithmetic::div_mod::lemma_div_multiples_vanish(abs_spec(d), SCALE as int);
    assert(abs_spec(SCALE * d) == SCALE * abs_spec(d)) by (nonlinear_arith);
    assert(0 * d == 0);
}

/// Straight-line odometry: with the heading at zero (cosine one, sine
/// zero), a tick of a straight movement in which both wheels travel `d`
/// moves the pose by `d` along x and leaves y and the heading unchanged.
pub proof fn lemma_straight_line_odometry(
    c: Chassis,
    r: ChassisReadings,
    dt: i64,
    d: i64,
)
    requires
        c.wf(),
        readings_ok(r),
        0 < dt <= MAG,
        c.position.angular == 0,
        c.current_movement is Some,
        c.current_movement.unwrap().movement is Linear,
        c.left.after(r.left_count, dt).position_spec() - c.current_movement.unwrap().prev_pos.0
            == d,
        c.right.after(r.right_count, dt).position_spec() - c.current_movement.unwrap().prev_pos.1
            == d,
        within(d as int),
    ensures
        c.after(r, HeadingTrig { cos: SCALE, sin: 0 }, dt).position == (ChassisPosition {
            linear: (sat(c.position.linear.0 + d) as i64, c.position.linear.1),
            angular: 0,
        }),
{
    lemma_fmul_unit(d as int);
}

/// Rotation odometry: a tick of a turn in which the left wheel travels
/// `delta` adds `2 * delta / wheels_distance` radians to the heading and
/// leaves the position unchanged.
pub proof fn lemma_rotation_odometry(
    c: Chassis,
    r: ChassisReadings,
    h: HeadingTrig,
    dt: i64,
    delta: int,
)
    requires
        c.wf(),
        c.current_movement is Some,
        c.current_movement.unwrap().movement is Angular,
        c.left.after(r.left_count, dt).position_spec() - c.current_movement.unwrap().prev_pos.0
            == delta,
    ensures
        c.after(r, h, dt).position.angular == sat(
            c.position.angular + fdiv_spec(2 * delta, c.wheels_distance as int),
        ),
        c.after(r, h, dt).position.linear == c.position.linear,
{
}

/// Preemption: starting a movement while another is in flight leaves no
/// trace of the first in the bookkeeping, the wheel targets or the
/// reached flags; they are those the second movement sets from the same
/// state. The next tick then moves, integrates and clears (only once both
/// wheels reach the second movement's targets) exactly as if the first
/// had never been issued.
pub proof fn lemma_preemption(
    c: Chassis,
    first: AtomicMovement,
    second: AtomicMovement,
    r: ChassisReadings,
    h: HeadingTrig,
    dt: i64,
)
    requires
        c.wf(),
    ensures
        ({
            let preempted = c.after_move(first).after_move(second).after(r, h, dt);
            let direct = c.after_move(second).after(r, h, dt);
            &&& preempted.current_movement == direct.current_movement
            &&& preempted.position == direct.position
            &&& preempted.left == direct.left
            &&& preempted.right == direct.right
        }),
        c.after_move(first).after_move(second).current_movement == c.after_move(
            second,
        ).current_movement,
        c.after_move(first).after_move(second).left == c.after_move(second).left,
        c.after_move(first).after_move(second).right == c.after_move(second).right,
        c.after_move(second).current_movement == Some(
            ChassisMovement {
                movement: second,
                prev_pos: (c.left.position_spec() as i64, c.right.position_spec() as i64),
                start_rotation: c.rotation,
            },
        ),
{
}

/// Heading-hold sign: with a purely proportional heading controller (no
/// integral or derivative action, setpoint zero), a heading that drifted above the one the movement started at biases the
/// left wheel's speed below the right's, a drift below biases it above, and
/// no drift leaves both at the cruise speed.
pub proof fn lemma_heading_hold_sign(c: Chassis, r: ChassisReadings, h: HeadingTrig, dt: i64)
    requires
        c.wf(),
        readings_ok(r),
        c.current_movement is Some,
        c.current_movement.unwrap().movement is Linear,
        c.rotation_pid.kp >= 0,
        c.rotation_pid.ki == 0,
        c.rotation_pid.kd == 0,
        c.rotation_pid.setpoint == 0,
        c.rotation_pid.integral_term == 0,
    ensures
        ({
            let drift = normalize_rotation_spec(c.rotation_limits, r.rotation as int)
                - c.current_movement.unwrap().start_rotation;
            let control = c.rotation_pid.output_spec(
                sat(c.current_movement.unwrap().start_rotation - normalize_rotation_spec(
                    c.rotation_limits,
                    r.rotation as int,
                )),
            );
            let left = sat(c.speed.linear - HEADING_HOLD_GAIN * control);
            let right = sat(c.speed.linear + HEADING_HOLD_GAIN * control);
            &&& c.after(r, h, dt).left.max_speed == biased_cap(
                c.left.after(r.left_count, dt).max_speed,
                left,
            )
            &&& c.after(r, h, dt).right.max_speed == biased_cap(
                c.right.after(r.right_count, dt).max_speed,
                right,
            )
            &&& (drift > 0 ==> left <= right)
            &&& (drift < 0 ==> left >= right)
            &&& (drift == 0 ==> left == c.speed.linear && right == c.speed.linear)
        }),
{
    let rot = normalize_rotation_spec(c.rotation_limits, r.rotation as int);
    let m = c.current_movement.unwrap();
    let delta = sat(m.start_rotation - rot);
    let pid = c.rotation_pid;
    let e = pid.error_spec(delta);
    let kp = pid.kp as int;
    assert(e == -delta);
    if e > 0 {
        assert(e * kp >= 0) by (nonlinear_arith)
            requires
                e > 0,
                kp >= 0,
        ;
    } else if e < 0 {
        assert(e * kp <= 0) by (nonlinear_arith)
            requires
                e < 0,
                kp >= 0,
        ;
        assert(abs_spec(e * kp) == -(e * kp));
    } else {
        assert(e * kp == 0) by (nonlinear_arith)
            requires
                e == 0,
        ;
    }
    assert(fmul_spec(e, pid.ki as int) == 0) by {
        assert(e * 0 == 0);
    }
    assert(pid.d_spec(delta) == 0) by {
        match pid.prev_measurement {
            Some(p) => {
                assert((p - delta) * 0 == 0);
            },
            None => {},
        }
    }
}

} // verus!
