//! Relative moves as three atomic stages: turn to face the goal, drive to
//! it, turn to the requested heading.
use vstd::prelude::*;

use crate::chassis::{
    pose_ok, readings_ok, AtomicMovement, Chassis, ChassisPosition, ChassisReadings, HeadingTrig,
    WheelCommands,
};
use crate::fixed::{is_isqrt, isqrt, rad_to_deg, radians_to_degrees, saturate, sat, within, MAG};

verus! {

#[derive(Clone, Copy, Debug, PartialEq, Eq, Structural)]
pub enum MovementStage {
    InitialRotation,
    Translation,
    FinalRotation,
}

/// A relative move in progress.
#[derive(Clone, Copy, Debug)]
pub struct Movement {
    /// The pose change asked for: a displacement, and in `angular` the
    /// final turn in degrees, the unit of `AtomicMovement::Angular`.
    pub movement: ChassisPosition,
    /// Direction of the displacement, `atan2(dy, dx)` in degrees.
    pub bearing: i64,
    pub stage: MovementStage,
}

/// Runs relative moves on a chassis, one stage at a time.
#[derive(Clone, Copy, Debug)]
pub struct MovementController {
    pub atomic: Chassis,
    pub movement: Option<Movement>,
}

/// The stage after `s`; none after the last.
pub open spec fn next_stage_spec(s: MovementStage) -> Option<MovementStage> {
    match s {
        MovementStage::InitialRotation => Some(MovementStage::Translation),
        MovementStage::Translation => Some(MovementStage::FinalRotation),
        MovementStage::FinalRotation => None,
    }
}

/// Length of the displacement `(dx, dy)`, rounded down.
pub open spec fn distance_spec(dx: int, dy: int, r: int) -> bool {
    is_isqrt(dx * dx + dy * dy, r)
}

pub open spec fn movement_wf(m: Movement) -> bool {
    pose_ok(m.movement) && within(m.bearing as int)
}

impl Movement {
    pub fn new(movement: ChassisPosition, bearing: i64) -> (r: Movement)
        ensures
            r.movement == movement,
            r.bearing == bearing,
            r.stage == MovementStage::InitialRotation,
    {
        Movement { movement, bearing, stage: MovementStage::InitialRotation }
    }
}

impl MovementController {
    pub open spec fn wf(&self) -> bool {
        &&& self.atomic.wf()
        &&& match self.movement {
            Some(m) => movement_wf(m),
            None => true,
        }
    }

    /// The command that starts the stage of `m` from `pose`; `distance` is
    /// the length of the displacement, needed by the translation only.
    pub open spec fn stage_command(m: Movement, pose: ChassisPosition, distance: int) -> AtomicMovement {
        match m.stage {
            MovementStage::InitialRotation => AtomicMovement::Angular(
                sat(m.bearing - rad_to_deg(pose.angular as int)) as i64,
            ),
            MovementStage::Translation => AtomicMovement::Linear(sat(distance) as i64),
            MovementStage::FinalRotation => AtomicMovement::Angular(m.movement.angular),
        }
    }

    /// `c` is what starting the stage of `m` makes of chassis `a`.
    pub open spec fn started(a: Chassis, m: Movement, c: Chassis) -> bool {
        exists|dist: int|
            distance_spec(m.movement.linear.0 as int, m.movement.linear.1 as int, dist)
                && c == a.after_move(Self::stage_command(m, a.position, dist))
    }

    /// `r` is what a tick makes of the controller.
    pub open spec fn ticked(&self, rd: ChassisReadings, h: HeadingTrig, dt: i64, r: Self) -> bool {
        let c = self.atomic.after(rd, h, dt);
        match self.movement {
            None => r == (MovementController { atomic: c, movement: None }),
            Some(m) => if !c.reached_spec() {
                r == (MovementController { atomic: c, movement: Some(m) })
            } else {
                match next_stage_spec(m.stage) {
                    None => r == (MovementController { atomic: c, movement: None }),
                    Some(s) => {
                        let m2 = Movement { stage: s, ..m };
                        r.movement == Some(m2) && Self::started(c, m2, r.atomic)
                    },
                }
            },
        }
    }

    pub open spec fn reached_spec(&self) -> bool {
        self.movement.is_none() && self.atomic.reached_spec()
    }

    pub fn new(controlled: Chassis) -> (r: MovementController)
        requires
            controlled.wf(),
        ensures
            r.wf(),
            r == (MovementController { atomic: controlled, movement: None }),
    {
        MovementController { atomic: controlled, movement: None }
    }

    fn next_stage(&mut self)
        requires
            old(self).wf(),
            old(self).movement.is_some(),
        ensures
            final(self).wf(),
            final(self).atomic == old(self).atomic,
            final(self).movement == match next_stage_spec(old(self).movement.unwrap().stage) {
                Some(s) => Some(Movement { stage: s, ..old(self).movement.unwrap() }),
                None => None,
            },
    {
        let movement = self.movement.unwrap();
        match movement.stage {
            MovementStage::InitialRotation => {
                self.movement = Some(Movement { stage: MovementStage::Translation, ..movement });
            },
            MovementStage::Translation => {
                self.movement = Some(Movement { stage: MovementStage::FinalRotation, ..movement });
            },
            MovementStage::FinalRotation => {
                self.movement = None;
            },
        }
    }

    fn start_stage(&mut self)
        requires
            old(self).wf(),
            old(self).movement.is_some(),
        ensures
            final(self).wf(),
            final(self).movement == old(self).movement,
            Self::started(old(self).atomic, old(self).movement.unwrap(), final(self).atomic),
    {
        let movement = self.movement.unwrap();
        let current_pos = self.atomic.get_position();
        let (dx, dy) = movement.movement.linear;
        proof {
            assert(0 <= (dx as int) * (dx as int) <= 1_000_000_000_000_000_000_000_000)
                by (nonlinear_arith)
                requires
                    -1_000_000_000_000 <= dx <= 1_000_000_000_000,
            ;
            assert(0 <= (dy as int) * (dy as int) <= 1_000_000_000_000_000_000_000_000)
                by (nonlinear_arith)
                requires
                    -1_000_000_000_000 <= dy <= 1_000_000_000_000,
            ;
        }
        let squares: i128 = (dx as i128) * (dx as i128) + (dy as i128) * (dy as i128);
        let root = isqrt(squares as u128);
        let command = match movement.stage {
            MovementStage::InitialRotation => {
                let turned = radians_to_degrees(current_pos.angular);
                AtomicMovement::Angular(saturate((movement.bearing as i128) - (turned as i128)))
            },
            MovementStage::Translation => {
                let distance = if root > MAG as u128 {
                    MAG
                } else {
                    root as i64
                };
                AtomicMovement::Linear(distance)
            },
            MovementStage::FinalRotation => {
                AtomicMovement::Angular(movement.movement.angular)
            },
        };
        self.atomic.move_atomic(command);
        assert(command == Self::stage_command(movement, current_pos, root as int));
        assert(distance_spec(dx as int, dy as int, root as int));
    }

    /// Starts a relative move: the pose change `movement`, whose
    /// displacement points in the direction `bearing` (degrees) and whose
    /// `angular` is the final turn in degrees. Any move
    /// in progress is dropped, and the first stage starts at once.
    pub fn move_relative(&mut self, movement: ChassisPosition, bearing: i64)
        requires
            old(self).wf(),
            pose_ok(movement),
            within(bearing as int),
        ensures
            final(self).wf(),
            final(self).movement == Some(
                Movement { movement, bearing, stage: MovementStage::InitialRotation },
            ),
            Self::started(old(self).atomic, final(self).movement.unwrap(), final(self).atomic),
    {
        self.movement = Some(Movement::new(movement, bearing));
        self.start_stage();
    }

    /// One tick: the chassis runs on the readings; when it reports its
    /// movement done, the next stage starts, and after the last the
    /// controller becomes idle.
    pub fn update(&mut self, readings: ChassisReadings, heading: HeadingTrig, dt: i64) -> (r:
        WheelCommands)
        requires
            old(self).wf(),
            readings_ok(readings),
            within(heading.cos as int),
            within(heading.sin as int),
            0 < dt <= MAG,
        ensures
            final(self).wf(),
            old(self).ticked(readings, heading, dt, *final(self)),
            r == (WheelCommands {
                left: old(self).atomic.left.wheel.command(
                    readings.left_count,
                    readings.left_actuator,
                    dt,
                ) as i64,
                right: old(self).atomic.right.wheel.command(
                    readings.right_count,
                    readings.right_actuator,
                    dt,
                ) as i64,
            }),
    {
        let commands = self.atomic.update(readings, heading, dt);
        if self.movement.is_some() {
            if self.atomic.is_target_reached() {
                self.next_stage();
                if self.movement.is_some() {
                    self.start_stage();
                }
            }
        }
        commands
    }

    /// No relative move is in progress and the chassis reports its
    /// targets reached.
    pub fn is_target_reached(&self) -> (r: bool)
        ensures
            r == self.reached_spec(),
    {
        self.movement.is_none() && self.atomic.is_target_reached()
    }

    /// The chassis's pose estimate.
    pub fn get_position(&self) -> (r: ChassisPosition)
        ensures
            r == self.atomic.position,
    {
        self.atomic.get_position()
    }
}

} // verus!

verus! {

/// Stage order: a tick either keeps the move in its stage, advances it to
/// the next stage with the same goal, or, from the final rotation only,
/// ends it. A stage is never skipped or repeated, and a stage only ends
/// when the chassis reports its movement done.
pub proof fn lemma_stages_in_order(
    mc: MovementController,
    r: ChassisReadings,
    h: HeadingTrig,
    dt: i64,
    next: MovementController,
)
    requires
        mc.movement is Some,
        mc.ticked(r, h, dt, next),
    ensures
        ({
            let m = mc.movement.unwrap();
            ||| next.movement == Some(m)
            ||| (next.movement is Some && Some(next.movement.unwrap().stage) == next_stage_spec(
                m.stage,
            ) && next.movement.unwrap().movement == m.movement
                && next.movement.unwrap().bearing == m.bearing)
            ||| (next.movement is None && m.stage == MovementStage::FinalRotation)
        }),
        next.movement != mc.movement ==> mc.atomic.after(r, h, dt).reached_spec(),
{
}

/// Idle: a controller with no move in progress whose chassis reports its
/// targets reached reports itself done, and still does after any tick.
pub proof fn lemma_idle_stays_reached(
    mc: MovementController,
    r: ChassisReadings,
    h: HeadingTrig,
    dt: i64,
    next: MovementController,
)
    requires
        mc.wf(),
        mc.movement is None,
        mc.atomic.reached_spec(),
        mc.ticked(r, h, dt, next),
    ensures
        mc.reached_spec(),
        next.reached_spec(),
{
}

} // verus!
