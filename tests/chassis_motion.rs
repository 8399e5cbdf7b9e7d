use peripheral_controller::chassis::{
    normalize_rotation, AtomicMovement, Chassis, ChassisMovement, ChassisPosition,
    ChassisReadings, ChassisSpeed, HeadingTrig,
};
use peripheral_controller::encoder::RotaryEncoder;
use peripheral_controller::fixed::{degrees_to_radians, fdiv, fmul, radians_to_degrees, SCALE};
use peripheral_controller::movement_controller::{MovementController, MovementStage};
use peripheral_controller::pid::Pid;
use peripheral_controller::servo::WheelPositionController;
use peripheral_controller::wheel::Wheel;

const S: i64 = SCALE;
const DT: i64 = S / 40;
const LEVEL: HeadingTrig = HeadingTrig { cos: S, sin: 0 };

fn servo() -> WheelPositionController {
    // a million pulses per unit: one count is one step of the fixed-point scale
    let encoder = RotaryEncoder::new(S * S, true);
    let speed_pid = Pid::new(S / 4, S / 50, S, 100 * S, 100 * S, 100 * S, 100 * S, 0);
    let wheel = Wheel::new(encoder, speed_pid, 1_400_000);
    let position_pid = Pid::new(500 * S, 1000, 4000 * S, S, S / 10, S, S, 0);
    WheelPositionController::new(wheel, position_pid, 2000 * S, S)
}

fn chassis() -> Chassis {
    let heading_pid = Pid::new(S, 0, 0, S, S, S, S, 0);
    Chassis::new(servo(), servo(), 0, 17 * S, (-S, S), heading_pid)
}

fn readings(left: i64, right: i64, rotation: i64) -> ChassisReadings {
    ChassisReadings {
        left_count: left,
        left_actuator: 0,
        right_count: right,
        right_actuator: 0,
        rotation,
    }
}

#[test]
fn straight_line_odometry() {
    let mut c = chassis();
    c.move_atomic(AtomicMovement::Linear(5 * S));
    c.update(readings(5 * S, 5 * S, 0), LEVEL, DT);
    let pose = c.get_position();
    assert_eq!(pose.linear, (5 * S, 0));
    assert_eq!(pose.angular, 0);
    assert!(c.is_target_reached());
    assert!(c.current_movement.is_none());
}

#[test]
fn straight_line_follows_the_heading() {
    let mut c = chassis();
    c.move_atomic(AtomicMovement::Linear(10 * S));
    // heading of 90 degrees: cosine 0, sine 1
    c.update(readings(4 * S, 4 * S, 0), HeadingTrig { cos: 0, sin: S }, DT);
    assert_eq!(c.get_position().linear, (0, 4 * S));
}

#[test]
fn rotation_odometry() {
    let mut c = chassis();
    c.move_atomic(AtomicMovement::Angular(90 * S));
    c.update(readings(S, -S, 0), LEVEL, DT);
    // 2 * 1 / 17 radians
    assert_eq!(c.get_position().angular, 117_647);
    assert_eq!(c.get_position().linear, (0, 0));
}

#[test]
fn quarter_turn_gives_a_quarter_turn_heading() {
    let mut c = chassis();
    c.move_atomic(AtomicMovement::Angular(90 * S));
    let left = c.left.get_target_position();
    let right = c.right.get_target_position();
    assert!(left > 0 && right < 0);
    c.update(readings(left, right, 0), LEVEL, DT);
    assert!(c.is_target_reached());
    let heading = c.get_position().angular;
    // pi / 2 radians, not 90 of anything
    let quarter = degrees_to_radians(90 * S);
    assert!((heading - quarter).abs() <= 1000, "heading {}", heading);
    assert!((radians_to_degrees(heading) - 90 * S).abs() <= 100_000);
}

#[test]
fn angular_targets_are_opposite_arcs() {
    let mut c = chassis();
    c.move_atomic(AtomicMovement::Angular(90 * S));
    // 90 degrees of an arc of radius 8.5, to the positioning resolution
    assert_eq!(c.left.get_target_position(), 13_350_000);
    assert_eq!(c.right.get_target_position(), -13_350_000);
}

#[test]
fn preemption_replaces_the_movement_in_flight() {
    let mut c = chassis();
    c.move_atomic(AtomicMovement::Linear(100 * S));
    c.move_atomic(AtomicMovement::Angular(90 * S));
    assert_eq!(
        c.current_movement,
        Some(ChassisMovement {
            movement: AtomicMovement::Angular(90 * S),
            prev_pos: (0, 0),
            start_rotation: 0,
        })
    );
    assert!(!c.is_target_reached());
    // reaching the first movement's targets does not count
    c.update(readings(100 * S, 100 * S, 0), LEVEL, DT);
    assert!(!c.is_target_reached());
    assert!(c.current_movement.is_some());
}

#[test]
fn heading_hold_correction_sign() {
    let mut c = chassis();
    c.set_speed(ChassisSpeed { linear: 45 * S, angular: 60 * S });
    c.move_atomic(AtomicMovement::Linear(100 * S));
    // drift to a normalized heading of +0.1
    c.update(readings(S, S, S / 10), LEVEL, DT);
    assert_eq!(c.left.max_speed, 44 * S);
    assert_eq!(c.right.max_speed, 46 * S);

    let mut c = chassis();
    c.set_speed(ChassisSpeed { linear: 45 * S, angular: 60 * S });
    c.move_atomic(AtomicMovement::Linear(100 * S));
    c.update(readings(S, S, -S / 10), LEVEL, DT);
    assert_eq!(c.left.max_speed, 46 * S);
    assert_eq!(c.right.max_speed, 44 * S);

    let mut c = chassis();
    c.set_speed(ChassisSpeed { linear: 45 * S, angular: 60 * S });
    c.move_atomic(AtomicMovement::Linear(100 * S));
    c.update(readings(S, S, 0), LEVEL, DT);
    assert_eq!(c.left.max_speed, 45 * S);
    assert_eq!(c.right.max_speed, 45 * S);
}

#[test]
fn rotation_normalization() {
    assert_eq!(normalize_rotation((-S, S), S / 10), S / 10);
    assert_eq!(normalize_rotation((0, 360 * S), 0), -S);
    assert_eq!(normalize_rotation((0, 360 * S), 360 * S), S);
    assert_eq!(normalize_rotation((0, 360 * S), 180 * S), 0);
}

#[test]
fn chassis_speed_reports_both_wheels() {
    let mut c = chassis();
    c.update(readings(S / 40, -S / 40, 0), LEVEL, DT);
    assert_eq!(c.get_speed(), (S, -S));
}

#[test]
fn relative_move_runs_three_stages_in_order() {
    let mut mc = MovementController::new(chassis());
    // a final turn of 90 degrees
    let goal = ChassisPosition { linear: (100 * S, 0), angular: 90 * S };
    mc.move_relative(goal, 0);

    let m = mc.movement.unwrap();
    assert_eq!(m.stage, MovementStage::InitialRotation);
    assert_eq!(
        mc.atomic.current_movement.unwrap().movement,
        AtomicMovement::Angular(0)
    );
    assert!(!mc.is_target_reached());

    mc.update(readings(0, 0, 0), LEVEL, DT);
    assert_eq!(mc.movement.unwrap().stage, MovementStage::Translation);
    assert_eq!(
        mc.atomic.current_movement.unwrap().movement,
        AtomicMovement::Linear(100 * S)
    );

    // not there yet: the stage holds
    mc.update(readings(50 * S, 50 * S, 0), LEVEL, DT);
    assert_eq!(mc.movement.unwrap().stage, MovementStage::Translation);

    mc.update(readings(100 * S, 100 * S, 0), LEVEL, DT);
    assert_eq!(mc.movement.unwrap().stage, MovementStage::FinalRotation);
    // exactly the requested 90 degrees
    assert_eq!(
        mc.atomic.current_movement.unwrap().movement,
        AtomicMovement::Angular(90 * S)
    );
    assert!(!mc.is_target_reached());

    let left = mc.atomic.left.get_target_position();
    let right = mc.atomic.right.get_target_position();
    mc.update(readings(left, right, 0), LEVEL, DT);
    assert!(mc.movement.is_none());
    assert!(mc.is_target_reached());
    let pose = mc.get_position();
    assert_eq!(pose.linear, (100 * S, 0));
    assert_eq!(pose.angular, fdiv(left - 100 * S + left - 100 * S, 17 * S));
}

#[test]
fn relative_move_turns_to_face_the_goal() {
    let mut mc = MovementController::new(chassis());
    let goal = ChassisPosition { linear: (30 * S, 40 * S), angular: 0 };
    // atan2(40, 30) = 53.130102 degrees
    mc.move_relative(goal, 53_130_102);
    assert_eq!(
        mc.atomic.current_movement.unwrap().movement,
        AtomicMovement::Angular(53_130_102)
    );
    let left = mc.atomic.left.get_target_position();
    let right = mc.atomic.right.get_target_position();
    mc.update(readings(left, right, 0), LEVEL, DT);
    assert_eq!(mc.movement.unwrap().stage, MovementStage::Translation);
    assert_eq!(
        mc.atomic.current_movement.unwrap().movement,
        AtomicMovement::Linear(50 * S)
    );
}

#[test]
fn controller_is_idle_until_the_first_move() {
    let mut mc = MovementController::new(chassis());
    assert!(mc.is_target_reached());
    for _ in 0..5 {
        mc.update(readings(0, 0, 0), LEVEL, DT);
        assert!(mc.is_target_reached());
    }
    mc.move_relative(ChassisPosition { linear: (10 * S, 0), angular: 0 }, 0);
    mc.update(readings(0, 0, 0), LEVEL, DT);
    assert!(!mc.is_target_reached());
}

#[test]
fn initial_rotation_uses_the_heading_in_degrees() {
    let mut mc = MovementController::new(chassis());
    // a turn in place to 90 degrees
    mc.move_relative(ChassisPosition { linear: (0, 0), angular: 90 * S }, 0);
    for _ in 0..3 {
        let left = mc.atomic.left.get_target_position();
        let right = mc.atomic.right.get_target_position();
        mc.update(readings(left, right, 0), LEVEL, DT);
    }
    assert!(mc.is_target_reached());
    let heading = mc.get_position().angular;
    assert!((heading - 1_570_796).abs() <= 1000, "heading {}", heading);

    // facing +y, a goal along +x needs a turn of -90 degrees
    mc.move_relative(ChassisPosition { linear: (10 * S, 0), angular: 0 }, 0);
    match mc.atomic.current_movement.unwrap().movement {
        AtomicMovement::Angular(a) => assert!((a + 90 * S).abs() <= 100_000, "turn {}", a),
        other => panic!("expected a turn, got {:?}", other),
    }
}

#[test]
fn quarter_turn_round_trip_is_exact() {
    let mut c = chassis();
    c.move_atomic(AtomicMovement::Angular(90 * S));
    // each wheel travels the arc of a quarter turn about the centre
    let arc = fmul(degrees_to_radians(90 * S), 17 * S / 2);
    assert_eq!(arc, 13_351_766);
    c.update(readings(arc, -arc, 0), LEVEL, DT);
    assert!(c.is_target_reached());
    // the heading gained is exactly 90 degrees, held in radians
    assert_eq!(c.get_position().angular, degrees_to_radians(90 * S));
    assert_eq!(c.get_position().angular, 1_570_796);
}
