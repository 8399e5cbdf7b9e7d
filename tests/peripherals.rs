use peripheral_controller::dc_motor::{direction_pins, map_range, pwm_duty};
use peripheral_controller::drawers::{DrawerEnableControl, Drawers};
use peripheral_controller::fixed::SCALE;
use peripheral_controller::gyro::{
    calibration_offset, integrate_heading, rate_from_raw, sample_from_bytes, Register, ADDRESS,
};
use peripheral_controller::motor::{motor_command, Motor, RotationDirection, SetDirection, SetSpeed};

#[derive(Default)]
struct Recorder {
    directions: Vec<RotationDirection>,
    speeds: Vec<u8>,
    enabled: Vec<u8>,
}

impl SetDirection for Recorder {
    fn set_direction(&mut self, direction: RotationDirection) {
        self.directions.push(direction);
    }
}

impl SetSpeed for Recorder {
    fn set_speed(&mut self, speed: u8) {
        self.speeds.push(speed);
    }
}

impl DrawerEnableControl for Recorder {
    fn disable(&mut self, id: u8) {
        self.enabled.retain(|&e| e != id);
    }

    fn enable(&mut self, id: u8) {
        self.enabled.push(id);
    }
}

#[test]
fn motor_command_splits_sign_and_magnitude() {
    assert_eq!(motor_command(-5), (RotationDirection::Counterclockwise, 5));
    assert_eq!(motor_command(0), (RotationDirection::Stopped, 0));
    assert_eq!(motor_command(100), (RotationDirection::Clockwise, 100));
    assert_eq!(motor_command(-128), (RotationDirection::Counterclockwise, 128));
}

#[test]
fn motor_drives_both_controllers() {
    let mut motor = Motor::new(Recorder::default(), Recorder::default());
    motor.set_speed(-20);
    motor.set_speed(30);
    assert_eq!(
        motor.dir.directions,
        vec![RotationDirection::Counterclockwise, RotationDirection::Clockwise]
    );
    assert_eq!(motor.speed.speeds, vec![20, 30]);
}

#[test]
fn linear_range_mapping() {
    assert_eq!(map_range((0, 100), (0, 1000), 50), 500);
    assert_eq!(map_range((0, 10), (100, 0), 3), 70);
    assert_eq!(map_range((0, 3), (0, 10), 2), 6);
    assert_eq!(map_range((0, 3), (0, -10), 2), -6);
}

#[test]
fn pwm_duty_adds_dead_band_and_caps() {
    assert_eq!(pwm_duty(50, 25, 1000), 750);
    assert_eq!(pwm_duty(90, 25, 1000), 1000);
    assert_eq!(pwm_duty(255, 255, 4000), 4000);
    assert_eq!(pwm_duty(0, 0, 999), 0);
    assert_eq!(pwm_duty(1, 0, 999), 9);
}

#[test]
fn direction_pin_levels() {
    assert_eq!(direction_pins(RotationDirection::Clockwise), (true, false));
    assert_eq!(direction_pins(RotationDirection::Counterclockwise), (false, true));
    assert_eq!(direction_pins(RotationDirection::Stopped), (false, false));
}

#[test]
fn drawers_hold_their_drivers() {
    let mut drawers = Drawers::new(Recorder::default(), Recorder::default());
    drawers.enables.enable(1);
    drawers.enables.enable(2);
    drawers.enables.disable(1);
    assert_eq!(drawers.enables.enabled, vec![2]);
    assert!(drawers.direction.directions.is_empty());
}

#[test]
fn gyro_register_addresses() {
    assert_eq!(ADDRESS, 0x68);
    assert_eq!(Register::PWR_MGM.addr(), 0x3E);
    assert_eq!(Register::SMPLRT_DIV.addr(), 0x15);
    assert_eq!(Register::DLPF_FS.addr(), 0x16);
    assert_eq!(Register::INT_CFG.addr(), 0x17);
    assert_eq!(Register::GYRO_XOUT_H.addr(), 0x1D);
    assert_eq!(Register::GYRO_ZOUT_L.addr(), 0x22);
}

#[test]
fn gyro_samples_are_big_endian() {
    assert_eq!(sample_from_bytes([0x12, 0x34]), 0x1234);
    assert_eq!(sample_from_bytes([0xFF, 0xFE]), -2);
    assert_eq!(sample_from_bytes([0x80, 0x00]), i16::MIN);
    assert_eq!(sample_from_bytes([0x7F, 0xFF]), i16::MAX);
}

#[test]
fn gyro_calibration_and_rate() {
    assert_eq!(calibration_offset(&vec![10, 20, 30]), -20 * SCALE);
    assert_eq!(calibration_offset(&vec![1, 2]), -1_500_000);
    assert_eq!(calibration_offset(&vec![-7]), 7 * SCALE);
    // (100 - 5) / 14.375
    assert_eq!(rate_from_raw(100, -5 * SCALE), 6_608_695);
    assert_eq!(rate_from_raw(0, 0), 0);
}

#[test]
fn gyro_heading_integration() {
    // 90 deg/s for half a second from 10 degrees
    assert_eq!(integrate_heading(10 * SCALE, 90 * SCALE, SCALE / 2), 55 * SCALE);
    assert_eq!(integrate_heading(0, -4 * SCALE, SCALE / 40), -100_000);
}
