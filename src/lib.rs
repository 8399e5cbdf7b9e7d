//! Motion control for a two-wheeled chassis: velocity and position loops
//! for each wheel, odometry with heading hold, and a three-stage planner
//! for relative moves, with the arithmetic of the motor, drawer and
//! gyroscope drivers around them.
//!
//! All arithmetic is fixed-point (see [`fixed`]). The controllers do no
//! I/O: each tick takes the hardware's readings as values and returns the
//! actuator commands. Trigonometry stays with the caller: a tick takes the
//! cosine and sine of the current heading, and a relative move takes the
//! bearing of its displacement.
//!
//! Angles: the pose heading is in radians, integrated from wheel travel.
//! Every commanded angle is in degrees: an atomic turn, the bearing and the
//! final turn of a relative move. The pose heading is converted to degrees
//! where a turn is computed from it.
pub mod fixed;
pub mod pid;
pub mod encoder;
pub mod wheel;
pub mod servo;
pub mod chassis;
pub mod movement_controller;
pub mod motor;
pub mod dc_motor;
pub mod drawers;
pub mod gyro;
