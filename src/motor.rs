//! DC motor: a direction output and a speed output driven from one signed speed.
use vstd::prelude::*;

verus! {

#[derive(Clone, Copy, Debug, PartialEq, Eq, Structural)]
pub enum RotationDirection {
    Clockwise,
    Counterclockwise,
    Stopped,
}

/// Something that turns a motor one way, the other, or stops it.
pub trait SetDirection {
    fn set_direction(&mut self, direction: RotationDirection);
}

/// Something that sets a motor's unsigned speed.
pub trait SetSpeed {
    fn set_speed(&mut self, speed: u8);
}

/// A motor driven by a direction controller and a speed controller.
pub struct Motor<D, S> where D: SetDirection, S: SetSpeed {
    pub dir: D,
    pub speed: S,
}

/// The direction a signed speed asks for.
pub open spec fn direction_of(speed: int) -> RotationDirection {
    if speed < 0 {
        RotationDirection::Counterclockwise
    } else if speed == 0 {
        RotationDirection::Stopped
    } else {
        RotationDirection::Clockwise
    }
}

/// Splits a signed speed into a direction and a magnitude.
pub fn motor_command(speed: i8) -> (r: (RotationDirection, u8))
    ensures
        r.0 == direction_of(speed as int),
        r.1 == if speed < 0 {
            -speed
        } else {
            speed as int
        },
{
    if speed < 0 {
        (RotationDirection::Counterclockwise, (-(speed as i16)) as u8)
    } else if speed == 0 {
        (RotationDirection::Stopped, 0)
    } else {
        (RotationDirection::Clockwise, speed as u8)
    }
}

impl<D, S> Motor<D, S> where D: SetDirection, S: SetSpeed {
    pub fn new(direction_controller: D, speed_controller: S) -> (r: Self)
        ensures
            r.dir == direction_controller,
            r.speed == speed_controller,
    {
        Motor { dir: direction_controller, speed: speed_controller }
    }

    /// Sets the direction from the sign of `speed`, then the magnitude.
    pub fn set_speed(&mut self, speed: i8) {
        let (direction, magnitude) = motor_command(speed);
        self.dir.set_direction(direction);
        self.speed.set_speed(magnitude);
    }
}

} // verus!
