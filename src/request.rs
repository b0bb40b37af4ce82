use vstd::prelude::*;

use crate::motor::{Direction, Motor};

verus! {

/// The largest magnitude a motor takes: full voltage.
pub const MAX_MAGNITUDE: u8 = 255;

/// One instruction for one motor, ready to be framed for the bus.
#[derive(Clone, Copy, Debug, PartialEq, Eq, Hash, Structural)]
pub struct ActuationRequest {
    pub motor: Motor,
    pub direction: Direction,
    pub magnitude: u8,
}

/// The direction of a signed wheel level: negative levels run backward, all others forward.
pub open spec fn direction_of_level(level: int) -> Direction {
    if level < 0 {
        Direction::Backward
    } else {
        Direction::Forward
    }
}

/// The magnitude of a signed wheel level: its absolute value, saturated at full voltage.
pub open spec fn magnitude_of_level(level: int) -> u8 {
    let a = if level < 0 {
        -level
    } else {
        level
    };
    if a > 255 {
        255u8
    } else {
        a as u8
    }
}

/// The request that drives `motor` at a signed level, where 255 is full voltage forward and
/// -255 full voltage backward.
pub open spec fn request_of(motor: Motor, level: int) -> ActuationRequest {
    ActuationRequest {
        motor,
        direction: direction_of_level(level),
        magnitude: magnitude_of_level(level),
    }
}

/// Builds the request that drives `motor` at a signed level; levels beyond full voltage
/// saturate.
pub fn request_for(motor: Motor, level: i32) -> (r: ActuationRequest)
    ensures
        r == request_of(motor, level as int),
{
    let direction = if level < 0 {
        Direction::Backward
    } else {
        Direction::Forward
    };
    let magnitude: u8 = if level > 255 || level < -255 {
        MAX_MAGNITUDE
    } else if level < 0 {
        (-level) as u8
    } else {
        level as u8
    };
    ActuationRequest { motor, direction, magnitude }
}

/// The request of the command line's "set" command: a motor by its numeric id, a magnitude,
/// and a flag that reverses the direction. `None` where no motor has the id.
pub fn set_request(motor_id: u8, magnitude: u8, backward: bool) -> (r: Option<ActuationRequest>)
    ensures
        r == (match crate::motor::motor_of_id(motor_id) {
            Some(m) => Some(
                ActuationRequest {
                    motor: m,
                    direction: if backward {
                        Direction::Backward
                    } else {
                        Direction::Forward
                    },
                    magnitude,
                },
            ),
            None => None,
        }),
{
    let direction = if backward {
        Direction::Backward
    } else {
        Direction::Forward
    };
    match Motor::try_from(motor_id) {
        Ok(motor) => Some(ActuationRequest { motor, direction, magnitude }),
        Err(_) => None,
    }
}

/// Clamps a requested pwm value from the transport into the range a motor takes.
pub fn pwm_level(value: i32) -> (r: u8)
    ensures
        value < 0 ==> r == 0,
        0 <= value <= 255 ==> r as int == value,
        value > 255 ==> r == 255,
{
    if value < 0 {
        0
    } else if value > 255 {
        MAX_MAGNITUDE
    } else {
        value as u8
    }
}

} // verus!
