use vstd::prelude::*;

verus! {

/// The direction in which a wheel turns. Which way is "forward" depends on the wiring; all
/// motors should be wired so that the same direction moves the robot the same way.
#[derive(Clone, Copy, Debug, PartialEq, Eq, Hash, Structural)]
pub enum Direction {
    Forward,
    Backward,
}

/// The sign character that stands for a direction in a bus frame.
pub open spec fn sign_char(d: Direction) -> char {
    match d {
        Direction::Forward => '+',
        Direction::Backward => '-',
    }
}

impl From<Direction> for &'static str {
    fn from(d: Direction) -> (r: &'static str)
        ensures
            r@ == seq![sign_char(d)],
    {
        proof {
            reveal_strlit("+");
            reveal_strlit("-");
        }
        match d {
            Direction::Forward => "+",
            Direction::Backward => "-",
        }
    }
}

impl vstd::std_specs::convert::FromSpecImpl<Direction> for &'static str {
    open spec fn obeys_from_spec() -> bool {
        true
    }

    open spec fn from_spec(d: Direction) -> &'static str {
        match d {
            Direction::Forward => "+",
            Direction::Backward => "-",
        }
    }
}

/// One of the four motors that a controller board addresses.
#[derive(Clone, Copy, Debug, PartialEq, Eq, Hash, Structural)]
pub enum Motor {
    FrontLeft,
    FrontRight,
    BackLeft,
    BackRight,
}

/// The numeric id of a motor on the bus: 0 to 3, in declaration order.
pub open spec fn motor_id(m: Motor) -> u8 {
    match m {
        Motor::FrontLeft => 0,
        Motor::FrontRight => 1,
        Motor::BackLeft => 2,
        Motor::BackRight => 3,
    }
}

/// The motor with a given numeric id, if there is one.
pub open spec fn motor_of_id(id: u8) -> Option<Motor> {
    if id == 0 {
        Some(Motor::FrontLeft)
    } else if id == 1 {
        Some(Motor::FrontRight)
    } else if id == 2 {
        Some(Motor::BackLeft)
    } else if id == 3 {
        Some(Motor::BackRight)
    } else {
        None
    }
}

impl From<Motor> for u8 {
    fn from(m: Motor) -> (r: u8)
        ensures
            r == motor_id(m),
    {
        match m {
            Motor::FrontLeft => 0,
            Motor::FrontRight => 1,
            Motor::BackLeft => 2,
            Motor::BackRight => 3,
        }
    }
}

impl vstd::std_specs::convert::FromSpecImpl<Motor> for u8 {
    open spec fn obeys_from_spec() -> bool {
        true
    }

    open spec fn from_spec(m: Motor) -> u8 {
        motor_id(m)
    }
}

impl TryFrom<u8> for Motor {
    type Error = u8;

    /// Fails with the id itself where no motor has it.
    fn try_from(id: u8) -> (r: Result<Motor, u8>)
        ensures
            r == (match motor_of_id(id) {
                Some(m) => Ok(m),
                None => Err(id),
            }),
    {
        match id {
            0 => Ok(Motor::FrontLeft),
            1 => Ok(Motor::FrontRight),
            2 => Ok(Motor::BackLeft),
            3 => Ok(Motor::BackRight),
            _ => Err(id),
        }
    }
}

impl vstd::std_specs::convert::TryFromSpecImpl<u8> for Motor {
    open spec fn obeys_try_from_spec() -> bool {
        true
    }

    open spec fn try_from_spec(id: u8) -> Result<Motor, u8> {
        match motor_of_id(id) {
            Some(m) => Ok(m),
            None => Err(id),
        }
    }
}

/// Every motor's id is below 4, and reading an id back gives the same motor.
pub proof fn lemma_motor_id_round_trip(m: Motor)
    ensures
        motor_id(m) < 4,
        motor_of_id(motor_id(m)) == Some(m),
{
}

} // verus!
