use vstd::prelude::*;

use crate::motor::{motor_id, motor_of_id, Direction, Motor};

verus! {

/// The length of every command frame: motor id, sign, and three magnitude digits.
pub const FRAME_LEN: usize = 5;

/// The ASCII byte of a decimal digit.
pub open spec fn digit_byte(d: int) -> u8
    recommends
        0 <= d < 10,
{
    (48 + d) as u8
}

/// The sign byte of a direction: `+` forward, `-` backward.
pub open spec fn sign_byte(d: Direction) -> u8 {
    match d {
        Direction::Forward => 43u8,
        Direction::Backward => 45u8,
    }
}

/// The bytes that command `motor` to turn in `direction` at `magnitude`: the motor's id as one
/// digit, the sign, and the magnitude as exactly three decimal digits, zero-padded.
pub open spec fn frame_of(motor: Motor, direction: Direction, magnitude: u8) -> Seq<u8> {
    seq![
        digit_byte(motor_id(motor) as int),
        sign_byte(direction),
        digit_byte(magnitude as int / 100),
        digit_byte((magnitude as int / 10) % 10),
        digit_byte(magnitude as int % 10),
    ]
}

/// The value of an ASCII decimal digit, if the byte is one.
pub open spec fn digit_value(b: u8) -> Option<int> {
    if 48 <= b <= 57 {
        Some(b - 48)
    } else {
        None
    }
}

/// The direction that a sign byte stands for, if it is one.
pub open spec fn direction_of_sign(b: u8) -> Option<Direction> {
    if b == 43 {
        Some(Direction::Forward)
    } else if b == 45 {
        Some(Direction::Backward)
    } else {
        None
    }
}

/// What a frame commands: it has five bytes, a known motor id, a sign, and three digits whose
/// value fits in a byte. Anything else is no frame.
pub open spec fn parse_of(b: Seq<u8>) -> Option<(Motor, Direction, u8)> {
    if b.len() != 5 {
        None
    } else {
        match (digit_value(b[0]), direction_of_sign(b[1]), digit_value(b[2]), digit_value(b[3]),
            digit_value(b[4])) {
            (Some(id), Some(d), Some(h), Some(t), Some(o)) => {
                let v = 100 * h + 10 * t + o;
                if id < 4 && v <= 255 {
                    match motor_of_id(id as u8) {
                        Some(m) => Some((m, d, v as u8)),
                        None => None,
                    }
                } else {
                    None
                }
            },
            _ => None,
        }
    }
}

fn digit(d: u8) -> (r: u8)
    requires
        d < 10,
    ensures
        r == digit_byte(d as int),
{
    48 + d
}

/// Encodes one actuation command as the bytes written to the motor controller.
pub fn command_frame(motor: Motor, direction: Direction, magnitude: u8) -> (r: Vec<u8>)
    ensures
        r@ == frame_of(motor, direction, magnitude),
        r@.len() == FRAME_LEN,
{
    let id: u8 = motor.into();
    let sign: u8 = match direction {
        Direction::Forward => 43,
        Direction::Backward => 45,
    };
    let mut r: Vec<u8> = Vec::new();
    r.push(digit(id));
    r.push(sign);
    r.push(digit(magnitude / 100));
    r.push(digit((magnitude / 10) % 10));
    r.push(digit(magnitude % 10));
    proof {
        assert(r@ =~= frame_of(motor, direction, magnitude));
    }
    r
}

fn digit_at(b: u8) -> (r: Option<u8>)
    ensures
        match digit_value(b) {
            Some(v) => r == Some(v as u8),
            None => r is None,
        },
{
    if 48 <= b && b <= 57 {
        Some(b - 48)
    } else {
        None
    }
}

/// Reads back what a command frame says: the motor, the direction and the magnitude, or `None`
/// where the bytes are no well-formed frame.
pub fn parse_frame(frame: &[u8]) -> (r: Option<(Motor, Direction, u8)>)
    ensures
        r == parse_of(frame@),
{
    if frame.len() != FRAME_LEN {
        return None;
    }
    let direction = if frame[1] == 43 {
        Direction::Forward
    } else if frame[1] == 45 {
        Direction::Backward
    } else {
        return None;
    };
    match (digit_at(frame[0]), digit_at(frame[2]), digit_at(frame[3]), digit_at(frame[4])) {
        (Some(id), Some(h), Some(t), Some(o)) => {
            let v: u16 = 100 * (h as u16) + 10 * (t as u16) + (o as u16);
            if v > 255 {
                return None;
            }
            match Motor::try_from(id) {
                Ok(m) => Some((m, direction, v as u8)),
                Err(_) => None,
            }
        },
        _ => None,
    }
}

/// Encoding a command and parsing the frame gives the command back, and the magnitude always
/// takes exactly three digits of the frame.
pub proof fn lemma_frame_round_trip(motor: Motor, direction: Direction, magnitude: u8)
    ensures
        frame_of(motor, direction, magnitude).len() == FRAME_LEN,
        parse_of(frame_of(motor, direction, magnitude)) == Some((motor, direction, magnitude)),
{
    let m = magnitude as int;
    assert(m == 100 * (m / 100) + 10 * ((m / 10) % 10) + m % 10);
}

/// A frame that parses is exactly the encoding of what it parses to: no two frames command the
/// same thing.
pub proof fn lemma_parse_is_exact(b: Seq<u8>, motor: Motor, direction: Direction, magnitude: u8)
    requires
        parse_of(b) == Some((motor, direction, magnitude)),
    ensures
        frame_of(motor, direction, magnitude) == b,
{
    let h = b[2] - 48;
    let t = b[3] - 48;
    let o = b[4] - 48;
    let v = 100 * h + 10 * t + o;
    assert(v / 100 == h);
    assert((v / 10) % 10 == t);
    assert(v % 10 == o);
    assert(frame_of(motor, direction, magnitude) =~= b);
}

} // verus!
