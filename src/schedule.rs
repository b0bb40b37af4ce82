use vstd::prelude::*;

use crate::motor::Motor;
use crate::request::{request_for, request_of, ActuationRequest};

verus! {

/// The signed level of each wheel for one actuation cycle, where 255 is full voltage forward
/// and -255 full voltage backward.
#[derive(Clone, Copy, Debug, PartialEq, Eq, Hash, Structural)]
pub struct WheelLevels {
    pub front_left: i32,
    pub front_right: i32,
    pub back_left: i32,
    pub back_right: i32,
}

/// The fixed order in which the wheels are actuated each cycle.
pub open spec fn wheel_order() -> Seq<Motor> {
    seq![Motor::FrontLeft, Motor::FrontRight, Motor::BackLeft, Motor::BackRight]
}

/// The requests of one cycle: one per wheel, in the fixed wheel order.
pub open spec fn tick_of(levels: WheelLevels) -> Seq<ActuationRequest> {
    seq![
        request_of(Motor::FrontLeft, levels.front_left as int),
        request_of(Motor::FrontRight, levels.front_right as int),
        request_of(Motor::BackLeft, levels.back_left as int),
        request_of(Motor::BackRight, levels.back_right as int),
    ]
}

/// Builds the requests that one republish cycle sends, front-left, front-right, back-left,
/// back-right.
pub fn tick_requests(levels: &WheelLevels) -> (r: Vec<ActuationRequest>)
    ensures
        r@ == tick_of(*levels),
{
    let mut r: Vec<ActuationRequest> = Vec::new();
    r.push(request_for(Motor::FrontLeft, levels.front_left));
    r.push(request_for(Motor::FrontRight, levels.front_right));
    r.push(request_for(Motor::BackLeft, levels.back_left));
    r.push(request_for(Motor::BackRight, levels.back_right));
    proof {
        assert(r@ =~= tick_of(*levels));
    }
    r
}

/// Every cycle, whatever the levels and whether or not they changed since the last one, sends
/// exactly one request per wheel, in the fixed wheel order.
pub proof fn lemma_tick_covers_each_wheel_in_order(levels: WheelLevels)
    ensures
        tick_of(levels).len() == 4,
        forall|i: int| 0 <= i < 4 ==> #[trigger] tick_of(levels)[i].motor == wheel_order()[i],
{
}

/// A controller board that drives two of the four wheels.
#[derive(Clone, Copy, Debug, PartialEq, Eq, Hash, Structural)]
pub enum Board {
    Front,
    Back,
}

/// One of the two motor outputs of a board.
#[derive(Clone, Copy, Debug, PartialEq, Eq, Hash, Structural)]
pub enum BoardMotor {
    A,
    B,
}

/// Where each wheel is wired when two boards share the chassis: the left wheels on output B,
/// the right wheels on output A.
pub open spec fn route_of(motor: Motor) -> (Board, BoardMotor) {
    match motor {
        Motor::FrontLeft => (Board::Front, BoardMotor::B),
        Motor::FrontRight => (Board::Front, BoardMotor::A),
        Motor::BackLeft => (Board::Back, BoardMotor::B),
        Motor::BackRight => (Board::Back, BoardMotor::A),
    }
}

/// The board and the board's output that drive a wheel.
pub fn board_route(motor: Motor) -> (r: (Board, BoardMotor))
    ensures
        r == route_of(motor),
{
    match motor {
        Motor::FrontLeft => (Board::Front, BoardMotor::B),
        Motor::FrontRight => (Board::Front, BoardMotor::A),
        Motor::BackLeft => (Board::Back, BoardMotor::B),
        Motor::BackRight => (Board::Back, BoardMotor::A),
    }
}

/// No two wheels share a board output.
pub proof fn lemma_routes_distinct(a: Motor, b: Motor)
    requires
        a != b,
    ensures
        route_of(a) != route_of(b),
{
}

impl BoardMotor {
    /// The index of this output in a board's speed table: A first, then B.
    pub fn channel(self) -> (r: usize)
        ensures
            r == (match self {
                BoardMotor::A => 0usize,
                BoardMotor::B => 1usize,
            }),
    {
        match self {
            BoardMotor::A => 0,
            BoardMotor::B => 1,
        }
    }
}

/// A command for one output of one board: the board, the output, and the signed level.
pub type BoardCommand = (Board, BoardMotor, i32);

/// The commands of one cycle when two boards share the chassis: one per wheel, in the fixed
/// wheel order, each addressed to the output that drives that wheel.
pub open spec fn board_tick_of(levels: WheelLevels) -> Seq<BoardCommand> {
    seq![
        (route_of(Motor::FrontLeft).0, route_of(Motor::FrontLeft).1, levels.front_left),
        (route_of(Motor::FrontRight).0, route_of(Motor::FrontRight).1, levels.front_right),
        (route_of(Motor::BackLeft).0, route_of(Motor::BackLeft).1, levels.back_left),
        (route_of(Motor::BackRight).0, route_of(Motor::BackRight).1, levels.back_right),
    ]
}

fn board_command(motor: Motor, level: i32) -> (r: BoardCommand)
    ensures
        r == (route_of(motor).0, route_of(motor).1, level),
{
    let (board, output) = board_route(motor);
    (board, output, level)
}

/// Builds the commands that one republish cycle hands to the two boards.
pub fn board_tick(levels: &WheelLevels) -> (r: Vec<BoardCommand>)
    ensures
        r@ == board_tick_of(*levels),
{
    let mut r: Vec<BoardCommand> = Vec::new();
    r.push(board_command(Motor::FrontLeft, levels.front_left));
    r.push(board_command(Motor::FrontRight, levels.front_right));
    r.push(board_command(Motor::BackLeft, levels.back_left));
    r.push(board_command(Motor::BackRight, levels.back_right));
    proof {
        assert(r@ =~= board_tick_of(*levels));
    }
    r
}

/// The latest speed of each output of one board, as the board's own node keeps them.
pub struct BoardSpeeds<T> {
    a: T,
    b: T,
}

impl<T> BoardSpeeds<T> {
    /// The speed held for an output.
    pub closed spec fn speed(&self, m: BoardMotor) -> T {
        match m {
            BoardMotor::A => self.a,
            BoardMotor::B => self.b,
        }
    }
}

impl<T: Copy> BoardSpeeds<T> {
    /// Both outputs at `initial`.
    pub fn new(initial: T) -> (r: BoardSpeeds<T>)
        ensures
            r.speed(BoardMotor::A) == initial,
            r.speed(BoardMotor::B) == initial,
    {
        BoardSpeeds { a: initial, b: initial }
    }

    /// Replaces the speed of one output; the other keeps its own.
    pub fn set(&mut self, m: BoardMotor, speed: T)
        ensures
            final(self).speed(m) == speed,
            forall|o: BoardMotor| o != m ==> final(self).speed(o) == old(self).speed(o),
    {
        match m {
            BoardMotor::A => self.a = speed,
            BoardMotor::B => self.b = speed,
        }
    }

    /// The speeds of both outputs, indexed by their channel: A, then B.
    pub fn to_vec(&self) -> (r: Vec<T>)
        ensures
            r@ == seq![self.speed(BoardMotor::A), self.speed(BoardMotor::B)],
    {
        let mut r: Vec<T> = Vec::new();
        r.push(self.a);
        r.push(self.b);
        proof {
            assert(r@ =~= seq![self.speed(BoardMotor::A), self.speed(BoardMotor::B)]);
        }
        r
    }
}

/// The latest command received: one value, overwritten by each write, never queued.
pub struct CommandCache<T> {
    latest: T,
}

impl<T> View for CommandCache<T> {
    type V = T;

    closed spec fn view(&self) -> T {
        self.latest
    }
}

impl<T: Copy> CommandCache<T> {
    /// A cache that holds `initial` until the first write.
    pub fn new(initial: T) -> (r: CommandCache<T>)
        ensures
            r@ == initial,
    {
        CommandCache { latest: initial }
    }

    /// Replaces the held command; nothing of the earlier one is kept.
    pub fn write(&mut self, cmd: T)
        ensures
            final(self)@ == cmd,
    {
        self.latest = cmd;
    }

    /// A copy of the command held now.
    pub fn read_snapshot(&self) -> (r: T)
        ensures
            r == self@,
    {
        self.latest
    }
}

} // verus!
