use motor_controller::cycle::{ActuationCycle, Phase};
use motor_controller::request::{pwm_level, request_for, set_request};
use motor_controller::schedule::{
    board_route, board_tick, tick_requests, Board, BoardMotor, BoardSpeeds,
};
use motor_controller::{ActuationRequest, CommandCache, Direction, Motor, MotorError, WheelLevels};

fn req(motor: Motor, direction: Direction, magnitude: u8) -> ActuationRequest {
    ActuationRequest { motor, direction, magnitude }
}

#[test]
fn tank_full_spin_gives_four_full_requests() {
    let levels = WheelLevels { front_left: 255, front_right: -255, back_left: 255, back_right: -255 };
    let r = tick_requests(&levels);
    assert_eq!(
        r,
        vec![
            req(Motor::FrontLeft, Direction::Forward, 255),
            req(Motor::FrontRight, Direction::Backward, 255),
            req(Motor::BackLeft, Direction::Forward, 255),
            req(Motor::BackRight, Direction::Backward, 255),
        ]
    );
}

#[test]
fn every_tick_emits_four_in_wheel_order() {
    let same = WheelLevels { front_left: 0, front_right: 0, back_left: 0, back_right: 0 };
    for _ in 0..3 {
        let r = tick_requests(&same);
        let motors: Vec<Motor> = r.iter().map(|q| q.motor).collect();
        assert_eq!(
            motors,
            vec![Motor::FrontLeft, Motor::FrontRight, Motor::BackLeft, Motor::BackRight]
        );
    }
}

#[test]
fn levels_saturate_and_take_their_sign() {
    assert_eq!(request_for(Motor::FrontLeft, 128), req(Motor::FrontLeft, Direction::Forward, 128));
    assert_eq!(request_for(Motor::FrontLeft, -1), req(Motor::FrontLeft, Direction::Backward, 1));
    assert_eq!(request_for(Motor::FrontLeft, 0), req(Motor::FrontLeft, Direction::Forward, 0));
    assert_eq!(request_for(Motor::BackLeft, 1000), req(Motor::BackLeft, Direction::Forward, 255));
    assert_eq!(
        request_for(Motor::BackLeft, i32::MIN),
        req(Motor::BackLeft, Direction::Backward, 255)
    );
}

#[test]
fn set_request_checks_the_motor_id() {
    assert_eq!(set_request(2, 90, true), Some(req(Motor::BackLeft, Direction::Backward, 90)));
    assert_eq!(set_request(0, 5, false), Some(req(Motor::FrontLeft, Direction::Forward, 5)));
    assert_eq!(set_request(4, 5, false), None);
}

#[test]
fn pwm_values_are_clamped() {
    assert_eq!(pwm_level(-3), 0);
    assert_eq!(pwm_level(17), 17);
    assert_eq!(pwm_level(255), 255);
    assert_eq!(pwm_level(300), 255);
}

#[test]
fn wheels_route_to_board_outputs() {
    assert_eq!(board_route(Motor::FrontLeft), (Board::Front, BoardMotor::B));
    assert_eq!(board_route(Motor::FrontRight), (Board::Front, BoardMotor::A));
    assert_eq!(board_route(Motor::BackLeft), (Board::Back, BoardMotor::B));
    assert_eq!(board_route(Motor::BackRight), (Board::Back, BoardMotor::A));
    assert_eq!(BoardMotor::A.channel(), 0);
    assert_eq!(BoardMotor::B.channel(), 1);
}

#[test]
fn cache_keeps_only_the_latest() {
    let mut cache = CommandCache::new(0i32);
    assert_eq!(cache.read_snapshot(), 0);
    cache.write(5);
    cache.write(9);
    assert_eq!(cache.read_snapshot(), 9);
    assert_eq!(cache.read_snapshot(), 9);
}

#[test]
fn cycle_sends_in_order_until_done() {
    let levels = WheelLevels { front_left: 10, front_right: -20, back_left: 30, back_right: 0 };
    let mut cycle = ActuationCycle::new(tick_requests(&levels));
    let mut sent: Vec<Vec<u8>> = Vec::new();
    while let Some(frame) = cycle.pending_frame() {
        sent.push(frame);
        cycle.on_written();
        assert!(cycle.on_ack(0).is_ok());
    }
    assert_eq!(cycle.phase(), Phase::Finished);
    assert_eq!(cycle.accepted(), 4);
    assert_eq!(
        sent,
        vec![b"0+010".to_vec(), b"1-020".to_vec(), b"2+030".to_vec(), b"3+000".to_vec()]
    );
}

#[test]
fn device_error_stops_the_cycle() {
    let levels = WheelLevels { front_left: 255, front_right: -255, back_left: 255, back_right: -255 };
    let mut cycle = ActuationCycle::new(tick_requests(&levels));
    let mut sent = 0;
    let mut error = None;
    while let Some(_frame) = cycle.pending_frame() {
        sent += 1;
        cycle.on_written();
        let code = if sent == 2 { 0x07 } else { 0 };
        if let Err(e) = cycle.on_ack(code) {
            error = Some(e);
            break;
        }
    }
    assert_eq!(sent, 2);
    assert!(matches!(error, Some(MotorError::UnknownMotorError(7))));
    assert_eq!(cycle.phase(), Phase::DeviceError(7));
    assert_eq!(cycle.pending_frame(), None);
    assert_eq!(cycle.accepted(), 1);
}

#[test]
fn bus_fault_stops_the_cycle() {
    let levels = WheelLevels { front_left: 1, front_right: 1, back_left: 1, back_right: 1 };
    let mut cycle = ActuationCycle::new(tick_requests(&levels));
    assert!(cycle.pending_frame().is_some());
    cycle.on_bus_fault();
    assert_eq!(cycle.phase(), Phase::BusFault);
    assert_eq!(cycle.pending_frame(), None);
    cycle.on_written();
    assert_eq!(cycle.phase(), Phase::BusFault);
}

#[test]
fn empty_cycle_is_finished() {
    let cycle = ActuationCycle::new(Vec::new());
    assert_eq!(cycle.phase(), Phase::Finished);
    assert_eq!(cycle.pending_frame(), None);
}

#[test]
fn board_tick_addresses_each_wheel_output() {
    let levels = WheelLevels { front_left: 10, front_right: -20, back_left: 30, back_right: -40 };
    assert_eq!(
        board_tick(&levels),
        vec![
            (Board::Front, BoardMotor::B, 10),
            (Board::Front, BoardMotor::A, -20),
            (Board::Back, BoardMotor::B, 30),
            (Board::Back, BoardMotor::A, -40),
        ]
    );
}

#[test]
fn board_speeds_keep_the_latest_per_output() {
    let mut speeds = BoardSpeeds::new(0i32);
    assert_eq!(speeds.to_vec(), vec![0, 0]);
    speeds.set(BoardMotor::B, 7);
    speeds.set(BoardMotor::A, -3);
    speeds.set(BoardMotor::B, 9);
    assert_eq!(speeds.to_vec(), vec![-3, 9]);
}
