use robot::fault::Fault;
use robot::mixer::{Direction, Motor};
use robot::protocol::{Command, State};
use robot::robot::{Effect, Reading, Robot};
use robot::sched::{Task, Threshold};

const START: [u8; 3] = [0b1100_1100; 3];

fn started() -> Robot {
    let mut robot = Robot::new();
    assert_eq!(robot.init(), Ok(vec![Effect::Receive, Effect::TimerStart]));
    robot
}

fn armed() -> Robot {
    let mut robot = started();
    let t = Threshold::enter(Task::Rx);
    assert_eq!(
        robot.rx(&t, &START, 8000),
        Ok(vec![
            Effect::Receive,
            Effect::Led(true),
            Effect::Pwm(Motor::Right, true),
            Effect::Pwm(Motor::Left, true),
        ])
    );
    robot
}

fn frame_of(command: Command) -> [u8; 3] {
    let mut frame = [0u8; 3];
    command.serialize(&mut frame);
    frame
}

#[test]
fn power_up_state() {
    let robot = Robot::new();
    assert!(!robot.active());
    assert_eq!(robot.duty_left(), 0);
    assert_eq!(robot.duty_right(), 0);
    assert_eq!(robot.pos_left(), 0);
    assert_eq!(robot.pos_right(), 0);
    assert_eq!(robot.sleep_cycles(), 0);
    assert_eq!(robot.target_x(), 0);
    assert_eq!(robot.target_y(), 0);
    assert_eq!(robot.rx_buffer().borrow(), Some(&[0u8; 3]));
    assert_eq!(robot.tx_buffer().borrow(), Some(&[0u8; 11]));
}

#[test]
fn init_starts_the_first_receive() {
    let robot = started();
    assert!(robot.rx_buffer().in_transfer());
    assert!(!robot.tx_buffer().in_transfer());
    assert!(!robot.active());
}

#[test]
fn init_twice_is_a_fault() {
    let mut robot = started();
    assert_eq!(robot.init(), Err(Fault::InTransfer));
    assert!(robot.rx_buffer().in_transfer());
}

#[test]
fn idle_adds_the_time_asleep() {
    let mut robot = Robot::new();
    let t = Threshold::enter(Task::Idle);
    robot.idle(&t, 1000, 1500);
    assert_eq!(robot.sleep_cycles(), 500);
    robot.idle(&t, 2000, 2250);
    assert_eq!(robot.sleep_cycles(), 750);
}

#[test]
fn idle_survives_a_wrap_of_the_cycle_counter() {
    let mut robot = Robot::new();
    let t = Threshold::enter(Task::Idle);
    robot.idle(&t, u32::MAX - 9, 10);
    assert_eq!(robot.sleep_cycles(), 20);
}

#[test]
fn sleep_counter_wraps() {
    let mut robot = Robot::new();
    let t = Threshold::enter(Task::Idle);
    robot.idle(&t, 0, u32::MAX);
    assert_eq!(robot.sleep_cycles(), u32::MAX);
    robot.idle(&t, 0, 3);
    assert_eq!(robot.sleep_cycles(), 2);
}

#[test]
fn capture_counts_edges() {
    let mut robot = Robot::new();
    let t = Threshold::enter(Task::Capture);
    assert_eq!(robot.capture(&t, Reading::Captured, Reading::NotReady), Ok(()));
    assert_eq!((robot.pos_left(), robot.pos_right()), (1, 0));
    assert_eq!(robot.capture(&t, Reading::Captured, Reading::Captured), Ok(()));
    assert_eq!((robot.pos_left(), robot.pos_right()), (2, 1));
    assert_eq!(robot.capture(&t, Reading::NotReady, Reading::NotReady), Ok(()));
    assert_eq!((robot.pos_left(), robot.pos_right()), (2, 1));
    assert_eq!(robot.capture(&t, Reading::NotReady, Reading::Captured), Ok(()));
    assert_eq!((robot.pos_left(), robot.pos_right()), (2, 2));
}

#[test]
fn overcapture_is_a_fault() {
    let mut robot = Robot::new();
    let t = Threshold::enter(Task::Capture);
    assert_eq!(robot.capture(&t, Reading::Overcapture, Reading::NotReady), Err(Fault::Overcapture));
    assert_eq!(robot.capture(&t, Reading::Captured, Reading::Overcapture), Err(Fault::Overcapture));
    assert_eq!(robot.capture(&t, Reading::Overcapture, Reading::Overcapture), Err(Fault::Overcapture));
    assert_eq!((robot.pos_left(), robot.pos_right()), (0, 0));
}

#[test]
fn edge_counter_wraps() {
    let mut robot = Robot::new();
    let t = Threshold::enter(Task::Capture);
    for _ in 0..255 {
        assert_eq!(robot.capture(&t, Reading::Captured, Reading::NotReady), Ok(()));
    }
    assert_eq!(robot.pos_left(), 255);
    assert_eq!(robot.capture(&t, Reading::Captured, Reading::Captured), Ok(()));
    assert_eq!((robot.pos_left(), robot.pos_right()), (0, 1));
}

#[test]
fn start_arms_a_disarmed_robot() {
    let robot = armed();
    assert!(robot.active());
    assert!(robot.rx_buffer().in_transfer());
    assert_eq!((robot.target_x(), robot.target_y()), (0, 0));
}

#[test]
fn rx_before_init_is_a_fault() {
    let mut robot = Robot::new();
    let t = Threshold::enter(Task::Rx);
    assert_eq!(robot.rx(&t, &START, 8000), Err(Fault::NotInTransfer));
    assert!(!robot.active());
    assert!(!robot.rx_buffer().in_transfer());
    assert_eq!(robot.rx_buffer().borrow(), Some(&[0u8; 3]));
}

#[test]
fn end_to_end_example() {
    let mut robot = armed();
    let t = Threshold::enter(Task::Rx);
    assert_eq!(
        robot.rx(&t, &[0b1010_1010, 0x64, 0x00], 8000),
        Ok(vec![
            Effect::Receive,
            Effect::Pins(Motor::Left, Direction::Backward),
            Effect::Duty(Motor::Left, 0),
            Effect::Pins(Motor::Right, Direction::Backward),
            Effect::Duty(Motor::Right, 0),
        ])
    );
    assert_eq!((robot.target_x(), robot.target_y()), (100, 0));
    assert_eq!((robot.duty_left(), robot.duty_right()), (0, 0));
    assert_eq!(
        robot.rx(&t, &[0b0101_0101, 0x00, 0x80], 8000),
        Ok(vec![
            Effect::Receive,
            Effect::Pins(Motor::Left, Direction::Forward),
            Effect::Duty(Motor::Left, 6000),
            Effect::Pins(Motor::Right, Direction::Forward),
            Effect::Duty(Motor::Right, 5963),
        ])
    );
    assert_eq!((robot.target_x(), robot.target_y()), (100, -32768));
    assert_eq!((robot.duty_left(), robot.duty_right()), (6000, 5963));
    assert!(robot.rx_buffer().in_transfer());
}

#[test]
fn backwards_with_a_reversed_inner_wheel() {
    let mut robot = armed();
    let t = Threshold::enter(Task::Rx);
    assert!(robot.rx(&t, &frame_of(Command::Y(32767)), 8000).is_ok());
    assert_eq!(
        robot.rx(&t, &frame_of(Command::X(-32768)), 8000),
        Ok(vec![
            Effect::Receive,
            Effect::Pins(Motor::Left, Direction::Forward),
            Effect::Duty(Motor::Left, 6000),
            Effect::Pins(Motor::Right, Direction::Backward),
            Effect::Duty(Motor::Right, 6000),
        ])
    );
    assert_eq!((robot.duty_left(), robot.duty_right()), (6000, -6000));
}

#[test]
fn stored_duty_wraps_on_a_very_large_full_duty() {
    let mut robot = armed();
    let t = Threshold::enter(Task::Rx);
    assert_eq!(
        robot.rx(&t, &frame_of(Command::Y(-32768)), 65535),
        Ok(vec![
            Effect::Receive,
            Effect::Pins(Motor::Left, Direction::Forward),
            Effect::Duty(Motor::Left, 49151),
            Effect::Pins(Motor::Right, Direction::Forward),
            Effect::Duty(Motor::Right, 49151),
        ])
    );
    assert_eq!((robot.duty_left(), robot.duty_right()), (-16385, -16385));
}

#[test]
fn axis_commands_are_ignored_while_disarmed() {
    let mut robot = started();
    let t = Threshold::enter(Task::Rx);
    assert_eq!(robot.rx(&t, &frame_of(Command::X(100)), 8000), Ok(vec![Effect::Receive]));
    assert_eq!(robot.rx(&t, &frame_of(Command::Y(-100)), 8000), Ok(vec![Effect::Receive]));
    assert!(!robot.active());
    assert_eq!((robot.target_x(), robot.target_y()), (0, 0));
    assert_eq!((robot.duty_left(), robot.duty_right()), (0, 0));
    assert!(robot.rx_buffer().in_transfer());
}

#[test]
fn unrecognized_frames_are_dropped() {
    let mut robot = armed();
    let t = Threshold::enter(Task::Rx);
    assert!(robot.rx(&t, &frame_of(Command::Y(-32768)), 8000).is_ok());
    assert_eq!(robot.rx(&t, &[0, 1, 2], 8000), Ok(vec![Effect::Receive]));
    assert_eq!(robot.rx(&t, &[0b1100_1100, 0b1100_1100, 0], 8000), Ok(vec![Effect::Receive]));
    assert!(robot.active());
    assert_eq!((robot.target_x(), robot.target_y()), (0, -32768));
    assert_eq!((robot.duty_left(), robot.duty_right()), (6000, 6000));
    assert!(robot.rx_buffer().in_transfer());
}

#[test]
fn disarm_brakes_and_clears_the_axes() {
    let mut robot = armed();
    let t = Threshold::enter(Task::Rx);
    assert!(robot.rx(&t, &frame_of(Command::X(-5000)), 8000).is_ok());
    assert!(robot.rx(&t, &frame_of(Command::Y(-32768)), 8000).is_ok());
    assert_eq!(
        robot.rx(&t, &START, 8000),
        Ok(vec![
            Effect::Receive,
            Effect::Led(false),
            Effect::Pins(Motor::Left, Direction::Brake),
            Effect::Pins(Motor::Right, Direction::Brake),
            Effect::Pwm(Motor::Right, false),
            Effect::Pwm(Motor::Left, false),
        ])
    );
    assert!(!robot.active());
    assert_eq!((robot.target_x(), robot.target_y()), (0, 0));
    assert_eq!(Direction::Brake.pins(), (false, false));
    assert!(robot.rx_buffer().in_transfer());
}

#[test]
fn after_disarm_the_next_mix_starts_from_rest() {
    let mut robot = armed();
    let t = Threshold::enter(Task::Rx);
    assert!(robot.rx(&t, &frame_of(Command::X(12000)), 8000).is_ok());
    assert!(robot.rx(&t, &frame_of(Command::Y(-32768)), 8000).is_ok());
    assert!(robot.rx(&t, &START, 8000).is_ok());
    assert!(robot.rx(&t, &START, 8000).is_ok());
    assert!(robot.active());
    assert_eq!(
        robot.rx(&t, &frame_of(Command::X(0)), 8000),
        Ok(vec![
            Effect::Receive,
            Effect::Pins(Motor::Left, Direction::Backward),
            Effect::Duty(Motor::Left, 0),
            Effect::Pins(Motor::Right, Direction::Backward),
            Effect::Duty(Motor::Right, 0),
        ])
    );
    assert_eq!((robot.duty_left(), robot.duty_right()), (0, 0));
}

#[test]
fn a_disarmed_robot_stays_silent() {
    let mut robot = started();
    let capture = Threshold::enter(Task::Capture);
    let idle = Threshold::enter(Task::Idle);
    let log = Threshold::enter(Task::Log);
    for tick in 0..20 {
        assert_eq!(robot.capture(&capture, Reading::Captured, Reading::Captured), Ok(()));
        robot.idle(&idle, 0, 1000 + tick);
        assert_eq!(robot.log(&log), Ok(vec![Effect::TimerAck]));
        assert_eq!(robot.pos_left(), 0);
        assert_eq!(robot.pos_right(), 0);
        assert_eq!(robot.sleep_cycles(), 0);
        assert!(!robot.tx_buffer().in_transfer());
    }
}

#[test]
fn an_armed_robot_reports_its_state() {
    let mut robot = armed();
    let rx = Threshold::enter(Task::Rx);
    let capture = Threshold::enter(Task::Capture);
    let idle = Threshold::enter(Task::Idle);
    let log = Threshold::enter(Task::Log);
    assert!(robot.rx(&rx, &frame_of(Command::X(100)), 8000).is_ok());
    assert!(robot.rx(&rx, &frame_of(Command::Y(-32768)), 8000).is_ok());
    assert_eq!(robot.capture(&capture, Reading::Captured, Reading::NotReady), Ok(()));
    assert_eq!(robot.capture(&capture, Reading::Captured, Reading::Captured), Ok(()));
    robot.idle(&idle, 5, 4_000_005);
    let expected = State {
        duty_left: 6000,
        duty_right: 5963,
        sleep_cycles: 4_000_000,
        speed_left: 2,
        speed_right: 1,
    };
    let mut frame = [0u8; 11];
    expected.serialize(&mut frame);
    assert_eq!(robot.log(&log), Ok(vec![Effect::TimerAck, Effect::Transmit(frame)]));
    assert_eq!(frame, [0xAA, 0x00, 0x09, 0x3D, 0x00, 0x70, 0x17, 0x4B, 0x17, 2, 1]);
    assert!(robot.tx_buffer().in_transfer());
    assert_eq!(robot.pos_left(), 0);
    assert_eq!(robot.pos_right(), 0);
    assert_eq!(robot.sleep_cycles(), 0);
    assert_eq!((robot.duty_left(), robot.duty_right()), (6000, 5963));
}

#[test]
fn a_tick_before_the_frame_has_gone_out_is_a_fault() {
    let mut robot = armed();
    let log = Threshold::enter(Task::Log);
    let idle = Threshold::enter(Task::Idle);
    assert!(robot.log(&log).is_ok());
    robot.idle(&idle, 0, 77);
    assert_eq!(robot.log(&log), Err(Fault::InTransfer));
    assert_eq!(robot.sleep_cycles(), 77);
    assert!(robot.tx_buffer().in_transfer());
}

#[test]
fn transfer_done_frees_the_transmit_buffer() {
    let mut robot = armed();
    let log = Threshold::enter(Task::Log);
    let tx = Threshold::enter(Task::Tx);
    assert!(robot.log(&log).is_ok());
    assert_eq!(robot.tx_transfer_done(&tx), Ok(()));
    assert!(!robot.tx_buffer().in_transfer());
    let frame = *robot.tx_buffer().borrow().unwrap();
    assert_eq!(frame, [0xAA, 0, 0, 0, 0, 0, 0, 0, 0, 0, 0]);
    assert!(robot.log(&log).is_ok());
}

#[test]
fn transfer_done_without_a_transfer_is_a_fault() {
    let mut robot = started();
    let tx = Threshold::enter(Task::Tx);
    assert_eq!(robot.tx_transfer_done(&tx), Err(Fault::NotInTransfer));
    assert!(!robot.tx_buffer().in_transfer());
}

#[test]
fn tasks_keep_to_their_resources() {
    let mut robot = armed();
    let rx = Threshold::enter(Task::Rx);
    let capture = Threshold::enter(Task::Capture);
    assert!(robot.rx(&rx, &frame_of(Command::Y(-32768)), 8000).is_ok());
    assert_eq!(robot.capture(&capture, Reading::Captured, Reading::Captured), Ok(()));
    assert_eq!((robot.duty_left(), robot.duty_right()), (6000, 6000));
    assert_eq!((robot.target_x(), robot.target_y()), (0, -32768));
    assert!(robot.active());
    assert!(robot.rx(&rx, &frame_of(Command::X(1)), 8000).is_ok());
    assert_eq!((robot.pos_left(), robot.pos_right()), (1, 1));
    assert_eq!(robot.sleep_cycles(), 0);
    assert!(!robot.tx_buffer().in_transfer());
}
