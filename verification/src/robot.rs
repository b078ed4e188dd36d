//! The application tasks: what each of them does to the shared state and
//! which peripheral operations it asks for, as functions from the state and
//! the event that triggered the task.

use crate::buffer::{Buffer, BufferView};
use crate::fault::Fault;
use crate::mixer::{
    direction, direction_of, left_speed, lemma_speed_bounds, magnitude, magnitude_of, mix,
    right_speed, stored_duty, wrap_i16, Direction, Motor,
};
use crate::protocol::{decode_command, encode_state, Command, State};
use crate::sched::{ceiling_of, covers, Resource, Task, Threshold};
use vstd::prelude::*;

verus! {

/// Outcome of one non-blocking read of a capture channel.
#[derive(Clone, Copy, Debug, PartialEq, Eq, Structural)]
pub enum Reading {
    /// An edge was captured.
    Captured,
    /// No edge is pending yet.
    NotReady,
    /// An edge arrived before the previous one was read.
    Overcapture,
}

/// A peripheral operation that a task asks for. A task hands its effects
/// out in the order in which they are to be performed.
#[derive(Clone, Copy, Debug, PartialEq, Eq)]
pub enum Effect {
    /// Start to receive the next command frame into the receive buffer.
    Receive,
    /// Start to transmit these bytes, the contents of the transmit buffer.
    Transmit([u8; 11]),
    /// Start the periodic timer.
    TimerStart,
    /// Clear the pending update of the periodic timer.
    TimerAck,
    /// Switch the indicator on or off.
    Led(bool),
    /// Enable or disable the PWM channel of a motor.
    Pwm(Motor, bool),
    /// Set the two direction pins of a motor.
    Pins(Motor, Direction),
    /// Set the duty of the PWM channel of a motor.
    Duty(Motor, u16),
}

/// The shared state of the firmware.
#[derive(Clone, Debug)]
pub struct Robot {
    active: bool,
    duty_left: i16,
    duty_right: i16,
    pos_left: u8,
    pos_right: u8,
    sleep_cycles: u32,
    rx_buffer: Buffer<3>,
    tx_buffer: Buffer<11>,
    target_x: i16,
    target_y: i16,
}

/// What the shared state is, mathematically.
pub struct RobotView {
    /// Whether the robot is armed.
    pub active: bool,
    /// Last commanded duty of the left motor; the sign is the direction.
    pub duty_left: i16,
    /// Last commanded duty of the right motor; the sign is the direction.
    pub duty_right: i16,
    /// Edges seen on the left wheel since the last tick.
    pub pos_left: u8,
    /// Edges seen on the right wheel since the last tick.
    pub pos_right: u8,
    /// Cycles spent asleep since the last tick.
    pub sleep_cycles: u32,
    /// The buffer of the incoming command frame.
    pub rx_buffer: BufferView,
    /// The buffer of the outgoing state frame.
    pub tx_buffer: BufferView,
    /// Last received steering axis.
    pub target_x: i16,
    /// Last received throttle axis.
    pub target_y: i16,
}

impl View for Robot {
    type V = RobotView;

    closed spec fn view(&self) -> RobotView {
        RobotView {
            active: self.active,
            duty_left: self.duty_left,
            duty_right: self.duty_right,
            pos_left: self.pos_left,
            pos_right: self.pos_right,
            sleep_cycles: self.sleep_cycles,
            rx_buffer: self.rx_buffer@,
            tx_buffer: self.tx_buffer@,
            target_x: self.target_x,
            target_y: self.target_y,
        }
    }
}

/// A sequence of `n` zero bytes.
pub open spec fn zeros(n: nat) -> Seq<u8> {
    Seq::new(n, |i: int| 0u8)
}

/// The state at power-up: disarmed, everything at zero, both buffers free.
pub open spec fn initial() -> RobotView {
    RobotView {
        active: false,
        duty_left: 0,
        duty_right: 0,
        pos_left: 0,
        pos_right: 0,
        sleep_cycles: 0,
        rx_buffer: BufferView { data: zeros(3), in_transfer: false },
        tx_buffer: BufferView { data: zeros(11), in_transfer: false },
        target_x: 0,
        target_y: 0,
    }
}

/// The state with the receive buffer handed to the transfer peripheral.
pub open spec fn receiving(s: RobotView) -> RobotView {
    RobotView { rx_buffer: BufferView { data: s.rx_buffer.data, in_transfer: true }, ..s }
}

/// A counter of 32 bits after `elapsed` more cycles; it wraps at 2^32.
pub open spec fn add_cycles(count: u32, elapsed: u32) -> u32 {
    ((count + elapsed) % 0x1_0000_0000) as u32
}

/// The cycles between two readings of the free-running cycle counter, which
/// wraps at 2^32.
pub open spec fn elapsed_cycles(before: u32, after: u32) -> u32 {
    ((after - before) % 0x1_0000_0000) as u32
}

/// An edge counter after one more edge; it wraps at 2^8.
pub open spec fn count_edge(count: u8, reading: Reading) -> u8 {
    if reading is Captured {
        ((count + 1) % 256) as u8
    } else {
        count
    }
}

/// The state after the idle loop has slept from `before` to `after`.
pub open spec fn after_idle(s: RobotView, before: u32, after: u32) -> RobotView {
    RobotView { sleep_cycles: add_cycles(s.sleep_cycles, elapsed_cycles(before, after)), ..s }
}

/// The fault of a capture task that reads `left` and `right`, if any.
pub open spec fn capture_fault(left: Reading, right: Reading) -> Option<Fault> {
    if left is Overcapture || right is Overcapture {
        Some(Fault::Overcapture)
    } else {
        None
    }
}

/// The state after a capture task that reads `left` and `right`.
pub open spec fn after_capture(s: RobotView, left: Reading, right: Reading) -> RobotView {
    RobotView {
        pos_left: count_edge(s.pos_left, left),
        pos_right: count_edge(s.pos_right, right),
        ..s
    }
}

/// The state with the duties that the stored axes mix to.
pub open spec fn driven(s: RobotView, max_duty: u16) -> RobotView {
    RobotView {
        duty_left: wrap_i16(left_speed(max_duty, s.target_x, s.target_y)) as i16,
        duty_right: wrap_i16(right_speed(max_duty, s.target_x, s.target_y)) as i16,
        ..s
    }
}

/// What the motors are told when the stored axes are mixed: for each motor,
/// left first, its direction and then its duty.
pub open spec fn drive_effects(s: RobotView, max_duty: u16) -> Seq<Effect> {
    let left = left_speed(max_duty, s.target_x, s.target_y);
    let right = right_speed(max_duty, s.target_x, s.target_y);
    seq![
        Effect::Pins(Motor::Left, direction_of(left)),
        Effect::Duty(Motor::Left, magnitude_of(left) as u16),
        Effect::Pins(Motor::Right, direction_of(right)),
        Effect::Duty(Motor::Right, magnitude_of(right) as u16),
    ]
}

/// What arming asks for: indicator on, both PWM channels enabled.
pub open spec fn arm_effects() -> Seq<Effect> {
    seq![Effect::Led(true), Effect::Pwm(Motor::Right, true), Effect::Pwm(Motor::Left, true)]
}

/// What disarming asks for: indicator off, both motors braked, both PWM
/// channels disabled.
pub open spec fn disarm_effects() -> Seq<Effect> {
    seq![
        Effect::Led(false),
        Effect::Pins(Motor::Left, Direction::Brake),
        Effect::Pins(Motor::Right, Direction::Brake),
        Effect::Pwm(Motor::Right, false),
        Effect::Pwm(Motor::Left, false),
    ]
}

/// The fault of a command-intake task in state `s`, if any: the receive
/// buffer must be in transfer to be released.
pub open spec fn rx_fault(s: RobotView) -> Option<Fault> {
    if s.rx_buffer.in_transfer {
        None
    } else {
        Some(Fault::NotInTransfer)
    }
}

/// The state after the command in `command` has been acted upon.
pub open spec fn applied(s: RobotView, command: Option<Command>, max_duty: u16) -> RobotView {
    match command {
        Some(Command::Start) => if s.active {
            RobotView { active: false, target_x: 0, target_y: 0, ..s }
        } else {
            RobotView { active: true, ..s }
        },
        Some(Command::X(v)) => if s.active {
            driven(RobotView { target_x: v, ..s }, max_duty)
        } else {
            s
        },
        Some(Command::Y(v)) => if s.active {
            driven(RobotView { target_y: v, ..s }, max_duty)
        } else {
            s
        },
        None => s,
    }
}

/// What acting upon `command` asks of the peripherals.
pub open spec fn command_effects(s: RobotView, command: Option<Command>, max_duty: u16) -> Seq<
    Effect,
> {
    match command {
        Some(Command::Start) => if s.active {
            disarm_effects()
        } else {
            arm_effects()
        },
        Some(Command::X(v)) => if s.active {
            drive_effects(RobotView { target_x: v, ..s }, max_duty)
        } else {
            Seq::empty()
        },
        Some(Command::Y(v)) => if s.active {
            drive_effects(RobotView { target_y: v, ..s }, max_duty)
        } else {
            Seq::empty()
        },
        None => Seq::empty(),
    }
}

/// The state after a command-intake task that finds `frame` in the receive
/// buffer: the buffer holds the frame and is in transfer again, and the
/// command that the frame decodes to has been acted upon.
pub open spec fn after_rx(s: RobotView, frame: Seq<u8>, max_duty: u16) -> RobotView {
    applied(
        RobotView { rx_buffer: BufferView { data: frame, in_transfer: true }, ..s },
        decode_command(frame),
        max_duty,
    )
}

/// What a command-intake task asks of the peripherals: first a new
/// receive, then what the command calls for.
pub open spec fn rx_effects(s: RobotView, frame: Seq<u8>, max_duty: u16) -> Seq<Effect> {
    seq![Effect::Receive] + command_effects(s, decode_command(frame), max_duty)
}

/// The state that a telemetry frame reports.
pub open spec fn report_of(s: RobotView) -> State {
    State {
        duty_left: s.duty_left,
        duty_right: s.duty_right,
        sleep_cycles: s.sleep_cycles,
        speed_left: s.pos_left,
        speed_right: s.pos_right,
    }
}

/// The fault of a telemetry task in state `s`, if any: an armed robot
/// needs a free transmit buffer.
pub open spec fn log_fault(s: RobotView) -> Option<Fault> {
    if s.active && s.tx_buffer.in_transfer {
        Some(Fault::InTransfer)
    } else {
        None
    }
}

/// The state after a telemetry task: the counters of the period are back
/// at zero and, if the robot is armed, the transmit buffer holds the frame
/// and is in transfer.
pub open spec fn after_log(s: RobotView) -> RobotView {
    RobotView {
        pos_left: 0,
        pos_right: 0,
        sleep_cycles: 0,
        tx_buffer: if s.active {
            BufferView { data: encode_state(report_of(s)), in_transfer: true }
        } else {
            s.tx_buffer
        },
        ..s
    }
}

/// Whether `effects` is what a telemetry task in state `s` asks of the
/// peripherals: the timer is acknowledged and then, only if the robot is
/// armed, the frame that reports the state is transmitted.
pub open spec fn is_log_effects(s: RobotView, effects: Seq<Effect>) -> bool {
    if s.active {
        &&& effects.len() == 2
        &&& effects[0] == Effect::TimerAck
        &&& effects[1] matches Effect::Transmit(frame)
        &&& frame@ == encode_state(report_of(s))
    } else {
        effects == seq![Effect::TimerAck]
    }
}

/// The fault of a transfer-complete task in state `s`, if any: the
/// transmit buffer must be in transfer to be released.
pub open spec fn tx_fault(s: RobotView) -> Option<Fault> {
    if s.tx_buffer.in_transfer {
        None
    } else {
        Some(Fault::NotInTransfer)
    }
}

/// The state after a transfer-complete task: the transmit buffer is free.
pub open spec fn after_tx(s: RobotView) -> RobotView {
    RobotView { tx_buffer: BufferView { data: s.tx_buffer.data, in_transfer: false }, ..s }
}

impl Robot {
    /// The state at power-up.
    pub fn new() -> (robot: Self)
        ensures
            robot@ == initial(),
    {
        let robot = Robot {
            active: false,
            duty_left: 0,
            duty_right: 0,
            pos_left: 0,
            pos_right: 0,
            sleep_cycles: 0,
            rx_buffer: Buffer::new([0u8; 3]),
            tx_buffer: Buffer::new([0u8; 11]),
            target_x: 0,
            target_y: 0,
        };
        assert(robot.rx_buffer@.data =~= zeros(3));
        assert(robot.tx_buffer@.data =~= zeros(11));
        robot
    }

    /// Whether the robot is armed.
    pub fn active(&self) -> (active: bool)
        ensures
            active == self@.active,
    {
        self.active
    }

    /// Last commanded duty of the left motor.
    pub fn duty_left(&self) -> (duty: i16)
        ensures
            duty == self@.duty_left,
    {
        self.duty_left
    }

    /// Last commanded duty of the right motor.
    pub fn duty_right(&self) -> (duty: i16)
        ensures
            duty == self@.duty_right,
    {
        self.duty_right
    }

    /// Edges seen on the left wheel since the last tick.
    pub fn pos_left(&self) -> (edges: u8)
        ensures
            edges == self@.pos_left,
    {
        self.pos_left
    }

    /// Edges seen on the right wheel since the last tick.
    pub fn pos_right(&self) -> (edges: u8)
        ensures
            edges == self@.pos_right,
    {
        self.pos_right
    }

    /// Cycles spent asleep since the last tick.
    pub fn sleep_cycles(&self) -> (cycles: u32)
        ensures
            cycles == self@.sleep_cycles,
    {
        self.sleep_cycles
    }

    /// Last received steering axis.
    pub fn target_x(&self) -> (x: i16)
        ensures
            x == self@.target_x,
    {
        self.target_x
    }

    /// Last received throttle axis.
    pub fn target_y(&self) -> (y: i16)
        ensures
            y == self@.target_y,
    {
        self.target_y
    }

    /// The buffer of the incoming command frame.
    pub fn rx_buffer(&self) -> (buffer: &Buffer<3>)
        ensures
            buffer@ == self@.rx_buffer,
    {
        &self.rx_buffer
    }

    /// The buffer of the outgoing state frame.
    pub fn tx_buffer(&self) -> (buffer: &Buffer<11>)
        ensures
            buffer@ == self@.tx_buffer,
    {
        &self.tx_buffer
    }

    /// Initialization: asks for the first receive and for the timer to
    /// start. The receive buffer must be free.
    pub fn init(&mut self) -> (result: Result<Vec<Effect>, Fault>)
        ensures
            match result {
                Ok(effects) => !old(self)@.rx_buffer.in_transfer && final(self)@ == receiving(
                    old(self)@,
                ) && effects@ == seq![Effect::Receive, Effect::TimerStart],
                Err(fault) => old(self)@.rx_buffer.in_transfer && fault == Fault::InTransfer
                    && *final(self) == *old(self),
            },
    {
        match self.rx_buffer.begin_transfer() {
            Ok(_) => {},
            Err(fault) => {
                return Err(fault);
            },
        }
        let mut effects = Vec::new();
        effects.push(Effect::Receive);
        effects.push(Effect::TimerStart);
        Ok(effects)
    }

    /// One round of the idle loop: the processor slept between the readings
    /// `before` and `after` of the cycle counter. The time asleep is added
    /// to the sleep counter inside a section that has exclusive access to
    /// it.
    pub fn idle(&mut self, t: &Threshold, before: u32, after: u32)
        ensures
            final(self)@ == after_idle(old(self)@, before, after),
    {
        let elapsed = after.wrapping_sub(before);
        let section = t.raised(Resource::SleepCycles);
        self.account(&section, elapsed);
    }

    /// Adds `elapsed` cycles to the sleep counter, from inside a section
    /// that has exclusive access to it.
    fn account(&mut self, t: &Threshold, elapsed: u32)
        requires
            t@ >= ceiling_of(Resource::SleepCycles),
        ensures
            final(self)@ == (RobotView {
                sleep_cycles: add_cycles(old(self)@.sleep_cycles, elapsed),
                ..old(self)@
            }),
    {
        self.sleep_cycles = self.sleep_cycles.wrapping_add(elapsed);
    }

    /// The capture task: counts the edges that the two channels report. An
    /// overcapture on either channel is a fault and leaves the state as it
    /// is.
    pub fn capture(&mut self, t: &Threshold, left: Reading, right: Reading) -> (result: Result<
        (),
        Fault,
    >)
        requires
            covers(t@, Task::Capture),
        ensures
            match result {
                Ok(_) => capture_fault(left, right) is None && final(self)@ == after_capture(
                    old(self)@,
                    left,
                    right,
                ),
                Err(fault) => capture_fault(left, right) == Some(fault) && *final(self) == *old(
                    self,
                ),
            },
    {
        if matches!(left, Reading::Overcapture) || matches!(right, Reading::Overcapture) {
            return Err(Fault::Overcapture);
        }
        if matches!(left, Reading::Captured) {
            self.pos_left = self.pos_left.wrapping_add(1);
        }
        if matches!(right, Reading::Captured) {
            self.pos_right = self.pos_right.wrapping_add(1);
        }
        Ok(())
    }

    /// The command-intake task: a transfer has left `frame` in the receive
    /// buffer. Releases the buffer, decodes the command, asks for the next
    /// receive and then acts upon the command. `max_duty` is the full duty
    /// of the PWM unit. A receive buffer that no transfer holds is a fault
    /// and leaves the state as it is.
    pub fn rx(&mut self, t: &Threshold, frame: &[u8; 3], max_duty: u16) -> (result: Result<
        Vec<Effect>,
        Fault,
    >)
        requires
            covers(t@, Task::Rx),
        ensures
            match result {
                Ok(effects) => rx_fault(old(self)@) is None && final(self)@ == after_rx(
                    old(self)@,
                    frame@,
                    max_duty,
                ) && effects@ == rx_effects(old(self)@, frame@, max_duty),
                Err(fault) => rx_fault(old(self)@) == Some(fault) && *final(self) == *old(self),
            },
    {
        match self.rx_buffer.release_filled(frame) {
            Ok(_) => {},
            Err(fault) => {
                return Err(fault);
            },
        }
        let command = match self.rx_buffer.borrow() {
            Some(bytes) => Command::deserialize(bytes),
            None => vstd::pervasive::unreached(),
        };
        // queue a new read
        match self.rx_buffer.begin_transfer() {
            Ok(_) => {},
            Err(_) => vstd::pervasive::unreached(),
        }
        let mut effects = Vec::new();
        effects.push(Effect::Receive);
        match command {
            Ok(Command::Start) => {
                if self.active {
                    effects.push(Effect::Led(false));
                    self.active = false;
                    self.target_x = 0;
                    self.target_y = 0;
                    // hand brake
                    effects.push(Effect::Pins(Motor::Left, Direction::Brake));
                    effects.push(Effect::Pins(Motor::Right, Direction::Brake));
                    effects.push(Effect::Pwm(Motor::Right, false));
                    effects.push(Effect::Pwm(Motor::Left, false));
                } else {
                    effects.push(Effect::Led(true));
                    effects.push(Effect::Pwm(Motor::Right, true));
                    effects.push(Effect::Pwm(Motor::Left, true));
                    self.active = true;
                }
                return Ok(effects);
            },
            Ok(Command::X(v)) => {
                if !self.active {
                    return Ok(effects);
                }
                self.target_x = v;
            },
            Ok(Command::Y(v)) => {
                if !self.active {
                    return Ok(effects);
                }
                self.target_y = v;
            },
            Err(_) => {
                return Ok(effects);
            },
        }
        // y < 0 means forwards, x > 0 means turn right
        let speeds = mix(max_duty, self.target_x, self.target_y);
        proof {
            lemma_speed_bounds(max_duty, self.target_x, self.target_y);
        }
        effects.push(Effect::Pins(Motor::Left, direction(speeds.left)));
        self.duty_left = stored_duty(speeds.left);
        effects.push(Effect::Duty(Motor::Left, magnitude(speeds.left)));
        effects.push(Effect::Pins(Motor::Right, direction(speeds.right)));
        self.duty_right = stored_duty(speeds.right);
        effects.push(Effect::Duty(Motor::Right, magnitude(speeds.right)));
        Ok(effects)
    }

    /// The telemetry task, on a timer tick: acknowledges the timer, sends a
    /// state frame if the robot is armed, and resets the counters of the
    /// period. An armed robot whose transmit buffer is still in transfer is
    /// a fault and leaves the state as it is.
    pub fn log(&mut self, t: &Threshold) -> (result: Result<Vec<Effect>, Fault>)
        requires
            covers(t@, Task::Log),
        ensures
            match result {
                Ok(effects) => log_fault(old(self)@) is None && final(self)@ == after_log(
                    old(self)@,
                ) && is_log_effects(old(self)@, effects@),
                Err(fault) => log_fault(old(self)@) == Some(fault) && *final(self) == *old(self),
            },
    {
        let mut effects = Vec::new();
        // clear the update flag
        effects.push(Effect::TimerAck);
        if self.active {
            let state = State {
                duty_left: self.duty_left,
                duty_right: self.duty_right,
                sleep_cycles: self.sleep_cycles,
                speed_left: self.pos_left,
                speed_right: self.pos_right,
            };
            let mut frame = [0u8; 11];
            state.serialize(&mut frame);
            match self.tx_buffer.write(&frame) {
                Ok(_) => {},
                Err(fault) => {
                    return Err(fault);
                },
            }
            match self.tx_buffer.begin_transfer() {
                Ok(_) => {},
                Err(_) => vstd::pervasive::unreached(),
            }
            effects.push(Effect::Transmit(frame));
        }
        self.pos_left = 0;
        self.pos_right = 0;
        self.sleep_cycles = 0;
        Ok(effects)
    }

    /// The transfer-complete task: the state frame has gone out, and the
    /// transmit buffer is released. A transmit buffer that no transfer
    /// holds is a fault and leaves the state as it is.
    pub fn tx_transfer_done(&mut self, t: &Threshold) -> (result: Result<(), Fault>)
        requires
            covers(t@, Task::Tx),
        ensures
            match result {
                Ok(_) => tx_fault(old(self)@) is None && final(self)@ == after_tx(old(self)@),
                Err(fault) => tx_fault(old(self)@) == Some(fault) && *final(self) == *old(self),
            },
    {
        self.tx_buffer.release()
    }
}

} // verus!
