//! What holds of the tasks taken together: each task keeps to the resources
//! it declares, the intake pipeline never loses its transfer, disarming
//! stops the robot, and a disarmed robot stays silent.

use crate::buffer::BufferView;
use crate::fault::Fault;
use crate::mixer::{
    left_speed, lemma_rest_is_still, pin_levels, right_speed, Direction, Motor,
};
use crate::protocol::{decode_command, Command, START};
use crate::robot::{
    after_capture, after_idle, after_log, after_rx, after_tx, capture_fault, driven, initial,
    is_log_effects, log_fault, receiving, rx_effects, rx_fault, tx_fault, Effect, Reading,
    RobotView,
};
use crate::sched::{uses, Resource, Task};
use vstd::prelude::*;

verus! {

/// What sets a task off, with what the task finds.
pub enum Trigger {
    /// The processor woke up; the cycle counter read `before` when it went
    /// to sleep and `after` when it woke.
    Wake { before: u32, after: u32 },
    /// A capture interrupt; the two channels read `left` and `right`.
    Edge { left: Reading, right: Reading },
    /// A receive has completed and left `frame` in the receive buffer; the
    /// full duty of the PWM unit is `max_duty`.
    Received { frame: Seq<u8>, max_duty: u16 },
    /// A tick of the periodic timer.
    Tick,
    /// A transmit has completed.
    Sent,
}

/// The task that a trigger sets off.
pub open spec fn task_of(trigger: Trigger) -> Task {
    match trigger {
        Trigger::Wake { .. } => Task::Idle,
        Trigger::Edge { .. } => Task::Capture,
        Trigger::Received { .. } => Task::Rx,
        Trigger::Tick => Task::Log,
        Trigger::Sent => Task::Tx,
    }
}

/// The fault on which the task that `trigger` sets off in state `s` halts,
/// if any.
pub open spec fn fault_of(s: RobotView, trigger: Trigger) -> Option<Fault> {
    match trigger {
        Trigger::Wake { .. } => None,
        Trigger::Edge { left, right } => capture_fault(left, right),
        Trigger::Received { .. } => rx_fault(s),
        Trigger::Tick => log_fault(s),
        Trigger::Sent => tx_fault(s),
    }
}

/// The state in which the task that `trigger` sets off in state `s` leaves
/// the robot, where it does not halt.
pub open spec fn next(s: RobotView, trigger: Trigger) -> RobotView {
    match trigger {
        Trigger::Wake { before, after } => after_idle(s, before, after),
        Trigger::Edge { left, right } => after_capture(s, left, right),
        Trigger::Received { frame, max_duty } => after_rx(s, frame, max_duty),
        Trigger::Tick => after_log(s),
        Trigger::Sent => after_tx(s),
    }
}

/// Whether two states agree on `resource`.
pub open spec fn same(a: RobotView, b: RobotView, resource: Resource) -> bool {
    match resource {
        Resource::Active => a.active == b.active,
        Resource::DutyLeft => a.duty_left == b.duty_left,
        Resource::DutyRight => a.duty_right == b.duty_right,
        Resource::PosLeft => a.pos_left == b.pos_left,
        Resource::PosRight => a.pos_right == b.pos_right,
        Resource::RxBuffer => a.rx_buffer == b.rx_buffer,
        Resource::SleepCycles => a.sleep_cycles == b.sleep_cycles,
        Resource::TxBuffer => a.tx_buffer == b.tx_buffer,
        Resource::TargetX => a.target_x == b.target_x,
        Resource::TargetY => a.target_y == b.target_y,
    }
}

/// What holds between any two tasks once initialization is done: a receive
/// is outstanding, and a disarmed robot has both axes at rest.
pub open spec fn steady(s: RobotView) -> bool {
    &&& s.rx_buffer.in_transfer
    &&& !s.active ==> s.target_x == 0 && s.target_y == 0
}

/// A task changes no resource but those it declares.
pub proof fn lemma_tasks_keep_to_their_resources(
    s: RobotView,
    trigger: Trigger,
    resource: Resource,
)
    requires
        !uses(task_of(trigger), resource),
    ensures
        same(s, next(s, trigger), resource),
{
}

/// Initialization leaves the robot in a steady state, every task that does
/// not halt keeps it steady, and in a steady state command intake never
/// halts: exactly one receive is outstanding whenever a frame arrives.
pub proof fn lemma_steady(s: RobotView, trigger: Trigger)
    requires
        steady(s),
    ensures
        steady(receiving(initial())),
        steady(next(s, trigger)),
        rx_fault(s) is None,
{
}

/// The state after the tasks that `triggers` set off one after the other,
/// from state `s`; `None` if one of them halts.
pub open spec fn run(s: RobotView, triggers: Seq<Trigger>) -> Option<RobotView>
    decreases triggers.len(),
{
    if triggers.len() == 0 {
        Some(s)
    } else {
        match run(s, triggers.drop_last()) {
            Some(before) => if fault_of(before, triggers.last()) is None {
                Some(next(before, triggers.last()))
            } else {
                None
            },
            None => None,
        }
    }
}

/// Whatever happens after initialization, in whatever order, the robot is
/// in a steady state as long as no task halts.
pub proof fn lemma_always_steady(triggers: Seq<Trigger>)
    ensures
        run(receiving(initial()), triggers) matches Some(s) ==> steady(s),
    decreases triggers.len(),
{
    if triggers.len() > 0 {
        lemma_always_steady(triggers.drop_last());
        match run(receiving(initial()), triggers.drop_last()) {
            Some(before) => {
                lemma_steady(before, triggers.last());
            },
            None => {},
        }
    }
}

/// The receive buffer is handed back to the transfer peripheral before the
/// command is acted upon: the new receive is the first thing that command
/// intake asks for, whatever the frame holds, and the buffer is in transfer
/// when the task ends.
pub proof fn lemma_receive_comes_first(s: RobotView, frame: Seq<u8>, max_duty: u16)
    ensures
        rx_effects(s, frame, max_duty).len() >= 1,
        rx_effects(s, frame, max_duty)[0] == Effect::Receive,
        after_rx(s, frame, max_duty).rx_buffer == (BufferView { data: frame, in_transfer: true }),
{
}

/// Disarming stops the robot whatever the axes were: the robot is
/// disarmed, both axes are at rest, both motors are braked with both pins
/// low, both PWM channels are disabled, and a mix of the axes as they are
/// left gives both motors a duty of zero.
pub proof fn lemma_disarm_stops(s: RobotView, frame: Seq<u8>, max_duty: u16, later_duty: u16)
    requires
        s.active,
        decode_command(frame) == Some(Command::Start),
    ensures
        !after_rx(s, frame, max_duty).active,
        after_rx(s, frame, max_duty).target_x == 0,
        after_rx(s, frame, max_duty).target_y == 0,
        rx_effects(s, frame, max_duty) == seq![
            Effect::Receive,
            Effect::Led(false),
            Effect::Pins(Motor::Left, Direction::Brake),
            Effect::Pins(Motor::Right, Direction::Brake),
            Effect::Pwm(Motor::Right, false),
            Effect::Pwm(Motor::Left, false),
        ],
        pin_levels(Direction::Brake) == (false, false),
        driven(after_rx(s, frame, max_duty), later_duty).duty_left == 0,
        driven(after_rx(s, frame, max_duty), later_duty).duty_right == 0,
{
    lemma_rest_is_still(later_duty);
}

/// Axis commands are ignored while the robot is disarmed, and so is a frame
/// that is no command: nothing changes but the receive buffer, and nothing
/// is asked of the peripherals but the next receive.
pub proof fn lemma_dropped_frames(s: RobotView, frame: Seq<u8>, max_duty: u16)
    requires
        decode_command(frame) is None || (!s.active && decode_command(frame) != Some(
            Command::Start,
        )),
    ensures
        rx_effects(s, frame, max_duty) == seq![Effect::Receive],
        after_rx(s, frame, max_duty) == (RobotView {
            rx_buffer: BufferView { data: frame, in_transfer: true },
            ..s
        }),
{
}

/// The state after `n` ticks of the timer with nothing in between.
pub open spec fn after_ticks(s: RobotView, n: nat) -> RobotView
    decreases n,
{
    if n == 0 {
        s
    } else {
        after_log(after_ticks(s, (n - 1) as nat))
    }
}

/// A disarmed robot stays silent: after any number of ticks it is still
/// disarmed, the next tick halts on nothing and asks for nothing but the
/// acknowledgement of the timer, and every tick leaves the counters of the
/// period at zero.
pub proof fn lemma_silent_while_disarmed(s: RobotView, n: nat, effects: Seq<Effect>)
    requires
        !s.active,
        is_log_effects(after_ticks(s, n), effects),
    ensures
        !after_ticks(s, n).active,
        log_fault(after_ticks(s, n)) is None,
        effects == seq![Effect::TimerAck],
        after_ticks(s, n).tx_buffer == s.tx_buffer,
        n > 0 ==> after_ticks(s, n).pos_left == 0 && after_ticks(s, n).pos_right == 0
            && after_ticks(s, n).sleep_cycles == 0,
    decreases n,
{
    lemma_disarmed_ticks(s, n);
}

proof fn lemma_disarmed_ticks(s: RobotView, n: nat)
    requires
        !s.active,
    ensures
        !after_ticks(s, n).active,
        after_ticks(s, n).tx_buffer == s.tx_buffer,
        n > 0 ==> after_ticks(s, n).pos_left == 0 && after_ticks(s, n).pos_right == 0
            && after_ticks(s, n).sleep_cycles == 0,
    decreases n,
{
    if n > 0 {
        lemma_disarmed_ticks(s, (n - 1) as nat);
    }
}

/// Every tick resets the counters of the period, armed or not.
pub proof fn lemma_tick_resets_counters(s: RobotView)
    ensures
        after_log(s).pos_left == 0,
        after_log(s).pos_right == 0,
        after_log(s).sleep_cycles == 0,
{
}

} // verus!
