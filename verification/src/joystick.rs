//! Joystick events as the Linux joystick interface delivers them, and the
//! commands that they stand for on the remote control.

use crate::endian::{i16_of_le, read_i16, read_u32, u32_of_le};
use crate::protocol::Command;
use vstd::prelude::*;

verus! {

/// Value of a button event that reports a press.
pub const BUTTON_PRESSED: i16 = 1;

/// Event type of a button.
pub const EVENT_BUTTON: u8 = 0x01;

/// Event type of an axis.
pub const EVENT_AXIS: u8 = 0x02;

/// Size in bytes of a joystick event record.
pub const EVENT_SIZE: usize = 8;

/// One joystick event record.
#[derive(Clone, Copy, Debug, PartialEq, Eq, Structural)]
pub struct Event {
    /// Event timestamp in milliseconds.
    pub time: u32,
    /// Value: the position of an axis, or the state of a button.
    pub value: i16,
    /// Event type.
    pub ty: u8,
    /// Axis or button number.
    pub number: u8,
}

/// What a joystick event is about.
#[derive(Clone, Copy, Debug, PartialEq, Eq, Structural)]
pub enum Type {
    /// The button of this number.
    Button(u8),
    /// Neither a button nor an axis.
    Other,
    /// The horizontal axis of the stick of this number.
    XAxis(u8),
    /// The vertical axis of the stick of this number.
    YAxis(u8),
}

/// The event that an eight-byte record holds, its fields laid out least
/// significant byte first: time, value, type, number.
pub open spec fn decode_event(record: Seq<u8>) -> Event {
    Event {
        time: u32_of_le(record[0], record[1], record[2], record[3]),
        value: i16_of_le(record[4], record[5]),
        ty: record[6],
        number: record[7],
    }
}

/// What an event of type `ty` and number `number` is about. Axes come in
/// pairs: the even one of a pair is horizontal, the odd one vertical.
pub open spec fn classify(ty: u8, number: u8) -> Type {
    if ty == EVENT_BUTTON {
        Type::Button(number)
    } else if ty == EVENT_AXIS {
        if number % 2 == 0 {
            Type::XAxis(number / 2)
        } else {
            Type::YAxis(number / 2)
        }
    } else {
        Type::Other
    }
}

/// The command that an event stands for, if any: a press of button 3
/// starts or stops, the horizontal axis of stick 1 steers, the vertical axis
/// of stick 0 is the throttle.
pub open spec fn command_of(event: Event) -> Option<Command> {
    match classify(event.ty, event.number) {
        Type::Button(n) => if n == 3 && event.value == BUTTON_PRESSED {
            Some(Command::Start)
        } else {
            None
        },
        Type::XAxis(n) => if n == 1 {
            Some(Command::X(event.value))
        } else {
            None
        },
        Type::YAxis(n) => if n == 0 {
            Some(Command::Y(event.value))
        } else {
            None
        },
        Type::Other => None,
    }
}

impl Event {
    /// Reads an event from the eight bytes of a record.
    pub fn from(buffer: &[u8; 8]) -> (event: Self)
        ensures
            event == decode_event(buffer@),
    {
        let bytes = buffer.as_slice();
        Event {
            time: read_u32(vstd::slice::slice_subrange(bytes, 0, 4)),
            value: read_i16(vstd::slice::slice_subrange(bytes, 4, 6)),
            ty: buffer[6],
            number: buffer[7],
        }
    }

    /// What this event is about.
    pub fn ty(&self) -> (kind: Type)
        ensures
            kind == classify(self.ty, self.number),
    {
        let number = self.number;
        assert(number & 1 == number % 2) by (bit_vector);
        if self.ty == EVENT_BUTTON {
            Type::Button(self.number)
        } else if self.ty == EVENT_AXIS {
            if self.number & 1 == 0 {
                Type::XAxis(self.number / 2)
            } else {
                Type::YAxis(self.number / 2)
            }
        } else {
            Type::Other
        }
    }

    /// The command that this event stands for, if any.
    pub fn command(&self) -> (command: Option<Command>)
        ensures
            command == command_of(*self),
    {
        match self.ty() {
            Type::Button(n) => if n == 3 && self.value == BUTTON_PRESSED {
                Some(Command::Start)
            } else {
                None
            },
            Type::XAxis(n) => if n == 1 {
                Some(Command::X(self.value))
            } else {
                None
            },
            Type::YAxis(n) => if n == 0 {
                Some(Command::Y(self.value))
            } else {
                None
            },
            Type::Other => None,
        }
    }
}

/// An event stands for a command exactly in three cases, which its type and
/// number tell apart: only button 3 starts or stops, only axis 2 steers and
/// only axis 1 is the throttle.
pub proof fn lemma_command_sources(event: Event)
    ensures
        command_of(event) == Some(Command::Start) <==> event.ty == EVENT_BUTTON && event.number
            == 3 && event.value == BUTTON_PRESSED,
        command_of(event) is Some && command_of(event)->0 is X <==> event.ty == EVENT_AXIS
            && event.number == 2,
        command_of(event) is Some && command_of(event)->0 is Y <==> event.ty == EVENT_AXIS
            && event.number == 1,
{
}

} // verus!
