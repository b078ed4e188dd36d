//! The wire protocol: fixed-size binary frames for commands (host to
//! device) and state reports (device to host).

use crate::endian::{
    byte0, byte1, byte2, byte3, i16_of_le, lemma_i16_bytes_round_trip, lemma_i16_round_trip,
    lemma_u32_bytes_round_trip, lemma_u32_round_trip, read_i16, read_u32, u32_of_le, write_i16,
    write_u32,
};
use vstd::prelude::*;

verus! {

/// Tag of a `Start` frame; a `Start` frame repeats it in all three bytes.
pub const START: u8 = 0b1100_1100;

/// Tag of an `X` frame.
pub const X: u8 = 0b1010_1010;

/// Tag of a `Y` frame.
pub const Y: u8 = 0b0101_0101;

/// Number of CPU cycles elapsed between state frames.
pub const PERIOD: u32 = 8_000_000;

/// Byte used for frame synchronization.
pub const SYNC_BYTE: u8 = 0xAA;

/// Size in bytes of a command frame.
pub const COMMAND_SIZE: usize = 3;

/// Size in bytes of the payload of a state frame.
pub const STATE_PAYLOAD_SIZE: usize = 10;

/// Size in bytes of a state frame, the synchronization byte included.
pub const STATE_FRAME_SIZE: usize = 11;

/// Remote control command.
#[derive(Clone, Copy, Debug, PartialEq, Eq, Structural)]
pub enum Command {
    /// Start / stop.
    Start,
    /// Turn left / right.
    X(i16),
    /// Move forwards / backwards.
    Y(i16),
}

/// The three bytes that encode `command`.
pub open spec fn encode_command(command: Command) -> Seq<u8> {
    match command {
        Command::Start => seq![START, START, START],
        Command::X(v) => seq![X, byte0(v as int), byte1(v as int)],
        Command::Y(v) => seq![Y, byte0(v as int), byte1(v as int)],
    }
}

/// The command that three bytes encode, if any.
pub open spec fn decode_command(bytes: Seq<u8>) -> Option<Command> {
    if bytes[0] == START && bytes[1] == START && bytes[2] == START {
        Some(Command::Start)
    } else if bytes[0] == X {
        Some(Command::X(i16_of_le(bytes[1], bytes[2])))
    } else if bytes[0] == Y {
        Some(Command::Y(i16_of_le(bytes[1], bytes[2])))
    } else {
        None
    }
}

impl Command {
    /// Binary deserializes a `buffer` into a `Command`.
    ///
    /// Fails exactly on the frames that are neither the `Start` pattern nor
    /// begin with the tag of an axis command.
    pub fn deserialize(buffer: &[u8; 3]) -> (result: Result<Self, ()>)
        ensures
            match result {
                Ok(command) => decode_command(buffer@) == Some(command),
                Err(_) => decode_command(buffer@) is None,
            },
    {
        if buffer[0] == START && buffer[1] == START && buffer[2] == START {
            return Ok(Command::Start);
        }
        let tag = buffer[0];
        if tag == X {
            let value = read_i16(vstd::slice::slice_subrange(buffer.as_slice(), 1, 3));
            Ok(Command::X(value))
        } else if tag == Y {
            let value = read_i16(vstd::slice::slice_subrange(buffer.as_slice(), 1, 3));
            Ok(Command::Y(value))
        } else {
            Err(())
        }
    }

    /// Binary serializes a command into a `buffer`.
    pub fn serialize(&self, buffer: &mut [u8; 3])
        ensures
            final(buffer)@ == encode_command(*self),
    {
        let value = match *self {
            Command::Start => {
                *buffer = [START, START, START];
                return ;
            },
            Command::X(value) => {
                buffer[0] = X;
                value
            },
            Command::Y(value) => {
                buffer[0] = Y;
                value
            },
        };
        let mut field = [0u8; 2];
        write_i16(&mut field, value);
        buffer[1] = field[0];
        buffer[2] = field[1];
    }
}

/// Robot state.
#[derive(Clone, Copy, Debug, PartialEq, Eq, Structural)]
pub struct State {
    /// Duty cycle of the left motor.
    pub duty_left: i16,
    /// Duty cycle of the right motor.
    pub duty_right: i16,
    /// CPU cycles spent sleeping.
    pub sleep_cycles: u32,
    /// Speed of the left motor.
    pub speed_left: u8,
    /// Speed of the right motor.
    pub speed_right: u8,
}

/// The ten payload bytes that encode `state`.
pub open spec fn encode_state_payload(state: State) -> Seq<u8> {
    seq![
        byte0(state.sleep_cycles as int),
        byte1(state.sleep_cycles as int),
        byte2(state.sleep_cycles as int),
        byte3(state.sleep_cycles as int),
        byte0(state.duty_left as int),
        byte1(state.duty_left as int),
        byte0(state.duty_right as int),
        byte1(state.duty_right as int),
        state.speed_left,
        state.speed_right,
    ]
}

/// The eleven bytes of the frame that reports `state`: the synchronization
/// byte, then the payload.
pub open spec fn encode_state(state: State) -> Seq<u8> {
    seq![SYNC_BYTE] + encode_state_payload(state)
}

/// The state that ten payload bytes encode.
pub open spec fn decode_state(payload: Seq<u8>) -> State {
    State {
        sleep_cycles: u32_of_le(payload[0], payload[1], payload[2], payload[3]),
        duty_left: i16_of_le(payload[4], payload[5]),
        duty_right: i16_of_le(payload[6], payload[7]),
        speed_left: payload[8],
        speed_right: payload[9],
    }
}

impl State {
    /// Binary deserializes a `buffer` into `State`.
    ///
    /// Note that the input buffer doesn't include the `SYNC_BYTE`.
    pub fn deserialize(buffer: &[u8; 10]) -> (state: Self)
        ensures
            state == decode_state(buffer@),
    {
        let bytes = buffer.as_slice();
        State {
            sleep_cycles: read_u32(vstd::slice::slice_subrange(bytes, 0, 4)),
            duty_left: read_i16(vstd::slice::slice_subrange(bytes, 4, 6)),
            duty_right: read_i16(vstd::slice::slice_subrange(bytes, 6, 8)),
            speed_left: buffer[8],
            speed_right: buffer[9],
        }
    }

    /// Binary serializes `State` into a `buffer`.
    pub fn serialize(&self, buffer: &mut [u8; 11])
        ensures
            final(buffer)@ == encode_state(*self),
    {
        buffer[0] = SYNC_BYTE;
        let mut cycles = [0u8; 4];
        write_u32(&mut cycles, self.sleep_cycles);
        buffer[1] = cycles[0];
        buffer[2] = cycles[1];
        buffer[3] = cycles[2];
        buffer[4] = cycles[3];
        let mut duty = [0u8; 2];
        write_i16(&mut duty, self.duty_left);
        buffer[5] = duty[0];
        buffer[6] = duty[1];
        write_i16(&mut duty, self.duty_right);
        buffer[7] = duty[0];
        buffer[8] = duty[1];
        buffer[9] = self.speed_left;
        buffer[10] = self.speed_right;
    }
}

/// Decoding the encoding of any command gives that command back.
pub proof fn lemma_command_round_trip(command: Command)
    ensures
        encode_command(command).len() == 3,
        decode_command(encode_command(command)) == Some(command),
{
    match command {
        Command::Start => {},
        Command::X(v) => {
            lemma_i16_round_trip(v);
        },
        Command::Y(v) => {
            lemma_i16_round_trip(v);
        },
    }
}

/// Decoding the payload of the frame that reports any state gives that
/// state back.
pub proof fn lemma_state_round_trip(state: State)
    ensures
        encode_state(state).len() == 11,
        encode_state(state)[0] == SYNC_BYTE,
        encode_state(state).subrange(1, 11) == encode_state_payload(state),
        decode_state(encode_state_payload(state)) == state,
{
    lemma_u32_round_trip(state.sleep_cycles);
    lemma_i16_round_trip(state.duty_left);
    lemma_i16_round_trip(state.duty_right);
    assert(encode_state(state).subrange(1, 11) =~= encode_state_payload(state));
}

/// A frame that decodes to a command is the encoding of that command: no
/// two frames stand for the same command.
pub proof fn lemma_command_frame_round_trip(bytes: Seq<u8>)
    requires
        bytes.len() == 3,
        decode_command(bytes) is Some,
    ensures
        encode_command(decode_command(bytes)->0) == bytes,
{
    lemma_i16_bytes_round_trip(bytes[1], bytes[2]);
    assert(encode_command(decode_command(bytes)->0) =~= bytes);
}

/// The payload that decodes to a state is the encoding of that state: no
/// two payloads stand for the same state.
pub proof fn lemma_state_payload_round_trip(payload: Seq<u8>)
    requires
        payload.len() == 10,
    ensures
        encode_state_payload(decode_state(payload)) == payload,
{
    lemma_u32_bytes_round_trip(payload[0], payload[1], payload[2], payload[3]);
    lemma_i16_bytes_round_trip(payload[4], payload[5]);
    lemma_i16_bytes_round_trip(payload[6], payload[7]);
    assert(encode_state_payload(decode_state(payload)) =~= payload);
}

/// The encoding of `Start` is the tag repeated three times; a frame is
/// unrecognized exactly when it is not that pattern and its first byte is
/// not the tag of an axis command.
pub proof fn lemma_tag_discrimination(bytes: Seq<u8>)
    requires
        bytes.len() == 3,
    ensures
        encode_command(Command::Start) == seq![START, START, START],
        decode_command(bytes) is None <==> bytes != seq![START, START, START] && bytes[0] != X
            && bytes[0] != Y,
        decode_command(bytes) == Some(Command::Start) <==> bytes == seq![START, START, START],
{
    if bytes[0] == START && bytes[1] == START && bytes[2] == START {
        assert(bytes =~= seq![START, START, START]);
    } else {
        assert(seq![START, START, START][0] == START);
        assert(seq![START, START, START][1] == START);
        assert(seq![START, START, START][2] == START);
    }
}

} // verus!
