//! The byte-level command protocol of the Maestro servo controller: frame
//! building, channel validation, unit conversion and response parsing.
//!
//! Everything here is pure computation on bytes and integers; opening the
//! serial port and moving bytes across it is the caller's concern.

use vstd::prelude::*;

verus! {

broadcast use vstd::array::group_array_axioms;

/// Serial speed at which the controller listens.
pub const BAUD_RATE: u32 = 9600;

/// Highest valid channel index.
pub const MAX_CHANNEL: u8 = 11;

/// Opcode of the set-target command.
pub const CMD_SET_TARGET: u8 = 0x84;

/// Opcode of the get-position command.
pub const CMD_GET_POSITION: u8 = 0x90;

/// Opcode of the get-moving-state command.
pub const CMD_GET_MOVING_STATE: u8 = 0x93;

/// Failure of a controller interaction.
#[derive(Clone, Copy, Debug, PartialEq, Eq, Structural)]
pub enum MaestroError {
    /// The serial connection could not be established.
    UnableToConnect,
    /// A command could not be sent to the controller.
    UnableToSend,
    /// A channel index above [`MAX_CHANNEL`] was passed.
    InvalidChannel,
    /// The controller's response could not be read.
    UnableToReceive,
    /// The controller reported a moving state other than zero or one.
    InvalidMovingState,
    /// An input value lay outside its documented range.
    OutOfBounds,
}

/// Whether any servo is still moving.
#[derive(Clone, Copy, Debug, PartialEq, Eq, Structural)]
pub enum MovingState {
    /// At least one servo is still moving.
    ServosMoving,
    /// All servos have stopped.
    ServosStopped,
}

/// Builds a four-byte command frame: opcode, channel, then the data word
/// split into two seven-bit payload bytes, low bits first.
pub fn form_data(command: u8, channel: u8, data: u16) -> (r: [u8; 4])
    ensures
        r[0] == command,
        r[1] == channel,
        r[2] as int == (data as int) % 128,
        r[3] as int == ((data as int) / 128) % 128,
        data < 16384 ==> (r[2] as int) + 128 * (r[3] as int) == data as int,
{
    let lo = (data & 0x7F) as u8;
    let hi = ((data >> 7) & 0x7F) as u8;
    proof {
        assert((data & 0x7F) == data % 128) by (bit_vector);
        assert(((data >> 7) & 0x7F) == (data / 128) % 128) by (bit_vector);
        assert(data < 16384 ==> (data % 128) + 128 * ((data / 128) % 128) == data) by (bit_vector);
    }
    [command, channel, lo, hi]
}

/// Accepts a channel index up to [`MAX_CHANNEL`] and rejects any other.
pub fn verify_channel_range(channel: u8) -> (r: Result<(), MaestroError>)
    ensures
        channel <= MAX_CHANNEL ==> r == Ok::<(), MaestroError>(()),
        channel > MAX_CHANNEL ==> r == Err::<(), MaestroError>(MaestroError::InvalidChannel),
{
    if channel > MAX_CHANNEL {
        Err(MaestroError::InvalidChannel)
    } else {
        Ok(())
    }
}

/// The position encoded in a two-byte controller response: low byte plus
/// 256 times the high byte.
pub fn parse_position_response(lo: u8, hi: u8) -> (r: i32)
    ensures
        r == lo + 256 * (hi as int),
{
    (lo as i32) + 256 * (hi as i32)
}

/// Reads a moving-state response: zero means all servos have stopped, one
/// means some are still moving, anything else is an invalid response.
pub fn parse_moving_state(value: i32) -> (r: Result<MovingState, MaestroError>)
    ensures
        value == 0 ==> r == Ok::<MovingState, MaestroError>(MovingState::ServosStopped),
        value == 1 ==> r == Ok::<MovingState, MaestroError>(MovingState::ServosMoving),
        value != 0 && value != 1 ==> r == Err::<MovingState, MaestroError>(
            MaestroError::InvalidMovingState,
        ),
{
    if value == 0 {
        Ok(MovingState::ServosStopped)
    } else if value == 1 {
        Ok(MovingState::ServosMoving)
    } else {
        Err(MaestroError::InvalidMovingState)
    }
}

/// A set-target position scaled to the controller's quarter-microsecond
/// pulse units: the position times `22.22222222`, truncated, saturating at
/// the largest sixteen-bit value.
pub open spec fn quarter_micros_of(position: int) -> int {
    let q = (position * 2_222_222_222) / 100_000_000;
    if q > 65535 {
        65535
    } else {
        q
    }
}

/// Scales a raw position to quarter-microsecond pulse units.
pub fn position_to_quarter_micros(position: u16) -> (r: u16)
    ensures
        r as int == quarter_micros_of(position as int),
{
    let q: u64 = (position as u64) * 2_222_222_222 / 100_000_000;
    if q > 65535 {
        65535
    } else {
        q as u16
    }
}

/// Converts an angle in degrees (at the working scale of eight decimal
/// places) to quarter-microsecond pulse units: `degrees * 44.444`,
/// truncated, plus the offset `1984`. Rejects angles outside `[0, 180]`
/// degrees.
pub fn convert_deg_to_quarter_micros(deg: i64) -> (r: Result<u16, MaestroError>)
    ensures
        (deg < 0 || deg > 18_000_000_000) ==> r == Err::<u16, MaestroError>(
            MaestroError::OutOfBounds,
        ),
        (0 <= deg <= 18_000_000_000) ==> r == Ok::<u16, MaestroError>(
            (((deg as int) * 44_444) / 100_000_000_000 + 1984) as u16,
        ),
{
    if deg < 0 || deg > 18_000_000_000 {
        return Err(MaestroError::OutOfBounds);
    }
    let q: u64 = (deg as u64) * 44_444 / 100_000_000_000;
    Ok((q as u16) + 1984)
}

} // verus!
