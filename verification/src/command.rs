//! Command words of the sensor and their form on the wire.

use vstd::prelude::*;

verus! {

/// Soft reset: the sensor restarts with its power-on defaults.
pub const RESET_COMMAND: u16 = 0xD304;

/// Read the measurement frame that the sensor holds.
pub const READ_COMMAND: u16 = 0x0300;

/// Ask whether a measurement has been completed since the last read.
pub const DATA_READY_COMMAND: u16 = 0x0202;

/// Stop the continuous measurement: the sensor falls idle.
pub const STOP_COMMAND: u16 = 0x0104;

/// The two bytes of a command word as they go over the bus: high byte first.
pub open spec fn command_bytes(command: u16) -> [u8; 2] {
    [(command / 256) as u8, (command % 256) as u8]
}

/// The number that two bytes spell when the first is the high byte.
pub open spec fn command_word(bytes: Seq<u8>) -> int {
    bytes[0] as int * 256 + bytes[1] as int
}

/// Encodes a command word for the wire, big-endian.
pub fn _get_command_bytes(command: u16) -> (bytes: [u8; 2])
    ensures
        bytes == command_bytes(command),
        bytes@ == seq![(command / 256) as u8, (command % 256) as u8],
        command_word(bytes@) == command,
{
    let high: u8 = (command >> 8) as u8;
    let low: u8 = (command & 0xFF) as u8;
    assert(command >> 8 == command / 256) by (bit_vector);
    assert(command & 0xFF == command % 256) by (bit_vector);
    let bytes: [u8; 2] = [high, low];
    assert(bytes =~= command_bytes(command));
    assert(bytes@ =~= seq![high, low]);
    bytes
}

/// Encoding loses nothing: the two bytes of any command word, read back with
/// the high byte first, spell the word again.
pub proof fn lemma_command_round_trip(command: u16)
    ensures
        command_bytes(command)@.len() == 2,
        command_word(command_bytes(command)@) == command,
{
}

} // verus!
