//! What passes between the driver and the host that owns the bus.
//!
//! The driver never touches the bus. It asks for one transaction or one delay
//! at a time, and the host reports what came of it before anything else is
//! asked: the bus carries one transaction at a time.

use crate::command::command_bytes;
use crate::command::_get_command_bytes;
use vstd::prelude::*;

verus! {

/// One exchange with the device at `address`.
#[derive(Clone, Copy, Debug, PartialEq, Eq)]
pub enum Transaction {
    /// Write `bytes` and nothing more.
    Write { address: u8, bytes: [u8; 2] },
    /// Write `bytes`, then read `read_len` bytes in the same exchange.
    WriteThenRead { address: u8, bytes: [u8; 2], read_len: usize },
}

/// What the host reports of the transaction or delay that it was asked for.
#[derive(Debug, PartialEq, Eq)]
pub enum Event {
    /// The transaction was carried out; the bytes that were read, none after
    /// a plain write.
    Completed(Vec<u8>),
    /// The bus failed the transaction.
    Failed,
    /// The delay is over.
    Elapsed,
}

/// An event with its bytes as a sequence.
pub enum EventView {
    Completed(Seq<u8>),
    Failed,
    Elapsed,
}

impl View for Event {
    type V = EventView;

    open spec fn view(&self) -> EventView {
        match *self {
            Event::Completed(bytes) => EventView::Completed(bytes@),
            Event::Failed => EventView::Failed,
            Event::Elapsed => EventView::Elapsed,
        }
    }
}

/// The plain write of a command word to the device at `address`.
pub open spec fn write_of(address: u8, command: u16) -> Transaction {
    Transaction::Write { address, bytes: command_bytes(command) }
}

/// The write of a command word followed by a read of `read_len` bytes.
pub open spec fn exchange_of(address: u8, command: u16, read_len: usize) -> Transaction {
    Transaction::WriteThenRead { address, bytes: command_bytes(command), read_len }
}

impl Transaction {
    /// The plain write of `command` to the device at `address`.
    pub fn write(address: u8, command: u16) -> (transaction: Transaction)
        ensures
            transaction == write_of(address, command),
    {
        Transaction::Write { address, bytes: _get_command_bytes(command) }
    }

    /// The write of `command` to the device at `address`, followed by a read
    /// of `read_len` bytes.
    pub fn write_then_read(address: u8, command: u16, read_len: usize) -> (transaction:
        Transaction)
        ensures
            transaction == exchange_of(address, command, read_len),
    {
        Transaction::WriteThenRead { address, bytes: _get_command_bytes(command), read_len }
    }
}

} // verus!
