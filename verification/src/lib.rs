//! Protocol driver for the SCD30 CO2, temperature and humidity sensor on a
//! two-wire serial bus.
//!
//! The crate holds the sensor's protocol and no I/O: the host carries out the
//! bus transactions and delays that the driver asks for, and hands back what
//! came of them.

pub mod bus;
pub mod command;
pub mod driver;
pub mod frame;
pub mod poller;
pub mod protocol;
pub mod trace;

pub use crate::command::_get_command_bytes;
pub use crate::driver::AdafruitSCD30;
pub use crate::frame::get_reading_from_bytes;
