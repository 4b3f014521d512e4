//! Driver for a TM1637-style seven-segment display controller.
//!
//! The chip speaks a proprietary two-wire clock-and-data protocol. This crate
//! verifies the whole protocol engine: the start and stop conditions, the
//! least-significant-bit-first byte transfer with its acknowledgement poll,
//! and the command bytes for addressing and brightness. Every public driver
//! method states, as a sequence of [`protocol::BusEvent`]s, exactly what it
//! drives onto the two lines.

pub mod bus;
pub mod driver;
pub mod encode;
pub mod protocol;
pub mod sim;

pub use bus::Bus;
pub use driver::Error;
pub use driver::TM1637;
pub use encode::char_to_raw;
pub use encode::hex_digit_pattern;
pub use protocol::bit_delay_us;
pub use protocol::BusEvent;
pub use sim::SimBus;
pub use sim::SimFault;
