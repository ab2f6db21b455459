//! Register-level driver for the TPA2016 audio amplifier on a two-wire bus.
//!
//! The amplifier is configured through seven single-byte registers. This crate
//! turns gain, automatic gain control, timing, channel and limiter settings into
//! reads and writes of those registers, and proves which bytes go where.

pub mod amplifier;
pub mod bus;
pub mod registers;

pub use crate::amplifier::I2CTPA2016;
pub use crate::bus::Transport;
