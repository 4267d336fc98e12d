//! Driver core for a 16-channel, 12-bit PWM controller chip addressed over an
//! I2C/SMBus-style register bus, as used to drive servos and LEDs.
//!
//! The crate covers the three parts of such a driver that carry real
//! invariants: deriving the four per-channel register addresses from a channel
//! index, sequencing the chip's mode registers when initializing and when
//! reprogramming the output frequency, and converting between a bounded
//! angular position and a 12-bit pulse-width tick value.
//!
//! The byte-level bus transport is an injected capability (the [`bus::Bus`]
//! trait): the controller owns one handle exclusively and issues single-byte
//! register reads and writes through it. An in-memory register file
//! ([`bus::MemBus`]) implements the same capability for use off-hardware.

pub mod bus;
pub mod channel;
pub mod constants;
pub mod controller;
pub mod errors;
