//! Abstractions for a channel on the PWM controller.
//!
//! Shared register-addressing behaviour lives in the [`base::Channel`] trait,
//! while specialized behaviour is implemented by [`led::LedChannel`] (raw
//! on/off tick values) and [`servo::ServoChannel`] (angle conversion over a
//! configured tick range).

pub mod base;
pub mod errors;
pub mod led;
pub mod servo;
