//! Register addresses and command bits specific to the controller chip.

use vstd::prelude::*;

verus! {

/// Default I2C bus address of the chip.
pub const I2C_BASE_ADDRESS: u8 = 0x40;

/// Internal clock oscillation frequency, in Hz.
pub const OSCILLATION_FREQ: u32 = 25_000_000;

/// Number of steps available on a channel (12-bit resolution).
pub const STEP_SIZE: u32 = 4096;

// Mode registers.
pub const MODE_1: u8 = 0x00;
pub const MODE_2: u8 = 0x01;

// I2C bus subaddresses.
pub const SUBADDR_1: u8 = 0x02;
pub const SUBADDR_2: u8 = 0x03;
pub const SUBADDR_3: u8 = 0x04;

/// Output frequency prescaler register.
pub const PRE_SCALE: u8 = 0xFE;

// Base addresses for the first channel's four registers; channel `i` uses
// each base plus `4 * i`.
pub const BASE_LED_ON_LOW: u8 = 0x06;
pub const BASE_LED_ON_HIGH: u8 = 0x07;
pub const BASE_LED_OFF_LOW: u8 = 0x08;
pub const BASE_LED_OFF_HIGH: u8 = 0x09;

// Registers that override the state of every channel at once.
pub const ALL_LED_ON_LOW: u8 = 0xFA;
pub const ALL_LED_ON_HIGH: u8 = 0xFB;
pub const ALL_LED_OFF_LOW: u8 = 0xFC;
pub const ALL_LED_OFF_HIGH: u8 = 0xFD;

/// MODE_1 bit: persist channel registers across a later sleep.
pub const RESTART: u8 = 0x80;

/// MODE_1 bit: put the oscillator into a low-power sleep state.
pub const SLEEP: u8 = 0x10;

/// MODE_2 bits: output change on ACK rather than on STOP.
pub const OUTPUT_CHANGE: u8 = 0x0C;

/// MODE_1 bit: the chip answers on the all-call bus address.
pub const ALL_CALL: u8 = 0x01;

/// MODE_2 bit: invert the output logic state.
pub const INVRT: u8 = 0x10;

/// MODE_2 bit: totem-pole output driver structure.
pub const OUTDRV: u8 = 0x04;

} // verus!
