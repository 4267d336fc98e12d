//! Errors shared across the crate.

use vstd::prelude::*;

verus! {

/// Returned when a channel number lies outside the chip's sixteen channels
/// (0 through 15).
#[derive(Clone, Copy, Debug, PartialEq, Eq, Structural)]
pub struct ChannelRangeError;

} // verus!
