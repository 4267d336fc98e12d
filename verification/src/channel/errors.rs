//! Range errors raised by channel constructors and conversions.

use vstd::prelude::*;

verus! {

/// Returned when a channel index lies outside 0 through 15.
#[derive(Clone, Copy, Debug, PartialEq, Eq, Structural)]
pub struct IndexRangeError;

impl IndexRangeError {
    pub fn new() -> (r: IndexRangeError)
        ensures
            r == (IndexRangeError {}),
    {
        IndexRangeError {}
    }
}

/// Returned when a value lies outside an allowed range; carries the violated
/// bounds and the offending value for diagnostics.
#[derive(Clone, Copy, Debug, PartialEq, Eq, Structural)]
pub struct ValueRangeError {
    pub min: i32,
    pub max: i32,
    pub val: i32,
}

impl ValueRangeError {
    pub fn new(min: i32, max: i32, val: i32) -> (r: ValueRangeError)
        ensures
            r == (ValueRangeError { min, max, val }),
    {
        ValueRangeError { min, max, val }
    }
}

} // verus!
