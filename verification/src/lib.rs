//! Encoding of battery-management telemetry into the fixed frame sequence of a
//! BYD-compatible CAN protocol dialect.
//!
//! The crate takes a point-in-time telemetry snapshot, checks that it is still
//! fresh, resolves the configurable charge-voltage limits, and assembles ten
//! CAN frames (identifier plus 8-byte payload) whose byte layout is the wire
//! contract with third-party inverters and chargers.

use vstd::prelude::*;

pub mod encoder;

verus! {

/// Sum of two machine-sized counters.
pub fn add(left: usize, right: usize) -> (sum: usize)
    requires
        left + right <= usize::MAX,
    ensures
        sum == left + right,
{
    left + right
}

} // verus!
