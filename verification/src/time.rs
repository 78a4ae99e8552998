//! Points in time, as plain values.

use vstd::prelude::*;

verus! {

/// A point in time in UTC: whole seconds since the Unix epoch, and the
/// nanoseconds past them, which run beyond one second inside a leap second.
#[derive(Clone, Copy, Debug, PartialEq, Eq, Structural)]
pub struct UtcTime {
    pub timestamp: i64,
    pub subsec_nanos: u32,
}

} // verus!
