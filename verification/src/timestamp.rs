//! A point in time as the directory reports it.

use vstd::prelude::*;

verus! {

/// A point in time, UTC: whole seconds since 1970-01-01T00:00:00Z and the
/// nanoseconds into that second.
#[derive(Debug, Clone, Copy, PartialEq, Eq)]
pub struct Timestamp {
    pub secs: i64,
    pub nanos: u32,
}

} // verus!
