//! The wire messages of the job store service.

use vstd::prelude::*;

pub mod jobs;

verus! {

/// A point in time as the wire carries it: seconds since the Unix epoch, and the non-negative
/// nanoseconds within that second.
#[derive(Debug, Clone, Copy, PartialEq, Eq, Structural)]
pub struct Timestamp {
    pub seconds: i64,
    pub nanos: i32,
}

} // verus!
