//! Types nested in the `Job` message.

use vstd::prelude::*;

use super::{JobCrashedState, JobExitedState, JobRunningState};

verus! {

/// The current state of a job.
#[derive(Debug)]
pub enum State {
    Running(JobRunningState),
    Exited(JobExitedState),
    Crashed(JobCrashedState),
}

} // verus!
