//! Spawning child processes: the options a child is spawned with and the errors of spawning.

use vstd::prelude::*;

use crate::proc::types::JobSpec;

pub mod win;

verus! {

/// Why a child could not be spawned.
#[derive(Debug)]
pub enum Error {
    /// The operating system refused to start the process; holds the description of the error.
    Spawn(String),
    /// The process started but reported no process id.
    NoPid,
}

/// Resource limits for a child. None are enforced yet.
#[derive(Debug, Clone, Copy, PartialEq, Eq, Structural)]
pub struct Limits {}

/// How to spawn a child: what to run and within which limits.
#[derive(Debug)]
pub struct Opts {
    pub spec: JobSpec,
    pub limits: Option<Limits>,
}

impl Opts {
    /// Options that run the given spec with no limits.
    pub fn new(spec: JobSpec) -> (res: Self)
        ensures
            res.spec == spec,
            res.limits is None,
    {
        Opts { spec, limits: None }
    }
}

/// The process id of a freshly spawned child, or [`Error::NoPid`] when the process reported none.
pub fn require_pid(pid: Option<u32>) -> (res: Result<u32, Error>)
    ensures
        match pid {
            Some(p) => res == Ok::<u32, Error>(p),
            None => res == Err::<u32, Error>(Error::NoPid),
        },
{
    match pid {
        Some(p) => Ok(p),
        None => Err(Error::NoPid),
    }
}

} // verus!
