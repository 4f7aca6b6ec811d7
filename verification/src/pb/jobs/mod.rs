//! Messages of the `jobs.Store` service.

use vstd::prelude::*;

use super::Timestamp;

pub mod job;

verus! {

/// Asks to run a command.
#[derive(Debug)]
pub struct SpawnRequest {
    pub name: String,
    pub args: Vec<String>,
}

/// The job that a spawn started.
#[derive(Debug)]
pub struct SpawnResponse {
    pub job: Option<Job>,
}

/// Asks for the output of a job.
#[derive(Debug)]
pub struct LogsRequest {
    pub job_id: String,
}

/// A chunk of a job's output; `kind` is a [`LogFrameKind`] as its number.
#[derive(Debug)]
pub struct LogFrame {
    pub kind: i32,
    pub bs: Vec<u8>,
}

/// Asks for the state of a job.
#[derive(Debug)]
pub struct PsRequest {
    pub job_id: String,
}

/// The state of a job.
#[derive(Debug)]
pub struct PsResponse {
    pub job: Option<Job>,
}

/// Asks to kill a job.
#[derive(Debug)]
pub struct KillRequest {
    pub job_id: String,
}

/// The job after it was killed.
#[derive(Debug)]
pub struct KillResponse {
    pub job: Option<Job>,
}

/// A job as the wire carries it.
#[derive(Debug)]
pub struct Job {
    /// The job identifier, unique among jobs.
    pub id: String,
    /// The user that created the job.
    pub owner: Option<User>,
    /// When the job was started.
    pub started_at: Option<Timestamp>,
    /// When the job ended, however it ended.
    pub ended_at: Option<Timestamp>,
    /// Who killed the job and when, if it was killed.
    pub killed: Option<Killed>,
    /// The current state of the job.
    pub state: Option<job::State>,
}

/// A user; its id is the subject of the certificate it presents.
#[derive(Debug)]
pub struct User {
    pub id: String,
}

/// Details about a kill.
#[derive(Debug)]
pub struct Killed {
    pub killed_at: Option<Timestamp>,
    pub user: Option<User>,
}

/// The job was started and is running.
#[derive(Debug, Clone, Copy, PartialEq, Eq, Structural)]
pub struct JobRunningState {
    pub pid: u32,
}

/// The job exited normally.
#[derive(Debug, Clone, Copy, PartialEq, Eq, Structural)]
pub struct JobExitedState {
    pub exit_code: i32,
}

/// The job crashed without exiting.
#[derive(Debug)]
pub struct JobCrashedState {
    pub signal: i32,
    pub msg: String,
}

/// Which output stream a log frame came from.
#[derive(Debug, Clone, Copy, PartialEq, Eq, Structural)]
pub enum LogFrameKind {
    Stdout,
    Stderr,
}

/// Whether two strings hold the same text.
pub fn str_eq(a: &str, b: &str) -> (res: bool)
    ensures
        res == (a@ == b@),
{
    a.to_owned() == b.to_owned()
}

impl LogFrameKind {
    /// The name of the kind in the service definition.
    pub open spec fn str_name_spec(self) -> Seq<char> {
        match self {
            LogFrameKind::Stdout => "STDOUT"@,
            LogFrameKind::Stderr => "STDERR"@,
        }
    }

    /// The kind with the given name in the service definition, if there is one.
    pub open spec fn from_str_name_spec(value: Seq<char>) -> Option<LogFrameKind> {
        if value == "STDOUT"@ {
            Some(LogFrameKind::Stdout)
        } else if value == "STDERR"@ {
            Some(LogFrameKind::Stderr)
        } else {
            None
        }
    }

    /// The number of the kind on the wire.
    pub open spec fn number_spec(self) -> i32 {
        match self {
            LogFrameKind::Stdout => 0,
            LogFrameKind::Stderr => 1,
        }
    }

    /// The kind with the given number on the wire, if there is one.
    pub open spec fn from_number_spec(value: i32) -> Option<LogFrameKind> {
        if value == 0 {
            Some(LogFrameKind::Stdout)
        } else if value == 1 {
            Some(LogFrameKind::Stderr)
        } else {
            None
        }
    }

    /// The name of the kind in the service definition: `STDOUT` or `STDERR`.
    pub fn as_str_name(&self) -> (res: &'static str)
        ensures
            res@ == self.str_name_spec(),
    {
        match self {
            LogFrameKind::Stdout => "STDOUT",
            LogFrameKind::Stderr => "STDERR",
        }
    }

    /// The kind with the given name in the service definition, if there is one.
    pub fn from_str_name(value: &str) -> (res: Option<Self>)
        ensures
            res == Self::from_str_name_spec(value@),
    {
        if str_eq(value, "STDOUT") {
            Some(LogFrameKind::Stdout)
        } else if str_eq(value, "STDERR") {
            Some(LogFrameKind::Stderr)
        } else {
            None
        }
    }

    /// The number of the kind on the wire.
    pub fn to_i32(self) -> (res: i32)
        ensures
            res == self.number_spec(),
    {
        match self {
            LogFrameKind::Stdout => 0,
            LogFrameKind::Stderr => 1,
        }
    }

    /// The kind with the given number on the wire, if there is one.
    pub fn from_i32(value: i32) -> (res: Option<Self>)
        ensures
            res == Self::from_number_spec(value),
    {
        if value == 0 {
            Some(LogFrameKind::Stdout)
        } else if value == 1 {
            Some(LogFrameKind::Stderr)
        } else {
            None
        }
    }
}

/// Each kind's name leads back to the kind.
pub proof fn lemma_str_name_round_trip(kind: LogFrameKind)
    ensures
        LogFrameKind::from_str_name_spec(kind.str_name_spec()) == Some(kind),
{
    reveal_strlit("STDOUT");
    reveal_strlit("STDERR");
    assert("STDOUT"@[3] != "STDERR"@[3]);
}

/// Each kind's wire number leads back to the kind.
pub proof fn lemma_number_round_trip(kind: LogFrameKind)
    ensures
        LogFrameKind::from_number_spec(kind.number_spec()) == Some(kind),
{
}

impl LogFrame {
    /// The kind of the frame; an unknown number reads as the default kind, stdout.
    pub fn kind(&self) -> (res: LogFrameKind)
        ensures
            res == match LogFrameKind::from_number_spec(self.kind) {
                Some(k) => k,
                None => LogFrameKind::Stdout,
            },
    {
        match LogFrameKind::from_i32(self.kind) {
            Some(k) => k,
            None => LogFrameKind::Stdout,
        }
    }
}

} // verus!
