//! The coordinator's decision logic: who may see a job, how failures are reported, and the
//! state machines that track a job's process and relay its output to log readers.

use std::sync::Arc;
use vstd::hash_map::StringHashMap;
use vstd::prelude::*;

use crate::proc::spawn;
use crate::proc::types::{Ctx, Job, JobId, User};

pub mod broadcast;
pub mod feed;
pub mod relay;
pub mod tracker;

pub use broadcast::Broadcaster;
pub use feed::FrameRelay;
pub use relay::RelayQueue;
pub use tracker::{KillRequest, TrackerAction, TrackerEvent, TrackerLoop, TrackerPlan};

verus! {

/// Which output stream of a child process a frame came from.
#[derive(Debug, Clone, Copy, PartialEq, Eq, Structural)]
pub enum StreamKind {
    Stdout,
    Stderr,
}

impl StreamKind {
    /// The name of the stream.
    pub open spec fn name_spec(self) -> Seq<char> {
        match self {
            StreamKind::Stdout => "stdout"@,
            StreamKind::Stderr => "stderr"@,
        }
    }

    /// The name of the stream: `stdout` or `stderr`.
    pub fn name(&self) -> (res: &'static str)
        ensures
            res@ == self.name_spec(),
    {
        match self {
            StreamKind::Stdout => "stdout",
            StreamKind::Stderr => "stderr",
        }
    }
}

/// A chunk of output read from one of a child's streams.
#[derive(Debug)]
pub struct Frame {
    pub kind: StreamKind,
    pub bs: Vec<u8>,
}

impl Frame {
    /// A frame holding a copy of the given bytes.
    pub fn new(kind: StreamKind, bs: &[u8]) -> (res: Self)
        ensures
            res.kind == kind,
            res.bs@ == bs@,
    {
        Frame { kind, bs: vstd::slice::slice_to_vec(bs) }
    }
}

/// Why tracking a job's process stopped early.
#[derive(Debug)]
pub enum TrackerError {
    /// Waiting for the child process failed; holds the description of the I/O error.
    WaitChild { err: String },
    /// Reading one of the output streams failed; holds the description of the I/O error.
    ReadOutput { kind: StreamKind, err: String },
    /// The broadcaster stopped taking frames; holds the description of the send error.
    BroadcasterDisappeared { err: String },
}

impl Clone for TrackerError {
    fn clone(&self) -> (res: Self)
        ensures
            res == *self,
    {
        match self {
            TrackerError::WaitChild { err } => TrackerError::WaitChild { err: err.clone() },
            TrackerError::ReadOutput { kind, err } => TrackerError::ReadOutput {
                kind: *kind,
                err: err.clone(),
            },
            TrackerError::BroadcasterDisappeared { err } => TrackerError::BroadcasterDisappeared {
                err: err.clone(),
            },
        }
    }
}

impl TrackerError {
    /// The human readable description of the error.
    pub open spec fn message_spec(&self) -> Seq<char> {
        match self {
            TrackerError::WaitChild { err } => "failed to wait for child process: "@ + err@,
            TrackerError::ReadOutput { kind, err } => "read "@ + kind.name_spec() + ": "@ + err@,
            TrackerError::BroadcasterDisappeared { err } => "broadcaster disappeared: "@ + err@,
        }
    }

    /// The human readable description of the error.
    pub fn message(&self) -> (res: String)
        ensures
            res@ == self.message_spec(),
    {
        match self {
            TrackerError::WaitChild { err } => "failed to wait for child process: ".to_owned().concat(
                err.as_str(),
            ),
            TrackerError::ReadOutput { kind, err } => "read ".to_owned().concat(kind.name()).concat(
                ": ",
            ).concat(err.as_str()),
            TrackerError::BroadcasterDisappeared { err } => "broadcaster disappeared: ".to_owned().concat(
                err.as_str(),
            ),
        }
    }
}

/// Clones a shared pointer with `Arc::clone`.
///
/// Trusted: `Arc::clone` makes another pointer to the same allocation, so the value seen through
/// the result is the value seen through the argument.
#[verifier::external_body]
pub(crate) fn share<T>(a: &Arc<T>) -> (res: Arc<T>)
    ensures
        res == *a,
{
    Arc::clone(a)
}

/// An event of a job's output stream, as handed to log readers.
#[derive(Debug)]
pub enum FrameEvent {
    /// An output frame became available.
    Frame(Arc<Frame>),
    /// An error occurred. This is a terminal variant.
    Error(Arc<TrackerError>),
    /// No more frames. This is a terminal variant.
    EOF,
}

impl Clone for FrameEvent {
    fn clone(&self) -> (res: Self)
        ensures
            res == *self,
    {
        self.share()
    }
}

impl FrameEvent {
    /// Another handle on the same event.
    pub fn share(&self) -> (res: Self)
        ensures
            res == *self,
    {
        match self {
            FrameEvent::Frame(f) => FrameEvent::Frame(share(f)),
            FrameEvent::Error(e) => FrameEvent::Error(share(e)),
            FrameEvent::EOF => FrameEvent::EOF,
        }
    }

    /// Whether no event follows this one.
    pub fn is_terminal(&self) -> (res: bool)
        ensures
            res == !(*self is Frame),
    {
        !matches!(self, FrameEvent::Frame(_))
    }
}

/// A copy of a sequence of events, each sharing its payload with the one it copies.
pub fn share_all(v: &Vec<FrameEvent>) -> (res: Vec<FrameEvent>)
    ensures
        res@ == v@,
{
    let mut res: Vec<FrameEvent> = Vec::new();
    let n = v.len();
    for i in 0..n
        invariant
            n == v@.len(),
            res@ == v@.subrange(0, i as int),
    {
        res.push(v[i].share());
        assert(res@ =~= v@.subrange(0, i + 1));
    }
    assert(res@ =~= v@);
    res
}

/// What one read from a child's output stream leads to.
#[derive(Debug)]
pub enum ReadStep {
    /// Hand this frame on and read again.
    Frame(Frame),
    /// Report this error; the stream is done.
    Fail(TrackerError),
    /// The stream has ended.
    End,
}

/// Decides what one read of an output stream leads to, from the buffer read into and the read's
/// outcome: the number of bytes read, or the description of the I/O error.
pub fn read_step(kind: StreamKind, buf: &[u8], read: Result<usize, String>) -> (res: ReadStep)
    requires
        read matches Ok(n) ==> n <= buf@.len(),
    ensures
        match read {
            Err(err) => res == ReadStep::Fail(TrackerError::ReadOutput { kind, err }),
            Ok(n) => if n == 0 {
                res is End
            } else {
                res matches ReadStep::Frame(f) && f.kind == kind && f.bs@ == buf@.subrange(
                    0,
                    n as int,
                )
            },
        },
{
    match read {
        Err(err) => ReadStep::Fail(TrackerError::ReadOutput { kind, err }),
        Ok(n) => {
            if n == 0 {
                ReadStep::End
            } else {
                ReadStep::Frame(Frame::new(kind, vstd::slice::slice_subrange(buf, 0, n)))
            }
        },
    }
}

/// How a request to one of a job's tasks went.
pub enum Reply<T> {
    /// The request could not be handed to the task.
    SendFailed,
    /// The task did not answer in time.
    TimedOut,
    /// The task dropped the request without answering.
    Dropped,
    /// The task answered.
    Received(T),
}

/// Decides what a request for a log stream gives: the stream, or the matching error.
pub fn log_stream_outcome<T>(reply: Reply<T>) -> (res: Result<T, FrameError>)
    ensures
        match reply {
            Reply::SendFailed => res == Err::<T, FrameError>(
                FrameError::BroadcasterUnavailableForLogs,
            ),
            Reply::TimedOut => res == Err::<T, FrameError>(
                FrameError::TimeoutWaitingForLogRx,
            ),
            Reply::Dropped => res == Err::<T, FrameError>(FrameError::GetLogStream),
            Reply::Received(rx) => res == Ok::<T, FrameError>(rx),
        },
{
    match reply {
        Reply::SendFailed => Err(FrameError::BroadcasterUnavailableForLogs),
        Reply::TimedOut => Err(FrameError::TimeoutWaitingForLogRx),
        Reply::Dropped => Err(FrameError::GetLogStream),
        Reply::Received(rx) => Ok(rx),
    }
}

/// Decides what a kill request handed to the tracker gives: the job as the tracker answered it,
/// or the matching error.
pub fn kill_answer(reply: Reply<Result<Job, String>>) -> (res: Result<Job, KillError>)
    ensures
        match reply {
            Reply::SendFailed => res == Err::<Job, KillError>(KillError::ReqSendFailed),
            Reply::TimedOut => res == Err::<Job, KillError>(KillError::ReqTimeout),
            Reply::Dropped => res == Err::<Job, KillError>(KillError::TxDropped),
            Reply::Received(Ok(job)) => res == Ok::<Job, KillError>(job),
            Reply::Received(Err(err)) => res == Err::<Job, KillError>(KillError::Failed { err }),
        },
{
    match reply {
        Reply::SendFailed => Err(KillError::ReqSendFailed),
        Reply::TimedOut => Err(KillError::ReqTimeout),
        Reply::Dropped => Err(KillError::TxDropped),
        Reply::Received(Ok(job)) => Ok(job),
        Reply::Received(Err(err)) => Err(KillError::Failed { err }),
    }
}

/// Why a kill request did not produce a killed job.
#[derive(Debug)]
pub enum KillError {
    /// The request could not be handed to the tracker: it has stopped, the child might have quit.
    ReqSendFailed,
    /// The tracker did not answer in time.
    ReqTimeout,
    /// The tracker quit while trying to kill the child.
    TxDropped,
    /// The attempt to kill the child failed; holds the description of the I/O error.
    Failed { err: String },
}

/// Why a log stream could not be set up.
#[derive(Debug)]
pub enum FrameError {
    /// The broadcaster quit before it took the request.
    BroadcasterUnavailableForLogs,
    /// The broadcaster did not answer in time.
    TimeoutWaitingForLogRx,
    /// The broadcaster dropped the request without answering.
    GetLogStream,
}

/// The errors of the coordinator.
#[derive(Debug)]
pub enum Error {
    JobNotFound { job_id: JobId },
    NoPid { job_id: JobId },
    LogsNotAvailable { err: FrameError },
    JobNotRunning { job_id: JobId },
    Kill(KillError),
    Spawn(spawn::Error),
}

/// The error for a job that does not exist, or that the caller may not see.
pub fn not_found(job_id: &JobId) -> (res: Error)
    ensures
        res == (Error::JobNotFound { job_id: *job_id }),
{
    Error::JobNotFound { job_id: job_id.clone() }
}

/// The error for a log stream that could not be set up.
pub fn logs_unavail(err: FrameError) -> (res: Error)
    ensures
        res == (Error::LogsNotAvailable { err }),
{
    Error::LogsNotAvailable { err }
}

/// The error for an operation that needs a running job.
pub fn job_not_running(job_id: &JobId) -> (res: Error)
    ensures
        res == (Error::JobNotRunning { job_id: *job_id }),
{
    Error::JobNotRunning { job_id: job_id.clone() }
}

/// What an operation on a job gives the caller, from what the table held for the id: the job's
/// snapshot if it exists and belongs to the caller, and otherwise the same not-found error, so
/// that other users cannot learn which ids exist.
pub open spec fn access_spec(ctx: Ctx, job_id: JobId, found: Option<Job>) -> Result<Job, Error> {
    match found {
        Some(job) => if job.user.id@ == ctx.user.id@ {
            Ok(job)
        } else {
            Err(Error::JobNotFound { job_id })
        },
        None => Err(Error::JobNotFound { job_id }),
    }
}

/// Decides what an operation on a job gives the caller, from the job's current snapshot (or
/// `None` when no job has the id).
pub fn access(ctx: &Ctx, job_id: &JobId, found: Option<Job>) -> (res: Result<Job, Error>)
    ensures
        res == access_spec(*ctx, *job_id, found),
{
    match found {
        None => Err(not_found(job_id)),
        Some(job) => {
            if job.user.id != ctx.user.id {
                Err(not_found(job_id))
            } else {
                Ok(job)
            }
        },
    }
}

/// Another user's job reads exactly as a job that does not exist: whoever asks for a job they do
/// not own gets the same answer as for an id that no job has.
pub proof fn lemma_foreign_job_reads_as_missing(ctx: Ctx, job_id: JobId, job: Job)
    requires
        job.user.id@ != ctx.user.id@,
    ensures
        access_spec(ctx, job_id, Some(job)) == access_spec(ctx, job_id, None),
        access_spec(ctx, job_id, None) == Err::<Job, Error>(Error::JobNotFound { job_id }),
{
}

/// The owner of a job gets the job's snapshot as it is.
pub proof fn lemma_owner_reads_job(ctx: Ctx, job_id: JobId, job: Job)
    requires
        job.user.id@ == ctx.user.id@,
    ensures
        access_spec(ctx, job_id, Some(job)) == Ok::<Job, Error>(job),
{
}

/// What a kill request on an owned job gives the caller, from what the tracker answered.
pub open spec fn kill_outcome_spec(job_id: JobId, answer: Result<Job, KillError>) -> Result<
    Job,
    Error,
> {
    match answer {
        Ok(job) => Ok(job),
        Err(KillError::ReqSendFailed) => Err(Error::JobNotRunning { job_id }),
        Err(err) => Err(Error::Kill(err)),
    }
}

/// Decides what a kill request gives the caller: the killed job; not-running when the tracker no
/// longer takes requests; otherwise the kill error.
pub fn kill_outcome(job_id: &JobId, answer: Result<Job, KillError>) -> (res: Result<Job, Error>)
    ensures
        res == kill_outcome_spec(*job_id, answer),
        match answer {
            Ok(j) => res == Ok::<Job, Error>(j),
            Err(KillError::ReqSendFailed) => res == Err::<Job, Error>(
                Error::JobNotRunning { job_id: *job_id },
            ),
            Err(e) => res == Err::<Job, Error>(Error::Kill(e)),
        },
{
    match answer {
        Ok(job) => Ok(job),
        Err(KillError::ReqSendFailed) => Err(job_not_running(job_id)),
        Err(err) => Err(Error::Kill(err)),
    }
}

/// A kill the tracker carried out gives the caller exactly the job the tracker answered with,
/// killed and exited as it is; the caller is told the job is not running only when the tracker
/// no longer takes requests, and any other failure is passed on as it is.
pub proof fn lemma_kill_outcome_passes_the_answer_on(job_id: JobId, answer: Result<Job, KillError>)
    ensures
        match answer {
            Ok(j) => kill_outcome_spec(job_id, answer) == Ok::<Job, Error>(j),
            Err(KillError::ReqSendFailed) => kill_outcome_spec(job_id, answer) == Err::<Job, Error>(
                Error::JobNotRunning { job_id },
            ),
            Err(e) => kill_outcome_spec(job_id, answer) == Err::<Job, Error>(Error::Kill(e)),
        },
        kill_outcome_spec(job_id, answer) is Ok <==> answer is Ok,
{
}

/// The jobs that a coordinator tracks, keyed by job id.
#[verifier::reject_recursive_types(T)]
pub struct JobTable<T> {
    jobs: StringHashMap<T>,
}

impl<T> View for JobTable<T> {
    type V = Map<Seq<char>, T>;

    closed spec fn view(&self) -> Map<Seq<char>, T> {
        self.jobs@
    }
}

impl<T> JobTable<T> {
    /// A table that tracks no job.
    pub fn new() -> (res: Self)
        ensures
            res@ == Map::<Seq<char>, T>::empty(),
    {
        JobTable { jobs: StringHashMap::new() }
    }

    /// Starts tracking a job under the given id, unless the id is already taken; returns whether
    /// it was added. A taken id leaves the table as it was.
    pub fn track(&mut self, job_id: &JobId, tracker: T) -> (added: bool)
        ensures
            added == !old(self)@.contains_key(job_id@),
            added ==> final(self)@ == old(self)@.insert(job_id@, tracker),
            !added ==> final(self)@ == old(self)@,
    {
        if self.jobs.contains_key(job_id.as_str()) {
            false
        } else {
            self.jobs.insert(job_id.to_string(), tracker);
            true
        }
    }

    /// The tracker of the job with the given id, if there is one.
    pub fn get(&self, job_id: &JobId) -> (res: Option<&T>)
        ensures
            match res {
                Some(t) => self@.contains_key(job_id@) && *t == self@[job_id@],
                None => !self@.contains_key(job_id@),
            },
    {
        self.jobs.get(job_id.as_str())
    }

    /// The number of tracked jobs.
    pub fn len(&self) -> (res: usize)
        ensures
            res == self@.len(),
    {
        self.jobs.len()
    }
}

} // verus!
