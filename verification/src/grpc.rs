//! The RPC layer's logic: authenticating callers from their certificate, validating incoming
//! requests, and converting coordinator results and job snapshots into wire messages and
//! statuses. Known errors map to specific statuses so that nothing leaks unexpectedly.

use vstd::prelude::*;

use crate::pb;
use crate::pb::jobs::job::State;
use crate::pb::jobs::{
    JobCrashedState, JobExitedState, JobRunningState, KillRequest, KillResponse, LogFrame, LogFrameKind,
    LogsRequest, PsRequest, PsResponse, SpawnRequest, SpawnResponse,
};
use crate::proc::coord::{Error, Frame, FrameEvent, StreamKind};
use crate::proc::types::{
    clone_strings, Ctx, ExitStatus, Job, JobId, JobSpec, JobState, Timestamp, User,
};

verus! {

/// The outcome classes of an RPC that this service reports.
#[derive(Debug, Clone, Copy, PartialEq, Eq, Structural)]
pub enum Code {
    InvalidArgument,
    NotFound,
    Internal,
    Unauthenticated,
}

/// The failure of an RPC: its class and a message for the caller.
#[derive(Debug)]
pub struct Status {
    pub code: Code,
    pub message: String,
}

impl Status {
    /// A status of the given class with the given message.
    pub fn new(code: Code, message: &str) -> (res: Status)
        ensures
            res.code == code,
            res.message@ == message@,
    {
        Status { code, message: message.to_owned() }
    }

    /// The caller sent an argument that is not valid.
    pub fn invalid_argument(message: &str) -> (res: Status)
        ensures
            res.code == Code::InvalidArgument,
            res.message@ == message@,
    {
        Status::new(Code::InvalidArgument, message)
    }

    /// What the caller asked for does not exist, as far as the caller may know.
    pub fn not_found(message: &str) -> (res: Status)
        ensures
            res.code == Code::NotFound,
            res.message@ == message@,
    {
        Status::new(Code::NotFound, message)
    }

    /// The service failed.
    pub fn internal(message: &str) -> (res: Status)
        ensures
            res.code == Code::Internal,
            res.message@ == message@,
    {
        Status::new(Code::Internal, message)
    }

    /// The caller could not be authenticated.
    pub fn unauthenticated(message: &str) -> (res: Status)
        ensures
            res.code == Code::Unauthenticated,
            res.message@ == message@,
    {
        Status::new(Code::Unauthenticated, message)
    }

    /// The status for a coordinator error: a job that is missing, not the caller's or not
    /// running reads as not found; anything else is an internal error with no details.
    pub fn from_error(err: &Error) -> (res: Status)
        ensures
            status_for_error(*err, res),
    {
        match err {
            Error::JobNotFound { .. } | Error::JobNotRunning { .. } => Status::not_found(
                "job not found",
            ),
            _ => Status::internal(""),
        }
    }
}

/// Whether `s` is the status for the coordinator error `err`: a job that is missing, not the
/// caller's or not running reads as not found; anything else is an internal error with no details.
pub open spec fn status_for_error(err: Error, s: Status) -> bool {
    if err is JobNotFound || err is JobNotRunning {
        s.code == Code::NotFound && s.message@ == "job not found"@
    } else {
        s.code == Code::Internal && s.message@ == ""@
    }
}

/// A job that is missing, not the caller's, or no longer running all get the same status, so the
/// status tells a caller nothing about other users' jobs.
pub proof fn lemma_hidden_jobs_share_status(job_id: JobId, other_id: JobId, s: Status)
    ensures
        status_for_error(Error::JobNotFound { job_id }, s) == status_for_error(
            Error::JobNotRunning { job_id: other_id },
            s,
        ),
        status_for_error(Error::JobNotFound { job_id }, s) == (s.code == Code::NotFound
            && s.message@ == "job not found"@),
{
}

/// The service implementation: hands validated requests to the coordinator.
#[derive(Debug)]
pub struct GrpcStoreImpl<C> {
    pub coord: C,
}

impl<C: Clone> Clone for GrpcStoreImpl<C> {
    fn clone(&self) -> (res: Self)
        ensures
            vstd::pervasive::cloned::<C>(self.coord, res.coord),
    {
        GrpcStoreImpl { coord: self.coord.clone() }
    }
}

impl<C> GrpcStoreImpl<C> {
    /// A service backed by the given coordinator.
    pub fn new(coord: C) -> (res: Self)
        ensures
            res.coord == coord,
    {
        GrpcStoreImpl { coord }
    }
}

/// Untrusted incoming data must be validated.
pub trait Validate {
    /// Whether the request may be acted on, or why not.
    fn validate(&self) -> Result<(), Status>;
}

/// A job id is required.
pub fn validate_job_id(job_id: &str) -> (res: Result<(), Status>)
    ensures
        res is Ok <==> job_id@.len() != 0,
        res matches Err(s) ==> s.code == Code::InvalidArgument && s.message@ == "job id required"@,
{
    if job_id.is_empty() {
        return Err(Status::invalid_argument("job id required"));
    }
    Ok(())
}

impl Validate for SpawnRequest {
    /// A command name is required.
    fn validate(&self) -> (res: Result<(), Status>)
        ensures
            res is Ok <==> self.name@.len() != 0,
            res matches Err(s) ==> s.code == Code::InvalidArgument && s.message@
                == "name required"@,
    {
        if self.name.as_str().is_empty() {
            return Err(Status::invalid_argument("name required"));
        }
        Ok(())
    }
}

impl Validate for LogsRequest {
    fn validate(&self) -> (res: Result<(), Status>)
        ensures
            res is Ok <==> self.job_id@.len() != 0,
            res matches Err(s) ==> s.code == Code::InvalidArgument && s.message@
                == "job id required"@,
    {
        validate_job_id(self.job_id.as_str())
    }
}

impl Validate for PsRequest {
    fn validate(&self) -> (res: Result<(), Status>)
        ensures
            res is Ok <==> self.job_id@.len() != 0,
            res matches Err(s) ==> s.code == Code::InvalidArgument && s.message@
                == "job id required"@,
    {
        validate_job_id(self.job_id.as_str())
    }
}

impl Validate for KillRequest {
    fn validate(&self) -> (res: Result<(), Status>)
        ensures
            res is Ok <==> self.job_id@.len() != 0,
            res matches Err(s) ==> s.code == Code::InvalidArgument && s.message@
                == "job id required"@,
    {
        validate_job_id(self.job_id.as_str())
    }
}

/// The job spec a valid spawn request asks for: its name as the executable, then its arguments.
pub fn spawn_job_spec(req: &SpawnRequest) -> (res: Result<JobSpec, Status>)
    ensures
        req.name@.len() == 0 ==> (res matches Err(s) && s.code == Code::InvalidArgument
            && s.message@ == "name required"@),
        req.name@.len() != 0 ==> (res matches Ok(spec) && spec.exe@ == req.name@ && spec.args@
            == req.args@),
{
    req.validate()?;
    Ok(JobSpec::new(req.name.clone()).args(clone_strings(&req.args)))
}


/// The job id a request names, once it is known not to be empty.
pub fn requested_job_id(job_id: &str) -> (res: Result<JobId, Status>)
    ensures
        job_id@.len() == 0 ==> (res matches Err(s) && s.code == Code::InvalidArgument
            && s.message@ == "job id required"@),
        job_id@.len() != 0 ==> (res matches Ok(id) && id@ == job_id@),
{
    validate_job_id(job_id)?;
    Ok(JobId::from_str(job_id))
}

impl From<StreamKind> for LogFrameKind {
    fn from(knd: StreamKind) -> (res: Self) {
        match knd {
            StreamKind::Stdout => LogFrameKind::Stdout,
            StreamKind::Stderr => LogFrameKind::Stderr,
        }
    }
}

impl vstd::std_specs::convert::FromSpecImpl<StreamKind> for LogFrameKind {
    open spec fn obeys_from_spec() -> bool {
        true
    }

    open spec fn from_spec(knd: StreamKind) -> Self {
        log_frame_kind_spec(knd)
    }
}

/// The wire kind of an output stream.
pub open spec fn log_frame_kind_spec(knd: StreamKind) -> LogFrameKind {
    match knd {
        StreamKind::Stdout => LogFrameKind::Stdout,
        StreamKind::Stderr => LogFrameKind::Stderr,
    }
}

impl StreamKind {
    /// The number of the stream's wire kind.
    pub fn to_log_frame_kind(self) -> (res: i32)
        ensures
            res == log_frame_kind_spec(self).number_spec(),
    {
        match self {
            StreamKind::Stdout => LogFrameKind::Stdout.to_i32(),
            StreamKind::Stderr => LogFrameKind::Stderr.to_i32(),
        }
    }
}

/// The wire form of an output frame: the number of its kind and a copy of its bytes.
pub fn log_frame(frame: &Frame) -> (res: LogFrame)
    ensures
        res.kind == log_frame_kind_spec(frame.kind).number_spec(),
        res.bs@ == frame.bs@,
{
    LogFrame { kind: frame.kind.to_log_frame_kind(), bs: vstd::slice::slice_to_vec(frame.bs.as_slice()) }
}

/// Whether a timestamp can be put on the wire without overflowing its seconds.
pub open spec fn fits_wire(ts: Timestamp) -> bool {
    ts.secs + ts.nanos / 1_000_000_000 <= i64::MAX
}

/// The wire form of a timestamp: the same instant, with the nanoseconds below one second.
pub open spec fn timestamp_wire(ts: Timestamp) -> pb::Timestamp {
    pb::Timestamp {
        seconds: (ts.secs + ts.nanos / 1_000_000_000) as i64,
        nanos: (ts.nanos % 1_000_000_000) as i32,
    }
}

/// The wire form of a timestamp.
pub fn datetime_to_timestamp(ts: Timestamp) -> (res: pb::Timestamp)
    requires
        fits_wire(ts),
    ensures
        res == timestamp_wire(ts),
        0 <= res.nanos < 1_000_000_000,
        res.seconds * 1_000_000_000 + res.nanos == ts.secs * 1_000_000_000 + ts.nanos,
{
    let carry = (ts.nanos / 1_000_000_000) as i64;
    let nanos = (ts.nanos % 1_000_000_000) as i32;
    pb::Timestamp { seconds: ts.secs + carry, nanos }
}

/// The wire form of a user.
pub fn user_to_proto(user: User) -> (res: pb::jobs::User)
    ensures
        res.id@ == user.id@,
{
    pb::jobs::User { id: user.id }
}

/// Whether a job can be put on the wire: its timestamps fit.
pub open spec fn job_fits_wire(job: Job) -> bool {
    &&& fits_wire(job.started_at)
    &&& job.ended_at matches Some(t) ==> fits_wire(t)
    &&& job.killed matches Some(k) ==> fits_wire(k.killed_at)
}

/// The message of the crashed state of a process that ended without an exit code.
pub open spec fn crash_message_spec(status: ExitStatus) -> Seq<char> {
    match status.signal {
        Some(sig) => if sig >= 0 {
            "terminated by signal "@ + decimal_spec(sig as nat)
        } else {
            "exited without an exit code"@
        },
        None => "exited without an exit code"@,
    }
}

/// The message of the crashed state of a process that ended without an exit code: the signal
/// that terminated it, when one did.
pub fn crash_message(status: ExitStatus) -> (res: String)
    ensures
        res@ == crash_message_spec(status),
{
    match status.signal {
        Some(sig) => {
            if sig >= 0 {
                "terminated by signal ".to_owned().concat(decimal(sig as usize).as_str())
            } else {
                "exited without an exit code".to_owned()
            }
        },
        None => "exited without an exit code".to_owned(),
    }
}

/// Whether `wire` is the wire state of a job that exited with `status`: exited with its code
/// when it has one, and otherwise crashed, with the terminating signal (0 when there is none).
pub open spec fn exited_wire_spec(status: ExitStatus, wire: Option<State>) -> bool {
    match status.code {
        Some(code) => wire == Some(State::Exited(JobExitedState { exit_code: code })),
        None => {
            &&& wire matches Some(State::Crashed(c))
            &&& wire->0->Crashed_0.signal == match status.signal {
                Some(sig) => sig,
                None => 0i32,
            }
            &&& wire->0->Crashed_0.msg@ == crash_message_spec(status)
        },
    }
}

/// Whether a timestamp can be put on the wire.
pub fn fits_wire_check(ts: Timestamp) -> (res: bool)
    ensures
        res == fits_wire(ts),
{
    let carry = (ts.nanos / 1_000_000_000) as i64;
    ts.secs <= i64::MAX - carry
}

/// Whether a job can be put on the wire; the callers of [`job_to_proto`] and the replies test
/// this first.
pub fn job_fits_wire_check(job: &Job) -> (res: bool)
    ensures
        res == job_fits_wire(*job),
{
    let ended_ok = match job.ended_at {
        Some(t) => fits_wire_check(t),
        None => true,
    };
    let killed_ok = match &job.killed {
        Some(k) => fits_wire_check(k.killed_at),
        None => true,
    };
    fits_wire_check(job.started_at) && ended_ok && killed_ok
}

/// Whether `wire` is the wire form of `job`.
pub open spec fn job_wire_spec(job: Job, wire: pb::jobs::Job) -> bool {
    &&& wire.id@ == job.id@
    &&& wire.owner matches Some(u) && u.id@ == job.user.id@
    &&& wire.started_at == Some(timestamp_wire(job.started_at))
    &&& match job.ended_at {
        Some(t) => wire.ended_at == Some(timestamp_wire(t)),
        None => wire.ended_at is None,
    }
    &&& match job.killed {
        Some(k) => {
            &&& wire.killed matches Some(wk)
            &&& wire.killed->0.killed_at == Some(timestamp_wire(k.killed_at))
            &&& wire.killed->0.user matches Some(u)
            &&& wire.killed->0.user->0.id@ == k.user.id@
        },
        None => wire.killed is None,
    }
    &&& match job.state {
        JobState::Running { pid } => wire.state == Some(State::Running(JobRunningState { pid: pid.pid })),
        JobState::Exited { status } => exited_wire_spec(status, wire.state),
    }
}

/// Whether a wire timestamp stands for the same instant as a timestamp, with its nanoseconds
/// below one second.
pub open spec fn same_instant(w: pb::Timestamp, t: Timestamp) -> bool {
    &&& 0 <= w.nanos < 1_000_000_000
    &&& w.seconds * 1_000_000_000 + w.nanos == t.secs * 1_000_000_000 + t.nanos
}

/// The wire form of a job keeps what the job says: its id and owner, the same instants for its
/// start, end and kill, who killed it, the pid of a running job unchanged, and the exit code of a
/// job that exited with one; a job that exited without a code is reported as crashed.
pub proof fn lemma_wire_job_keeps_the_job(job: Job, wire: pb::jobs::Job)
    requires
        job_fits_wire(job),
        job_wire_spec(job, wire),
    ensures
        wire.id@ == job.id@,
        wire.owner matches Some(u) && u.id@ == job.user.id@,
        wire.started_at matches Some(w) && same_instant(w, job.started_at),
        match job.ended_at {
            Some(t) => wire.ended_at matches Some(w) && same_instant(w, t),
            None => wire.ended_at is None,
        },
        match job.killed {
            Some(k) => {
                &&& wire.killed is Some
                &&& wire.killed->0.user matches Some(u) && u.id@ == k.user.id@
                &&& wire.killed->0.killed_at matches Some(w) && same_instant(w, k.killed_at)
            },
            None => wire.killed is None,
        },
        match job.state {
            JobState::Running { pid } => wire.state == Some(
                State::Running(JobRunningState { pid: pid.pid }),
            ),
            JobState::Exited { status } => match status.code {
                Some(code) => wire.state == Some(State::Exited(JobExitedState { exit_code: code })),
                None => wire.state matches Some(State::Crashed(_)),
            },
        },
{
    lemma_timestamp_wire_same_instant(job.started_at);
    if let Some(t) = job.ended_at {
        lemma_timestamp_wire_same_instant(t);
    }
    if let Some(k) = job.killed {
        lemma_timestamp_wire_same_instant(k.killed_at);
    }
}

/// The wire form of a timestamp stands for the same instant.
pub proof fn lemma_timestamp_wire_same_instant(t: Timestamp)
    requires
        fits_wire(t),
    ensures
        same_instant(timestamp_wire(t), t),
{
    assert(t.nanos == (t.nanos / 1_000_000_000) * 1_000_000_000 + t.nanos % 1_000_000_000);
}

/// The wire form of a job.
pub fn job_to_proto(job: Job) -> (res: pb::jobs::Job)
    requires
        job_fits_wire(job),
    ensures
        job_wire_spec(job, res),
        res.id@ == job.id@,
        res.owner matches Some(u) && u.id@ == job.user.id@,
        res.started_at matches Some(w) && same_instant(w, job.started_at),
        match job.ended_at {
            Some(t) => res.ended_at matches Some(w) && same_instant(w, t),
            None => res.ended_at is None,
        },
        match job.killed {
            Some(k) => {
                &&& res.killed is Some
                &&& res.killed->0.user matches Some(u) && u.id@ == k.user.id@
                &&& res.killed->0.killed_at matches Some(w) && same_instant(w, k.killed_at)
            },
            None => res.killed is None,
        },
        match job.state {
            JobState::Running { pid } => res.state == Some(
                State::Running(JobRunningState { pid: pid.pid }),
            ),
            JobState::Exited { status } => match status.code {
                Some(code) => res.state == Some(State::Exited(JobExitedState { exit_code: code })),
                None => res.state matches Some(State::Crashed(_)),
            },
        },
{
    let ended_at = match job.ended_at {
        Some(t) => Some(datetime_to_timestamp(t)),
        None => None,
    };
    let killed = match job.killed {
        Some(k) => Some(
            pb::jobs::Killed {
                killed_at: Some(datetime_to_timestamp(k.killed_at)),
                user: Some(user_to_proto(k.user)),
            },
        ),
        None => None,
    };
    let state = match job.state {
        JobState::Running { pid } => State::Running(JobRunningState { pid: pid.pid }),
        JobState::Exited { status } => match status.code {
            Some(code) => State::Exited(JobExitedState { exit_code: code }),
            None => State::Crashed(
                JobCrashedState {
                    signal: match status.signal {
                        Some(sig) => sig,
                        None => 0,
                    },
                    msg: crash_message(status),
                },
            ),
        },
    };
    pb::jobs::Job {
        id: job.id.to_string(),
        owner: Some(user_to_proto(job.user)),
        started_at: Some(datetime_to_timestamp(job.started_at)),
        ended_at,
        killed,
        state: Some(state),
    }
}

/// The reply to a spawn: the started job, or the status for the coordinator's error.
pub fn spawn_reply(res: Result<Job, Error>) -> (reply: Result<SpawnResponse, Status>)
    requires
        res matches Ok(job) ==> job_fits_wire(job),
    ensures
        match res {
            Ok(job) => reply matches Ok(r) && r.job matches Some(w) && job_wire_spec(job, w),
            Err(err) => reply matches Err(s) && status_for_error(err, s),
        },
{
    match res {
        Ok(job) => Ok(SpawnResponse { job: Some(job_to_proto(job)) }),
        Err(err) => Err(Status::from_error(&err)),
    }
}

/// The reply to a ps: the job's snapshot, or the status for the coordinator's error.
pub fn ps_reply(res: Result<Job, Error>) -> (reply: Result<PsResponse, Status>)
    requires
        res matches Ok(job) ==> job_fits_wire(job),
    ensures
        match res {
            Ok(job) => reply matches Ok(r) && r.job matches Some(w) && job_wire_spec(job, w),
            Err(err) => reply matches Err(s) && status_for_error(err, s),
        },
{
    match res {
        Ok(job) => Ok(PsResponse { job: Some(job_to_proto(job)) }),
        Err(err) => Err(Status::from_error(&err)),
    }
}

/// The reply to a kill: the killed job, or the status for the coordinator's error.
pub fn kill_reply(res: Result<Job, Error>) -> (reply: Result<KillResponse, Status>)
    requires
        res matches Ok(job) ==> job_fits_wire(job),
    ensures
        match res {
            Ok(job) => reply matches Ok(r) && r.job matches Some(w) && job_wire_spec(job, w),
            Err(err) => reply matches Err(s) && status_for_error(err, s),
        },
{
    match res {
        Ok(job) => Ok(KillResponse { job: Some(job_to_proto(job)) }),
        Err(err) => Err(Status::from_error(&err)),
    }
}

/// What the log stream of an RPC does with the next event of the job's output.
#[derive(Debug)]
pub enum LogStep {
    /// Send this frame to the caller and go on.
    Send(LogFrame),
    /// Send this status to the caller; the stream is over.
    Fail(Status),
    /// The stream is over.
    End,
}

/// Decides what the log stream does with the next event (`None` when the job's output ended
/// without a final event): frames are passed on, an error event ends the stream with an internal
/// error that describes it, and end-of-file ends it normally.
pub fn log_step(ev: Option<FrameEvent>) -> (res: LogStep)
    ensures
        match ev {
            None => res matches LogStep::Fail(s) && s.code == Code::Internal && s.message@
                == "log stream terminated unexpectedly"@,
            Some(FrameEvent::Frame(f)) => res matches LogStep::Send(lf) && lf.kind
                == log_frame_kind_spec(f.kind).number_spec() && lf.bs@ == f.bs@,
            Some(FrameEvent::Error(e)) => res matches LogStep::Fail(s) && s.code == Code::Internal
                && s.message@ == "log stream failed: "@ + e.message_spec(),
            Some(FrameEvent::EOF) => res is End,
        },
{
    match ev {
        None => LogStep::Fail(Status::internal("log stream terminated unexpectedly")),
        Some(FrameEvent::Frame(frame)) => LogStep::Send(log_frame(&frame)),
        Some(FrameEvent::Error(err)) => {
            let msg = "log stream failed: ".to_owned().concat(err.message().as_str());
            LogStep::Fail(Status { code: Code::Internal, message: msg })
        },
        Some(FrameEvent::EOF) => LogStep::End,
    }
}

/// The decimal digit with the given value.
pub open spec fn digit_spec(d: nat) -> char {
    if d == 0 {
        '0'
    } else if d == 1 {
        '1'
    } else if d == 2 {
        '2'
    } else if d == 3 {
        '3'
    } else if d == 4 {
        '4'
    } else if d == 5 {
        '5'
    } else if d == 6 {
        '6'
    } else if d == 7 {
        '7'
    } else if d == 8 {
        '8'
    } else {
        '9'
    }
}

/// The decimal form of a number, with no leading zeros.
pub open spec fn decimal_spec(n: nat) -> Seq<char>
    decreases n,
{
    if n < 10 {
        seq![digit_spec(n)]
    } else {
        decimal_spec(n / 10) + seq![digit_spec(n % 10)]
    }
}

/// Whether a character is a decimal digit.
pub open spec fn is_digit(c: char) -> bool {
    '0' <= c && c <= '9'
}

/// The number a string of decimal digits stands for, most significant digit first.
pub open spec fn digits_value(s: Seq<char>) -> nat
    decreases s.len(),
{
    if s.len() == 0 {
        0
    } else {
        digits_value(s.drop_last()) * 10 + ((s.last() as nat) - ('0' as nat)) as nat
    }
}

/// Whether `s` is a decimal numeral for `n`: one or more digits that read back as `n`.
pub open spec fn reads_as(s: Seq<char>, n: nat) -> bool {
    &&& s.len() > 0
    &&& forall|i: int| 0 <= i < s.len() ==> is_digit(#[trigger] s[i])
    &&& digits_value(s) == n
}

/// Whether `s` is a signed decimal numeral for `n`: a minus sign before the digits of a negative
/// number.
pub open spec fn reads_as_int(s: Seq<char>, n: int) -> bool {
    if n < 0 {
        s.len() > 0 && s[0] == '-' && reads_as(s.drop_first(), (-n) as nat)
    } else {
        reads_as(s, n as nat)
    }
}

/// Each digit character is a digit and stands for its value.
pub proof fn lemma_digit_reads_back(d: nat)
    requires
        d < 10,
    ensures
        is_digit(digit_spec(d)),
        (digit_spec(d) as nat) - ('0' as nat) == d,
{
}

/// The decimal form of a number reads back as that number.
pub proof fn lemma_decimal_reads_back(n: nat)
    ensures
        reads_as(decimal_spec(n), n),
    decreases n,
{
    if n < 10 {
        lemma_digit_reads_back(n);
        let s = decimal_spec(n);
        assert(s.drop_last() =~= Seq::<char>::empty());
        assert(s[0] == digit_spec(n));
        assert(s.last() == digit_spec(n));
        assert(digits_value(s.drop_last()) == 0);
        assert(digits_value(s) == digits_value(s.drop_last()) * 10 + ((s.last() as nat) - ('0' as nat)) as nat);
    } else {
        lemma_decimal_reads_back(n / 10);
        lemma_digit_reads_back(n % 10);
        let p = decimal_spec(n / 10);
        let s = decimal_spec(n);
        assert(s == p + seq![digit_spec(n % 10)]);
        assert(s.drop_last() =~= p);
        assert forall|i: int| 0 <= i < s.len() implies is_digit(#[trigger] s[i]) by {
            if i < p.len() {
                assert(s[i] == p[i]);
            }
        }
        assert(s.last() == digit_spec(n % 10));
        assert(digits_value(s) == digits_value(s.drop_last()) * 10 + ((s.last() as nat) - ('0' as nat)) as nat);
        assert(digits_value(s) == digits_value(p) * 10 + n % 10);
        assert((n / 10) * 10 + n % 10 == n) by (nonlinear_arith);
    }
}

/// The signed decimal form of a number reads back as that number.
pub proof fn lemma_signed_decimal_reads_back(n: int)
    ensures
        reads_as_int(signed_decimal_spec(n), n),
{
    if n < 0 {
        lemma_decimal_reads_back((-n) as nat);
        let t = decimal_spec((-n) as nat);
        reveal_strlit("-");
        assert(signed_decimal_spec(n).drop_first() =~= t);
    } else {
        lemma_decimal_reads_back(n as nat);
    }
}

/// The line for a job's state names the state and then gives its number in full: the pid of a
/// running job, the exit code of an exited one, the signal and message of a crashed one.
pub proof fn lemma_state_text_reads_back(state: State)
    ensures
        state_reads_back(state, state_text_spec(state)),
{
    match state {
        State::Running(r) => {
            lemma_decimal_reads_back(r.pid as nat);
        },
        State::Exited(e) => {
            lemma_signed_decimal_reads_back(e.exit_code as int);
        },
        State::Crashed(c) => {
            lemma_signed_decimal_reads_back(c.signal as int);
        },
    }
}

/// Whether `text` is a line for `state` whose number reads back as the state's number.
pub open spec fn state_reads_back(state: State, text: Seq<char>) -> bool {
    match state {
        State::Running(r) => exists|t: Seq<char>|
            #[trigger] reads_as(t, r.pid as nat) && text == "Running pid="@ + t,
        State::Exited(e) => exists|t: Seq<char>|
            #[trigger] reads_as_int(t, e.exit_code as int) && text == "Exited code="@ + t,
        State::Crashed(c) => exists|t: Seq<char>|
            #[trigger] reads_as_int(t, c.signal as int) && text == "Crashed signal="@ + t
                + " msg="@ + c.msg@,
    }
}

/// The text of one decimal digit.
fn digit_str(d: usize) -> (res: &'static str)
    requires
        d < 10,
    ensures
        res@ == seq![digit_spec(d as nat)],
{
    proof {
        reveal_strlit("0");
        reveal_strlit("1");
        reveal_strlit("2");
        reveal_strlit("3");
        reveal_strlit("4");
        reveal_strlit("5");
        reveal_strlit("6");
        reveal_strlit("7");
        reveal_strlit("8");
        reveal_strlit("9");
    }
    if d == 0 {
        "0"
    } else if d == 1 {
        "1"
    } else if d == 2 {
        "2"
    } else if d == 3 {
        "3"
    } else if d == 4 {
        "4"
    } else if d == 5 {
        "5"
    } else if d == 6 {
        "6"
    } else if d == 7 {
        "7"
    } else if d == 8 {
        "8"
    } else {
        "9"
    }
}

/// The decimal form of a number.
pub fn decimal(n: usize) -> (res: String)
    ensures
        res@ == decimal_spec(n as nat),
        reads_as(res@, n as nat),
    decreases n,
{
    proof {
        lemma_decimal_reads_back(n as nat);
    }
    if n < 10 {
        digit_str(n).to_owned()
    } else {
        decimal(n / 10).concat(digit_str(n % 10))
    }
}

/// The one certificate a caller presented, as DER bytes. Mutual TLS is required, and exactly one
/// peer certificate must have been presented.
pub fn single_peer_cert(certs: Option<Vec<Vec<u8>>>) -> (res: Result<Vec<u8>, Status>)
    ensures
        match certs {
            None => res matches Err(s) && s.code == Code::Unauthenticated && s.message@
                == "mtls required"@,
            Some(v) => if v@.len() == 1 {
                res matches Ok(c) && c@ == v@[0]@
            } else {
                res matches Err(s) && s.code == Code::Unauthenticated && s.message@
                    == "expected exactly one peer cert but got "@ + decimal_spec(v@.len())
            },
        },
{
    match certs {
        None => Err(Status::unauthenticated("mtls required")),
        Some(mut v) => {
            if v.len() == 1 {
                let c = v.pop().unwrap();
                Ok(c)
            } else {
                let msg = "expected exactly one peer cert but got ".to_owned().concat(
                    decimal(v.len()).as_str(),
                );
                Err(Status { code: Code::Unauthenticated, message: msg })
            }
        },
    }
}

/// What `x509_parser::parse_x509_certificate` makes of DER bytes: the text of the certificate's
/// subject, or the text of the parse error.
pub uninterp spec fn x509_subject(der: Seq<u8>) -> Result<Seq<char>, Seq<char>>;

/// Parses a certificate with `x509_parser::parse_x509_certificate` and renders its subject with
/// the `Display` impl of `X509Name` (or the parse error with that of the error type).
///
/// Trusted: parsing and rendering depend on the bytes alone, so the result is named by
/// [`x509_subject`] of the bytes; which text comes back is not stated.
#[verifier::external_body]
fn parse_cert_subject(der: &[u8]) -> (res: Result<String, String>)
    ensures
        match res {
            Ok(subject) => x509_subject(der@) == Ok::<Seq<char>, Seq<char>>(subject@),
            Err(err) => x509_subject(der@) == Err::<Seq<char>, Seq<char>>(err@),
        },
{
    match x509_parser::parse_x509_certificate(der) {
        Ok((_, cert)) => Ok(cert.subject().to_string()),
        Err(err) => Err(err.to_string()),
    }
}

/// The context of a caller, from the parsed subject of its certificate (or the text of the parse
/// error): the subject is the user id; a certificate that did not parse is refused.
pub fn ctx_from_subject(parsed: Result<String, String>) -> (res: Result<Ctx, Status>)
    ensures
        match parsed {
            Ok(subject) => res matches Ok(ctx) && ctx.user.id@ == subject@,
            Err(err) => res matches Err(s) && s.code == Code::Unauthenticated && s.message@
                == "bad cert: "@ + err@,
        },
{
    match parsed {
        Ok(subject) => Ok(Ctx { user: User { id: subject } }),
        Err(err) => {
            let msg = "bad cert: ".to_owned().concat(err.as_str());
            Err(Status { code: Code::Unauthenticated, message: msg })
        },
    }
}

/// The context of a caller, from the DER bytes of its certificate.
pub fn ctx_from_cert(der: &[u8]) -> (res: Result<Ctx, Status>)
    ensures
        match x509_subject(der@) {
            Ok(subject) => res matches Ok(ctx) && ctx.user.id@ == subject,
            Err(err) => res matches Err(s) && s.code == Code::Unauthenticated && s.message@
                == "bad cert: "@ + err,
        },
{
    ctx_from_subject(parse_cert_subject(der))
}

/// The decimal form of a signed number.
pub open spec fn signed_decimal_spec(n: int) -> Seq<char> {
    if n < 0 {
        "-"@ + decimal_spec((-n) as nat)
    } else {
        decimal_spec(n as nat)
    }
}

/// The decimal form of a signed number.
pub fn signed_decimal(n: i32) -> (res: String)
    ensures
        res@ == signed_decimal_spec(n as int),
        reads_as_int(res@, n as int),
{
    proof {
        lemma_signed_decimal_reads_back(n as int);
    }
    if n < 0 {
        let m = (-(n as i64)) as usize;
        "-".to_owned().concat(decimal(m).as_str())
    } else {
        decimal(n as usize)
    }
}

/// The line the client prints for a job's state.
pub open spec fn state_text_spec(state: State) -> Seq<char> {
    match state {
        State::Running(r) => "Running pid="@ + decimal_spec(r.pid as nat),
        State::Exited(e) => "Exited code="@ + signed_decimal_spec(e.exit_code as int),
        State::Crashed(c) => "Crashed signal="@ + signed_decimal_spec(c.signal as int) + " msg="@
            + c.msg@,
    }
}

/// The line the client prints for a job's state.
pub fn state_text(state: &State) -> (res: String)
    ensures
        res@ == state_text_spec(*state),
        state_reads_back(*state, res@),
{
    match state {
        State::Running(r) => "Running pid=".to_owned().concat(decimal(r.pid as usize).as_str()),
        State::Exited(e) => "Exited code=".to_owned().concat(signed_decimal(e.exit_code).as_str()),
        State::Crashed(c) => "Crashed signal=".to_owned().concat(
            signed_decimal(c.signal).as_str(),
        ).concat(" msg=").concat(c.msg.as_str()),
    }
}

} // verus!
