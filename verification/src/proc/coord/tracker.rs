//! The control loop that tracks a job's child process.
//!
//! The loop waits on four sources at once: frames read from the child's stdout and stderr, kill
//! requests, and the child's exit. [`TrackerLoop`] holds the loop's decisions: the driver asks it
//! which sources to wait on ([`TrackerLoop::plan`]), hands it whatever arrived
//! ([`TrackerLoop::step`]) and carries out the action it returns.

use std::sync::Arc;
use vstd::prelude::*;

use super::{Frame, FrameEvent, StreamKind, TrackerError};
use crate::proc::clock::{now_not_before, now_or_epoch, valid_instant};
use crate::proc::types::{ts_le, ExitStatus, Job, JobKilled, JobState, Timestamp, User};

verus! {

/// A request to kill a job, made by `user` at `requested_at`; the outcome is answered on `tx`.
pub struct KillRequest<R> {
    pub user: User,
    pub requested_at: Timestamp,
    pub tx: R,
}

impl<R> KillRequest<R> {
    /// A request made now by the given user, answered on `tx`. It is stamped with the current
    /// time (the epoch when the clock cannot be read as an instant after it).
    pub fn new(user: User, tx: R) -> (res: Self)
        ensures
            res.user == user,
            res.tx == tx,
            valid_instant(res.requested_at),
    {
        KillRequest { user, requested_at: now_or_epoch(), tx }
    }
}

/// Something that arrived while the loop was waiting, or the outcome of an action.
pub enum TrackerEvent<R> {
    /// The next item of one output stream: a frame, a read error, or `None` when the stream ended.
    Output { kind: StreamKind, item: Option<Result<Frame, TrackerError>> },
    /// Handing a frame to the broadcaster failed; holds the description of the send error.
    ForwardFailed { err: String },
    /// The next kill request, or `None` when no more can arrive.
    KillRequested(Option<KillRequest<R>>),
    /// The outcome of killing the child for the given request.
    KillAttempted { req: KillRequest<R>, result: Result<(), String> },
    /// The outcome of waiting for the child to exit.
    ChildExited(Result<ExitStatus, String>),
}

/// What the driver must do next.
pub enum TrackerAction<R> {
    /// Nothing: wait again.
    Continue,
    /// Hand the event to the broadcaster; report a failure with [`TrackerEvent::ForwardFailed`].
    Forward(FrameEvent),
    /// Kill the child and report the outcome with [`TrackerEvent::KillAttempted`].
    KillChild(KillRequest<R>),
    /// Answer the request with the error.
    RejectKill { req: KillRequest<R>, err: String },
    /// Answer each request with the job, which has exited.
    ReplyKilled { reqs: Vec<KillRequest<R>>, job: Job },
}

/// Which sources to wait on, or how the loop ends.
pub enum TrackerPlan {
    /// The loop is over: hand this last event to the broadcaster.
    Finish(FrameEvent),
    /// Wait on the sources whose flag is set.
    Wait { stdout: bool, stderr: bool, kill: bool, child: bool },
}

/// Whether a job snapshot is consistent: it has an end time exactly when it has exited.
pub open spec fn job_consistent(job: Job) -> bool {
    job.ended_at is Some <==> job.state is Exited
}

/// Whether snapshot `b` can follow snapshot `a` of the same job: the id, user and start time are
/// kept, an exited job stays exited as it was, and a consistent snapshot stays consistent.
pub open spec fn follows(a: Job, b: Job) -> bool {
    &&& b.id == a.id
    &&& b.user == a.user
    &&& b.started_at == a.started_at
    &&& a.state is Exited ==> b.state == a.state && b.ended_at == a.ended_at
    &&& job_consistent(a) ==> job_consistent(b)
}

/// The state of the tracking loop of one job.
pub struct TrackerLoop<R> {
    stdout_ok: bool,
    stderr_ok: bool,
    kill_ok: bool,
    child_ok: bool,
    loop_err: Option<TrackerError>,
    kill_reqs: Vec<KillRequest<R>>,
    forwarded: Ghost<Seq<FrameEvent>>,
}

/// Whether every event of the sequence is an output frame.
pub open spec fn all_frames(s: Seq<FrameEvent>) -> bool {
    forall|i: int| 0 <= i < s.len() ==> #[trigger] s[i] is Frame
}

/// The events the broadcaster receives over a whole run: every forwarded event, then the last one.
pub open spec fn run_stream(forwarded: Seq<FrameEvent>, last: FrameEvent) -> Seq<FrameEvent> {
    forwarded.push(last)
}

impl<R> TrackerLoop<R> {
    /// Only output frames are ever forwarded while the loop runs: the terminal event is handed
    /// over once, by [`TrackerLoop::plan`], when the loop is over.
    #[verifier::type_invariant]
    spec fn forwards_only_frames(self) -> bool {
        all_frames(self.forwarded@)
    }

    /// Whether stdout may still yield frames.
    pub closed spec fn stdout_ok(&self) -> bool {
        self.stdout_ok
    }

    /// Whether stderr may still yield frames.
    pub closed spec fn stderr_ok(&self) -> bool {
        self.stderr_ok
    }

    /// Whether kill requests may still arrive.
    pub closed spec fn kill_ok(&self) -> bool {
        self.kill_ok
    }

    /// Whether the child has not been seen to exit yet.
    pub closed spec fn child_ok(&self) -> bool {
        self.child_ok
    }

    /// The error that ended the loop, if one did.
    pub closed spec fn loop_err(&self) -> Option<TrackerError> {
        self.loop_err
    }

    /// Requests whose kill succeeded; they are answered once the child has exited.
    pub closed spec fn kill_reqs(&self) -> Seq<KillRequest<R>> {
        self.kill_reqs@
    }

    /// How many requests whose kill succeeded wait for the child to exit.
    pub fn pending_kills(&self) -> (n: usize)
        ensures
            n == self.kill_reqs().len(),
    {
        self.kill_reqs.len()
    }

    /// Every event the loop has had forwarded to the broadcaster, in order.
    pub closed spec fn forwarded(&self) -> Seq<FrameEvent> {
        self.forwarded@
    }

    /// Whether the loop is over: an error stopped it, or the child exited and both of its output
    /// streams have ended.
    pub open spec fn finished(&self) -> bool {
        self.loop_err() is Some || (!self.child_ok() && !self.stdout_ok() && !self.stderr_ok())
    }

    /// Whether the loop and the job snapshot agree: the snapshot is consistent, the job is running
    /// until its child has been seen to exit, and once the child was seen to exit without an
    /// error the job has exited.
    pub open spec fn tracks(&self, job: Job) -> bool {
        &&& job_consistent(job)
        &&& self.child_ok() ==> job.state is Running
        &&& (!self.child_ok() && self.loop_err() is None) ==> job.state is Exited
    }

    /// Whether the event may arrive now: an item of a stream, a kill request or the child's exit
    /// is only awaited while that source is live.
    pub open spec fn expects(&self, event: TrackerEvent<R>) -> bool {
        match event {
            TrackerEvent::Output { kind, item: _ } => match kind {
                StreamKind::Stdout => self.stdout_ok(),
                StreamKind::Stderr => self.stderr_ok(),
            },
            TrackerEvent::KillRequested(_) => self.kill_ok(),
            TrackerEvent::ChildExited(_) => self.child_ok(),
            _ => true,
        }
    }

    /// The loop of a freshly spawned child: every source is live and no kill is pending.
    pub fn new() -> (res: Self)
        ensures
            res.stdout_ok() && res.stderr_ok() && res.kill_ok() && res.child_ok(),
            res.loop_err() is None,
            res.kill_reqs().len() == 0,
            res.forwarded().len() == 0,
            all_frames(res.forwarded()),
    {
        TrackerLoop {
            stdout_ok: true,
            stderr_ok: true,
            kill_ok: true,
            child_ok: true,
            loop_err: None,
            kill_reqs: Vec::new(),
            forwarded: Ghost(Seq::empty()),
        }
    }

    /// What to do next: finish with an error event after a failure, finish with end-of-file once
    /// the child exited and its streams ended, and otherwise wait on the live sources.
    pub fn plan(&self) -> (res: TrackerPlan)
        ensures
            match res {
                TrackerPlan::Finish(ev) => self.finished() && match self.loop_err() {
                    Some(err) => ev matches FrameEvent::Error(e) && *e == err,
                    None => ev is EOF,
                },
                TrackerPlan::Wait { stdout, stderr, kill, child } => {
                    &&& !self.finished()
                    &&& stdout == self.stdout_ok()
                    &&& stderr == self.stderr_ok()
                    &&& kill == self.kill_ok()
                    &&& child == self.child_ok()
                },
            },
    {
        match &self.loop_err {
            Some(err) => TrackerPlan::Finish(FrameEvent::Error(Arc::new(err.clone()))),
            None => {
                if !self.child_ok && !self.stdout_ok && !self.stderr_ok {
                    TrackerPlan::Finish(FrameEvent::EOF)
                } else {
                    TrackerPlan::Wait {
                        stdout: self.stdout_ok,
                        stderr: self.stderr_ok,
                        kill: self.kill_ok,
                        child: self.child_ok,
                    }
                }
            },
        }
    }

    /// Takes in one event, updating the loop and the job snapshot, and says what to do.
    ///
    /// * An ended stream is no longer awaited; a read error ends the loop; a frame is forwarded.
    /// * A failed forward ends the loop.
    /// * When no more kill requests can arrive they are no longer awaited; a request makes the
    ///   driver kill the child. A failed kill is answered with its error; a successful one marks
    ///   the job as killed by the requester at the time of the request and waits for the child
    ///   to exit.
    /// * When the child exits the job records the end time and exit status, and every pending
    ///   kill request is answered with the exited job. A failed wait ends the loop.
    #[verifier::rlimit(40)]
    pub fn step(&mut self, job: &mut Job, event: TrackerEvent<R>) -> (action: TrackerAction<R>)
        requires
            !old(self).finished(),
            old(self).expects(event),
        ensures
            job_consistent(*old(job)) ==> job_consistent(*final(job)),
            old(self).tracks(*old(job)) ==> final(self).tracks(*final(job)),
            old(self).tracks(*old(job)) ==> follows(*old(job), *final(job)),
            final(job).id == old(job).id,
            final(job).user == old(job).user,
            final(job).started_at == old(job).started_at,
            old(self).tracks(*old(job)) && old(job).state is Exited ==> final(job).state == old(
                job,
            ).state && final(job).ended_at == old(job).ended_at,
            (final(job).ended_at is Some && old(job).ended_at is None) ==> ts_le(
                old(job).started_at,
                final(job).ended_at->0,
            ),
            match action {
                TrackerAction::Forward(ev) => final(self).forwarded() == old(self).forwarded().push(
                    ev,
                ),
                _ => final(self).forwarded() == old(self).forwarded(),
            },
            all_frames(final(self).forwarded()),
            match event {
                TrackerEvent::Output { kind, item } => {
                    &&& *final(job) == *old(job)
                    &&& final(self).kill_ok() == old(self).kill_ok()
                    &&& final(self).child_ok() == old(self).child_ok()
                    &&& final(self).kill_reqs() == old(self).kill_reqs()
                    &&& match item {
                        None => {
                            &&& action is Continue
                            &&& final(self).loop_err() == old(self).loop_err()
                            &&& final(self).stdout_ok() == (old(self).stdout_ok() && kind
                                != StreamKind::Stdout)
                            &&& final(self).stderr_ok() == (old(self).stderr_ok() && kind
                                != StreamKind::Stderr)
                        },
                        Some(Err(err)) => {
                            &&& action is Continue
                            &&& final(self).loop_err() == Some(err)
                            &&& final(self).stdout_ok() == old(self).stdout_ok()
                            &&& final(self).stderr_ok() == old(self).stderr_ok()
                        },
                        Some(Ok(frame)) => {
                            &&& action matches TrackerAction::Forward(FrameEvent::Frame(f)) && *f
                                == frame
                            &&& final(self).loop_err() == old(self).loop_err()
                            &&& final(self).stdout_ok() == old(self).stdout_ok()
                            &&& final(self).stderr_ok() == old(self).stderr_ok()
                        },
                    }
                },
                TrackerEvent::ForwardFailed { err } => {
                    &&& action is Continue
                    &&& *final(job) == *old(job)
                    &&& final(self).loop_err() == Some(TrackerError::BroadcasterDisappeared { err })
                    &&& final(self).stdout_ok() == old(self).stdout_ok()
                    &&& final(self).stderr_ok() == old(self).stderr_ok()
                    &&& final(self).kill_ok() == old(self).kill_ok()
                    &&& final(self).child_ok() == old(self).child_ok()
                    &&& final(self).kill_reqs() == old(self).kill_reqs()
                },
                TrackerEvent::KillRequested(req) => {
                    &&& *final(job) == *old(job)
                    &&& final(self).loop_err() == old(self).loop_err()
                    &&& final(self).stdout_ok() == old(self).stdout_ok()
                    &&& final(self).stderr_ok() == old(self).stderr_ok()
                    &&& final(self).child_ok() == old(self).child_ok()
                    &&& final(self).kill_reqs() == old(self).kill_reqs()
                    &&& match req {
                        None => action is Continue && !final(self).kill_ok(),
                        Some(r) => action == TrackerAction::KillChild(r) && final(self).kill_ok()
                            == old(self).kill_ok(),
                    }
                },
                TrackerEvent::KillAttempted { req, result } => {
                    &&& final(self).loop_err() == old(self).loop_err()
                    &&& final(self).stdout_ok() == old(self).stdout_ok()
                    &&& final(self).stderr_ok() == old(self).stderr_ok()
                    &&& final(self).kill_ok() == old(self).kill_ok()
                    &&& final(self).child_ok() == old(self).child_ok()
                    &&& final(job).state == old(job).state
                    &&& final(job).ended_at == old(job).ended_at
                    &&& match result {
                        Err(err) => {
                            &&& action == TrackerAction::RejectKill { req, err }
                            &&& *final(job) == *old(job)
                            &&& final(self).kill_reqs() == old(self).kill_reqs()
                        },
                        Ok(()) => {
                            &&& action is Continue
                            &&& final(job).killed matches Some(k) && k.user == req.user
                                && k.killed_at == req.requested_at
                            &&& final(self).kill_reqs() == old(self).kill_reqs().push(req)
                        },
                    }
                },
                TrackerEvent::ChildExited(outcome) => {
                    &&& !final(self).child_ok()
                    &&& final(self).stdout_ok() == old(self).stdout_ok()
                    &&& final(self).stderr_ok() == old(self).stderr_ok()
                    &&& final(self).kill_ok() == old(self).kill_ok()
                    &&& final(job).killed == old(job).killed
                    &&& match outcome {
                        Ok(status) => {
                            &&& final(self).loop_err() == old(self).loop_err()
                            &&& final(job).state == (JobState::Exited { status })
                            &&& final(job).ended_at matches Some(t) && ts_le(old(job).started_at, t)
                            &&& final(self).kill_reqs().len() == 0
                            &&& action matches TrackerAction::ReplyKilled { reqs, job: j } && reqs@
                                == old(self).kill_reqs() && j == *final(job)
                        },
                        Err(err) => {
                            &&& action is Continue
                            &&& *final(job) == *old(job)
                            &&& final(self).loop_err() == Some(TrackerError::WaitChild { err })
                            &&& final(self).kill_reqs() == old(self).kill_reqs()
                        },
                    }
                },
            },
    {
        proof {
            use_type_invariant(&*self);
        }
        match event {
            TrackerEvent::Output { kind, item } => match item {
                None => {
                    match kind {
                        StreamKind::Stdout => self.stdout_ok = false,
                        StreamKind::Stderr => self.stderr_ok = false,
                    }
                    TrackerAction::Continue
                },
                Some(Err(err)) => {
                    self.loop_err = Some(err);
                    TrackerAction::Continue
                },
                Some(Ok(frame)) => {
                    let ev = FrameEvent::Frame(Arc::new(frame));
                    proof {
                        self.forwarded@ = self.forwarded@.push(ev);
                    }
                    TrackerAction::Forward(ev)
                },
            },
            TrackerEvent::ForwardFailed { err } => {
                self.loop_err = Some(TrackerError::BroadcasterDisappeared { err });
                TrackerAction::Continue
            },
            TrackerEvent::KillRequested(req) => match req {
                None => {
                    self.kill_ok = false;
                    TrackerAction::Continue
                },
                Some(r) => TrackerAction::KillChild(r),
            },
            TrackerEvent::KillAttempted { req, result } => match result {
                Err(err) => TrackerAction::RejectKill { req, err },
                Ok(()) => {
                    job.killed = Some(
                        JobKilled {
                            killed_at: req.requested_at,
                            user: req.user.clone(),
                        },
                    );
                    let mut reqs: Vec<KillRequest<R>> = Vec::new();
                    std::mem::swap(&mut reqs, &mut self.kill_reqs);
                    reqs.push(req);
                    self.kill_reqs = reqs;
                    TrackerAction::Continue
                },
            },
            TrackerEvent::ChildExited(outcome) => {
                self.child_ok = false;
                match outcome {
                    Ok(status) => {
                        job.ended_at = Some(now_not_before(job.started_at));
                        job.state = JobState::Exited { status };
                        let mut reqs: Vec<KillRequest<R>> = Vec::new();
                        std::mem::swap(&mut reqs, &mut self.kill_reqs);
                        TrackerAction::ReplyKilled { reqs, job: job.clone() }
                    },
                    Err(err) => {
                        self.loop_err = Some(TrackerError::WaitChild { err });
                        TrackerAction::Continue
                    },
                }
            },
        }
    }
}

/// Over a whole run, the broadcaster receives output frames and then exactly one terminal event,
/// the last: end-of-file when the run ended cleanly, the error that stopped it otherwise. (That a
/// loop forwards only frames is its type invariant; `new` and `step` state it of every loop they
/// return.)
pub proof fn lemma_run_ends_with_one_terminal_event<R>(lp: TrackerLoop<R>, last: FrameEvent)
    requires
        all_frames(lp.forwarded()),
        lp.finished(),
        match lp.loop_err() {
            Some(err) => last matches FrameEvent::Error(e) && *e == err,
            None => last is EOF,
        },
    ensures
        run_stream(lp.forwarded(), last).last() == last,
        !(last is Frame),
        forall|i: int|
            0 <= i < run_stream(lp.forwarded(), last).len() ==> (!(#[trigger] run_stream(
                lp.forwarded(),
                last,
            )[i] is Frame) <==> i == run_stream(lp.forwarded(), last).len() - 1),
        lp.loop_err() is None <==> last is EOF,
{
    let s = run_stream(lp.forwarded(), last);
    assert forall|i: int| 0 <= i < s.len() implies (!(#[trigger] s[i] is Frame) <==> i == s.len()
        - 1) by {
        if i < s.len() - 1 {
            assert(s[i] == lp.forwarded()[i]);
        }
    }
}

/// Successive snapshots of a job, each a step after the one before, all follow one another: a
/// later read of a job shows the same id, user and start time, never shows an exited job running
/// again or with another end, and stays consistent.
pub proof fn lemma_snapshots_follow(trace: Seq<Job>, i: int, j: int)
    requires
        forall|k: int| 0 <= k < trace.len() - 1 ==> follows(#[trigger] trace[k], trace[k + 1]),
        0 <= i <= j < trace.len(),
    ensures
        follows(trace[i], trace[j]),
    decreases j - i,
{
    if i < j {
        lemma_snapshots_follow(trace, i, j - 1);
        assert(follows(trace[j - 1], trace[j]));
    }
}

/// A freshly started job is tracked by a fresh loop.
pub proof fn lemma_fresh_loop_tracks<R>(lp: TrackerLoop<R>, job: Job)
    requires
        lp.stdout_ok() && lp.stderr_ok() && lp.kill_ok() && lp.child_ok(),
        lp.loop_err() is None,
        job.state is Running,
        job.ended_at is None,
    ensures
        lp.tracks(job),
{
}

/// When the loop ends normally, with end-of-file rather than an error, the job has exited and
/// records when it ended.
pub proof fn lemma_clean_finish_means_exited<R>(lp: TrackerLoop<R>, job: Job)
    requires
        lp.tracks(job),
        lp.finished(),
        lp.loop_err() is None,
    ensures
        job.state is Exited,
        job.ended_at is Some,
{
}

} // verus!
