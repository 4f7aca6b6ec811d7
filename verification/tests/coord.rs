use jobs::proc::coord::{
    access, kill_answer, kill_outcome, log_stream_outcome, read_step, Broadcaster, Error,
    Frame, FrameError, FrameEvent, FrameRelay, JobTable, KillError, KillRequest, ReadStep,
    RelayQueue, Reply, StreamKind, TrackerAction, TrackerError, TrackerEvent, TrackerLoop,
    TrackerPlan,
};
use jobs::proc::types::{Ctx, ExitStatus, Job, JobId, JobState, Pid, User};
use std::sync::Arc;

fn job_for(owner: &str) -> Job {
    Job::started(&JobId::from_str("job-1"), &User::new(owner), &Pid::new(10))
}

fn frame_event(kind: StreamKind, bs: &[u8]) -> FrameEvent {
    FrameEvent::Frame(Arc::new(Frame::new(kind, bs)))
}

fn frame_bytes(ev: &FrameEvent) -> Vec<u8> {
    match ev {
        FrameEvent::Frame(f) => f.bs.clone(),
        _ => panic!("not a frame"),
    }
}

#[test]
fn owner_sees_job() {
    let ctx = Ctx::for_user("test-user");
    let id = JobId::from_str("job-1");
    let job = access(&ctx, &id, Some(job_for("test-user"))).unwrap();
    assert_eq!(job.user, User::new("test-user"));
}

#[test]
fn foreign_job_reads_as_missing() {
    let id = JobId::from_str("job-1");
    let foreign = access(&Ctx::for_user("bad-actor"), &id, Some(job_for("test-user")));
    let missing = access(&Ctx::for_user("bad-actor"), &id, None);
    match (foreign, missing) {
        (Err(Error::JobNotFound { job_id: a }), Err(Error::JobNotFound { job_id: b })) => {
            assert_eq!(a, id);
            assert_eq!(b, id);
        }
        other => panic!("unexpected {other:?}"),
    }
}

#[test]
fn kill_after_tracker_quit_is_not_running() {
    let id = JobId::from_str("job-1");
    assert!(matches!(
        kill_outcome(&id, Err(KillError::ReqSendFailed)),
        Err(Error::JobNotRunning { .. })
    ));
    assert!(matches!(
        kill_outcome(&id, Err(KillError::ReqTimeout)),
        Err(Error::Kill(KillError::ReqTimeout))
    ));
    assert!(kill_outcome(&id, Ok(job_for("u"))).is_ok());
}

#[test]
fn kill_answers_map_to_errors() {
    assert!(matches!(kill_answer(Reply::SendFailed), Err(KillError::ReqSendFailed)));
    assert!(matches!(kill_answer(Reply::TimedOut), Err(KillError::ReqTimeout)));
    assert!(matches!(kill_answer(Reply::Dropped), Err(KillError::TxDropped)));
    match kill_answer(Reply::Received(Err(String::from("denied")))) {
        Err(KillError::Failed { err }) => assert_eq!(err, "denied"),
        other => panic!("unexpected {other:?}"),
    }
    assert!(kill_answer(Reply::Received(Ok(job_for("u")))).is_ok());
}

#[test]
fn log_stream_answers_map_to_errors() {
    assert!(matches!(
        log_stream_outcome::<u8>(Reply::SendFailed),
        Err(FrameError::BroadcasterUnavailableForLogs)
    ));
    assert!(matches!(
        log_stream_outcome::<u8>(Reply::TimedOut),
        Err(FrameError::TimeoutWaitingForLogRx)
    ));
    assert!(matches!(
        log_stream_outcome::<u8>(Reply::Dropped),
        Err(FrameError::GetLogStream)
    ));
    assert_eq!(log_stream_outcome(Reply::Received(5u8)).unwrap(), 5);
}

#[test]
fn read_step_frames_bytes_read() {
    let buf = b"foobar\nrest";
    match read_step(StreamKind::Stdout, buf, Ok(7)) {
        ReadStep::Frame(f) => {
            assert_eq!(f.kind, StreamKind::Stdout);
            assert_eq!(f.bs, b"foobar\n");
        }
        other => panic!("unexpected {other:?}"),
    }
    assert!(matches!(read_step(StreamKind::Stderr, buf, Ok(0)), ReadStep::End));
    match read_step(StreamKind::Stderr, buf, Err(String::from("boom"))) {
        ReadStep::Fail(err) => assert_eq!(err.message(), "read stderr: boom"),
        other => panic!("unexpected {other:?}"),
    }
}

#[test]
fn tracker_error_messages() {
    let e = TrackerError::WaitChild { err: String::from("x") };
    assert_eq!(e.message(), "failed to wait for child process: x");
    let e = TrackerError::BroadcasterDisappeared { err: String::from("channel closed") };
    assert_eq!(e.message(), "broadcaster disappeared: channel closed");
}

#[test]
fn job_table_tracks_each_id_once() {
    let mut table: JobTable<u32> = JobTable::new();
    let id = JobId::from_str("a");
    assert!(table.track(&id, 1));
    assert!(!table.track(&id, 2));
    assert_eq!(table.get(&id), Some(&1));
    assert_eq!(table.get(&JobId::from_str("b")), None);
    assert_eq!(table.len(), 1);
}

#[test]
fn tracker_runs_job_to_clean_exit() {
    let mut lp: TrackerLoop<u8> = TrackerLoop::new();
    let mut job = job_for("u");
    let ev = TrackerEvent::Output {
        kind: StreamKind::Stdout,
        item: Some(Ok(Frame::new(StreamKind::Stdout, b"foobar\n"))),
    };
    match lp.step(&mut job, ev) {
        TrackerAction::Forward(f) => assert_eq!(frame_bytes(&f), b"foobar\n"),
        _ => panic!("expected a forward"),
    }
    assert!(matches!(
        lp.step(&mut job, TrackerEvent::Output { kind: StreamKind::Stdout, item: None }),
        TrackerAction::Continue
    ));
    assert!(matches!(
        lp.step(&mut job, TrackerEvent::Output { kind: StreamKind::Stderr, item: None }),
        TrackerAction::Continue
    ));
    assert!(matches!(
        lp.plan(),
        TrackerPlan::Wait { stdout: false, stderr: false, kill: true, child: true }
    ));
    match lp.step(&mut job, TrackerEvent::ChildExited(Ok(ExitStatus { code: Some(0), signal: None }))) {
        TrackerAction::ReplyKilled { reqs, job: j } => {
            assert!(reqs.is_empty());
            assert_eq!(j.state, JobState::exited(0));
        }
        _ => panic!("expected replies"),
    }
    assert_eq!(job.state, JobState::exited(0));
    assert!(job.ended_at.is_some());
    assert!(job.killed.is_none());
    assert!(matches!(lp.plan(), TrackerPlan::Finish(FrameEvent::EOF)));
}

#[test]
fn tracker_kill_is_answered_on_exit() {
    let mut lp: TrackerLoop<u8> = TrackerLoop::new();
    let mut job = job_for("owner");
    let req = KillRequest::new(User::new("owner"), 7u8);
    let req = match lp.step(&mut job, TrackerEvent::KillRequested(Some(req))) {
        TrackerAction::KillChild(r) => r,
        _ => panic!("expected a kill"),
    };
    assert!(matches!(
        lp.step(&mut job, TrackerEvent::KillAttempted { req, result: Ok(()) }),
        TrackerAction::Continue
    ));
    assert_eq!(job.killed.as_ref().unwrap().user, User::new("owner"));
    assert!(job.state.is_running());
    let failed = KillRequest::new(User::new("owner"), 8u8);
    match lp.step(
        &mut job,
        TrackerEvent::KillAttempted { req: failed, result: Err(String::from("denied")) },
    ) {
        TrackerAction::RejectKill { req, err } => {
            assert_eq!(req.tx, 8);
            assert_eq!(err, "denied");
        }
        _ => panic!("expected a rejection"),
    }
    match lp.step(&mut job, TrackerEvent::ChildExited(Ok(ExitStatus { code: None, signal: None }))) {
        TrackerAction::ReplyKilled { reqs, job: j } => {
            assert_eq!(reqs.len(), 1);
            assert_eq!(reqs[0].tx, 7);
            assert!(j.state.is_exited());
            assert!(j.killed.is_some());
        }
        _ => panic!("expected replies"),
    }
    assert_eq!(lp.pending_kills(), 0);
}

#[test]
fn tracker_error_ends_loop_with_error_event() {
    let mut lp: TrackerLoop<u8> = TrackerLoop::new();
    let mut job = job_for("u");
    let item = Some(Err(TrackerError::ReadOutput {
        kind: StreamKind::Stderr,
        err: String::from("bad fd"),
    }));
    lp.step(&mut job, TrackerEvent::Output { kind: StreamKind::Stderr, item });
    match lp.plan() {
        TrackerPlan::Finish(FrameEvent::Error(e)) => {
            assert_eq!(e.message(), "read stderr: bad fd")
        }
        _ => panic!("expected an error finish"),
    }
    let mut lp: TrackerLoop<u8> = TrackerLoop::new();
    lp.step(&mut job, TrackerEvent::ForwardFailed { err: String::from("closed") });
    assert!(matches!(lp.plan(), TrackerPlan::Finish(FrameEvent::Error(_))));
    let mut lp: TrackerLoop<u8> = TrackerLoop::new();
    lp.step(&mut job, TrackerEvent::ChildExited(Err(String::from("wait"))));
    assert!(matches!(lp.plan(), TrackerPlan::Finish(FrameEvent::Error(_))));
    assert!(job.state.is_running());
}

#[test]
fn broadcaster_buffers_and_drops_full_relays() {
    let mut b = Broadcaster::new();
    let (tx1, mut rx1) = tokio::sync::mpsc::channel(8);
    let (tx2, _rx2) = tokio::sync::mpsc::channel(1);
    b.on_frame(Some(frame_event(StreamKind::Stdout, b"a")));
    b.on_relay_started(Some(FrameRelay::new(tx1)));
    b.on_relay_started(Some(FrameRelay::new(tx2)));
    assert_eq!(b.relay_count(), 2);
    b.on_frame(Some(frame_event(StreamKind::Stdout, b"b")));
    assert_eq!(b.relay_count(), 2);
    // the second relay's channel holds one event and is now full
    b.on_frame(Some(frame_event(StreamKind::Stderr, b"c")));
    assert_eq!(b.relay_count(), 1);
    assert_eq!(frame_bytes(&rx1.try_recv().unwrap()), b"b");
    assert_eq!(frame_bytes(&rx1.try_recv().unwrap()), b"c");
    let snap = b.snapshot();
    let all: Vec<Vec<u8>> = snap.iter().map(frame_bytes).collect();
    assert_eq!(all, vec![b"a".to_vec(), b"b".to_vec(), b"c".to_vec()]);
    b.on_frame(None);
    assert_eq!(b.relay_count(), 0);
    assert!(!b.is_done());
    let (tx3, _rx3) = tokio::sync::mpsc::channel(1);
    b.on_relay_started(Some(FrameRelay::new(tx3)));
    assert_eq!(b.relay_count(), 0);
    assert_eq!(b.snapshot().len(), 3);
    b.on_requests_closed();
    assert!(b.is_done());
}

#[test]
fn relay_sends_everything_in_order() {
    let start = vec![frame_event(StreamKind::Stdout, b"1"), frame_event(StreamKind::Stdout, b"2")];
    let mut q = RelayQueue::new(start);
    let first = q.next_to_send().unwrap();
    assert_eq!(frame_bytes(&first), b"1");
    // asking again before the send finished gives the same event
    assert_eq!(frame_bytes(&q.next_to_send().unwrap()), b"1");
    q.push(frame_event(StreamKind::Stderr, b"3"));
    q.mark_sent();
    assert_eq!(frame_bytes(&q.next_to_send().unwrap()), b"2");
    q.push(FrameEvent::EOF);
    let rest = q.drain();
    assert_eq!(rest.len(), 3);
    assert_eq!(frame_bytes(&rest[0]), b"2");
    assert_eq!(frame_bytes(&rest[1]), b"3");
    assert!(matches!(rest[2], FrameEvent::EOF));
    let mut empty = RelayQueue::new(vec![]);
    assert!(empty.next_to_send().is_none());
    assert!(empty.drain().is_empty());
}

#[test]
fn tracker_records_kill_time_of_request_and_end_not_before_start() {
    let mut lp: TrackerLoop<u8> = TrackerLoop::new();
    let mut job = job_for("owner");
    // a start time far in the future: the readings must be clamped up to it
    job.started_at = jobs::proc::types::Timestamp { secs: 4_000_000_000, nanos: 3 };
    let mut req = KillRequest::new(User::new("owner"), 1u8);
    req.requested_at = jobs::proc::types::Timestamp { secs: 4_000_000_001, nanos: 0 };
    lp.step(&mut job, TrackerEvent::KillAttempted { req, result: Ok(()) });
    let killed_at = job.killed.as_ref().unwrap().killed_at;
    assert_eq!(killed_at, jobs::proc::types::Timestamp { secs: 4_000_000_001, nanos: 0 });
    lp.step(&mut job, TrackerEvent::ChildExited(Ok(ExitStatus { code: Some(0), signal: None })));
    let ended = job.ended_at.unwrap();
    assert!(ended.secs > 4_000_000_000 || (ended.secs == 4_000_000_000 && ended.nanos >= 3));
}

#[test]
fn relay_that_refuses_an_event_is_dropped() {
    let mut b = Broadcaster::new();
    let (tx, mut rx) = tokio::sync::mpsc::channel(1);
    b.on_relay_started(Some(FrameRelay::new(tx)));
    b.on_frame(Some(frame_event(StreamKind::Stdout, b"x")));
    assert_eq!(b.relay_count(), 1);
    // the channel is full now: the next event is refused and the relay dropped
    b.on_frame(Some(frame_event(StreamKind::Stdout, b"y")));
    assert_eq!(b.relay_count(), 0);
    assert_eq!(frame_bytes(&rx.try_recv().unwrap()), b"x");
    assert!(rx.try_recv().is_err());
    let (tx2, mut rx2) = tokio::sync::mpsc::channel(4);
    b.on_relay_started(Some(FrameRelay::new(tx2)));
    b.on_frame(Some(frame_event(StreamKind::Stdout, b"1")));
    b.on_frame(Some(frame_event(StreamKind::Stdout, b"2")));
    assert_eq!(b.relay_count(), 1);
    assert_eq!(frame_bytes(&rx2.try_recv().unwrap()), b"1");
    assert_eq!(frame_bytes(&rx2.try_recv().unwrap()), b"2");
    drop(rx2);
    b.on_frame(Some(frame_event(StreamKind::Stdout, b"3")));
    assert_eq!(b.relay_count(), 0);
    assert_eq!(b.frame_count(), 5);
    assert!(b.frames_open());
    assert!(b.requests_open());
}

#[test]
fn kill_request_is_stamped_with_the_current_time() {
    let secs_now = || {
        std::time::SystemTime::now().duration_since(std::time::UNIX_EPOCH).unwrap().as_secs() as i64
    };
    let before = secs_now();
    let req = KillRequest::new(User::new("owner"), 1u8);
    let after = secs_now();
    assert!(before <= req.requested_at.secs && req.requested_at.secs <= after);
    assert!(req.requested_at.nanos < 1_000_000_000);
    assert_eq!(req.user, User::new("owner"));
}
