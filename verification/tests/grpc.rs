use jobs::grpc::{
    ctx_from_cert, ctx_from_subject, datetime_to_timestamp, decimal, job_to_proto, kill_reply,
    log_frame, log_step, ps_reply, requested_job_id, single_peer_cert, spawn_job_spec,
    spawn_reply, user_to_proto, validate_job_id, Code, GrpcStoreImpl, LogStep, Status, Validate,
};
use jobs::grpc::{signed_decimal, state_text};
use jobs::pb::jobs::job::State;
use jobs::pb::jobs::JobCrashedState;
use jobs::pb::jobs::{
    JobExitedState, JobRunningState, KillRequest, LogsRequest, PsRequest, SpawnRequest,
};
use jobs::pb::Timestamp as WireTimestamp;
use jobs::proc::coord::{Error, Frame, FrameEvent, KillError, StreamKind, TrackerError};
use jobs::proc::types::{ExitStatus, Job, JobId, JobKilled, JobState, Pid, Timestamp, User};
use std::sync::Arc;

const ED25519_CERT: [u8; 268] = [
    48, 130, 1, 8, 48, 129, 187, 2, 20, 119, 229, 244, 192, 52, 136, 161, 34, 108, 245, 205, 69,
    243, 205, 240, 73, 145, 248, 21, 67, 48, 5, 6, 3, 43, 101, 112, 48, 39, 49, 11, 48, 9, 6, 3,
    85, 4, 6, 19, 2, 68, 69, 49, 24, 48, 22, 6, 3, 85, 4, 3, 12, 15, 119, 119, 119, 46, 101, 120,
    97, 109, 112, 108, 101, 46, 99, 111, 109, 48, 30, 23, 13, 50, 49, 48, 55, 50, 55, 49, 50, 51,
    55, 49, 52, 90, 23, 13, 50, 51, 48, 54, 50, 55, 49, 50, 51, 55, 49, 52, 90, 48, 39, 49, 11,
    48, 9, 6, 3, 85, 4, 6, 19, 2, 68, 69, 49, 24, 48, 22, 6, 3, 85, 4, 3, 12, 15, 119, 119, 119,
    46, 101, 120, 97, 109, 112, 108, 101, 46, 99, 111, 109, 48, 42, 48, 5, 6, 3, 43, 101, 112, 3,
    33, 0, 62, 164, 5, 210, 239, 25, 245, 224, 171, 243, 62, 77, 245, 78, 229, 29, 5, 68, 121, 61,
    152, 226, 103, 37, 55, 244, 255, 202, 248, 96, 152, 76, 48, 5, 6, 3, 43, 101, 112, 3, 65, 0,
    32, 219, 122, 230, 250, 194, 136, 233, 89, 244, 106, 202, 178, 215, 44, 72, 13, 85, 188, 15,
    39, 87, 50, 82, 104, 63, 232, 1, 170, 158, 131, 210, 35, 195, 180, 140, 23, 147, 112, 107, 222,
    13, 196, 170, 54, 113, 200, 131, 131, 177, 228, 26, 110, 82, 139, 214, 188, 2, 166, 38, 234,
    141, 213, 2,
];

fn sample_job(state: JobState) -> Job {
    Job {
        id: JobId::from_str("job-id"),
        user: User::new("test-user"),
        killed: None,
        started_at: Timestamp { secs: 100, nanos: 5 },
        ended_at: None,
        state,
    }
}

#[test]
fn spawn_requires_a_name() {
    let req = SpawnRequest { name: String::new(), args: vec![] };
    let err = req.validate().unwrap_err();
    assert_eq!(err.code, Code::InvalidArgument);
    assert_eq!(err.message, "name required");
    let err = spawn_job_spec(&req).unwrap_err();
    assert_eq!(err.message, "name required");
    let req = SpawnRequest { name: String::from("echo"), args: vec![String::from("foobar")] };
    assert!(req.validate().is_ok());
    let spec = spawn_job_spec(&req).unwrap();
    assert_eq!(spec.exe_and_args(), vec!["echo", "foobar"]);
}

#[test]
fn job_id_is_required() {
    for err in [
        LogsRequest { job_id: String::new() }.validate().unwrap_err(),
        PsRequest { job_id: String::new() }.validate().unwrap_err(),
        KillRequest { job_id: String::new() }.validate().unwrap_err(),
        validate_job_id("").unwrap_err(),
        requested_job_id("").unwrap_err(),
    ] {
        assert_eq!(err.code, Code::InvalidArgument);
        assert_eq!(err.message, "job id required");
    }
    assert!(PsRequest { job_id: String::from("x") }.validate().is_ok());
    assert_eq!(requested_job_id("abc").unwrap(), JobId::from_str("abc"));
}

#[test]
fn errors_map_to_statuses() {
    let id = JobId::from_str("j");
    let s = Status::from_error(&Error::JobNotFound { job_id: id.clone() });
    assert_eq!((s.code, s.message.as_str()), (Code::NotFound, "job not found"));
    let s = Status::from_error(&Error::JobNotRunning { job_id: id.clone() });
    assert_eq!((s.code, s.message.as_str()), (Code::NotFound, "job not found"));
    let s = Status::from_error(&Error::Kill(KillError::ReqTimeout));
    assert_eq!((s.code, s.message.as_str()), (Code::Internal, ""));
    let s = Status::from_error(&Error::NoPid { job_id: id });
    assert_eq!((s.code, s.message.as_str()), (Code::Internal, ""));
}

#[test]
fn timestamps_are_normalized() {
    assert_eq!(
        datetime_to_timestamp(Timestamp { secs: 1_700_000_000, nanos: 123 }),
        WireTimestamp { seconds: 1_700_000_000, nanos: 123 }
    );
    assert_eq!(
        datetime_to_timestamp(Timestamp { secs: 59, nanos: 1_500_000_000 }),
        WireTimestamp { seconds: 60, nanos: 500_000_000 }
    );
    assert_eq!(
        datetime_to_timestamp(Timestamp { secs: -2, nanos: 250 }),
        WireTimestamp { seconds: -2, nanos: 250 }
    );
}

#[test]
fn job_converts_to_wire() {
    let mut job = sample_job(JobState::Exited { status: ExitStatus { code: Some(3), signal: None } });
    job.ended_at = Some(Timestamp { secs: 200, nanos: 0 });
    job.killed = Some(JobKilled { killed_at: Timestamp { secs: 150, nanos: 7 }, user: User::new("k") });
    let w = job_to_proto(job);
    assert_eq!(w.id, "job-id");
    assert_eq!(w.owner.unwrap().id, "test-user");
    assert_eq!(w.started_at, Some(WireTimestamp { seconds: 100, nanos: 5 }));
    assert_eq!(w.ended_at, Some(WireTimestamp { seconds: 200, nanos: 0 }));
    let k = w.killed.unwrap();
    assert_eq!(k.killed_at, Some(WireTimestamp { seconds: 150, nanos: 7 }));
    assert_eq!(k.user.unwrap().id, "k");
    assert!(matches!(w.state, Some(State::Exited(JobExitedState { exit_code: 3 }))));
    let w = job_to_proto(sample_job(JobState::Running { pid: Pid::new(42) }));
    assert!(matches!(w.state, Some(State::Running(JobRunningState { pid: 42 }))));
    assert!(w.ended_at.is_none());
    assert!(w.killed.is_none());
    assert_eq!(user_to_proto(User::new("u")).id, "u");
}

#[test]
fn replies_carry_job_or_status() {
    let r = spawn_reply(Ok(sample_job(JobState::Running { pid: Pid::new(1) }))).unwrap();
    assert_eq!(r.job.unwrap().id, "job-id");
    let r = ps_reply(Err(Error::JobNotFound { job_id: JobId::from_str("x") }));
    assert_eq!(r.unwrap_err().code, Code::NotFound);
    let r = kill_reply(Err(Error::JobNotRunning { job_id: JobId::from_str("x") }));
    assert_eq!(r.unwrap_err().message, "job not found");
    let r = kill_reply(Ok(sample_job(JobState::exited(0)))).unwrap();
    assert!(matches!(r.job.unwrap().state, Some(State::Exited(JobExitedState { exit_code: 0 }))));
}

#[test]
fn frames_convert_to_log_frames() {
    let f = Frame::new(StreamKind::Stderr, b"oops");
    let lf = log_frame(&f);
    assert_eq!(lf.kind, 1);
    assert_eq!(lf.bs, b"oops");
    assert_eq!(StreamKind::Stdout.to_log_frame_kind(), 0);
    assert_eq!(StreamKind::Stderr.to_log_frame_kind(), 1);
}

#[test]
fn log_steps() {
    let ev = FrameEvent::Frame(Arc::new(Frame::new(StreamKind::Stdout, b"foobar\n")));
    match log_step(Some(ev)) {
        LogStep::Send(lf) => {
            assert_eq!(lf.kind, 0);
            assert_eq!(lf.bs, b"foobar\n");
        }
        other => panic!("unexpected {other:?}"),
    }
    assert!(matches!(log_step(Some(FrameEvent::EOF)), LogStep::End));
    let err = FrameEvent::Error(Arc::new(TrackerError::WaitChild { err: String::from("gone") }));
    match log_step(Some(err)) {
        LogStep::Fail(s) => {
            assert_eq!(s.code, Code::Internal);
            assert_eq!(s.message, "log stream failed: failed to wait for child process: gone");
        }
        other => panic!("unexpected {other:?}"),
    }
    match log_step(None) {
        LogStep::Fail(s) => assert_eq!(s.message, "log stream terminated unexpectedly"),
        other => panic!("unexpected {other:?}"),
    }
}

#[test]
fn decimal_numbers() {
    assert_eq!(decimal(0), "0");
    assert_eq!(decimal(7), "7");
    assert_eq!(decimal(10), "10");
    assert_eq!(decimal(4096), "4096");
    assert_eq!(decimal(usize::MAX), usize::MAX.to_string());
}

#[test]
fn exactly_one_peer_cert() {
    let s = single_peer_cert(None).unwrap_err();
    assert_eq!((s.code, s.message.as_str()), (Code::Unauthenticated, "mtls required"));
    let s = single_peer_cert(Some(vec![])).unwrap_err();
    assert_eq!(s.message, "expected exactly one peer cert but got 0");
    let s = single_peer_cert(Some(vec![vec![1], vec![2]])).unwrap_err();
    assert_eq!(s.message, "expected exactly one peer cert but got 2");
    assert_eq!(single_peer_cert(Some(vec![vec![9, 8]])).unwrap(), vec![9, 8]);
}

#[test]
fn ctx_comes_from_cert_subject() {
    let ctx = ctx_from_cert(&ED25519_CERT).unwrap();
    assert_eq!(ctx.user.id, "C=DE, CN=www.example.com");
    let err = ctx_from_cert(&[1, 2, 3]).unwrap_err();
    assert_eq!(err.code, Code::Unauthenticated);
    assert!(err.message.starts_with("bad cert: "), "{}", err.message);
    assert!(err.message.len() > "bad cert: ".len());
    let ctx = ctx_from_subject(Ok(String::from("CN=alice"))).unwrap();
    assert_eq!(ctx.user.id, "CN=alice");
    let err = ctx_from_subject(Err(String::from("nope"))).unwrap_err();
    assert_eq!(err.message, "bad cert: nope");
}

#[test]
fn store_impl_holds_coordinator() {
    let s = GrpcStoreImpl::new(5u32);
    assert_eq!(s.coord, 5);
}

#[test]
fn job_without_exit_code_goes_on_wire_as_crashed() {
    let killed = sample_job(JobState::Exited { status: ExitStatus { code: None, signal: Some(9) } });
    let w = job_to_proto(killed);
    match w.state {
        Some(State::Crashed(c)) => {
            assert_eq!(c.signal, 9);
            assert_eq!(c.msg, "terminated by signal 9");
        }
        other => panic!("unexpected {other:?}"),
    }
    let bare = sample_job(JobState::Exited { status: ExitStatus { code: None, signal: None } });
    match job_to_proto(bare).state {
        Some(State::Crashed(c)) => {
            assert_eq!(c.signal, 0);
            assert_eq!(c.msg, "exited without an exit code");
        }
        other => panic!("unexpected {other:?}"),
    }
    let r = kill_reply(Ok(sample_job(JobState::Exited { status: ExitStatus { code: None, signal: Some(15) } })))
        .unwrap();
    assert!(matches!(r.job.unwrap().state, Some(State::Crashed(_))));
}

#[test]
fn state_lines_for_the_client() {
    assert_eq!(state_text(&State::Running(JobRunningState { pid: 42 })), "Running pid=42");
    assert_eq!(state_text(&State::Exited(JobExitedState { exit_code: 0 })), "Exited code=0");
    assert_eq!(state_text(&State::Exited(JobExitedState { exit_code: -3 })), "Exited code=-3");
    let crashed = State::Crashed(JobCrashedState { signal: 9, msg: String::from("terminated by signal 9") });
    assert_eq!(state_text(&crashed), "Crashed signal=9 msg=terminated by signal 9");
    assert_eq!(signed_decimal(i32::MIN), i32::MIN.to_string());
    assert_eq!(signed_decimal(i32::MAX), i32::MAX.to_string());
}
