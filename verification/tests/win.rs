use jobs::proc::spawn::win::{
    kill_poll, pipe_step, OutputBuffer, PipeStep, ReadFileResult, ReadPoll, Received, WinArgs,
};
use jobs::proc::spawn::{require_pid, Error, Opts};
use jobs::proc::types::JobSpec;

#[test]
fn command_line_is_utf16_joined_and_terminated() {
    let args = WinArgs::new(vec![String::from("cmd"), String::from("/c"), String::from("echo hi")]);
    let expected: Vec<u16> = "cmd /c echo hi".encode_utf16().chain(Some(0)).collect();
    assert_eq!(args.0, expected);
    let args = WinArgs::new(vec![String::from("é𝄞")]);
    assert_eq!(args.0, vec![0xE9, 0xD834, 0xDD1E, 0]);
    assert_eq!(WinArgs::new(vec![]).0, vec![0]);
}

#[test]
fn output_buffer_hands_out_bytes_in_order() {
    let mut b = OutputBuffer::new();
    assert!(b.needs_data());
    assert!(matches!(b.poll_read(Some(Received::Empty), 4), ReadPoll::Pending));
    match b.poll_read(Some(Received::Value(b"abcdef".to_vec())), 4) {
        ReadPoll::Ready(bs) => assert_eq!(bs, b"abcd"),
        other => panic!("unexpected {other:?}"),
    }
    assert!(!b.needs_data());
    match b.poll_read(None, 4) {
        ReadPoll::Ready(bs) => assert_eq!(bs, b"ef"),
        other => panic!("unexpected {other:?}"),
    }
    assert!(b.needs_data());
    match b.poll_read(Some(Received::Failed(String::from("e"))), 4) {
        ReadPoll::Failed(e) => assert_eq!(e, "e"),
        other => panic!("unexpected {other:?}"),
    }
    match b.poll_read(Some(Received::Disconnected), 4) {
        ReadPoll::Ready(bs) => assert!(bs.is_empty()),
        other => panic!("unexpected {other:?}"),
    }
}

#[test]
fn pipe_steps() {
    let buf = [1u8, 2, 3, 4];
    match pipe_step(&buf, ReadFileResult::Read(3)) {
        PipeStep::Send { bytes, more } => {
            assert_eq!(bytes, vec![1, 2, 3]);
            assert!(more);
        }
        other => panic!("unexpected {other:?}"),
    }
    match pipe_step(&buf, ReadFileResult::BrokenPipe(0)) {
        PipeStep::Send { bytes, more } => {
            assert!(bytes.is_empty());
            assert!(!more);
        }
        other => panic!("unexpected {other:?}"),
    }
    match pipe_step(&buf, ReadFileResult::Failed(String::from("denied"))) {
        PipeStep::Fail(msg) => assert_eq!(msg, "ReadFile: denied"),
        other => panic!("unexpected {other:?}"),
    }
}

#[test]
fn kill_polls() {
    assert_eq!(kill_poll(Received::Value(())), Some(Ok(())));
    assert_eq!(kill_poll(Received::Failed(String::from("x"))), Some(Err(String::from("x"))));
    assert_eq!(kill_poll(Received::Empty), None);
    assert_eq!(kill_poll(Received::Disconnected), Some(Ok(())));
}

#[test]
fn spawn_options_and_pid() {
    let opts = Opts::new(JobSpec::new(String::from("echo")));
    assert!(opts.limits.is_none());
    assert_eq!(opts.spec.exe, "echo");
    assert_eq!(require_pid(Some(12)).unwrap(), 12);
    assert!(matches!(require_pid(None), Err(Error::NoPid)));
}
