use child_ipc::config::{SpawnConfig, StdioMode};
use child_ipc::handshake::{
    retry_open, ChildStatus, ListenHandshake, ListenStage, OpenOutcome, PipeWait, PollStep,
    StepReport, PIPE_POLL_ATTEMPTS,
};
use child_ipc::install::{
    plan_install, server_wrapper_path, InstallStatus, DEFAULT_SERVER_WRAPPER_PATH, LATEST_UNKNOWN,
};
use child_ipc::liveness::Liveness;
use child_ipc::message::{
    decode_json, encode_json, receive_buffer, received, received_json, received_text,
    COMMAND_REPLY_CAPACITY, JSON_RECEIVE_CAPACITY,
};
use child_ipc::text::{join_text, decode_text, encode_text};
use child_ipc::token::{pipe_name, pipe_path, socket_file_name, IPC_ENV_VAR};
use child_ipc::IpcError;

fn os_error() -> std::io::Error {
    std::io::Error::new(std::io::ErrorKind::PermissionDenied, "denied")
}

fn read_into(capacity: usize, bytes: &[u8]) -> (Vec<u8>, usize) {
    let mut buffer = receive_buffer(capacity);
    buffer[..bytes.len()].copy_from_slice(bytes);
    (buffer, bytes.len())
}

#[test]
fn socket_name_carries_pid() {
    assert_eq!(socket_file_name(1234, 0), "rust-ipc-1234-0.sock");
    assert_eq!(socket_file_name(0, 7), "rust-ipc-0-7.sock");
    assert_eq!(
        socket_file_name(u32::MAX, u64::MAX),
        "rust-ipc-4294967295-18446744073709551615.sock"
    );
}

#[test]
fn pipe_name_and_path() {
    assert_eq!(pipe_name(42, 3), "rust-ipc-42-3");
    assert_eq!(pipe_name(10, 10), "rust-ipc-10-10");
    assert_eq!(pipe_path("rust-ipc-42-3"), r"\\.\pipe\rust-ipc-42-3");
    assert_eq!(pipe_path(""), r"\\.\pipe\");
}

#[test]
fn tokens_of_different_parents_differ() {
    assert_ne!(socket_file_name(12, 0), socket_file_name(123, 0));
    assert_ne!(socket_file_name(1, 0), socket_file_name(10, 0));
    assert_ne!(pipe_name(7, 1), pipe_name(70, 1));
    assert_ne!(pipe_name(1, 23), pipe_name(12, 3));
    assert_ne!(pipe_path(&pipe_name(5, 0)), pipe_path(&pipe_name(6, 0)));
}

#[test]
fn spawns_of_one_parent_differ() {
    assert_ne!(socket_file_name(4321, 0), socket_file_name(4321, 1));
    assert_ne!(pipe_name(4321, 0), pipe_name(4321, 1));
    assert_ne!(socket_file_name(4321, 1), socket_file_name(4321, 10));
}

#[test]
fn env_var_name() {
    assert_eq!(IPC_ENV_VAR, "IPC_SOCKET_PATH");
}

#[test]
fn text_round_trip_ascii_and_unicode() {
    for s in ["Hello from Rust!", "", "héllo wörld ✓ 🦀"] {
        let bytes = encode_text(s);
        assert_eq!(bytes, s.as_bytes());
        assert_eq!(decode_text(bytes).unwrap(), s);
    }
}

#[test]
fn invalid_utf8_is_rejected() {
    let r = decode_text(vec![0x66, 0xff, 0x6f]);
    assert!(matches!(r, Err(IpcError::InvalidUtf8)));
    let r = decode_text(vec![0xe2, 0x82]);
    assert!(matches!(r, Err(IpcError::InvalidUtf8)));
}

#[test]
fn echo_reply_is_trimmed_to_bytes_read() {
    let (buffer, n) = read_into(1024, b"hello world");
    assert_eq!(buffer.len(), 1024);
    assert_eq!(n, 11);
    let got = received(buffer, n);
    assert_eq!(got.len(), 11);
    assert_eq!(got, b"hello world".to_vec());
}

#[test]
fn binary_reply_is_trimmed() {
    let (buffer, n) = read_into(10, b"\x00\x01\x02\x03\x04");
    assert_eq!(received(buffer, n), vec![0u8, 1, 2, 3, 4]);
}

#[test]
fn receive_buffer_is_zeroed() {
    let b = receive_buffer(COMMAND_REPLY_CAPACITY);
    assert_eq!(b.len(), 4096);
    assert!(b.iter().all(|x| *x == 0));
    assert!(receive_buffer(0).is_empty());
}

#[test]
fn reply_text_from_buffer() {
    let (buffer, n) = read_into(100, "Hello from Rust!".as_bytes());
    assert_eq!(received_text(buffer, n).unwrap(), "Hello from Rust!");
    let (buffer, n) = read_into(100, &[0xc3, 0x28]);
    assert!(matches!(received_text(buffer, n), Err(IpcError::InvalidUtf8)));
    let buffer = receive_buffer(8);
    assert_eq!(received_text(buffer, 0).unwrap(), "");
}

fn sample_value() -> serde_json::Value {
    let mut map = serde_json::Map::new();
    map.insert("id".to_string(), serde_json::Value::from(1u32));
    map.insert("text".to_string(), serde_json::Value::from("Hello via JSON!"));
    map.insert("timestamp".to_string(), serde_json::Value::from(1_700_000_000u64));
    serde_json::Value::Object(map)
}

#[test]
fn json_round_trip_through_buffer() {
    assert_eq!(JSON_RECEIVE_CAPACITY, 8192);
    let v = sample_value();
    let bytes = encode_json(&v).unwrap();
    assert_eq!(bytes, br#"{"id":1,"text":"Hello via JSON!","timestamp":1700000000}"#.to_vec());
    assert!(bytes.len() <= JSON_RECEIVE_CAPACITY);
    assert_eq!(bytes, serde_json::to_vec(&v).unwrap());
    let (buffer, n) = read_into(JSON_RECEIVE_CAPACITY, &bytes);
    assert_eq!(received_json(buffer, n).unwrap(), v);
}

#[test]
fn json_decoding_failures() {
    assert!(matches!(decode_json(b""), Err(IpcError::InvalidJson(_))));
    assert!(matches!(decode_json(b"{\"id\":"), Err(IpcError::InvalidJson(_))));
    assert_eq!(decode_json(b"[1,2]").unwrap(), serde_json::Value::from(vec![1, 2]));
    let buffer = receive_buffer(JSON_RECEIVE_CAPACITY);
    assert!(matches!(received_json(buffer, 0), Err(IpcError::InvalidJson(_))));
}

#[test]
fn live_right_after_spawn() {
    let mut l = Liveness::connected();
    assert!(!l.stopped());
    assert!(l.observe(&ChildStatus::Running));
    assert!(l.check(&ChildStatus::Running).is_ok());
}

#[test]
fn send_after_wait_is_refused() {
    let mut l = Liveness::connected();
    l.record_exit();
    assert!(l.stopped());
    let r = l.check(&ChildStatus::Running);
    assert!(matches!(r, Err(IpcError::ProcessNotRunning)));
    assert!(r.unwrap_err().is_not_running());
    assert!(!l.observe(&ChildStatus::Running));
}

#[test]
fn exit_of_any_code_means_not_running() {
    for code in [Some(0), Some(1), None] {
        let mut l = Liveness::connected();
        assert!(!l.observe(&ChildStatus::Exited(code)));
        assert!(l.stopped());
        assert!(matches!(l.check(&ChildStatus::Running), Err(IpcError::ProcessNotRunning)));
    }
}

#[test]
fn failed_probe_is_final() {
    let mut l = Liveness::connected();
    assert!(!l.observe(&ChildStatus::Unknown(os_error())));
    assert!(l.stopped());
    assert!(!l.observe(&ChildStatus::Running));
    assert!(matches!(l.check(&ChildStatus::Running), Err(IpcError::ProcessNotRunning)));
}

#[test]
fn missing_pipe_times_out_after_budget() {
    let mut w = PipeWait::new();
    let mut rounds: u32 = 0;
    loop {
        match w.on_status(ChildStatus::Running) {
            PollStep::TryOpen => {}
            PollStep::Fail(IpcError::TimedOut) => break,
            other => panic!("unexpected step {:?}", other),
        }
        assert!(matches!(w.on_open(OpenOutcome::Missing), PollStep::SleepThenRetry));
        rounds += 1;
        assert!(rounds <= PIPE_POLL_ATTEMPTS);
    }
    assert_eq!(rounds, 300);
}

#[test]
fn pipe_wait_outcomes() {
    let mut w = PipeWait::new();
    assert!(matches!(
        w.on_status(ChildStatus::Exited(Some(3))),
        PollStep::Fail(IpcError::ExitedBeforeConnect(Some(3)))
    ));
    assert!(matches!(w.on_status(ChildStatus::Unknown(os_error())), PollStep::Fail(IpcError::Io(_))));
    assert!(matches!(w.on_open(OpenOutcome::Failed(os_error())), PollStep::Fail(IpcError::Io(_))));
    assert!(matches!(w.on_open(OpenOutcome::Missing), PollStep::SleepThenRetry));
    assert!(matches!(w.on_status(ChildStatus::Running), PollStep::TryOpen));
    assert!(matches!(w.on_open(OpenOutcome::Opened), PollStep::Ready));
}

#[test]
fn client_open_retries_until_deadline() {
    assert!(matches!(retry_open(OpenOutcome::Missing, 0), PollStep::SleepThenRetry));
    assert!(matches!(retry_open(OpenOutcome::Missing, 20_000), PollStep::SleepThenRetry));
    assert!(matches!(retry_open(OpenOutcome::Missing, 20_001), PollStep::Fail(IpcError::TimedOut)));
    assert!(matches!(retry_open(OpenOutcome::Opened, 50_000), PollStep::Ready));
    assert!(matches!(retry_open(OpenOutcome::Failed(os_error()), 0), PollStep::Fail(IpcError::Io(_))));
}

#[test]
fn listen_handshake_success_path() {
    let mut h = ListenHandshake::start(true);
    assert_eq!(h.current(), ListenStage::RemoveStale);
    let expected = [
        ListenStage::Bind,
        ListenStage::Launch,
        ListenStage::Accept,
        ListenStage::RemoveEntry,
        ListenStage::Finish,
    ];
    for stage in expected {
        assert_eq!(h.advance(StepReport::Done).unwrap(), stage);
        assert_eq!(h.current(), stage);
    }
    assert_eq!(ListenHandshake::start(false).current(), ListenStage::Bind);
}

#[test]
fn listen_handshake_failure_aborts() {
    for failing in 0..4 {
        let mut h = ListenHandshake::start(true);
        for _ in 0..failing {
            h.advance(StepReport::Done).unwrap();
        }
        let r = h.advance(StepReport::Failed(os_error()));
        assert!(matches!(r, Err(IpcError::Io(_))));
    }
}

#[test]
fn failed_cleanup_does_not_mask_success() {
    let mut h = ListenHandshake::start(false);
    for _ in 0..3 {
        h.advance(StepReport::Done).unwrap();
    }
    assert_eq!(h.current(), ListenStage::RemoveEntry);
    assert_eq!(h.advance(StepReport::Failed(os_error())).unwrap(), ListenStage::Finish);
}

#[test]
fn plain_spawn_pipes_all_streams() {
    let c = SpawnConfig::piped("echo", &["Hello from spawnSync!"]);
    assert_eq!(c.program, "echo");
    assert_eq!(c.args, vec!["Hello from spawnSync!".to_string()]);
    assert_eq!(c.stdin, StdioMode::Piped);
    assert_eq!(c.stdout, StdioMode::Piped);
    assert_eq!(c.stderr, StdioMode::Piped);
    assert!(c.env.is_empty());
    assert!(c.cwd.is_none());
    let d = SpawnConfig::new("cat");
    assert_eq!(d.stdout, StdioMode::Inherit);
    assert!(d.args.is_empty());
}

#[test]
fn rendezvous_goes_into_environment() {
    let mut c = SpawnConfig::piped("cat", &[]);
    c.set_env("IPC_SOCKET_PATH", "stale");
    c.set_rendezvous("/tmp/rust-ipc-9.sock");
    c.arg("-u");
    assert_eq!(c.args, vec!["-u".to_string()]);
    assert_eq!(
        c.env.last().unwrap(),
        &("IPC_SOCKET_PATH".to_string(), "/tmp/rust-ipc-9.sock".to_string())
    );
    assert_eq!(c.env.len(), 2);
}

#[test]
fn io_error_converts() {
    let e: IpcError = IpcError::from(os_error());
    assert!(matches!(e, IpcError::Io(_)));
    assert!(!e.is_not_running());
}

#[test]
fn install_plan_cases() {
    let p = plan_install(Ok(Some("2.1".to_string())), Ok("2.1".to_string())).unwrap();
    assert!(matches!(p.status, InstallStatus::UpToDate));
    assert!(!p.download);
    let p = plan_install(Ok(Some("2.0".to_string())), Ok("2.1".to_string())).unwrap();
    assert!(matches!(p.status, InstallStatus::Downloading));
    assert!(p.download);
    let p = plan_install(Ok(None), Ok("2.1".to_string())).unwrap();
    assert!(matches!(p.status, InstallStatus::Downloading));
    assert!(p.download);
    let p = plan_install(Err("offline".to_string()), Ok("2.1".to_string())).unwrap();
    assert!(matches!(p.status, InstallStatus::Failed(ref m) if m == "offline"));
    assert!(!p.download);
    let e = plan_install(Ok(None), Err("x".to_string())).unwrap_err();
    assert_eq!(e, LATEST_UNKNOWN);
    assert_eq!(e, "Failed to fetch latest version of zed-ets-language-server");
}

#[test]
fn wrapper_path_default() {
    assert_eq!(server_wrapper_path(None), DEFAULT_SERVER_WRAPPER_PATH);
    assert_eq!(server_wrapper_path(Some("/opt/w.js".to_string())), "/opt/w.js");
}

#[test]
fn error_messages() {
    assert_eq!(IpcError::ProcessNotRunning.message(), "Child process is not running");
    assert_eq!(IpcError::InvalidUtf8.message(), "Message is not valid UTF-8");
    assert_eq!(
        IpcError::ExitedBeforeConnect(Some(1)).message(),
        "Child process exited before connecting"
    );
    assert_eq!(
        IpcError::TimedOut.message(),
        "Timed out waiting for the child to open the channel"
    );
    assert_eq!(IpcError::Io(os_error()).message(), "IO error: denied");
    let json_err = serde_json::from_slice::<serde_json::Value>(b"").unwrap_err();
    let text = format!("JSON error: {}", json_err);
    assert_eq!(IpcError::InvalidJson(json_err).message(), text);
}

#[test]
fn join_text_appends() {
    assert_eq!(join_text("ab", "cd"), "abcd");
    assert_eq!(join_text("", "é"), "é");
    assert_eq!(join_text("x", ""), "x");
}
