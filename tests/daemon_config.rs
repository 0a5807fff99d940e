use taiga_plugin_api::client::{
    AutospawnClient, ClientEvent, ClientPhase, ClientStep, DaemonClientConfig, DaemonSpawnConfig,
};
use taiga_plugin_api::codec::{
    encode_frame, read_frame, receive_buffer, take_received, FrameRead, FrameReader, ReadOutcome, Received,
};
use taiga_plugin_api::plugin::PluginError;
use taiga_plugin_api::runtime::{DaemonConfig, DaemonRuntime, HandleResult, LoopAction, Phase, Wake};

#[test]
fn test_daemon_client_config_creation() {
    let spawn_config = DaemonSpawnConfig::new("test".to_string(), "daemon".to_string());
    let client_config = DaemonClientConfig::new("/tmp/test.sock".to_string(), spawn_config);
    assert_eq!(client_config.socket_path, "/tmp/test.sock");
    assert_eq!(client_config.startup_wait_ms, 500);
    assert_eq!(client_config.buffer_size, 1024);
}

#[test]
fn test_daemon_client_config_with_options() {
    let spawn_config = DaemonSpawnConfig::new("test".to_string(), "daemon".to_string());
    let client_config = DaemonClientConfig::new("/tmp/test.sock".to_string(), spawn_config)
        .with_startup_wait(1000)
        .with_buffer_size(2048);
    assert_eq!(client_config.startup_wait_ms, 1000);
    assert_eq!(client_config.buffer_size, 2048);
}

#[test]
fn test_daemon_spawn_config_creation() {
    let config = DaemonSpawnConfig::new("test".to_string(), "daemon".to_string());
    assert_eq!(config.plugin_name, "test");
    assert_eq!(config.daemon_command, "daemon");
    assert!(config.additional_args.is_empty());
}

#[test]
fn test_daemon_spawn_config_with_args() {
    let config = DaemonSpawnConfig::new("test".to_string(), "daemon".to_string())
        .with_args(vec!["--verbose".to_string()]);
    assert_eq!(config.additional_args.len(), 1);
}

#[test]
fn test_daemon_config_creation() {
    let config = DaemonConfig::new("/tmp/test.sock".to_string());
    assert_eq!(config.socket_path, "/tmp/test.sock");
    assert_eq!(config.tick_interval_secs, 1);
    assert_eq!(config.buffer_size, 1024);
}

#[test]
fn test_daemon_config_with_options() {
    let config = DaemonConfig::new("/tmp/test.sock".to_string())
        .with_tick_interval(5)
        .with_buffer_size(2048);
    assert_eq!(config.tick_interval_secs, 5);
    assert_eq!(config.buffer_size, 2048);
}

#[test]
fn spawn_args_put_name_and_verb_first() {
    let config = DaemonSpawnConfig::new("pomo".to_string(), "daemon".to_string())
        .with_args(vec!["--verbose".to_string(), "-q".to_string()]);
    assert_eq!(config.spawn_args(), vec!["pomo", "daemon", "--verbose", "-q"]);
    let bare = DaemonSpawnConfig::new("pomo".to_string(), "daemon".to_string());
    assert_eq!(bare.spawn_args(), vec!["pomo", "daemon"]);
}

fn client(wait: u64) -> (AutospawnClient, ClientStep) {
    let config = DaemonClientConfig::new(
        "/tmp/x.sock".to_string(),
        DaemonSpawnConfig::new("p".to_string(), "daemon".to_string()),
    )
    .with_startup_wait(wait);
    AutospawnClient::begin(&config)
}

#[test]
fn client_connects_directly_when_daemon_listens() {
    let (mut c, first) = client(500);
    assert!(matches!(first, ClientStep::Connect));
    assert!(matches!(c.advance(ClientEvent::Connected), ClientStep::Exchange));
    assert_eq!(c.phase, ClientPhase::Exchanging);
    assert_eq!(c.spawns, 0);
    assert_eq!(c.connects, 1);
}

#[test]
fn client_spawns_once_then_retries_once() {
    let (mut c, _) = client(750);
    assert!(matches!(c.advance(ClientEvent::ConnectFailed("refused".to_string())), ClientStep::Spawn));
    assert!(matches!(c.advance(ClientEvent::Spawned), ClientStep::Sleep(750)));
    assert!(matches!(c.advance(ClientEvent::WaitElapsed), ClientStep::Connect));
    assert!(matches!(c.advance(ClientEvent::Connected), ClientStep::Exchange));
    assert_eq!(c.spawns, 1);
    assert_eq!(c.connects, 2);
    // Nothing more happens once connected.
    assert!(matches!(c.advance(ClientEvent::ConnectFailed("x".to_string())), ClientStep::Idle));
    assert!(matches!(c.advance(ClientEvent::WaitElapsed), ClientStep::Idle));
    assert_eq!(c.connects, 2);
}

#[test]
fn client_failed_retry_carries_first_error() {
    let (mut c, _) = client(500);
    c.advance(ClientEvent::ConnectFailed("no such file".to_string()));
    c.advance(ClientEvent::Spawned);
    c.advance(ClientEvent::WaitElapsed);
    match c.advance(ClientEvent::ConnectFailed("still refused".to_string())) {
        ClientStep::Fail(PluginError::DaemonNotRunning { source }) => {
            assert_eq!(source, Some("no such file".to_string()))
        }
        _ => panic!("expected failure"),
    }
    assert_eq!(c.phase, ClientPhase::Failed);
    assert!(matches!(c.advance(ClientEvent::WaitElapsed), ClientStep::Idle));
}

#[test]
fn client_spawn_failure_is_daemon_not_running() {
    let (mut c, _) = client(500);
    c.advance(ClientEvent::ConnectFailed("refused".to_string()));
    match c.advance(ClientEvent::SpawnFailed("no exe".to_string())) {
        ClientStep::Fail(PluginError::DaemonNotRunning { source }) => {
            assert_eq!(source, Some("no exe".to_string()))
        }
        _ => panic!("expected failure"),
    }
    assert_eq!(c.spawns, 1);
    assert_eq!(c.connects, 1);
}

#[test]
fn frame_round_trip() {
    let payload = b"{\"Ping\":null}".to_vec();
    let frame = encode_frame(&payload);
    assert_eq!(&frame[..4], &[0, 0, 0, payload.len() as u8]);
    assert_eq!(&frame[4..], &payload[..]);
    match read_frame(&frame, 64) {
        FrameRead::Complete(p) => assert_eq!(p, payload),
        _ => panic!("expected a complete frame"),
    }
    // Trailing bytes after the frame are not part of the payload.
    let mut longer = frame.clone();
    longer.extend_from_slice(b"xyz");
    assert!(matches!(read_frame(&longer, 64), FrameRead::Complete(p) if p == payload));
}

#[test]
fn frame_needs_more_until_complete() {
    let payload: Vec<u8> = (0..300u32).map(|i| (i % 251) as u8).collect();
    let frame = encode_frame(&payload);
    assert_eq!(&frame[..4], &[0, 0, 1, 44]);
    for k in 0..frame.len() {
        assert!(matches!(read_frame(&frame[..k].to_vec(), 1024), FrameRead::NeedMore));
    }
    assert!(matches!(read_frame(&frame, 1024), FrameRead::Complete(p) if p == payload));
}

#[test]
fn oversized_frame_is_refused() {
    let payload = vec![7u8; 100];
    let frame = encode_frame(&payload);
    assert!(matches!(read_frame(&frame, 99), FrameRead::TooLarge));
    assert!(matches!(read_frame(&frame[..4].to_vec(), 99), FrameRead::TooLarge));
    assert!(matches!(read_frame(&frame, 100), FrameRead::Complete(_)));
}

#[test]
fn empty_payload_frames() {
    let frame = encode_frame(&Vec::new());
    assert_eq!(frame, vec![0, 0, 0, 0]);
    assert!(matches!(read_frame(&frame, 0), FrameRead::Complete(p) if p.is_empty()));
}

#[test]
fn reads_are_closed_or_payload() {
    assert!(matches!(take_received(receive_buffer(16), 0), Received::Closed));
    let mut buf = receive_buffer(8);
    assert_eq!(buf.len(), 8);
    assert!(buf.iter().all(|b| *b == 0));
    buf[0] = 9;
    buf[1] = 8;
    assert!(matches!(take_received(buf, 2), Received::Payload(p) if p == vec![9, 8]));
}

#[test]
fn runtime_ticks_dispatches_and_stops() {
    let mut rt = DaemonRuntime::new();
    assert_eq!(rt.phase, Phase::Starting);
    rt.start();
    assert_eq!(rt.phase, Phase::Running);
    assert_eq!(rt.poll(false), LoopAction::Wait);
    assert_eq!(rt.on_wake(Wake::Tick, false), LoopAction::RunTick);
    assert_eq!(rt.on_wake(Wake::Tick, false), LoopAction::RunTick);
    assert_eq!(rt.on_wake(Wake::Accepted, false), LoopAction::Dispatch);
    assert_eq!(rt.on_wake(Wake::AcceptFailed, false), LoopAction::LogAcceptError);
    assert_eq!(rt.ticks, 2);
    assert_eq!(rt.dispatched, 1);
    // A connection arriving after shutdown was requested is not dispatched.
    assert_eq!(rt.on_wake(Wake::Accepted, true), LoopAction::Shutdown);
    assert_eq!(rt.dispatched, 1);
    assert_eq!(rt.phase, Phase::ShuttingDown);
    assert!(!rt.is_stopped());
    rt.finish();
    assert!(rt.is_stopped());
}

#[test]
fn runtime_poll_sees_shutdown() {
    let mut rt = DaemonRuntime::new();
    rt.start();
    assert_eq!(rt.poll(true), LoopAction::Shutdown);
    assert_eq!(rt.phase, Phase::ShuttingDown);
}

#[test]
fn handle_result_reply_keeps_response() {
    assert_eq!(HandleResult::response(7u32).into_reply(), (7, false));
    assert_eq!(HandleResult::shutdown("bye").into_reply(), ("bye", true));
}

#[test]
fn frame_reader_accumulates_reads() {
    let frame = encode_frame(&b"hello world".to_vec());
    let mut reader = FrameReader::new(64);
    assert!(matches!(reader.feed(Received::Payload(frame[..2].to_vec())), ReadOutcome::NeedMore));
    assert!(matches!(reader.feed(Received::Payload(frame[2..7].to_vec())), ReadOutcome::NeedMore));
    match reader.feed(Received::Payload(frame[7..].to_vec())) {
        ReadOutcome::Complete(p) => assert_eq!(p, b"hello world".to_vec()),
        _ => panic!("expected a complete frame"),
    }
}

#[test]
fn frame_reader_closes() {
    let mut fresh = FrameReader::new(64);
    assert!(matches!(fresh.feed(Received::Closed), ReadOutcome::Closed));
    let mut partial = FrameReader::new(64);
    assert!(matches!(partial.feed(Received::Payload(vec![0, 0])), ReadOutcome::NeedMore));
    assert!(matches!(partial.feed(Received::Closed), ReadOutcome::Truncated));
    let mut small = FrameReader::new(3);
    assert!(matches!(small.feed(Received::Payload(encode_frame(&vec![1, 2, 3, 4]))), ReadOutcome::TooLarge));
}
