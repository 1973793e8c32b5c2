use ataraxai::connection::{ApiInfo, ApiState, QueryError, RawRecord};
use ataraxai::handshake::{
    run_handshake, HandshakeError, HandshakeOutcome, HandshakeReader, ReaderAction, WorkerEvent,
};
use ataraxai::supervisor::{
    kill_outcome, poll_step, stop_worker, ApiProcess, Notice, Phase, PollStep, Signal, StopError,
    POLL_INTERVAL_MS, STARTUP_BOUND_MS,
};

fn record(status: Option<&str>, port: Option<u64>, token: Option<&str>) -> RawRecord {
    RawRecord {
        status: status.map(|s| s.to_string()),
        port,
        token: token.map(|t| t.to_string()),
    }
}

fn ready_line(port: u64, token: &str) -> WorkerEvent {
    WorkerEvent::Stdout(Some(record(Some("ready"), Some(port), Some(token))))
}

fn info(port: u16, token: &str) -> ApiInfo {
    ApiInfo { port, token: token.to_string(), status: "ready".to_string() }
}

fn assert_info(i: &ApiInfo, port: u16, token: &str) {
    assert_eq!(i.port, port);
    assert_eq!(i.token, token);
    assert_eq!(i.status, "ready");
}

#[test]
fn decode_accepts_complete_record() {
    let i = record(Some("ready"), Some(8123), Some("abc")).decode().unwrap();
    assert_info(&i, 8123, "abc");
}

#[test]
fn decode_rejects_port_beyond_sixteen_bits() {
    assert!(record(Some("ready"), Some(70000), Some("abc")).decode().is_none());
    assert!(record(Some("ready"), Some(65536), Some("abc")).ready().is_none());
    assert!(record(Some("ready"), Some(65535), Some("abc")).ready().is_some());
}

#[test]
fn decode_rejects_missing_fields() {
    assert!(record(Some("ready"), Some(8000), None).decode().is_none());
    assert!(record(None, Some(8000), Some("t")).decode().is_none());
    assert!(record(Some("ready"), None, Some("t")).decode().is_none());
}

#[test]
fn ready_requires_ready_status() {
    let r = record(Some("starting"), Some(8000), Some("t"));
    assert!(r.decode().is_some());
    assert!(r.ready().is_none());
    assert!(!r.decode().unwrap().is_ready());
}

#[test]
fn handshake_publishes_after_noise() {
    let events = vec![
        WorkerEvent::Stdout(None),
        WorkerEvent::Stderr,
        WorkerEvent::Stdout(None),
        ready_line(5000, "secret"),
        WorkerEvent::Stdout(None),
    ];
    let mut state = ApiState::new();
    match run_handshake(&events, false, &mut state) {
        HandshakeOutcome::Ready(i) => assert_info(&i, 5000, "secret"),
        _ => panic!("expected a ready outcome"),
    }
    assert_info(&state.get_info().unwrap(), 5000, "secret");
}

#[test]
fn handshake_takes_first_ready_record() {
    let events = vec![ready_line(1, "first"), ready_line(2, "second")];
    let mut state = ApiState::new();
    run_handshake(&events, false, &mut state);
    assert_info(&state.get_info().unwrap(), 1, "first");
}

#[test]
fn handshake_fails_when_stream_closes_first() {
    let events = vec![WorkerEvent::Stdout(None), WorkerEvent::Stderr, WorkerEvent::Error];
    let mut state = ApiState::new();
    let r = run_handshake(&events, false, &mut state);
    assert!(matches!(r, HandshakeOutcome::Failed(HandshakeError::ClosedBeforeReady)));
    assert!(state.get_info().is_none());
}

#[test]
fn handshake_fails_on_empty_stream() {
    let mut state = ApiState::new();
    let r = run_handshake(&Vec::new(), false, &mut state);
    assert!(matches!(r, HandshakeOutcome::Failed(HandshakeError::ClosedBeforeReady)));
    assert!(state.get_info().is_none());
}

#[test]
fn handshake_skips_malformed_ready_record() {
    let events = vec![
        WorkerEvent::Stdout(Some(record(Some("ready"), Some(70000), Some("t")))),
        WorkerEvent::Stdout(Some(record(Some("ready"), Some(8000), None))),
    ];
    let mut state = ApiState::new();
    let r = run_handshake(&events, false, &mut state);
    assert!(matches!(r, HandshakeOutcome::Failed(HandshakeError::ClosedBeforeReady)));
    assert!(state.get_info().is_none());
}

#[test]
fn handshake_fails_on_termination_before_ready() {
    let events = vec![WorkerEvent::Stdout(None), WorkerEvent::Terminated(Some(3)), ready_line(1, "x")];
    let mut state = ApiState::new();
    let r = run_handshake(&events, false, &mut state);
    assert!(matches!(r, HandshakeOutcome::Failed(HandshakeError::TerminatedBeforeReady(Some(3)))));
    assert!(state.get_info().is_none());
}

#[test]
fn handshake_after_stop_is_quiet() {
    let mut state = ApiState::new();
    let r = run_handshake(&vec![WorkerEvent::Terminated(None)], true, &mut state);
    assert!(matches!(r, HandshakeOutcome::Stopped));
    let r = run_handshake(&vec![WorkerEvent::Stderr], true, &mut state);
    assert!(matches!(r, HandshakeOutcome::Stopped));
    assert!(state.get_info().is_none());
}

#[test]
fn ready_line_after_stop_is_not_published() {
    let mut state = ApiState::new();
    let r = run_handshake(&vec![WorkerEvent::Stdout(None), ready_line(6000, "late")], true, &mut state);
    assert!(matches!(r, HandshakeOutcome::Stopped));
    assert!(matches!(state.query_connection_info(), Err(QueryError::NotAvailable)));
    let mut reader = HandshakeReader::new();
    assert!(matches!(reader.step(&ready_line(6000, "late"), true), ReaderAction::Finish));
    assert!(!reader.complete);
}

#[test]
fn reader_drains_after_handshake() {
    let mut reader = HandshakeReader::new();
    assert!(matches!(reader.step(&WorkerEvent::Stderr, false), ReaderAction::Diagnostic));
    assert!(matches!(reader.step(&ready_line(9, "k"), false), ReaderAction::Publish(_)));
    assert!(reader.complete);
    assert!(matches!(reader.step(&ready_line(10, "k"), false), ReaderAction::Diagnostic));
    assert!(matches!(reader.step(&WorkerEvent::Terminated(Some(0)), false), ReaderAction::Finish));
    assert!(matches!(reader.at_close(false), ReaderAction::Finish));
}

#[test]
fn reader_fails_at_close_before_ready() {
    let reader = HandshakeReader::new();
    assert!(matches!(
        reader.at_close(false),
        ReaderAction::Fail(HandshakeError::ClosedBeforeReady)
    ));
    assert!(matches!(reader.at_close(true), ReaderAction::Finish));
}

#[test]
fn stop_without_process_reports_nothing_to_stop() {
    let mut process: ApiProcess<u32> = ApiProcess::new();
    let mut state = ApiState::new();
    state.set_info(info(7000, "tok"));
    let r = stop_worker(&mut process, &mut state);
    assert!(matches!(r, Err(StopError::NothingToStop)));
    assert_info(&state.get_info().unwrap(), 7000, "tok");
}

#[test]
fn stop_after_handshake_clears_state() {
    let mut process: ApiProcess<u32> = ApiProcess::new();
    process.store(42);
    let mut state = ApiState::new();
    run_handshake(&vec![ready_line(7000, "tok")], false, &mut state);
    assert!(state.query_connection_info().is_ok());
    assert!(matches!(stop_worker(&mut process, &mut state), Ok(42)));
    assert!(!process.is_running());
    assert!(matches!(state.query_connection_info(), Err(QueryError::NotAvailable)));
}

#[test]
fn second_stop_is_benign() {
    let mut process: ApiProcess<u32> = ApiProcess::new();
    process.store(1);
    let mut state = ApiState::new();
    assert!(stop_worker(&mut process, &mut state).is_ok());
    assert!(matches!(stop_worker(&mut process, &mut state), Err(StopError::NothingToStop)));
}

#[test]
fn kill_results_map_to_stop_results() {
    assert!(kill_outcome(Ok(())).is_ok());
    let e = kill_outcome(Err("denied".to_string())).unwrap_err();
    assert_eq!(e.message(), "Failed to kill sidecar: denied");
    assert_eq!(StopError::NothingToStop.message(), "No sidecar process was running.");
}

fn wait(published_at: Option<u64>, published: ApiInfo) -> PollStep {
    let mut state = ApiState::new();
    let mut elapsed: u64 = 0;
    loop {
        if published_at.map_or(false, |at| elapsed >= at) && state.get_info().is_none() {
            state.set_info(published.clone());
        }
        match poll_step(&state, elapsed, STARTUP_BOUND_MS) {
            PollStep::Wait => elapsed += POLL_INTERVAL_MS,
            done => return done,
        }
    }
}

#[test]
fn bounded_wait_returns_descriptor_published_later() {
    match wait(Some(2000), info(8765, "late")) {
        PollStep::Found(i) => assert_info(&i, 8765, "late"),
        _ => panic!("expected the descriptor"),
    }
}

#[test]
fn bounded_wait_times_out_near_bound() {
    match wait(None, info(1, "never")) {
        PollStep::Failed(QueryError::BackendStartupTimeout { elapsed_ms }) => {
            assert!(elapsed_ms >= STARTUP_BOUND_MS);
            assert!(elapsed_ms < STARTUP_BOUND_MS + POLL_INTERVAL_MS);
        }
        _ => panic!("expected a timeout"),
    }
}

#[test]
fn poll_checks_bound_before_state() {
    let mut state = ApiState::new();
    state.set_info(info(1, "t"));
    assert!(matches!(poll_step(&state, 119999, 120000), PollStep::Found(_)));
    assert!(matches!(
        poll_step(&state, 120000, 120000),
        PollStep::Failed(QueryError::BackendStartupTimeout { elapsed_ms: 120000 })
    ));
    assert!(matches!(poll_step(&ApiState::new(), 0, 120000), PollStep::Wait));
}

#[test]
fn timeout_message_gives_seconds() {
    let e = QueryError::BackendStartupTimeout { elapsed_ms: 120000 };
    assert_eq!(
        e.message(),
        "Backend startup timeout (120.0s). Check console logs for Python errors."
    );
    let e = QueryError::BackendStartupTimeout { elapsed_ms: 2049 };
    assert_eq!(e.message(), "Backend startup timeout (2.0s). Check console logs for Python errors.");
    let e = QueryError::BackendStartupTimeout { elapsed_ms: 2050 };
    assert_eq!(e.message(), "Backend startup timeout (2.1s). Check console logs for Python errors.");
}

#[test]
fn handshake_error_messages() {
    assert_eq!(
        HandshakeError::ClosedBeforeReady.message(),
        "Sidecar output closed before it became ready."
    );
    assert_eq!(
        HandshakeError::TerminatedBeforeReady(Some(1)).message(),
        "Sidecar process terminated before it became ready."
    );
}

#[test]
fn supervisor_phases() {
    let (p, n) = Phase::NotStarted.advance(Signal::Startup);
    assert!(p == Phase::Spawning && n == Notice::Quiet);
    let (p, _) = p.advance(Signal::Spawned);
    assert!(p == Phase::AwaitingHandshake);
    let (ready, n) = p.advance(Signal::HandshakeSucceeded);
    assert!(ready == Phase::Ready && n == Notice::SidecarReady);
    let (failed, n) = p.advance(Signal::HandshakeFailed);
    assert!(failed == Phase::Failed && n == Notice::SidecarError);
    let (f, n) = Phase::Spawning.advance(Signal::SpawnFailed);
    assert!(f == Phase::Failed && n == Notice::SidecarError);
    let (s, n) = ready.advance(Signal::StopRequested);
    assert!(s == Phase::Stopped && n == Notice::Quiet && s.stop_requested());
    let (s2, n) = s.advance(Signal::HandshakeFailed);
    assert!(s2 == Phase::Stopped && n == Notice::Quiet);
    let (s3, _) = s2.advance(Signal::StopRequested);
    assert!(s3 == Phase::Stopped);
    assert!(!p.stop_requested());
}

#[test]
fn worker_path_per_platform() {
    assert_eq!(ataraxai::supervisor::worker_resource_path(true), "py_src/api.exe");
    assert_eq!(ataraxai::supervisor::worker_resource_path(false), "py_src/api");
}
