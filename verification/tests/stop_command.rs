use tbl::stop::{
    first_line, read_shutdown_response, shutdown_acknowledged, shutdown_request, StopAction,
    StopEvent, StopOutcome, StopState, MAX_POLLS, POLL_INTERVAL_MS,
};

fn run(events: &[StopEvent]) -> StopState {
    let mut state = StopState::start();
    for event in events {
        state = state.step(*event);
    }
    state
}

#[test]
fn request_is_built_by_hand() {
    assert_eq!(
        shutdown_request(1237, "abc123"),
        "POST /api/shutdown HTTP/1.1\r\nHost: 127.0.0.1:1237\r\nCookie: tbl_token=abc123\r\nContent-Length: 0\r\nConnection: close\r\n\r\n"
    );
    assert!(shutdown_request(0, "").contains("Host: 127.0.0.1:0\r\nCookie: tbl_token=\r\n"));
    assert!(shutdown_request(65535, "t").starts_with("POST /api/shutdown HTTP/1.1\r\nHost: 127.0.0.1:65535\r\n"));
}

#[test]
fn response_with_status_or_confirmation_acknowledges() {
    assert!(shutdown_acknowledged("HTTP/1.1 200 OK\r\n\r\n{\"status\":\"shutting_down\"}"));
    assert!(shutdown_acknowledged("HTTP/1.1 200 OK\r\n\r\n"));
    assert!(shutdown_acknowledged("{\"status\":\"shutting_down\"}"));
    assert!(shutdown_acknowledged("200"));
    assert!(shutdown_acknowledged("xx200"));
    assert!(!shutdown_acknowledged(""));
    assert!(!shutdown_acknowledged("20"));
    assert!(!shutdown_acknowledged("2 0 0"));
    assert!(!shutdown_acknowledged("HTTP/1.1 401 Unauthorized\r\n\r\nmissing or invalid auth cookie"));
    assert!(!shutdown_acknowledged("shutting-down"));
}

#[test]
fn first_line_is_cut_as_the_standard_library_cuts_it() {
    for text in [
        "", "one", "one\ntwo", "one\r\ntwo", "\n", "\r\n", "\r", "one\r", "one\r\r\ntwo", "\nrest",
        "HTTP/1.1 401 Unauthorized\r\ncontent-length: 30\r\n\r\nmissing", "a\rb\nc",
    ] {
        assert_eq!(first_line(text), text.lines().next().unwrap_or(""), "first line of {:?}", text);
    }
}

#[test]
fn unexpected_response_is_quoted() {
    assert_eq!(read_shutdown_response("HTTP/1.1 200 OK\r\n\r\n"), Ok(()));
    assert_eq!(
        read_shutdown_response("HTTP/1.1 401 Unauthorized\r\n\r\nbasic auth required"),
        Err("Unexpected response: HTTP/1.1 401 Unauthorized".to_string())
    );
    assert_eq!(read_shutdown_response(""), Err("Unexpected response: ".to_string()));
}

#[test]
fn without_a_record_nothing_is_running() {
    assert_eq!(StopState::start().todo(), StopAction::LoadRecord);
    let end = run(&[StopEvent::RecordLoaded { found: false }]);
    assert_eq!(end, StopState::Finished(StopOutcome::NotRunning));
    assert_eq!(end.todo(), StopAction::Report(StopOutcome::NotRunning));
}

#[test]
fn stale_record_is_removed() {
    let state = run(&[StopEvent::RecordLoaded { found: true }]);
    assert_eq!(state.todo(), StopAction::ProbePort);
    let state = state.step(StopEvent::PortProbed { open: false });
    assert_eq!(state.todo(), StopAction::ClearRecord);
    let state = state.step(StopEvent::RecordCleared);
    assert_eq!(state, StopState::Finished(StopOutcome::StaleRecordRemoved));
}

#[test]
fn server_that_stops_is_reported_stopped() {
    let state = run(&[
        StopEvent::RecordLoaded { found: true },
        StopEvent::PortProbed { open: true },
    ]);
    assert_eq!(state.todo(), StopAction::SendRequest);
    let state = state.step(StopEvent::RequestSent { acknowledged: true });
    assert_eq!(state.todo(), StopAction::PauseAndProbe);
    let state = state.step(StopEvent::PortProbed { open: true });
    assert_eq!(state.todo(), StopAction::PauseAndProbe);
    let state = state.step(StopEvent::PortProbed { open: false });
    assert_eq!(state, StopState::Finished(StopOutcome::Stopped));
}

#[test]
fn request_that_fails_is_reported_unreachable() {
    let state = run(&[
        StopEvent::RecordLoaded { found: true },
        StopEvent::PortProbed { open: true },
        StopEvent::RequestSent { acknowledged: false },
    ]);
    assert_eq!(state, StopState::Finished(StopOutcome::Unreachable));
}

#[test]
fn port_is_watched_for_five_seconds() {
    assert_eq!(MAX_POLLS as u64 * POLL_INTERVAL_MS, 5000);
    let mut state = run(&[
        StopEvent::RecordLoaded { found: true },
        StopEvent::PortProbed { open: true },
        StopEvent::RequestSent { acknowledged: true },
    ]);
    for look in 1..MAX_POLLS {
        state = state.step(StopEvent::PortProbed { open: true });
        assert_eq!(state, StopState::Waiting { polls: look });
    }
    assert_eq!(
        state.step(StopEvent::PortProbed { open: false }),
        StopState::Finished(StopOutcome::Stopped)
    );
    assert_eq!(
        state.step(StopEvent::PortProbed { open: true }),
        StopState::Finished(StopOutcome::StillRunning)
    );
}

#[test]
fn stop_command_ignores_reports_out_of_turn() {
    let start = StopState::start();
    assert_eq!(start.step(StopEvent::PortProbed { open: false }), start);
    assert_eq!(start.step(StopEvent::RequestSent { acknowledged: true }), start);
    let sending = StopState::Sending;
    assert_eq!(sending.step(StopEvent::PortProbed { open: false }), sending);
    let done = StopState::Finished(StopOutcome::StillRunning);
    assert_eq!(done.step(StopEvent::PortProbed { open: false }), done);
}
