use taskplex_supervisor::classifier::classify_line;
use taskplex_supervisor::classifier::contains_substring;
use taskplex_supervisor::classifier::StreamOrigin;
use taskplex_supervisor::readiness::ReadinessState;
use taskplex_supervisor::supervisor::backend_args;
use taskplex_supervisor::supervisor::backend_command_name;
use taskplex_supervisor::supervisor::begin_supervision;
use taskplex_supervisor::timeout::force_ready_on_timeout;
use taskplex_supervisor::watcher::drain_events;
use taskplex_supervisor::watcher::handle_event;
use taskplex_supervisor::watcher::OutputEvent;
use taskplex_supervisor::watcher::WatcherAction;
use taskplex_supervisor::BACKEND_PORT;
use taskplex_supervisor::READY_TIMEOUT_SECS;

#[test]
fn substring_search_finds_inner_match() {
    assert!(contains_substring("INFO: Uvicorn running on http://0.0.0.0:8001", "Uvicorn running on"));
    assert!(contains_substring("abc", "abc"));
    assert!(contains_substring("abc", ""));
    assert!(!contains_substring("", "abc"));
    assert!(!contains_substring("abcb", "cbc"));
}

#[test]
fn substring_search_is_case_sensitive() {
    assert!(!contains_substring("application startup complete", "Application startup complete"));
}

#[test]
fn stdout_marker_lines_classify_ready() {
    for line in [
        "INFO:     Application startup complete.",
        "INFO:     Uvicorn running on http://0.0.0.0:8001 (Press CTRL+C to quit)",
        "INFO:     Started server process [123]",
        "listening on port 8001",
    ] {
        assert!(classify_line(line, StreamOrigin::Stdout), "expected ready: {line}");
    }
}

#[test]
fn stdout_plain_lines_do_not_classify_ready() {
    assert!(!classify_line("INFO:     Waiting for application startup.", StreamOrigin::Stdout));
    assert!(!classify_line("", StreamOrigin::Stdout));
}

#[test]
fn stderr_narrow_markers_classify_ready() {
    assert!(classify_line("INFO:     Uvicorn running on http://0.0.0.0:8001", StreamOrigin::Stderr));
    assert!(classify_line("serving on port 8001", StreamOrigin::Stderr));
}

#[test]
fn stderr_excludes_broad_markers() {
    assert!(!classify_line("INFO:     Application startup complete.", StreamOrigin::Stderr));
    assert!(!classify_line("INFO:     Started server process [123]", StreamOrigin::Stderr));
    assert!(!classify_line("Traceback (most recent call last):", StreamOrigin::Stderr));
}

#[test]
fn first_matching_stdout_line_sets_ready_immediately() {
    let mut state = ReadinessState::new();
    assert!(!state.get());
    let event = OutputEvent::StdoutLine(b"Uvicorn running on http://0.0.0.0:8001".to_vec());
    let action = handle_event(&mut state, &event);
    assert!(state.get());
    match action {
        WatcherAction::LogLine { origin, text, announce_ready } => {
            assert_eq!(origin, StreamOrigin::Stdout);
            assert_eq!(text, "Uvicorn running on http://0.0.0.0:8001");
            assert!(announce_ready);
        }
        _ => panic!("expected a logged line"),
    }
}

#[test]
fn ready_announcement_happens_only_once() {
    let mut state = ReadinessState::new();
    let event = OutputEvent::StdoutLine(b"INFO: Application startup complete.".to_vec());
    let first = handle_event(&mut state, &event);
    let again = OutputEvent::StdoutLine(b"INFO: Application startup complete.".to_vec());
    let second = handle_event(&mut state, &again);
    match first {
        WatcherAction::LogLine { announce_ready, .. } => assert!(announce_ready),
        _ => panic!("expected a logged line"),
    }
    match second {
        WatcherAction::LogLine { announce_ready, .. } => assert!(!announce_ready),
        _ => panic!("expected a logged line"),
    }
    assert!(state.get());
}

#[test]
fn readiness_stays_true_for_all_later_events() {
    let mut state = ReadinessState::new();
    handle_event(
        &mut state,
        &OutputEvent::StdoutLine(b"INFO: Started server process [77]".to_vec()),
    );
    assert!(state.get());
    let later = vec![
        OutputEvent::StdoutLine(b"unrelated chatter".to_vec()),
        OutputEvent::StderrLine(b"a warning".to_vec()),
        OutputEvent::Terminated { code: Some(0), signal: None },
        OutputEvent::Other,
    ];
    for event in &later {
        handle_event(&mut state, event);
        assert!(state.get());
    }
}

#[test]
fn stderr_broad_marker_does_not_flip_flag() {
    let mut state = ReadinessState::new();
    let event = OutputEvent::StderrLine(b"INFO: Application startup complete.".to_vec());
    let action = handle_event(&mut state, &event);
    assert!(!state.get());
    match action {
        WatcherAction::LogLine { origin, announce_ready, .. } => {
            assert_eq!(origin, StreamOrigin::Stderr);
            assert!(!announce_ready);
        }
        _ => panic!("expected a logged line"),
    }
}

#[test]
fn invalid_bytes_are_replaced_not_fatal() {
    let mut state = ReadinessState::new();
    let mut bytes = vec![0xff, 0xfe];
    bytes.extend_from_slice(b"Uvicorn running on http://0.0.0.0:8001");
    let event = OutputEvent::StdoutLine(bytes);
    let action = handle_event(&mut state, &event);
    assert!(state.get());
    match action {
        WatcherAction::LogLine { text, .. } => {
            assert!(text.contains('\u{fffd}'));
            assert!(text.contains("Uvicorn running on"));
        }
        _ => panic!("expected a logged line"),
    }
}

#[test]
fn termination_is_logged_but_does_not_set_ready() {
    let mut state = ReadinessState::new();
    let event = OutputEvent::Terminated { code: Some(1), signal: None };
    let action = handle_event(&mut state, &event);
    assert!(!state.get());
    match action {
        WatcherAction::LogTermination { code, signal } => {
            assert_eq!(code, Some(1));
            assert_eq!(signal, None);
        }
        _ => panic!("expected a termination log"),
    }
    let warned = force_ready_on_timeout(&mut state);
    assert!(warned);
    assert!(state.get());
}

#[test]
fn other_events_are_ignored() {
    let mut state = ReadinessState::new();
    let action = handle_event(&mut state, &OutputEvent::Other);
    assert!(matches!(action, WatcherAction::Ignore));
    assert!(!state.get());
}

#[test]
fn silent_session_becomes_ready_only_via_timeout() {
    let mut state = ReadinessState::new();
    let events = vec![
        OutputEvent::StdoutLine(b"loading configuration".to_vec()),
        OutputEvent::StderrLine(b"DeprecationWarning: something".to_vec()),
        OutputEvent::Other,
    ];
    let actions = drain_events(&mut state, &events);
    assert_eq!(actions.len(), events.len());
    assert!(!state.get());
    let warned = force_ready_on_timeout(&mut state);
    assert!(warned);
    assert!(state.get());
    let warned_again = force_ready_on_timeout(&mut state);
    assert!(!warned_again);
    assert!(state.get());
}

#[test]
fn timeout_after_ready_is_a_silent_no_op() {
    let mut state = ReadinessState::new();
    handle_event(&mut state, &OutputEvent::StdoutLine(b"serving on port 8001".to_vec()));
    assert!(state.get());
    let warned = force_ready_on_timeout(&mut state);
    assert!(!warned);
    assert!(state.get());
}

#[test]
fn racing_writers_leave_the_flag_true() {
    let mut state = ReadinessState::new();
    state.set_true();
    state.set_true();
    assert!(state.get());
    let mut other = ReadinessState::new();
    force_ready_on_timeout(&mut other);
    other.set_true();
    assert!(other.get());
}

#[test]
fn successful_spawn_begins_session_not_yet_ready() {
    let session = begin_supervision(Ok(()));
    match session {
        Ok(state) => assert!(!state.get()),
        Err(_) => panic!("spawn succeeded, supervision must begin"),
    }
}

#[test]
fn failed_spawn_reports_cause_and_no_session() {
    let session = begin_supervision(Err(String::from("No such file or directory")));
    match session {
        Ok(_) => panic!("spawn failed, supervision must not begin"),
        Err(e) => assert_eq!(e.message().as_str(), "No such file or directory"),
    }
}

#[test]
fn backend_launch_configuration() {
    assert_eq!(backend_command_name(), "taskplex-backend");
    assert_eq!(backend_args(), vec![String::from("8001")]);
    assert_eq!(BACKEND_PORT, 8001);
    assert_eq!(READY_TIMEOUT_SECS, 3);
}
