use ten_four::daemon::{test_hotkey_request, Daemon, State};
use ten_four::ipc::{Command, SOCKET_PATH};

#[test]
fn command_bytes_are_the_ascii_names() {
    assert_eq!(Command::Toggle.as_bytes(), b"toggle");
    assert_eq!(Command::Status.as_bytes(), b"status");
}

#[test]
fn command_round_trip() {
    for c in [Command::Toggle, Command::Status] {
        assert_eq!(Command::from_bytes(c.as_bytes()), Some(c));
    }
}

#[test]
fn from_bytes_accepts_only_exact_names() {
    assert_eq!(Command::from_bytes(b"toggle"), Some(Command::Toggle));
    assert_eq!(Command::from_bytes(b"status"), Some(Command::Status));
    assert_eq!(Command::from_bytes(b"Toggle"), None);
    assert_eq!(Command::from_bytes(b"toggle\n"), None);
    assert_eq!(Command::from_bytes(b"stat"), None);
    assert_eq!(Command::from_bytes(b""), None);
}

#[test]
fn socket_path_default() {
    assert_eq!(SOCKET_PATH, "/tmp/ten-four.sock");
}

#[test]
fn state_names() {
    assert_eq!(State::Idle.as_str(), "idle");
    assert_eq!(State::Recording.as_str(), "recording");
    assert_eq!(State::Transcribing.as_str(), "transcribing");
}

#[test]
fn status_is_a_query() {
    for state in [State::Idle, State::Recording, State::Transcribing] {
        let mut d = Daemon { state, stop_requested: false };
        let before = d;
        let r = d.handle_request(b"status");
        assert_eq!(r.text, state.as_str());
        assert!(!r.start_recording);
        assert_eq!(d, before);
    }
}

#[test]
fn unknown_request_is_ignored() {
    let mut d = Daemon::new();
    let r = d.handle_request(b"reboot");
    assert_eq!(r.text, "unknown command");
    assert!(!r.start_recording);
    assert_eq!(d, Daemon::new());
}

#[test]
fn toggle_cycle_with_text() {
    let mut d = Daemon::new();
    let r = d.handle_request(b"toggle");
    assert_eq!(r.text, "start");
    assert!(r.start_recording);
    assert_eq!(d, Daemon { state: State::Recording, stop_requested: false });

    let r = d.handle_request(b"toggle");
    assert_eq!(r.text, "stop");
    assert!(!r.start_recording);
    assert_eq!(d, Daemon { state: State::Recording, stop_requested: true });

    d.recording_finished();
    assert_eq!(d.state, State::Transcribing);

    let r = d.handle_request(b"status");
    assert_eq!(r.text, "transcribing");

    let typed = d.transcription_finished("hello world");
    assert_eq!(typed.as_deref(), Some("hello world"));
    assert_eq!(d.state, State::Transcribing);

    d.work_finished();
    assert_eq!(d.state, State::Idle);
}

#[test]
fn empty_transcription_returns_to_idle() {
    let mut d = Daemon { state: State::Transcribing, stop_requested: true };
    assert_eq!(d.transcription_finished(""), None);
    assert_eq!(d.state, State::Idle);
}

#[test]
fn busy_while_transcribing() {
    let mut d = Daemon { state: State::Transcribing, stop_requested: true };
    let before = d;
    let r = d.handle_request(b"toggle");
    assert_eq!(r.text, "busy");
    assert!(!r.start_recording);
    assert_eq!(d, before);
}

#[test]
fn failure_returns_to_idle() {
    let mut d = Daemon { state: State::Recording, stop_requested: false };
    d.work_finished();
    assert_eq!(d.state, State::Idle);
}

#[test]
fn test_mode_toggles_back_and_forth() {
    let mut s = State::Idle;
    assert_eq!(test_hotkey_request(&mut s, b"toggle"), "start");
    assert_eq!(s, State::Recording);
    assert_eq!(test_hotkey_request(&mut s, b"status"), "recording");
    assert_eq!(s, State::Recording);
    assert_eq!(test_hotkey_request(&mut s, b"toggle"), "stop");
    assert_eq!(s, State::Idle);
    assert_eq!(test_hotkey_request(&mut s, b"nope"), "unknown command");
    assert_eq!(s, State::Idle);
    let mut t = State::Transcribing;
    assert_eq!(test_hotkey_request(&mut t, b"toggle"), "busy");
    assert_eq!(t, State::Transcribing);
}

#[test]
fn many_toggles_in_test_mode_alternate() {
    let mut s = State::Idle;
    for k in 0..7 {
        let reply = test_hotkey_request(&mut s, b"toggle");
        assert_eq!(reply, if k % 2 == 0 { "start" } else { "stop" });
        assert_eq!(s, if k % 2 == 0 { State::Recording } else { State::Idle });
    }
}

#[test]
fn run_of_events_makes_allowed_transitions() {
    let mut d = Daemon::new();
    let mut seen = vec![d.state];
    d.handle_request(b"status");
    seen.push(d.state);
    d.handle_request(b"toggle");
    seen.push(d.state);
    d.handle_request(b"toggle");
    seen.push(d.state);
    d.recording_finished();
    seen.push(d.state);
    d.handle_request(b"toggle");
    seen.push(d.state);
    assert_eq!(d.transcription_finished("  "), Some("  ".to_string()));
    d.work_finished();
    seen.push(d.state);
    assert_eq!(
        seen,
        vec![
            State::Idle,
            State::Idle,
            State::Recording,
            State::Recording,
            State::Transcribing,
            State::Transcribing,
            State::Idle
        ]
    );
}
