//! The daemon's state machine. The daemon moves idle -> recording ->
//! transcribing -> idle; clients drive it with `toggle` requests and query
//! it with `status`. Every decision the daemon takes is a function here
//! from its state and an event to its next state and what it must do; the
//! program around it performs the work (socket I/O, recording,
//! transcription, typing) and reports back.

use vstd::prelude::*;
use vstd::string::*;
use crate::ipc::{Command, parse_command};

verus! {

/// What the daemon is doing.
#[derive(Debug, Clone, Copy, PartialEq, Eq, Structural)]
pub enum State {
    Idle,
    Recording,
    Transcribing,
}

/// The name of a state, as reported to `status` requests.
pub open spec fn state_name(s: State) -> Seq<char> {
    match s {
        State::Idle => "idle"@,
        State::Recording => "recording"@,
        State::Transcribing => "transcribing"@,
    }
}

impl State {
    /// The name of this state.
    pub fn as_str(&self) -> (r: &'static str)
        ensures
            r@ == state_name(*self),
    {
        match self {
            State::Idle => "idle",
            State::Recording => "recording",
            State::Transcribing => "transcribing",
        }
    }
}

/// The daemon's shared state: what it is doing, and whether the running
/// recording has been asked to stop.
#[derive(Debug, Clone, Copy, PartialEq, Eq, Structural)]
pub struct Daemon {
    pub state: State,
    pub stop_requested: bool,
}

/// The reply to a request, and whether a recording must be started.
pub struct Reply {
    pub text: String,
    pub start_recording: bool,
}

/// The reply to a request that is not a command.
pub open spec fn unknown_reply() -> Seq<char> {
    "unknown command"@
}

/// The text the daemon answers a request with.
pub open spec fn request_reply(d: Daemon, request: Seq<u8>) -> Seq<char> {
    match parse_command(request) {
        None => unknown_reply(),
        Some(Command::Status) => state_name(d.state),
        Some(Command::Toggle) => match d.state {
            State::Idle => "start"@,
            State::Recording => "stop"@,
            State::Transcribing => "busy"@,
        },
    }
}

/// The daemon after a request: a `toggle` starts a recording when idle and
/// asks the running recording to stop when recording; nothing else
/// changes the daemon.
pub open spec fn after_request(d: Daemon, request: Seq<u8>) -> Daemon {
    match parse_command(request) {
        Some(Command::Toggle) => match d.state {
            State::Idle => Daemon { state: State::Recording, stop_requested: false },
            State::Recording => Daemon { state: State::Recording, stop_requested: true },
            State::Transcribing => d,
        },
        _ => d,
    }
}

/// Whether a request makes the daemon start a recording.
pub open spec fn request_starts_recording(d: Daemon, request: Seq<u8>) -> bool {
    parse_command(request) == Some(Command::Toggle) && d.state == State::Idle
}

/// The daemon once the recording has ended and transcription begins.
pub open spec fn after_recording(d: Daemon) -> Daemon {
    Daemon { state: State::Transcribing, ..d }
}

/// The daemon once a transcription is in: with text to type it stays
/// busy until the text is typed, with no text it is idle again.
pub open spec fn after_transcription(d: Daemon, text: Seq<char>) -> Daemon {
    if text.len() == 0 {
        Daemon { state: State::Idle, ..d }
    } else {
        d
    }
}

/// The daemon once the work on a recording is over, done or failed.
pub open spec fn after_work(d: Daemon) -> Daemon {
    Daemon { state: State::Idle, ..d }
}

impl Daemon {
    /// A daemon that has just started: idle, with no stop request.
    pub fn new() -> (d: Daemon)
        ensures
            d == (Daemon { state: State::Idle, stop_requested: false }),
    {
        Daemon { state: State::Idle, stop_requested: false }
    }

    /// Answers one request read from a client connection.
    pub fn handle_request(&mut self, request: &[u8]) -> (r: Reply)
        ensures
            r.text@ == request_reply(*old(self), request@),
            r.start_recording == request_starts_recording(*old(self), request@),
            *final(self) == after_request(*old(self), request@),
    {
        match Command::from_bytes(request) {
            None => Reply { text: String::from_str("unknown command"), start_recording: false },
            Some(Command::Status) => Reply {
                text: String::from_str(self.state.as_str()),
                start_recording: false,
            },
            Some(Command::Toggle) => match self.state {
                State::Idle => {
                    self.state = State::Recording;
                    self.stop_requested = false;
                    Reply { text: String::from_str("start"), start_recording: true }
                },
                State::Recording => {
                    self.stop_requested = true;
                    Reply { text: String::from_str("stop"), start_recording: false }
                },
                State::Transcribing => Reply {
                    text: String::from_str("busy"),
                    start_recording: false,
                },
            },
        }
    }

    /// The recording has ended: the daemon is transcribing.
    pub fn recording_finished(&mut self)
        requires
            old(self).state == State::Recording,
        ensures
            *final(self) == after_recording(*old(self)),
    {
        self.state = State::Transcribing;
    }

    /// A transcription is in. Returns the text to type, if there is any;
    /// when there is none the daemon is idle again.
    pub fn transcription_finished(&mut self, text: &str) -> (r: Option<String>)
        requires
            old(self).state == State::Transcribing,
        ensures
            *final(self) == after_transcription(*old(self), text@),
            match r {
                Some(t) => text@.len() > 0 && t@ == text@,
                None => text@.len() == 0,
            },
    {
        if text.unicode_len() == 0 {
            self.state = State::Idle;
            None
        } else {
            Some(String::from_str(text))
        }
    }

    /// The work on a recording is over, whether it was done or failed:
    /// the daemon is idle again.
    pub fn work_finished(&mut self)
        requires
            old(self).state != State::Idle,
        ensures
            *final(self) == after_work(*old(self)),
    {
        self.state = State::Idle;
    }
}

/// Something the daemon reacts to: a client's request, or news from the
/// work on a recording.
pub enum Event {
    /// A client sent these bytes.
    Request(Seq<u8>),
    /// The recording has ended.
    RecordingDone,
    /// The recording was transcribed to this text.
    Transcribed(Seq<char>),
    /// The work on the recording is over: the text was typed, or it failed.
    WorkDone,
}

/// Whether an event can happen to the daemon: requests come at any time;
/// a recording ends only while recording; a transcription arrives only
/// while transcribing; the work on a recording is over only while there
/// is such work.
pub open spec fn event_possible(d: Daemon, e: Event) -> bool {
    match e {
        Event::Request(_) => true,
        Event::RecordingDone => d.state == State::Recording,
        Event::Transcribed(_) => d.state == State::Transcribing,
        Event::WorkDone => d.state != State::Idle,
    }
}

/// The daemon after an event.
pub open spec fn step(d: Daemon, e: Event) -> Daemon {
    match e {
        Event::Request(r) => after_request(d, r),
        Event::RecordingDone => after_recording(d),
        Event::Transcribed(t) => after_transcription(d, t),
        Event::WorkDone => after_work(d),
    }
}

/// The daemon when it starts: idle, with no stop request.
pub open spec fn initial_daemon() -> Daemon {
    Daemon { state: State::Idle, stop_requested: false }
}

/// The daemon after a run of events from its start.
pub open spec fn run_state(events: Seq<Event>) -> Daemon
    decreases events.len(),
{
    if events.len() == 0 {
        initial_daemon()
    } else {
        step(run_state(events.drop_last()), events.last())
    }
}

/// Whether every event of a run could happen when it came.
pub open spec fn valid_run(events: Seq<Event>) -> bool {
    forall|i: int| 0 <= i < events.len() ==> #[trigger] event_possible(run_state(events.take(i)), events[i])
}

/// The state changes the daemon may make: staying put; idle to recording
/// on a `toggle`; recording to transcribing when the recording ends;
/// transcribing to idle when no speech was found or the text was typed;
/// recording or transcribing to idle when the work failed.
pub open spec fn allowed_transition(from: State, to: State, e: Event) -> bool {
    ||| from == to
    ||| (from == State::Idle && to == State::Recording && (e matches Event::Request(r)
        && parse_command(r) == Some(Command::Toggle)))
    ||| (from == State::Recording && to == State::Transcribing && e is RecordingDone)
    ||| (from == State::Transcribing && to == State::Idle && ((e matches Event::Transcribed(t)
        && t.len() == 0) || e is WorkDone))
    ||| (from == State::Recording && to == State::Idle && e is WorkDone)
}

/// Every event that can happen moves the daemon along an allowed transition.
pub proof fn lemma_step_allowed(d: Daemon, e: Event)
    requires
        event_possible(d, e),
    ensures
        allowed_transition(d.state, step(d, e).state, e),
{
}

proof fn lemma_run_state_prefix(events: Seq<Event>, i: int)
    requires
        0 <= i < events.len(),
    ensures
        run_state(events.take(i + 1)) == step(run_state(events.take(i)), events[i]),
{
    assert(events.take(i + 1).drop_last() =~= events.take(i));
}

/// Over any run from the start, every state change of the daemon is an
/// allowed transition, and a recording always starts with no stop request
/// pending.
pub proof fn lemma_run_transitions_allowed(events: Seq<Event>)
    requires
        valid_run(events),
    ensures
        run_state(events.take(0)) == initial_daemon(),
        forall|i: int| 0 <= i < events.len() ==> allowed_transition(
            #[trigger] run_state(events.take(i)).state,
            run_state(events.take(i + 1)).state,
            events[i],
        ),
        forall|i: int| 0 <= i < events.len() && #[trigger] run_state(events.take(i)).state == State::Idle
            && run_state(events.take(i + 1)).state == State::Recording
            ==> !run_state(events.take(i + 1)).stop_requested,
{
    assert(events.take(0) =~= Seq::<Event>::empty());
    assert forall|i: int| 0 <= i < events.len() implies {
        &&& allowed_transition(
            #[trigger] run_state(events.take(i)).state,
            run_state(events.take(i + 1)).state,
            events[i],
        )
        &&& (run_state(events.take(i)).state == State::Idle
            && run_state(events.take(i + 1)).state == State::Recording
            ==> !run_state(events.take(i + 1)).stop_requested)
    } by {
        let d = run_state(events.take(i));
        assert(event_possible(d, events[i]));
        lemma_run_state_prefix(events, i);
        lemma_step_allowed(d, events[i]);
    }
}

/// The reply of the hotkey test mode, which runs the state machine
/// without audio.
pub open spec fn test_reply(s: State, request: Seq<u8>) -> Seq<char> {
    request_reply(Daemon { state: s, stop_requested: false }, request)
}

/// The state of the hotkey test mode after a request: a `toggle` flips
/// between idle and recording.
pub open spec fn test_after(s: State, request: Seq<u8>) -> State {
    match parse_command(request) {
        Some(Command::Toggle) => match s {
            State::Idle => State::Recording,
            State::Recording => State::Idle,
            State::Transcribing => State::Transcribing,
        },
        _ => s,
    }
}

/// Answers one request in the hotkey test mode.
pub fn test_hotkey_request(state: &mut State, request: &[u8]) -> (r: String)
    ensures
        r@ == test_reply(*old(state), request@),
        *final(state) == test_after(*old(state), request@),
{
    match Command::from_bytes(request) {
        None => String::from_str("unknown command"),
        Some(Command::Status) => String::from_str(state.as_str()),
        Some(Command::Toggle) => match *state {
            State::Idle => {
                *state = State::Recording;
                String::from_str("start")
            },
            State::Recording => {
                *state = State::Idle;
                String::from_str("stop")
            },
            State::Transcribing => String::from_str("busy"),
        },
    }
}

/// A `status` request is a pure query: it answers with the name of the
/// current state, changes nothing and starts nothing.
pub proof fn lemma_status_is_query(d: Daemon, request: Seq<u8>)
    requires
        parse_command(request) == Some(Command::Status),
    ensures
        request_reply(d, request) == state_name(d.state),
        after_request(d, request) == d,
        !request_starts_recording(d, request),
{
}

/// A request that is not a command is answered `unknown command` and
/// changes nothing.
pub proof fn lemma_unknown_request_ignored(d: Daemon, request: Seq<u8>)
    requires
        parse_command(request) is None,
    ensures
        request_reply(d, request) == unknown_reply(),
        after_request(d, request) == d,
        !request_starts_recording(d, request),
{
}

/// A recording is started exactly by a `toggle` that finds the daemon idle,
/// and it starts with no stop request pending.
pub proof fn lemma_recording_starts_only_on_toggle_from_idle(d: Daemon, request: Seq<u8>)
    ensures
        request_starts_recording(d, request) <==> (parse_command(request) == Some(Command::Toggle)
            && d.state == State::Idle),
        request_starts_recording(d, request) ==> after_request(d, request) == (Daemon {
            state: State::Recording,
            stop_requested: false,
        }),
{
}

/// While a recording is transcribed, a `toggle` is refused with `busy` and
/// leaves the daemon as it is.
pub proof fn lemma_busy_while_transcribing(d: Daemon, request: Seq<u8>)
    requires
        d.state == State::Transcribing,
        parse_command(request) == Some(Command::Toggle),
    ensures
        request_reply(d, request) == "busy"@,
        after_request(d, request) == d,
        !request_starts_recording(d, request),
{
}

/// One press of the hotkey starts a recording, the next press asks it to
/// stop, and once the recording has been transcribed (and the text, if
/// any, typed) the daemon is idle again: idle -> recording ->
/// transcribing -> idle.
pub proof fn lemma_toggle_cycle(d: Daemon, toggle: Seq<u8>, text: Seq<char>)
    requires
        d.state == State::Idle,
        parse_command(toggle) == Some(Command::Toggle),
    ensures
        ({
            let d1 = after_request(d, toggle);
            let d2 = after_request(d1, toggle);
            let d3 = after_recording(d2);
            let d4 = after_transcription(d3, text);
            let d5 = if text.len() == 0 { d4 } else { after_work(d4) };
            &&& request_starts_recording(d, toggle)
            &&& request_reply(d, toggle) == "start"@
            &&& d1 == (Daemon { state: State::Recording, stop_requested: false })
            &&& request_reply(d1, toggle) == "stop"@
            &&& !request_starts_recording(d1, toggle)
            &&& d2 == (Daemon { state: State::Recording, stop_requested: true })
            &&& d3.state == State::Transcribing
            &&& (text.len() > 0 ==> d4.state == State::Transcribing)
            &&& d5.state == State::Idle
        }),
{
}

/// In the hotkey test mode two `toggle`s in a row bring idle and recording
/// back to where they were, and a `status` changes nothing.
pub proof fn lemma_test_toggle_involution(s: State, toggle: Seq<u8>, status: Seq<u8>)
    requires
        s != State::Transcribing,
        parse_command(toggle) == Some(Command::Toggle),
        parse_command(status) == Some(Command::Status),
    ensures
        test_after(test_after(s, toggle), toggle) == s,
        test_after(s, toggle) != s,
        test_after(s, status) == s,
        test_reply(s, status) == state_name(s),
{
}

/// What a `toggle` does in each state: when idle it starts a recording
/// (replying `start`) with no stop request; when recording it asks the
/// recording to stop (replying `stop`), and the stop request holds whatever
/// the flag was before; when transcribing it is refused (`busy`).
pub proof fn lemma_toggle_in_each_state(d: Daemon, request: Seq<u8>)
    requires
        parse_command(request) == Some(Command::Toggle),
    ensures
        d.state == State::Idle ==> request_reply(d, request) == "start"@ && request_starts_recording(d, request)
            && after_request(d, request) == (Daemon { state: State::Recording, stop_requested: false }),
        d.state == State::Recording ==> request_reply(d, request) == "stop"@ && !request_starts_recording(d, request)
            && after_request(d, request) == (Daemon { state: State::Recording, stop_requested: true }),
        d.state == State::Transcribing ==> request_reply(d, request) == "busy"@
            && !request_starts_recording(d, request) && after_request(d, request) == d,
{
}

/// Once a recording has been asked to stop, no request withdraws that:
/// while recording, the stop request stays set after any request.
pub proof fn lemma_stop_request_sticks(d: Daemon, request: Seq<u8>)
    requires
        d.state == State::Recording,
        d.stop_requested,
    ensures
        after_request(d, request) == d,
{
}

/// Every state has its own name, so a `status` reply tells the states
/// apart: `idle`, `recording`, `transcribing`.
pub proof fn lemma_state_names_distinct(a: State, b: State)
    ensures
        state_name(a) == state_name(b) ==> a == b,
        state_name(State::Idle) == "idle"@,
        state_name(State::Recording) == "recording"@,
        state_name(State::Transcribing) == "transcribing"@,
{
    reveal_strlit("idle");
    reveal_strlit("recording");
    reveal_strlit("transcribing");
    assert("idle"@.len() == 4);
    assert("recording"@.len() == 9);
    assert("transcribing"@.len() == 12);
}

/// The hotkey test mode's state after `k` `toggle`s from `s`.
pub open spec fn test_after_toggles(s: State, toggle: Seq<u8>, k: nat) -> State
    decreases k,
{
    if k == 0 {
        s
    } else {
        test_after(test_after_toggles(s, toggle, (k - 1) as nat), toggle)
    }
}

/// In the hotkey test mode, `k` `toggle`s from idle are answered `start`,
/// `stop`, `start`, ... in turn; the mode ends idle after an even number of
/// them and recording after an odd number, and is never transcribing.
pub proof fn lemma_test_toggles_alternate(toggle: Seq<u8>, k: nat)
    requires
        parse_command(toggle) == Some(Command::Toggle),
    ensures
        test_after_toggles(State::Idle, toggle, k) == (if k % 2 == 0 { State::Idle } else { State::Recording }),
        forall|i: nat| i < k ==> #[trigger] test_reply(test_after_toggles(State::Idle, toggle, i), toggle)
            == (if i % 2 == 0 { "start"@ } else { "stop"@ }),
    decreases k,
{
    if k > 0 {
        lemma_test_toggles_alternate(toggle, (k - 1) as nat);
        assert forall|i: nat| i < k implies #[trigger] test_reply(test_after_toggles(State::Idle, toggle, i), toggle)
            == (if i % 2 == 0 { "start"@ } else { "stop"@ }) by {
            if i == k - 1 {
            }
        }
    }
}

} // verus!
