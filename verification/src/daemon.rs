//! The push-to-talk daemon's decisions: a small synchronous state machine.
//!
//! The program runs the loop: it reads hotkey events, starts and stops the
//! recorder, queues recordings for the transcription worker, and hands each
//! outcome back to [`Daemon::step`], which says what to do next. A new
//! dictation can start as soon as the previous one is queued, while it is
//! still being transcribed.

use vstd::prelude::*;

use crate::config::{HotkeyMode, WhisperConfig};
use crate::hotkey::HotkeyEvent;
use crate::text::str_eq;

verus! {

/// Recordings shorter than this many nanoseconds (300 ms) are treated as accidental
/// taps and discarded.
pub const MIN_RECORDING_NS: u64 = 300_000_000;

/// Where the daemon stands with the recorder.
#[derive(Debug, Clone, Copy, PartialEq, Eq, Structural)]
pub enum DaemonState {
    /// No recording; waiting for the hotkey.
    Idle,
    /// The recorder was asked to start.
    Starting,
    /// Capturing since `since_ns` (a monotonic clock, in nanoseconds).
    Recording { since_ns: u64 },
    /// The recorder was asked to stop a capture begun at `since_ns`.
    Stopping { since_ns: u64 },
}

/// What reaches the daemon: hotkey edges, the recorder's own timeout, and
/// the outcome of the recorder operations it asked for.
#[derive(Debug, Clone, Copy, PartialEq, Eq, Structural)]
pub enum DaemonInput {
    Key(HotkeyEvent),
    /// The recorder hit the maximum-duration safety cap on its own.
    RecorderTimeout,
    /// The recorder started, at `now_ns`.
    RecorderStarted { now_ns: u64 },
    /// The recorder could not start (no microphone, ...).
    RecorderFailed,
    /// The recorder stopped at `now_ns`; `captured` tells whether it handed
    /// back a recording.
    RecorderStopped { now_ns: u64, captured: bool },
}

/// What the daemon asks the program to do.
#[derive(Debug, Clone, Copy, PartialEq, Eq, Structural)]
pub enum DaemonAction {
    Nothing,
    StartRecorder,
    StopRecorder,
    /// Queue the recording for transcription.
    Transcribe,
    /// Drop the recording: it was an accidental tap.
    DiscardTap,
    /// Tell the user that the microphone could not be opened.
    ReportStartFailure,
    /// Tell the user that the capture failed.
    ReportCaptureFailure,
}

/// Whether an input ends the current recording in the given mode: the
/// release in push-to-talk, a second press in toggle mode, and the
/// recorder's timeout in either.
pub open spec fn ends_recording(mode: HotkeyMode, input: DaemonInput) -> bool {
    match input {
        DaemonInput::Key(HotkeyEvent::Released) => mode == HotkeyMode::PushToTalk,
        DaemonInput::Key(HotkeyEvent::Pressed) => mode == HotkeyMode::Toggle,
        DaemonInput::RecorderTimeout => true,
        _ => false,
    }
}

/// How long a capture lasted, in nanoseconds.
pub open spec fn held_ns(since_ns: u64, now_ns: u64) -> nat {
    if now_ns >= since_ns {
        (now_ns - since_ns) as nat
    } else {
        0
    }
}

/// What becomes of a stopped capture: a failed capture is reported, one
/// shorter than `MIN_RECORDING_NS` is an accidental tap, any other is
/// transcribed.
pub open spec fn stop_outcome(since_ns: u64, now_ns: u64, captured: bool) -> DaemonAction {
    if !captured {
        DaemonAction::ReportCaptureFailure
    } else if held_ns(since_ns, now_ns) < MIN_RECORDING_NS {
        DaemonAction::DiscardTap
    } else {
        DaemonAction::Transcribe
    }
}

/// The daemon's transition: the next state and the action to perform.
pub open spec fn step_spec(mode: HotkeyMode, s: DaemonState, input: DaemonInput) -> (
    DaemonState,
    DaemonAction,
) {
    match s {
        DaemonState::Idle => match input {
            DaemonInput::Key(HotkeyEvent::Pressed) => (
                DaemonState::Starting,
                DaemonAction::StartRecorder,
            ),
            _ => (s, DaemonAction::Nothing),
        },
        DaemonState::Starting => match input {
            DaemonInput::RecorderStarted { now_ns } => (
                DaemonState::Recording { since_ns: now_ns },
                DaemonAction::Nothing,
            ),
            DaemonInput::RecorderFailed => (DaemonState::Idle, DaemonAction::ReportStartFailure),
            _ => (s, DaemonAction::Nothing),
        },
        DaemonState::Recording { since_ns } => if ends_recording(mode, input) {
            (DaemonState::Stopping { since_ns }, DaemonAction::StopRecorder)
        } else {
            (s, DaemonAction::Nothing)
        },
        DaemonState::Stopping { since_ns } => match input {
            DaemonInput::RecorderStopped { now_ns, captured } => (
                DaemonState::Idle,
                stop_outcome(since_ns, now_ns, captured),
            ),
            _ => (s, DaemonAction::Nothing),
        },
    }
}

/// The daemon's state: the hotkey mode it runs in and where it stands.
pub struct Daemon {
    pub mode: HotkeyMode,
    pub state: DaemonState,
}

impl Daemon {
    /// A daemon waiting for the hotkey.
    pub fn new(mode: HotkeyMode) -> (d: Self)
        ensures
            d.mode == mode,
            d.state == DaemonState::Idle,
    {
        Daemon { mode, state: DaemonState::Idle }
    }

    /// Whether a recording is under way (started and not yet asked to stop).
    pub fn is_recording(&self) -> (r: bool)
        ensures
            r == (self.state is Recording),
    {
        match self.state {
            DaemonState::Recording { .. } => true,
            _ => false,
        }
    }

    /// Takes one input and says what to do next.
    pub fn step(&mut self, input: DaemonInput) -> (a: DaemonAction)
        ensures
            (final(self).state, a) == step_spec(old(self).mode, old(self).state, input),
            final(self).mode == old(self).mode,
    {
        let (next, action) = match self.state {
            DaemonState::Idle => match input {
                DaemonInput::Key(HotkeyEvent::Pressed) => (
                    DaemonState::Starting,
                    DaemonAction::StartRecorder,
                ),
                _ => (self.state, DaemonAction::Nothing),
            },
            DaemonState::Starting => match input {
                DaemonInput::RecorderStarted { now_ns } => (
                    DaemonState::Recording { since_ns: now_ns },
                    DaemonAction::Nothing,
                ),
                DaemonInput::RecorderFailed => (
                    DaemonState::Idle,
                    DaemonAction::ReportStartFailure,
                ),
                _ => (self.state, DaemonAction::Nothing),
            },
            DaemonState::Recording { since_ns } => {
                let ends = match input {
                    DaemonInput::Key(HotkeyEvent::Released) => self.mode
                        == HotkeyMode::PushToTalk,
                    DaemonInput::Key(HotkeyEvent::Pressed) => self.mode == HotkeyMode::Toggle,
                    DaemonInput::RecorderTimeout => true,
                    _ => false,
                };
                if ends {
                    (DaemonState::Stopping { since_ns }, DaemonAction::StopRecorder)
                } else {
                    (self.state, DaemonAction::Nothing)
                }
            },
            DaemonState::Stopping { since_ns } => match input {
                DaemonInput::RecorderStopped { now_ns, captured } => {
                    let held: u64 = if now_ns >= since_ns {
                        now_ns - since_ns
                    } else {
                        0
                    };
                    let outcome = if !captured {
                        DaemonAction::ReportCaptureFailure
                    } else if held < MIN_RECORDING_NS {
                        DaemonAction::DiscardTap
                    } else {
                        DaemonAction::Transcribe
                    };
                    (DaemonState::Idle, outcome)
                },
                _ => (self.state, DaemonAction::Nothing),
            },
        };
        self.state = next;
        action
    }
}

// ---------------------------------------------------------------------------
// Laws of the state machine
// ---------------------------------------------------------------------------

/// At most one recorder runs at a time: the daemon asks for a recorder only
/// when idle, and to stop one only while recording.
pub proof fn lemma_one_recorder_at_a_time(mode: HotkeyMode, s: DaemonState, input: DaemonInput)
    ensures
        step_spec(mode, s, input).1 == DaemonAction::StartRecorder ==> s == DaemonState::Idle,
        step_spec(mode, s, input).1 == DaemonAction::StopRecorder ==> s is Recording,
        step_spec(mode, s, input).1 == DaemonAction::StartRecorder ==> step_spec(mode, s, input).0
            == DaemonState::Starting,
{
}

/// Only a press starts a dictation, in either mode; a release never does.
pub proof fn lemma_only_press_starts(mode: HotkeyMode, s: DaemonState, input: DaemonInput)
    ensures
        step_spec(mode, s, input).1 == DaemonAction::StartRecorder <==> (s == DaemonState::Idle
            && input == DaemonInput::Key(HotkeyEvent::Pressed)),
{
}

/// While recording: in push-to-talk the release stops and a press does
/// nothing; in toggle mode a press stops and a release does nothing; the
/// recorder's timeout stops in either mode.
pub proof fn lemma_what_stops_a_recording(mode: HotkeyMode, since_ns: u64)
    ensures
        ({
            let s = DaemonState::Recording { since_ns };
            &&& step_spec(HotkeyMode::PushToTalk, s, DaemonInput::Key(HotkeyEvent::Released)) == (
                DaemonState::Stopping { since_ns },
                DaemonAction::StopRecorder,
            )
            &&& step_spec(HotkeyMode::PushToTalk, s, DaemonInput::Key(HotkeyEvent::Pressed)) == (
                s,
                DaemonAction::Nothing,
            )
            &&& step_spec(HotkeyMode::Toggle, s, DaemonInput::Key(HotkeyEvent::Pressed)) == (
                DaemonState::Stopping { since_ns },
                DaemonAction::StopRecorder,
            )
            &&& step_spec(HotkeyMode::Toggle, s, DaemonInput::Key(HotkeyEvent::Released)) == (
                s,
                DaemonAction::Nothing,
            )
            &&& step_spec(mode, s, DaemonInput::RecorderTimeout) == (
                DaemonState::Stopping { since_ns },
                DaemonAction::StopRecorder,
            )
        }),
{
}

/// A stopped capture always returns the daemon to idle, so the next
/// dictation can start while the previous one is being transcribed; taps
/// shorter than `MIN_RECORDING_NS` are discarded and longer captures
/// transcribed.
pub proof fn lemma_stop_returns_to_idle(
    mode: HotkeyMode,
    since_ns: u64,
    now_ns: u64,
    captured: bool,
)
    ensures
        ({
            let (next, action) = step_spec(
                mode,
                DaemonState::Stopping { since_ns },
                DaemonInput::RecorderStopped { now_ns, captured },
            );
            &&& next == DaemonState::Idle
            &&& step_spec(mode, next, DaemonInput::Key(HotkeyEvent::Pressed)).1
                == DaemonAction::StartRecorder
            &&& (captured && now_ns >= since_ns && now_ns - since_ns < MIN_RECORDING_NS) ==> action
                == DaemonAction::DiscardTap
            &&& (captured && now_ns >= since_ns && now_ns - since_ns >= MIN_RECORDING_NS) ==> action
                == DaemonAction::Transcribe
            &&& !captured ==> action == DaemonAction::ReportCaptureFailure
        }),
{
}

/// Whether the daemon waits for the next hotkey or timeout: idle or
/// recording (the starting and stopping states last only while the
/// recorder answers).
pub open spec fn is_waiting(s: DaemonState) -> bool {
    s is Idle || s is Recording
}

/// Whether an input is one the event loop receives: a hotkey edge or the
/// recorder's timeout.
pub open spec fn is_loop_event(input: DaemonInput) -> bool {
    input is Key || input is RecorderTimeout
}

/// Whether an event asks for a recording to start: a press while no
/// recorder is active, in either mode.
pub open spec fn start_wanted(recording: bool, input: DaemonInput) -> bool {
    !recording && input == DaemonInput::Key(HotkeyEvent::Pressed)
}

/// Whether an event asks for the recording to stop: while a recorder is
/// active, the release in push-to-talk, a press in toggle mode, or the
/// timeout in either.
pub open spec fn stop_wanted(mode: HotkeyMode, recording: bool, input: DaemonInput) -> bool {
    recording && ((mode == HotkeyMode::PushToTalk && input == DaemonInput::Key(
        HotkeyEvent::Released,
    )) || (mode == HotkeyMode::Toggle && input == DaemonInput::Key(HotkeyEvent::Pressed))
        || input == DaemonInput::RecorderTimeout)
}

/// One whole event as the loop handles it: the daemon's step, then, when it
/// asked the recorder to start or stop, the step on the recorder's answer
/// (`started` at `start_ns`, or stopped at `stop_ns` with `captured`).
pub open spec fn handle_event(
    mode: HotkeyMode,
    s: DaemonState,
    input: DaemonInput,
    started: bool,
    start_ns: u64,
    stop_ns: u64,
    captured: bool,
) -> (DaemonState, DaemonAction) {
    let (s1, a1) = step_spec(mode, s, input);
    match a1 {
        DaemonAction::StartRecorder => step_spec(
            mode,
            s1,
            if started {
                DaemonInput::RecorderStarted { now_ns: start_ns }
            } else {
                DaemonInput::RecorderFailed
            },
        ),
        DaemonAction::StopRecorder => step_spec(
            mode,
            s1,
            DaemonInput::RecorderStopped { now_ns: stop_ns, captured },
        ),
        _ => (s1, a1),
    }
}

/// The hotkey rule over whole events: from a waiting state, an event ends
/// in a waiting state again. A wanted start leaves a recorder active exactly
/// when it started (a failed start is reported and leaves none); a wanted
/// stop leaves none, and its recording is transcribed, discarded as a tap
/// or reported; every other event changes nothing.
pub proof fn lemma_whole_event(
    mode: HotkeyMode,
    s: DaemonState,
    input: DaemonInput,
    started: bool,
    start_ns: u64,
    stop_ns: u64,
    captured: bool,
)
    requires
        is_waiting(s),
        is_loop_event(input),
    ensures
        ({
            let recording = s is Recording;
            let (s2, a) = handle_event(mode, s, input, started, start_ns, stop_ns, captured);
            &&& is_waiting(s2)
            &&& (s2 is Recording) == (if start_wanted(recording, input) {
                started
            } else if stop_wanted(mode, recording, input) {
                false
            } else {
                recording
            })
            &&& start_wanted(recording, input) && started ==> s2 == DaemonState::Recording {
                since_ns: start_ns,
            } && a == DaemonAction::Nothing
            &&& start_wanted(recording, input) && !started ==> a == DaemonAction::ReportStartFailure
            &&& stop_wanted(mode, recording, input) ==> (s matches DaemonState::Recording {
                since_ns,
            } && a == stop_outcome(since_ns, stop_ns, captured))
            &&& !start_wanted(recording, input) && !stop_wanted(mode, recording, input) ==> s2 == s
                && a == DaemonAction::Nothing
        }),
{
}

/// The state after a sequence of inputs, and the last action taken.
pub open spec fn run_spec(mode: HotkeyMode, s: DaemonState, inputs: Seq<DaemonInput>) -> (
    DaemonState,
    DaemonAction,
)
    decreases inputs.len(),
{
    if inputs.len() == 0 {
        (s, DaemonAction::Nothing)
    } else {
        let (next, action) = step_spec(mode, s, inputs[0]);
        if inputs.len() == 1 {
            (next, action)
        } else {
            run_spec(mode, next, inputs.drop_first())
        }
    }
}

/// One whole dictation: from idle, the key held for `t1 - t0` nanoseconds
/// (push-to-talk: press, release; toggle: press, press) ends idle again,
/// with the recording transcribed when it lasted at least
/// `MIN_RECORDING_NS` and discarded as a tap otherwise.
pub proof fn lemma_dictation_round_trip(mode: HotkeyMode, t0: u64, t1: u64)
    requires
        t0 <= t1,
    ensures
        ({
            let end_key = match mode {
                HotkeyMode::PushToTalk => HotkeyEvent::Released,
                HotkeyMode::Toggle => HotkeyEvent::Pressed,
            };
            let inputs = seq![
                DaemonInput::Key(HotkeyEvent::Pressed),
                DaemonInput::RecorderStarted { now_ns: t0 },
                DaemonInput::Key(end_key),
                DaemonInput::RecorderStopped { now_ns: t1, captured: true },
            ];
            run_spec(mode, DaemonState::Idle, inputs) == (
                DaemonState::Idle,
                if t1 - t0 >= MIN_RECORDING_NS {
                    DaemonAction::Transcribe
                } else {
                    DaemonAction::DiscardTap
                },
            )
        }),
{
    let end_key = match mode {
        HotkeyMode::PushToTalk => HotkeyEvent::Released,
        HotkeyMode::Toggle => HotkeyEvent::Pressed,
    };
    let inputs = seq![
        DaemonInput::Key(HotkeyEvent::Pressed),
        DaemonInput::RecorderStarted { now_ns: t0 },
        DaemonInput::Key(end_key),
        DaemonInput::RecorderStopped { now_ns: t1, captured: true },
    ];
    let i1 = inputs.drop_first();
    let i2 = i1.drop_first();
    let i3 = i2.drop_first();
    assert(i3 =~= seq![DaemonInput::RecorderStopped { now_ns: t1, captured: true }]);
    assert(i2[0] == DaemonInput::Key(end_key));
    assert(i1[0] == DaemonInput::RecorderStarted { now_ns: t0 });
    reveal_with_fuel(run_spec, 4);
}

// ---------------------------------------------------------------------------
// What becomes of a transcription
// ---------------------------------------------------------------------------

/// What is kept in the history for one dictation.
#[derive(Debug, Clone)]
pub struct HistoryRecord {
    pub text: String,
    pub duration_ms: i64,
    /// The language used: the fixed one from the configuration, or the one
    /// whisper detected under `auto`.
    pub lang: Option<String>,
    pub model: String,
}

/// What to do with a finished transcription.
#[derive(Debug, Clone)]
pub enum Delivery {
    /// Whisper heard nothing (silence): nothing is recorded or copied.
    Silence,
    /// Record the text in the history, copy it to the clipboard and notify.
    Deliver(HistoryRecord),
}

/// An optional text as plain values.
pub open spec fn opt_text(o: Option<String>) -> Option<Seq<char>> {
    match o {
        Some(s) => Some(s@),
        None => None,
    }
}

/// The language to record: what whisper detected when the configuration
/// says `auto`, else the configured language.
pub open spec fn recorded_language(configured: Seq<char>, detected: Option<Seq<char>>) -> Option<
    Seq<char>,
> {
    if configured == "auto"@ {
        detected
    } else {
        Some(configured)
    }
}

/// The language recorded for a dictation: under a fixed language it is
/// that language, whatever whisper reported (in particular when whisper
/// reported nothing); under `auto` it is exactly what whisper detected.
pub proof fn lemma_recorded_language(
    configured: Seq<char>,
    detected: Option<Seq<char>>,
    other: Option<Seq<char>>,
)
    ensures
        configured != "auto"@ ==> recorded_language(configured, detected) == Some(configured),
        configured != "auto"@ ==> recorded_language(configured, detected) == recorded_language(
            configured,
            other,
        ),
        recorded_language("auto"@, detected) == detected,
{
}

/// Decides what becomes of a transcription of `duration_ms` milliseconds of
/// audio: empty text is dropped; otherwise the text is delivered with the
/// language actually used and the configured model.
pub fn plan_delivery(
    whisper: &WhisperConfig,
    text: String,
    detected: Option<String>,
    duration_ms: i64,
) -> (r: Delivery)
    ensures
        text@.len() == 0 ==> r is Silence,
        text@.len() > 0 ==> (r matches Delivery::Deliver(h) && h.text@ == text@ && h.duration_ms
            == duration_ms && h.model@ == whisper.model@ && opt_text(h.lang) == recorded_language(
            whisper.language@,
            opt_text(detected),
        )),
{
    if text.unicode_len() == 0 {
        return Delivery::Silence;
    }
    let lang = if str_eq(whisper.language.as_str(), "auto") {
        detected
    } else {
        Some(whisper.language.clone())
    };
    Delivery::Deliver(
        HistoryRecord { text, duration_ms, lang, model: whisper.model.clone() },
    )
}

} // verus!
