//! The state the GNOME Shell overlay reads over D-Bus.
//!
//! The daemon publishes `idle`, `recording` or `processing` and emits a
//! signal at each change; the extension renders the recording pill from
//! them and pastes the text on `Finished`.

use vstd::prelude::*;

verus! {

/// What the overlay shows.
#[derive(Debug, Clone, Copy, PartialEq, Eq, Structural)]
pub enum OverlayState {
    Idle,
    Recording,
    Processing,
}

/// The signals the daemon emits to the overlay.
#[derive(Debug, Clone, Copy, PartialEq, Eq, Structural)]
pub enum OverlaySignal {
    RecordingStarted,
    /// A new microphone level while recording.
    AudioLevel,
    ProcessingStarted,
    Finished,
    Failed,
    Cancelled,
}

/// The published state after a signal: recording and processing set their
/// state, a level leaves it as it was, and finishing, failing or
/// cancelling return to idle.
pub open spec fn state_after_spec(current: OverlayState, signal: OverlaySignal) -> OverlayState {
    match signal {
        OverlaySignal::RecordingStarted => OverlayState::Recording,
        OverlaySignal::AudioLevel => current,
        OverlaySignal::ProcessingStarted => OverlayState::Processing,
        OverlaySignal::Finished => OverlayState::Idle,
        OverlaySignal::Failed => OverlayState::Idle,
        OverlaySignal::Cancelled => OverlayState::Idle,
    }
}

/// The published state after a signal.
pub fn state_after(current: OverlayState, signal: OverlaySignal) -> (r: OverlayState)
    ensures
        r == state_after_spec(current, signal),
{
    match signal {
        OverlaySignal::RecordingStarted => OverlayState::Recording,
        OverlaySignal::AudioLevel => current,
        OverlaySignal::ProcessingStarted => OverlayState::Processing,
        OverlaySignal::Finished => OverlayState::Idle,
        OverlaySignal::Failed => OverlayState::Idle,
        OverlaySignal::Cancelled => OverlayState::Idle,
    }
}

/// The name a state is published under.
pub open spec fn state_name_spec(s: OverlayState) -> Seq<char> {
    match s {
        OverlayState::Idle => "idle"@,
        OverlayState::Recording => "recording"@,
        OverlayState::Processing => "processing"@,
    }
}

/// The name a state is published under (`GetState`).
pub fn state_name(s: OverlayState) -> (r: String)
    ensures
        r@ == state_name_spec(s),
{
    match s {
        OverlayState::Idle => String::from_str("idle"),
        OverlayState::Recording => String::from_str("recording"),
        OverlayState::Processing => String::from_str("processing"),
    }
}

/// The state published when the service starts: idle.
pub fn initial_state() -> (r: OverlayState)
    ensures
        r == OverlayState::Idle,
{
    OverlayState::Idle
}

/// The published state after a sequence of signals, starting from `start`.
pub open spec fn state_after_all(start: OverlayState, signals: Seq<OverlaySignal>) -> OverlayState
    decreases signals.len(),
{
    if signals.len() == 0 {
        start
    } else {
        state_after_spec(state_after_all(start, signals.drop_last()), signals.last())
    }
}

/// The state the last state-changing signal sets: recording after
/// `RecordingStarted`, processing after `ProcessingStarted`, idle after
/// `Finished`, `Failed` or `Cancelled`, and idle when there was none.
pub open spec fn last_set_state(signals: Seq<OverlaySignal>) -> OverlayState
    decreases signals.len(),
{
    if signals.len() == 0 {
        OverlayState::Idle
    } else if signals.last() == OverlaySignal::AudioLevel {
        last_set_state(signals.drop_last())
    } else {
        state_after_spec(OverlayState::Idle, signals.last())
    }
}

/// From the initial state, the published state after any sequence of
/// signals is the one the last state-changing signal set (idle when there
/// was none); level updates never change it; its name is always `idle`,
/// `recording` or `processing`.
pub proof fn lemma_state_after_signals(signals: Seq<OverlaySignal>)
    ensures
        state_after_all(OverlayState::Idle, signals) == last_set_state(signals),
        state_after_all(OverlayState::Idle, signals.push(OverlaySignal::AudioLevel))
            == state_after_all(OverlayState::Idle, signals),
        state_name_spec(state_after_all(OverlayState::Idle, signals)) == "idle"@ || state_name_spec(
            state_after_all(OverlayState::Idle, signals),
        ) == "recording"@ || state_name_spec(state_after_all(OverlayState::Idle, signals))
            == "processing"@,
    decreases signals.len(),
{
    if signals.len() > 0 {
        lemma_state_after_signals(signals.drop_last());
    }
    assert(signals.push(OverlaySignal::AudioLevel).drop_last() =~= signals);
}

/// Every dictation ends with the overlay idle, however it ends, and level
/// updates never change what the overlay shows.
pub proof fn lemma_overlay_returns_to_idle(current: OverlayState)
    ensures
        state_after_spec(current, OverlaySignal::Finished) == OverlayState::Idle,
        state_after_spec(current, OverlaySignal::Failed) == OverlayState::Idle,
        state_after_spec(current, OverlaySignal::Cancelled) == OverlayState::Idle,
        state_after_spec(current, OverlaySignal::AudioLevel) == current,
{
}

} // verus!
