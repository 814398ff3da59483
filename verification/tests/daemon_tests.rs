use quickwhisper::config::{HotkeyMode, WhisperConfig};
use quickwhisper::daemon::{
    plan_delivery, Daemon, DaemonAction, DaemonInput, DaemonState, Delivery, MIN_RECORDING_NS,
};
use quickwhisper::hotkey::HotkeyEvent;

const PRESS: DaemonInput = DaemonInput::Key(HotkeyEvent::Pressed);
const RELEASE: DaemonInput = DaemonInput::Key(HotkeyEvent::Released);

#[test]
fn push_to_talk_hold_and_release_transcribes() {
    let mut d = Daemon::new(HotkeyMode::PushToTalk);
    assert_eq!(d.step(PRESS), DaemonAction::StartRecorder);
    assert_eq!(d.step(DaemonInput::RecorderStarted { now_ns: 1_000_000_000 }), DaemonAction::Nothing);
    assert!(d.is_recording());
    // repeated press while held does nothing
    assert_eq!(d.step(PRESS), DaemonAction::Nothing);
    assert_eq!(d.step(RELEASE), DaemonAction::StopRecorder);
    assert_eq!(
        d.step(DaemonInput::RecorderStopped { now_ns: 3_500_000_000, captured: true }),
        DaemonAction::Transcribe
    );
    assert_eq!(d.state, DaemonState::Idle);
}

#[test]
fn short_taps_are_discarded() {
    assert_eq!(MIN_RECORDING_NS, 300_000_000);
    let mut d = Daemon::new(HotkeyMode::PushToTalk);
    d.step(PRESS);
    d.step(DaemonInput::RecorderStarted { now_ns: 10_000_000 });
    d.step(RELEASE);
    assert_eq!(
        d.step(DaemonInput::RecorderStopped { now_ns: 309_000_000, captured: true }),
        DaemonAction::DiscardTap
    );
    d.step(PRESS);
    d.step(DaemonInput::RecorderStarted { now_ns: 1_000_000_000 });
    d.step(RELEASE);
    assert_eq!(
        d.step(DaemonInput::RecorderStopped { now_ns: 1_300_000_000, captured: true }),
        DaemonAction::Transcribe
    );
}

#[test]
fn toggle_mode_uses_two_presses() {
    let mut d = Daemon::new(HotkeyMode::Toggle);
    assert_eq!(d.step(PRESS), DaemonAction::StartRecorder);
    d.step(DaemonInput::RecorderStarted { now_ns: 0_000_000 });
    assert_eq!(d.step(RELEASE), DaemonAction::Nothing);
    assert_eq!(d.step(PRESS), DaemonAction::StopRecorder);
    assert_eq!(
        d.step(DaemonInput::RecorderStopped { now_ns: 5_000_000_000, captured: true }),
        DaemonAction::Transcribe
    );
}

#[test]
fn timeout_stops_only_a_running_recording() {
    let mut d = Daemon::new(HotkeyMode::PushToTalk);
    assert_eq!(d.step(DaemonInput::RecorderTimeout), DaemonAction::Nothing);
    d.step(PRESS);
    d.step(DaemonInput::RecorderStarted { now_ns: 0_000_000 });
    assert_eq!(d.step(DaemonInput::RecorderTimeout), DaemonAction::StopRecorder);
    assert_eq!(
        d.step(DaemonInput::RecorderStopped { now_ns: 120_000_000_000, captured: true }),
        DaemonAction::Transcribe
    );
}

#[test]
fn failures_are_reported_and_return_to_idle() {
    let mut d = Daemon::new(HotkeyMode::PushToTalk);
    d.step(PRESS);
    assert_eq!(d.step(DaemonInput::RecorderFailed), DaemonAction::ReportStartFailure);
    assert_eq!(d.state, DaemonState::Idle);
    d.step(PRESS);
    d.step(DaemonInput::RecorderStarted { now_ns: 0_000_000 });
    d.step(RELEASE);
    assert_eq!(
        d.step(DaemonInput::RecorderStopped { now_ns: 100_000_000, captured: false }),
        DaemonAction::ReportCaptureFailure
    );
    assert_eq!(d.state, DaemonState::Idle);
}

#[test]
fn release_while_idle_does_nothing() {
    let mut d = Daemon::new(HotkeyMode::PushToTalk);
    assert_eq!(d.step(RELEASE), DaemonAction::Nothing);
    assert_eq!(d.state, DaemonState::Idle);
}

fn whisper(model: &str, language: &str) -> WhisperConfig {
    WhisperConfig { model: model.to_string(), language: language.to_string() }
}

#[test]
fn empty_transcriptions_are_not_delivered() {
    let plan = plan_delivery(&whisper("small", "pt"), String::new(), None, 900);
    assert!(matches!(plan, Delivery::Silence));
}

#[test]
fn fixed_language_is_recorded_as_configured() {
    match plan_delivery(&whisper("small", "pt"), "olá mundo".to_string(), Some("en".into()), 2_000) {
        Delivery::Deliver(h) => {
            assert_eq!(h.text, "olá mundo");
            assert_eq!(h.duration_ms, 2_000);
            assert_eq!(h.lang.as_deref(), Some("pt"));
            assert_eq!(h.model, "small");
        }
        Delivery::Silence => panic!("text was dropped"),
    }
}

#[test]
fn auto_language_records_what_whisper_detected() {
    match plan_delivery(&whisper("base", "auto"), "hello".to_string(), Some("en".into()), 1) {
        Delivery::Deliver(h) => assert_eq!(h.lang.as_deref(), Some("en")),
        Delivery::Silence => panic!("text was dropped"),
    }
    match plan_delivery(&whisper("base", "auto"), "hello".to_string(), None, 1) {
        Delivery::Deliver(h) => assert_eq!(h.lang, None),
        Delivery::Silence => panic!("text was dropped"),
    }
}

#[test]
fn tap_limit_is_exact_to_the_nanosecond() {
    for (held, expected) in [(299_999_999u64, DaemonAction::DiscardTap), (300_000_000, DaemonAction::Transcribe)] {
        let mut d = Daemon::new(HotkeyMode::PushToTalk);
        d.step(PRESS);
        d.step(DaemonInput::RecorderStarted { now_ns: 5 });
        d.step(RELEASE);
        assert_eq!(d.step(DaemonInput::RecorderStopped { now_ns: 5 + held, captured: true }), expected);
    }
}
