use quickwhisper::audio::{capture_control, fresh_samples_start, level_due, CaptureControl};
use quickwhisper::clipboard::{
    wl_copy_wait, ClipboardFallback, CopyFollowUp, CopyMethod, WlCopyWait, WL_COPY_TIMEOUT_MS,
};
use quickwhisper::overlay::{initial_state, state_after, state_name, OverlaySignal, OverlayState};
use quickwhisper::text::{join_path, parse_u64, str_eq, trim, u64_to_decimal};
use quickwhisper::transcribe::{assemble_transcript, whisper_input_len, whisper_thread_count};

#[test]
fn clipboard_falls_back_to_wl_copy_for_good() {
    let mut f = ClipboardFallback::new();
    assert_eq!(f.first_method(), CopyMethod::DataControl);
    assert_eq!(f.data_control_outcome(true), CopyFollowUp::Done);
    assert_eq!(f.first_method(), CopyMethod::DataControl);
    assert_eq!(f.data_control_outcome(false), CopyFollowUp::UseWlCopy);
    assert_eq!(f.first_method(), CopyMethod::WlCopy);
    assert_eq!(f.data_control_outcome(true), CopyFollowUp::Done);
    assert_eq!(f.first_method(), CopyMethod::WlCopy);
}

#[test]
fn overlay_state_follows_signals() {
    let mut s = OverlayState::Idle;
    assert_eq!(state_name(s), "idle");
    s = state_after(s, OverlaySignal::RecordingStarted);
    assert_eq!(state_name(s), "recording");
    s = state_after(s, OverlaySignal::AudioLevel);
    assert_eq!(s, OverlayState::Recording);
    s = state_after(s, OverlaySignal::ProcessingStarted);
    assert_eq!(state_name(s), "processing");
    s = state_after(s, OverlaySignal::Finished);
    assert_eq!(s, OverlayState::Idle);
    assert_eq!(state_after(OverlayState::Recording, OverlaySignal::Cancelled), OverlayState::Idle);
    assert_eq!(state_after(OverlayState::Processing, OverlaySignal::Failed), OverlayState::Idle);
}

#[test]
fn transcript_is_joined_and_trimmed() {
    let segs = vec![" Olá,".to_string(), " mundo. ".to_string(), "\n".to_string()];
    assert_eq!(assemble_transcript(&segs), "Olá, mundo.");
    assert_eq!(assemble_transcript(&vec![]), "");
    assert_eq!(assemble_transcript(&vec!["  \u{3000}".to_string()]), "");
}

#[test]
fn short_inputs_are_padded_to_just_over_a_second() {
    assert_eq!(whisper_input_len(0), 17_600);
    assert_eq!(whisper_input_len(17_599), 17_600);
    assert_eq!(whisper_input_len(17_600), 17_600);
    assert_eq!(whisper_input_len(32_000), 32_000);
}

#[test]
fn whisper_uses_at_most_eight_threads() {
    assert_eq!(whisper_thread_count(None), 4);
    assert_eq!(whisper_thread_count(Some(2)), 2);
    assert_eq!(whisper_thread_count(Some(8)), 8);
    assert_eq!(whisper_thread_count(Some(64)), 8);
}

#[test]
fn decimal_text_round_trips() {
    for n in [0u64, 7, 10, 120, 999, 1_000_000, u64::MAX] {
        let s = u64_to_decimal(n);
        assert_eq!(s, n.to_string());
        assert_eq!(parse_u64(&s), Some(n));
    }
    assert_eq!(parse_u64("+7"), Some(7));
    assert_eq!(parse_u64("007"), Some(7));
    assert_eq!(parse_u64("++7"), None);
    assert_eq!(parse_u64(" 7"), None);
    assert_eq!(parse_u64("٣"), None);
}

#[test]
fn text_helpers_behave_like_std() {
    assert!(str_eq("ab", "ab"));
    assert!(!str_eq("ab", "abc"));
    assert_eq!(trim("\t x y \n"), "x y");
    assert_eq!(join_path("/a", "b"), "/a/b");
    assert_eq!(join_path("/a/", "b"), "/a/b");
    assert_eq!(join_path("", "b"), "b");
    assert_eq!(join_path("/a", "/b"), "/b");
    assert_eq!(join_path("/a", ""), "/a/");
    for (base, name) in [("/a", "b"), ("/a/", "b"), ("", "b"), ("/a", "/b"), ("/a", "")] {
        let std_join = std::path::Path::new(base).join(name);
        assert_eq!(join_path(base, name), std_join.to_str().unwrap());
    }
}

#[test]
fn capture_loop_stops_on_request_or_cap() {
    assert_eq!(capture_control(true, 500_000, 120_000), CaptureControl::Finish);
    assert_eq!(capture_control(false, 120_000, 120_000), CaptureControl::TimedOut);
    assert_eq!(capture_control(false, 119_999, 120_000), CaptureControl::Continue);
    assert!(!level_due(1));
    assert!(level_due(2));
    assert_eq!(fresh_samples_start(10, 25), 10);
    assert_eq!(fresh_samples_start(30, 25), 25);
}

#[test]
fn white_space_matches_std_for_every_char() {
    for c in (0u32..=0x10FFFF).filter_map(char::from_u32) {
        assert_eq!(quickwhisper::text::is_white_space(c), c.is_whitespace(), "{:#x}", c as u32);
    }
}

#[test]
fn trim_matches_std() {
    for s in ["", " ", "a", " a ", "\u{3000}x\u{85}", "\u{200b}x", "x\ty z\r\n"] {
        assert_eq!(trim(s), s.trim());
    }
}

#[test]
fn wl_copy_is_waited_for_three_seconds_at_most() {
    assert_eq!(WL_COPY_TIMEOUT_MS, 3000);
    assert_eq!(wl_copy_wait(true, 10_000), WlCopyWait::Finished);
    assert_eq!(wl_copy_wait(false, 2_999), WlCopyWait::KeepWaiting);
    assert_eq!(wl_copy_wait(false, 3_000), WlCopyWait::Kill);
}

#[test]
fn overlay_starts_idle_and_follows_the_last_state_change() {
    let mut s = initial_state();
    assert_eq!(s, OverlayState::Idle);
    for sig in [
        OverlaySignal::RecordingStarted,
        OverlaySignal::AudioLevel,
        OverlaySignal::AudioLevel,
        OverlaySignal::ProcessingStarted,
        OverlaySignal::AudioLevel,
    ] {
        s = state_after(s, sig);
    }
    assert_eq!(state_name(s), "processing");
}
