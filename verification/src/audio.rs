//! The audio format whisper expects, and the decisions of the capture loop.
//!
//! Capture itself (cpal streams, sample conversion, downmixing and
//! resampling, all in floating point) runs in the program. Its control loop
//! wakes every 30 ms and asks [`capture_control`] whether to go on; every
//! second wake-up it feeds the overlay the level of the samples captured
//! since the previous report.

use vstd::prelude::*;

verus! {

/// Whisper expects 16 kHz mono samples.
pub const WHISPER_SAMPLE_RATE: u32 = 16_000;

/// What the capture loop does at a wake-up.
#[derive(Debug, Clone, Copy, PartialEq, Eq, Structural)]
pub enum CaptureControl {
    /// `stop()` was called: end the capture.
    Finish,
    /// The safety cap elapsed first: end the capture and tell the daemon.
    TimedOut,
    /// Sleep and capture on.
    Continue,
}

/// The capture loop's decision: a requested stop wins, then the safety cap
/// (`elapsed_ms >= max_ms`), else capture on.
pub fn capture_control(stop_requested: bool, elapsed_ms: u128, max_ms: u128) -> (c: CaptureControl)
    ensures
        c == (if stop_requested {
            CaptureControl::Finish
        } else if elapsed_ms >= max_ms {
            CaptureControl::TimedOut
        } else {
            CaptureControl::Continue
        }),
{
    if stop_requested {
        CaptureControl::Finish
    } else if elapsed_ms >= max_ms {
        CaptureControl::TimedOut
    } else {
        CaptureControl::Continue
    }
}

/// Whether the level is reported after wake-up number `ticks`: every
/// second one (about every 60 ms).
pub fn level_due(ticks: u32) -> (r: bool)
    ensures
        r == (ticks % 2 == 0),
{
    ticks % 2 == 0
}

/// Where the samples not yet reported start, in a buffer of `buffer_len`
/// samples of which `reported` were covered by the previous report.
pub fn fresh_samples_start(reported: usize, buffer_len: usize) -> (r: usize)
    ensures
        r == (if reported <= buffer_len {
            reported
        } else {
            buffer_len
        }),
        r <= buffer_len,
{
    if reported <= buffer_len {
        reported
    } else {
        buffer_len
    }
}

} // verus!
