//! One past transcription, as the history lists it.

use vstd::prelude::*;

verus! {

/// A transcription kept in the history.
#[derive(Debug, Clone)]
pub struct Entry {
    pub id: i64,
    /// UTC ISO 8601, as stored.
    pub created_at: String,
    /// Same instant in the machine's local time, for display.
    pub created_at_local: String,
    pub text: String,
    pub duration_ms: i64,
    /// Language used (fixed or whisper-detected), when known.
    pub lang: Option<String>,
    pub model: String,
}

} // verus!
