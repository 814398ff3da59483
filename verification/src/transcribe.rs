//! What the program feeds whisper and what it makes of whisper's output.
//!
//! Inference itself (whisper.cpp through `whisper-rs`) runs in the program;
//! here are the input length, the thread count and the assembly of the
//! transcript from whisper's segments.

use vstd::prelude::*;

use crate::audio::WHISPER_SAMPLE_RATE;
use crate::text::{lemma_trim_keeps_clean_text, trim, trim_spec, unicode_white_space};
use vstd::seq_lib::lemma_flatten_concat;

verus! {

/// A finished transcription.
#[derive(Debug, Clone)]
pub struct Transcription {
    pub text: String,
    /// Detected language code (when language was "auto"), if whisper reports one.
    pub language: Option<String>,
}

/// The fewest samples whisper is given: slightly over one second, since
/// whisper.cpp misbehaves on sub-second inputs.
pub open spec fn min_input_samples() -> nat {
    (WHISPER_SAMPLE_RATE as nat * 11) / 10
}

/// How many samples whisper is given for a recording of `len` samples:
/// shorter recordings are padded with silence to `min_input_samples`.
pub fn whisper_input_len(len: usize) -> (r: usize)
    ensures
        r == (if len < min_input_samples() {
            min_input_samples()
        } else {
            len as nat
        }),
{
    let min_len = (WHISPER_SAMPLE_RATE as usize * 11) / 10;
    if len < min_len {
        min_len
    } else {
        len
    }
}

/// The number of threads whisper runs on, given what
/// `std::thread::available_parallelism` reported: that count (as an
/// `i32`), at most 8, since whisper.cpp scales poorly past 8 threads; 4
/// when the count is unknown.
pub open spec fn thread_count_spec(available: Option<usize>) -> i32 {
    match available {
        Some(n) => if (n as i32) < 8 {
            n as i32
        } else {
            8
        },
        None => 4,
    }
}

/// The number of threads whisper runs on.
pub fn whisper_thread_count(available: Option<usize>) -> (r: i32)
    ensures
        r == thread_count_spec(available),
{
    let n: i32 = match available {
        Some(n) => #[verifier::truncate] (n as i32),
        None => 4,
    };
    if n < 8 {
        n
    } else {
        8
    }
}

/// The text of whisper's segments, in order, as plain values.
pub open spec fn segments_text(segments: Seq<String>) -> Seq<char> {
    segments.map_values(|s: String| s@).flatten()
}

/// Every segment goes into the transcript's text, once and in order: no
/// segments give no text, one segment gives exactly its text, and a run of
/// segments followed by another gives the first run's text followed by the
/// second's (in particular, appending a segment appends its text).
pub proof fn lemma_segments_text_takes_every_segment(a: Seq<String>, b: Seq<String>, s: String)
    ensures
        segments_text(Seq::<String>::empty()) == Seq::<char>::empty(),
        segments_text(seq![s]) == s@,
        segments_text(a + b) == segments_text(a) + segments_text(b),
        segments_text(a.push(s)) == segments_text(a) + s@,
{
    let f = |x: String| x@;
    assert(Seq::<String>::empty().map_values(f) =~= Seq::<Seq<char>>::empty());
    assert(seq![s].map_values(f) =~= seq![s@]);
    seq![s@].lemma_flatten_one_element();
    assert((a + b).map_values(f) =~= a.map_values(f) + b.map_values(f));
    lemma_flatten_concat(a.map_values(f), b.map_values(f));
    assert(a.push(s) =~= a + seq![s]);
    assert((a + seq![s]).map_values(f) =~= a.map_values(f) + seq![s].map_values(f));
    lemma_flatten_concat(a.map_values(f), seq![s@]);
}

/// A one-segment dictation gives that segment's text, trimmed; text that
/// already neither begins nor ends with white space comes through whole.
pub proof fn lemma_single_segment_transcript(s: String)
    ensures
        trim_spec(segments_text(seq![s])) == trim_spec(s@),
        s@.len() > 0 && !unicode_white_space(s@[0]) && !unicode_white_space(s@.last()) ==> trim_spec(
            segments_text(seq![s]),
        ) == s@,
{
    lemma_segments_text_takes_every_segment(Seq::empty(), Seq::empty(), s);
    lemma_trim_keeps_clean_text(s@);
}

/// The transcript: whisper's segments joined in order, without leading and
/// trailing white space.
pub fn assemble_transcript(segments: &Vec<String>) -> (r: String)
    ensures
        r@ == trim_spec(segments_text(segments@)),
{
    let ghost parts = segments@.map_values(|s: String| s@);
    let mut joined = String::new();
    let mut i: usize = 0;
    while i < segments.len()
        invariant
            i <= segments@.len(),
            parts == segments@.map_values(|s: String| s@),
            joined@ == parts.take(i as int).flatten_alt(),
        decreases segments@.len() - i,
    {
        proof {
            assert(parts.take(i + 1).drop_last() =~= parts.take(i as int));
            assert(parts.take(i + 1).last() == segments@[i as int]@);
        }
        joined.append(segments[i].as_str());
        i = i + 1;
    }
    proof {
        assert(parts.take(segments@.len() as int) =~= parts);
        parts.lemma_flatten_and_flatten_alt_are_equivalent();
    }
    trim(joined.as_str())
}

} // verus!
