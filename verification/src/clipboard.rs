//! Which way the clipboard is set.
//!
//! The Wayland data-control protocol is tried first; where the compositor
//! refuses it (GNOME/Mutter does not expose it to regular clients), the
//! program falls back to the `wl-copy` binary, and keeps doing so for the
//! rest of the process without retrying. `wl-copy` is waited for at most
//! `WL_COPY_TIMEOUT_MS`.

use vstd::prelude::*;

verus! {

/// A way of setting the clipboard.
#[derive(Debug, Clone, Copy, PartialEq, Eq, Structural)]
pub enum CopyMethod {
    /// The data-control protocol, served from a thread of this process.
    DataControl,
    /// The `wl-copy` binary.
    WlCopy,
}

/// What to do after an attempt through the data-control protocol.
#[derive(Debug, Clone, Copy, PartialEq, Eq, Structural)]
pub enum CopyFollowUp {
    /// The clipboard is set.
    Done,
    /// Fall back to `wl-copy`.
    UseWlCopy,
}

/// Whether the data-control protocol already failed once in this process.
#[derive(Debug, Clone, Copy, PartialEq, Eq, Structural)]
pub struct ClipboardFallback {
    pub data_control_unsupported: bool,
}

/// How long `wl-copy` is waited for, in milliseconds. It can hang while
/// an older `wl-copy` still serves the selection; losing one copy is better
/// than a frozen transcription worker (the text survives in the
/// notification and the history).
pub const WL_COPY_TIMEOUT_MS: u64 = 3000;

/// What to do while waiting for `wl-copy`.
#[derive(Debug, Clone, Copy, PartialEq, Eq, Structural)]
pub enum WlCopyWait {
    /// It exited: check its status.
    Finished,
    /// Poll again shortly.
    KeepWaiting,
    /// It took too long: kill it and give the copy up.
    Kill,
}

/// The wait decision: an exited `wl-copy` is finished; one still running
/// after `WL_COPY_TIMEOUT_MS` is killed; otherwise the wait goes on.
pub fn wl_copy_wait(exited: bool, elapsed_ms: u128) -> (w: WlCopyWait)
    ensures
        w == (if exited {
            WlCopyWait::Finished
        } else if elapsed_ms >= WL_COPY_TIMEOUT_MS {
            WlCopyWait::Kill
        } else {
            WlCopyWait::KeepWaiting
        }),
{
    if exited {
        WlCopyWait::Finished
    } else if elapsed_ms >= WL_COPY_TIMEOUT_MS as u128 {
        WlCopyWait::Kill
    } else {
        WlCopyWait::KeepWaiting
    }
}

/// The method tried first, given whether the protocol already failed.
pub open spec fn first_method_spec(unsupported: bool) -> CopyMethod {
    if unsupported {
        CopyMethod::WlCopy
    } else {
        CopyMethod::DataControl
    }
}

/// Whether the protocol counts as failed after an attempt through it.
pub open spec fn unsupported_after(unsupported: bool, succeeded: bool) -> bool {
    unsupported || !succeeded
}

impl ClipboardFallback {
    /// The protocol has not failed yet.
    pub fn new() -> (r: Self)
        ensures
            !r.data_control_unsupported,
    {
        ClipboardFallback { data_control_unsupported: false }
    }

    /// The method to try first: `wl-copy` once the protocol has failed,
    /// the protocol otherwise.
    pub fn first_method(&self) -> (m: CopyMethod)
        ensures
            m == first_method_spec(self.data_control_unsupported),
    {
        if self.data_control_unsupported {
            CopyMethod::WlCopy
        } else {
            CopyMethod::DataControl
        }
    }

    /// Takes the outcome of a data-control attempt: success is final; a
    /// failure is remembered and answered with the `wl-copy` fallback.
    pub fn data_control_outcome(&mut self, succeeded: bool) -> (f: CopyFollowUp)
        ensures
            f == (if succeeded {
                CopyFollowUp::Done
            } else {
                CopyFollowUp::UseWlCopy
            }),
            final(self).data_control_unsupported == unsupported_after(
                old(self).data_control_unsupported,
                succeeded,
            ),
    {
        if succeeded {
            CopyFollowUp::Done
        } else {
            self.data_control_unsupported = true;
            CopyFollowUp::UseWlCopy
        }
    }
}

/// Once the protocol has failed, every later copy goes through `wl-copy`
/// first: no later outcome clears the mark.
pub proof fn lemma_fallback_is_sticky(unsupported: bool, succeeded: bool)
    requires
        unsupported,
    ensures
        unsupported_after(unsupported, succeeded),
        first_method_spec(unsupported_after(unsupported, succeeded)) == CopyMethod::WlCopy,
{
}

} // verus!
