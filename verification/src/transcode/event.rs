//! The phases a transcoding run reports, and the handle that cancels it.

use std::sync::atomic::{AtomicBool, Ordering};
use std::sync::Arc;

use vstd::prelude::*;

verus! {

/// Phase of a transcoding run, as the front end's state machine sees it.
#[derive(Debug, Clone, Copy, PartialEq, Eq, Structural)]
pub enum Phase {
    Preparing,
    Transcoding,
    Finalizing,
}

/// What a running job reports, without its progress figures.
#[derive(Debug, Clone)]
pub enum JobEvent {
    Phase(Phase),
    Progress,
    Log(String),
    Done(String),
    Canceled,
    Failed(String),
}

/// Cancellation handle: the front end holds it, the transcoding thread reads
/// the flag before each frame. Clones share one flag.
#[derive(Clone)]
pub struct TranscodeHandle {
    cancel: Arc<AtomicBool>,
}

impl TranscodeHandle {
    /// The flag this handle raises and reads.
    pub closed spec fn shared_flag(self) -> Arc<AtomicBool> {
        self.cancel
    }

    /// A handle whose flag is not raised.
    pub fn new() -> (r: Self) {
        TranscodeHandle { cancel: Arc::new(AtomicBool::new(false)) }
    }

    /// The shared flag, for the thread that does the work.
    pub fn flag(&self) -> (r: &Arc<AtomicBool>)
        ensures
            *r == self.shared_flag(),
    {
        &self.cancel
    }

    /// Raises the flag. Raising it again does no harm.
    pub fn cancel(&self) {
        self.cancel.store(true, Ordering::Relaxed);
    }

    /// Whether the flag has been raised (by any clone of this handle).
    pub fn is_canceled(&self) -> (r: bool) {
        self.cancel.load(Ordering::Relaxed)
    }
}

} // verus!
