//! The shutdown signal: a one-shot, write-once, read-many event.
//!
//! The shutdown coordinator waits for an external termination request (an
//! interrupt, or a terminate request where the platform has one) and
//! requests shutdown the instant either is observed. Requesting is
//! idempotent: the signal can only move from unset to set, never back, and
//! only the first request per waiting source reports that anything changed,
//! so at most one diagnostic line is emitted per source.

use vstd::prelude::*;

verus! {

/// The one-shot shutdown signal. Initially unset; set exactly once; never
/// reset. The field is private: this module offers no way back to unset.
pub struct ShutdownSignal {
    fired: bool,
}

impl ShutdownSignal {
    /// Whether shutdown has been requested.
    pub closed spec fn is_set(&self) -> bool {
        self.fired
    }

    /// A fresh signal: shutdown not yet requested.
    pub fn new() -> (sig: ShutdownSignal)
        ensures
            !sig.is_set(),
    {
        ShutdownSignal { fired: false }
    }

    /// Request shutdown. Sets the signal; a second request changes nothing.
    /// Returns whether this request was the first, so the caller logs the
    /// observation at most once.
    pub fn request(&mut self) -> (newly: bool)
        ensures
            final(self).is_set(),
            newly == !old(self).is_set(),
    {
        let newly = !self.fired;
        self.fired = true;
        newly
    }

    /// Read the signal. Many readers may do so; none can change it.
    pub fn observed(&self) -> (set: bool)
        ensures
            set == self.is_set(),
    {
        self.fired
    }
}

/// Requesting shutdown twice has the same effect as requesting it once: all
/// states in which the signal is set are one and the same state, so after a
/// first request (which leaves the signal set) a second one leaves exactly
/// that state again, and `request` reports `false` for it.
pub proof fn lemma_shutdown_idempotent(once: ShutdownSignal, twice: ShutdownSignal)
    requires
        once.is_set(),
        twice.is_set(),
    ensures
        once == twice,
{
}

} // verus!
