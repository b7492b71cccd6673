//! Cooperative cancellation: one flag, a half that sets it and a half that
//! reads it.
//!
//! The flag has one writer. The writing half remembers whether it has set the
//! flag, so that what was asked for is known exactly on its side; the reading
//! half may live in another thread and sees the flag as it is when it looks.

use std::sync::atomic::AtomicBool;
use std::sync::Arc;
use vstd::prelude::*;

verus! {

/// The writing half of a cancellation flag.
pub struct Canceller {
    flag: Arc<AtomicBool>,
    requested: bool,
}

/// The reading half of a cancellation flag.
pub struct CancellationToken {
    flag: Arc<AtomicBool>,
}

impl CancellationToken {
    /// This half reads the flag that `canceller` sets.
    pub closed spec fn paired_with(&self, canceller: &Canceller) -> bool {
        self.flag == canceller.flag
    }

    /// A fresh flag, not set, with its two halves.
    pub fn new() -> (halves: (Canceller, CancellationToken))
        ensures
            halves.1.paired_with(&halves.0),
            !halves.0.requested(),
    {
        let flag = Arc::new(AtomicBool::new(false));
        let writer = Canceller { flag: flag.clone(), requested: false };
        (writer, CancellationToken { flag })
    }

    /// Reads the flag without blocking.
    ///
    /// The flag is shared with the writing half, which may live in another
    /// thread: what is read is whatever that half has stored by now.
    pub fn should_cancel(&self) -> (cancelled: bool) {
        self.flag.load(std::sync::atomic::Ordering::Acquire)
    }
}

impl Canceller {
    /// This half has set its flag.
    pub closed spec fn requested(&self) -> bool {
        self.requested
    }

    /// Sets the flag. Nothing clears it again, so every call after the first
    /// changes nothing.
    pub fn cancel(&mut self)
        ensures
            final(self).requested(),
            forall|token: CancellationToken|
                token.paired_with(old(self)) == #[trigger] token.paired_with(final(self)),
    {
        self.flag.store(true, std::sync::atomic::Ordering::Release);
        self.requested = true;
    }

    /// Has this half set its flag?
    pub fn is_requested(&self) -> (requested: bool)
        ensures
            requested == self.requested(),
    {
        self.requested
    }
}

} // verus!
