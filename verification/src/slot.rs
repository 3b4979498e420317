//! The shared image slot: one writer (the poller), one reader (the presenter).
//!
//! The slot is a reader/writer lock around an optional byte image, built on
//! vstd's verified lock. Its interface traffics in whole values only: a write
//! replaces the entire content under the write half of the lock, a read hands
//! back a copy of the entire content under the read half, so no reader can
//! observe a partially written image. The slot starts empty and is never
//! cleared: outcomes other than a fresh image leave it untouched.

use vstd::prelude::*;
use vstd::rwlock::RwLock;
use vstd::rwlock::RwLockPredicate;
use crate::poll::PollOutcome;
use crate::poll::PollReport;
use crate::poll::report_of;

verus! {

/// Every optional byte image is a lawful slot content.
pub struct SlotInv;

impl RwLockPredicate<Option<Vec<u8>>> for SlotInv {
    open spec fn inv(self, v: Option<Vec<u8>>) -> bool {
        true
    }
}

/// The lock-guarded optional image, shared by poller and presenter.
pub struct SharedSlot {
    lock: RwLock<Option<Vec<u8>>, SlotInv>,
}

impl SharedSlot {
    /// A fresh slot, holding no image.
    pub fn new() -> SharedSlot {
        SharedSlot { lock: RwLock::new(None, Ghost(SlotInv)) }
    }

    /// Publish one poll outcome. Only a fresh image touches the slot: the
    /// write lock is taken just long enough to replace the whole content.
    /// The other outcomes do not even take the lock, so the prior image
    /// persists; the returned report is what the loop should log.
    pub fn publish(&self, outcome: PollOutcome) -> (r: PollReport)
        ensures
            r == report_of(outcome),
    {
        match outcome {
            PollOutcome::Image(img) => {
                let (_prev, write_handle) = self.lock.acquire_write();
                write_handle.release_write(Some(img));
                PollReport::Updated
            },
            PollOutcome::NoTask => PollReport::NoTask,
            PollOutcome::Failure => PollReport::Failed,
        }
    }

    /// Read-and-clone the current content under the read half of the lock:
    /// always a whole image or nothing, never a torn value.
    pub fn snapshot(&self) -> Option<Vec<u8>> {
        let read_handle = self.lock.acquire_read();
        let copied = match read_handle.borrow() {
            Some(img) => Some(img.clone()),
            None => None,
        };
        read_handle.release_read();
        copied
    }
}

} // verus!
