//! Thread-safe shell around [`PendingOpenSlot`].
//!
//! The platform may deliver "open" notifications and query commands on
//! different threads, so the process-wide slot sits behind a verified
//! mutual-exclusion lock ([`vstd::rwlock::RwLock`]). Every access acquires
//! the lock only for the duration of the read or replace and releases it
//! before any notification is emitted; updates are therefore all-or-nothing,
//! and two concurrent takes cannot both observe the same written value.

use vstd::prelude::*;
use vstd::rwlock::RwLock;
use crate::bridge::{handle_opened, locator_views, note_views, opened_notes, Locator};
use crate::dispatch::OutboundNotification;
use crate::slot::PendingOpenSlot;

verus! {

/// The process-wide pending-open slot, guarded by a lock so that the
/// lifecycle callback thread and the query-command thread may both touch it.
/// Every stored value is a well-formed slot state; which value a shared
/// operation observes depends on lock acquisition order, so the sequential
/// contracts live on [`PendingOpenSlot`] itself.
pub struct SharedSlot {
    lock: RwLock<PendingOpenSlot, spec_fn(PendingOpenSlot) -> bool>,
}

impl SharedSlot {
    #[verifier::type_invariant]
    spec fn wf(&self) -> bool {
        forall|v: PendingOpenSlot| self.lock.inv(v)
    }

    /// A fresh shared slot, holding an empty cell.
    pub fn new() -> SharedSlot {
        let slot = PendingOpenSlot::new();
        SharedSlot { lock: RwLock::new(slot, Ghost(|v: PendingOpenSlot| true)) }
    }

    /// Replaces the held value with `path` under the lock (most recent open
    /// wins).
    pub fn write(&self, path: String) {
        proof {
            use_type_invariant(self);
        }
        let (inner, handle) = self.lock.acquire_write();
        let mut inner = inner;
        inner.write(path);
        handle.release_write(inner);
    }

    /// Reads and clears the held value under the lock. Exactly-once
    /// delivery: of two concurrent takes, one gets the value and the other
    /// gets empty, since each holds the lock for its whole read-and-clear.
    pub fn take(&self) -> Option<String> {
        proof {
            use_type_invariant(self);
        }
        let (inner, handle) = self.lock.acquire_write();
        let mut inner = inner;
        let taken = inner.take();
        handle.release_write(inner);
        taken
    }

    /// Absorbs one OS "open" notification into the shared slot: resolves the
    /// locators in order, records the last survivor, and returns the live
    /// notifications for the caller to emit after the lock is released.
    /// Which value the slot ends with depends on lock acquisition order; the
    /// notifications depend on the batch alone, so they are pinned here.
    pub fn absorb_opened(&self, locators: &Vec<Locator>) -> (notes: Vec<OutboundNotification>)
        ensures
            note_views(notes@) == opened_notes(locator_views(locators@)),
    {
        proof {
            use_type_invariant(self);
        }
        let (inner, handle) = self.lock.acquire_write();
        let mut inner = inner;
        let notes = handle_opened(&mut inner, locators);
        handle.release_write(inner);
        notes
    }
}

/// Creates the mutex-guarded process-wide slot. The bootstrap context owns
/// the value and injects it into both the lifecycle hook and the query
/// command, so the shared state stays visible rather than ambient.
pub fn get_opened_mutex() -> SharedSlot {
    SharedSlot::new()
}

/// The query command: drains the shared slot and returns the pending path
/// (or `None`, the ordinary steady state for launches without a file).
pub fn get_opened_file(slot: &SharedSlot) -> Option<String> {
    slot.take()
}

} // verus!
