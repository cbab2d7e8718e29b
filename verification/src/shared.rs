//! The one lock guarding the shared link-state record.
//!
//! The subscriber writes the record, the render path snapshots it; both go
//! through this verified reader-writer lock, whose invariant keeps every
//! stored record well formed. A writer commits the whole record before the
//! lock is released and a reader copies the whole record while holding it,
//! so no reader can observe a half-updated pair of fields.

use vstd::prelude::*;
use vstd::rwlock::RwLock;

use crate::state::{LinkState, PropertyChange};

verus! {

/// The shared, lock-guarded link-state record.
pub struct SharedLinkState {
    lock: RwLock<LinkState, spec_fn(LinkState) -> bool>,
}

impl SharedLinkState {
    /// The lock is configured to store exactly the well-formed records.
    pub closed spec fn wf(&self) -> bool {
        forall|v: LinkState| #[trigger] self.lock.inv(v) == v.wf()
    }

    /// Creates the record in its initial, disconnected shape.
    pub fn new() -> (r: SharedLinkState)
        ensures
            r.wf(),
    {
        let ls = LinkState::new();
        SharedLinkState { lock: RwLock::new(ls, Ghost(|v: LinkState| v.wf())) }
    }

    /// Applies one property-change signal to the record under the write
    /// lock, in a single committed step; says whether a refresh
    /// notification is owed (see [`LinkState::apply_signal`]).
    pub fn apply_signal(&self, change: PropertyChange) -> (notify: bool)
        requires
            self.wf(),
        ensures
            notify == (change.new_state is Some || change.new_network is Some),
    {
        let (mut v, handle) = self.lock.acquire_write();
        let notify = v.apply_signal(change);
        handle.release_write(v);
        notify
    }

    /// Writes the initially fetched state and (when one was fetched)
    /// network path in a single committed step (see
    /// [`LinkState::set_initial`]).
    pub fn set_initial(&self, state: String, network: Option<String>)
        requires
            self.wf(),
    {
        let (mut v, handle) = self.lock.acquire_write();
        v.set_initial(state, network);
        handle.release_write(v);
    }

    /// A whole, fully-committed copy of the record, for one render pass.
    pub fn snapshot(&self) -> (r: LinkState)
        requires
            self.wf(),
        ensures
            r.wf(),
    {
        let handle = self.lock.acquire_read();
        let r = handle.borrow().clone();
        handle.release_read();
        r
    }
}

} // verus!
