//! The shared state store: a readers-writer lock around the application
//! state. The lock's invariant pins the one value startup produced, so
//! every concurrent reader provably sees that value, well-formed.
//!
//! In this scope every write precedes the store's creation: the startup
//! machine owns the state exclusively while it writes, and only the
//! finished state is pinned here. A future refresh path would rotate
//! the pinned predicate behind a write handle.

use vstd::prelude::*;
use vstd::rwlock::RwLock;
use vstd::rwlock::RwLockPredicate;

use crate::state::AppState;
use crate::state::AppStateView;

verus! {

/// The lock invariant: the stored state is well-formed and holds the
/// exact value the store was created with.
pub struct PinnedState {
    pub v: AppStateView,
}

impl RwLockPredicate<AppState> for PinnedState {
    open spec fn inv(self, s: AppState) -> bool {
        s@ == self.v && s.wf()
    }
}

/// Holds the application state for the serving phase: the startup
/// orchestration produces it, any number of concurrent request handlers
/// read it. Readers never block one another, every reader sees the one
/// pinned value, and no reader can observe a state whose report views
/// disagree.
pub struct StateStore {
    lock: RwLock<AppState, PinnedState>,
}

impl StateStore {
    /// The state the store was created with; every read returns it.
    pub closed spec fn spec_state(&self) -> AppStateView {
        self.lock.pred().v
    }

    pub fn new(state: AppState) -> (store: StateStore)
        requires
            state.wf(),
        ensures
            store.spec_state() == state@,
    {
        let ghost v = state@;
        StateStore { lock: RwLock::new(state, Ghost(PinnedState { v })) }
    }

    /// A snapshot of the stored state. Every snapshot has the pinned
    /// value and is well-formed, so any two reads agree and the report
    /// views of each never disagree (`lemma_report_views_consistent`).
    pub fn read(&self) -> (s: AppState)
        ensures
            s@ == self.spec_state(),
            s.wf(),
    {
        let handle = self.lock.acquire_read();
        let snapshot = handle.borrow().snapshot();
        handle.release_read();
        snapshot
    }
}

} // verus!
