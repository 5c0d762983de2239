use vstd::prelude::*;
use std::collections::HashMap;

verus! {

broadcast use vstd::std_specs::hash::group_hash_axioms;

#[derive(Debug, Clone, Copy, PartialEq, Eq, Structural)]
pub enum SyncState {
    Unsynced,
    Synced,
}

/// How the last fetch of a collection went.
#[derive(Debug, Clone, Copy, PartialEq, Eq, Structural)]
pub struct FetchSummary {
    pub successes: usize,
    pub failures: usize,
}

#[derive(Debug, Clone, Copy, PartialEq, Eq, Structural)]
pub struct SyncEntry {
    pub state: SyncState,
    /// `None` until a fetch produced a batch, and after a fetch that failed
    /// as a whole.
    pub last_fetch: Option<FetchSummary>,
}

/// The state of every collection seen so far, keyed by collection id.
pub struct SyncTracker {
    entries: HashMap<u64, SyncEntry>,
}

/// A collection counts as synced only when its most recent fetch produced
/// no parse error.
pub open spec fn sync_invariant(m: Map<u64, SyncEntry>) -> bool {
    forall|k: u64|
        #[trigger] m.contains_key(k) && m[k].state == SyncState::Synced ==> m[k].last_fetch
            is Some && m[k].last_fetch->0.failures == 0
}

/// The state of a collection; one never seen is unsynced.
pub open spec fn state_in(m: Map<u64, SyncEntry>, id: u64) -> SyncState {
    if m.contains_key(id) {
        m[id].state
    } else {
        SyncState::Unsynced
    }
}

/// The entry after a fetch that produced a batch: any failure leaves the
/// collection unsynced, a clean non-empty batch syncs it, and an empty clean
/// batch changes nothing.
pub open spec fn after_fetch(old_state: SyncState, successes: usize, failures: usize) -> SyncEntry {
    SyncEntry {
        state: if failures > 0 {
            SyncState::Unsynced
        } else if successes > 0 {
            SyncState::Synced
        } else {
            old_state
        },
        last_fetch: Some(FetchSummary { successes, failures }),
    }
}

impl View for SyncTracker {
    type V = Map<u64, SyncEntry>;

    closed spec fn view(&self) -> Map<u64, SyncEntry> {
        self.entries@
    }
}

impl SyncTracker {
    pub open spec fn wf(&self) -> bool {
        sync_invariant(self@)
    }

    pub fn new() -> (r: SyncTracker)
        ensures
            r.wf(),
            r@ == Map::<u64, SyncEntry>::empty(),
    {
        SyncTracker { entries: HashMap::new() }
    }

    fn entry(&self, id: u64) -> (r: Option<SyncEntry>)
        ensures
            r == (if self@.contains_key(id) {
                Some(self@[id])
            } else {
                None::<SyncEntry>
            }),
    {
        match self.entries.get(&id) {
            Some(e) => Some(*e),
            None => None,
        }
    }

    pub fn state(&self, id: u64) -> (r: SyncState)
        ensures
            r == state_in(self@, id),
    {
        match self.entry(id) {
            Some(e) => e.state,
            None => SyncState::Unsynced,
        }
    }

    /// Registers a newly discovered collection as unsynced; a known one is
    /// left as it is.
    pub fn discover(&mut self, id: u64)
        requires
            old(self).wf(),
        ensures
            final(self).wf(),
            old(self)@.contains_key(id) ==> final(self)@ == old(self)@,
            !old(self)@.contains_key(id) ==> final(self)@ == old(self)@.insert(
                id,
                SyncEntry { state: SyncState::Unsynced, last_fetch: None },
            ),
    {
        if self.entry(id).is_none() {
            self.entries.insert(id, SyncEntry { state: SyncState::Unsynced, last_fetch: None });
        }
    }

    /// Records the partition sizes of a fetch of collection `id`.
    pub fn record_fetch(&mut self, id: u64, successes: usize, failures: usize) -> (r: SyncState)
        requires
            old(self).wf(),
        ensures
            final(self).wf(),
            final(self)@ == old(self)@.insert(
                id,
                after_fetch(state_in(old(self)@, id), successes, failures),
            ),
            r == state_in(final(self)@, id),
    {
        let old_state = self.state(id);
        let state = if failures > 0 {
            SyncState::Unsynced
        } else if successes > 0 {
            SyncState::Synced
        } else {
            old_state
        };
        let e = SyncEntry { state, last_fetch: Some(FetchSummary { successes, failures }) };
        self.entries.insert(id, e);
        state
    }

    /// Records a fetch that failed as a whole (the view never converged, or
    /// the session failed): the collection is unsynced.
    pub fn record_failure(&mut self, id: u64)
        requires
            old(self).wf(),
        ensures
            final(self).wf(),
            final(self)@ == old(self)@.insert(
                id,
                SyncEntry { state: SyncState::Unsynced, last_fetch: None },
            ),
    {
        self.entries.insert(id, SyncEntry { state: SyncState::Unsynced, last_fetch: None });
    }

    /// Marks `id` synced, which is allowed only when its last fetch produced
    /// records and no error. Returns whether the collection is now synced.
    pub fn mark_synced(&mut self, id: u64) -> (r: bool)
        requires
            old(self).wf(),
        ensures
            final(self).wf(),
            r == (old(self)@.contains_key(id) && old(self)@[id].last_fetch is Some
                && old(self)@[id].last_fetch->0.failures == 0
                && old(self)@[id].last_fetch->0.successes > 0),
            r ==> final(self)@ == old(self)@.insert(
                id,
                SyncEntry { state: SyncState::Synced, ..old(self)@[id] },
            ),
            !r ==> final(self)@ == old(self)@,
    {
        match self.entry(id) {
            Some(e) => match e.last_fetch {
                Some(f) => {
                    if f.failures == 0 && f.successes > 0 {
                        self.entries.insert(id, SyncEntry { state: SyncState::Synced, ..e });
                        true
                    } else {
                        false
                    }
                },
                None => false,
            },
            None => false,
        }
    }

    /// Forces a full re-fetch of `id`: a known collection becomes unsynced.
    pub fn reset(&mut self, id: u64)
        requires
            old(self).wf(),
        ensures
            final(self).wf(),
            old(self)@.contains_key(id) ==> final(self)@ == old(self)@.insert(
                id,
                SyncEntry { state: SyncState::Unsynced, ..old(self)@[id] },
            ),
            !old(self)@.contains_key(id) ==> final(self)@ == old(self)@,
    {
        match self.entry(id) {
            Some(e) => {
                self.entries.insert(id, SyncEntry { state: SyncState::Unsynced, ..e });
            },
            None => {},
        }
    }
}

/// Whatever sequence of operations built a tracker, a collection it holds
/// as synced had a most recent fetch with zero parse errors.
pub proof fn lemma_synced_fetch_was_clean(t: &SyncTracker, id: u64)
    requires
        t.wf(),
        state_in(t@, id) == SyncState::Synced,
    ensures
        t@.contains_key(id),
        t@[id].last_fetch is Some,
        t@[id].last_fetch->0.failures == 0,
{
}

} // verus!
