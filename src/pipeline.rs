use vstd::prelude::*;
use crate::partition::{errs, oks, partition};
use crate::record::{ParseError, ParseOutcome, ParsedRecord};
use crate::sync::{after_fetch, state_in, SyncTracker};

verus! {

/// Settles one fetch of collection `id`: splits its outcomes into the
/// records to store and the errors to report, and records the fetch in the
/// tracker, so that a batch with any error leaves the collection unsynced.
pub fn settle_batch(tracker: &mut SyncTracker, id: u64, outcomes: Vec<ParseOutcome>) -> (r: (
    Vec<ParsedRecord>,
    Vec<ParseError>,
))
    requires
        old(tracker).wf(),
    ensures
        final(tracker).wf(),
        r.0@ == oks(outcomes@),
        r.1@ == errs(outcomes@),
        final(tracker)@ == old(tracker)@.insert(
            id,
            after_fetch(state_in(old(tracker)@, id), r.0@.len() as usize, r.1@.len() as usize),
        ),
{
    let (good, bad) = partition(outcomes);
    tracker.record_fetch(id, good.len(), bad.len());
    (good, bad)
}

} // verus!
