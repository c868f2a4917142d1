//! Bookkeeping for a round of fetches: how many sources are still out, and what a
//! settled source does to the store.
use vstd::prelude::*;
use crate::decode::FetchError;
use crate::entry::FeedItem;
use crate::store::{merged, EntryStore};

verus! {

/// How many configured sources there are and how many have settled.
pub struct LoadProgress {
    total: usize,
    settled: usize,
}

impl LoadProgress {
    /// The number of configured sources.
    pub closed spec fn total(&self) -> nat {
        self.total as nat
    }

    /// The number of sources that have settled, successfully or not.
    pub closed spec fn settled(&self) -> nat {
        self.settled as nat
    }

    /// Never more settled sources than configured ones.
    pub closed spec fn wf(&self) -> bool {
        self.settled <= self.total
    }

    /// A round over `source_count` sources, none settled yet.
    pub fn start(source_count: usize) -> (r: LoadProgress)
        ensures
            r.wf(),
            r.total() == source_count,
            r.settled() == 0,
    {
        LoadProgress { total: source_count, settled: 0 }
    }

    /// Whether no source is configured: the reader then shows how to add one
    /// instead of an empty list.
    pub fn no_sources(&self) -> (r: bool)
        ensures
            r == (self.total() == 0),
    {
        self.total == 0
    }

    /// Whether some source has not settled yet.
    pub fn is_loading(&self) -> (r: bool)
        requires
            self.wf(),
        ensures
            r == (self.settled() < self.total()),
    {
        self.settled < self.total
    }

    /// How many sources are still out.
    pub fn remaining(&self) -> (r: usize)
        requires
            self.wf(),
        ensures
            r == self.total() - self.settled(),
    {
        self.total - self.settled
    }

    /// Counts one more source as settled; a round never settles more sources than
    /// it has.
    pub fn settle_one(&mut self)
        requires
            old(self).wf(),
        ensures
            final(self).wf(),
            final(self).total() == old(self).total(),
            final(self).settled() == if old(self).settled() < old(self).total() {
                old(self).settled() + 1
            } else {
                old(self).settled()
            },
    {
        if self.settled < self.total {
            self.settled = self.settled + 1;
        }
    }
}

/// Applies what one source came back with: its entries are merged on success, an
/// error is handed back to be reported, and the source counts as settled either way.
pub fn record_outcome(
    store: &mut EntryStore,
    progress: &mut LoadProgress,
    outcome: Result<Vec<FeedItem>, FetchError>,
) -> (r: Option<FetchError>)
    requires
        old(store).wf(),
        old(progress).wf(),
    ensures
        final(store).wf(),
        final(progress).wf(),
        final(progress).total() == old(progress).total(),
        final(progress).settled() == if old(progress).settled() < old(progress).total() {
            old(progress).settled() + 1
        } else {
            old(progress).settled()
        },
        match outcome {
            Ok(items) => r is None && final(store)@ == merged(old(store)@, items@),
            Err(e) => r == Some(e) && final(store)@ == old(store)@,
        },
{
    progress.settle_one();
    match outcome {
        Ok(items) => {
            store.merge(items);
            None
        },
        Err(e) => Some(e),
    }
}

} // verus!
