//! The global retire strategy: one queue of retired records shared by all
//! threads.

use vstd::prelude::*;

use crate::queue::RawQueue;
use crate::scan_cache::sorted;
use crate::strategy::{protected_by, split_unprotected, unprotected_by, RetiredPtr};

verus! {

/// The queue of all retired records, viewed head first.
#[derive(Debug)]
pub struct RetiredQueue {
    raw: RawQueue<RetiredPtr>,
}

impl View for RetiredQueue {
    type V = Seq<RetiredPtr>;

    closed spec fn view(&self) -> Seq<RetiredPtr> {
        self.raw@
    }
}

impl RetiredQueue {
    /// Creates an empty queue.
    pub fn new() -> (q: Self)
        ensures
            q@ == Seq::<RetiredPtr>::empty(),
    {
        RetiredQueue { raw: RawQueue::new() }
    }

    /// Returns `true` if no record is waiting in the queue.
    pub fn is_empty(&self) -> (b: bool)
        ensures
            b == (self@.len() == 0),
    {
        self.raw.is_empty()
    }

    /// Retires `retired` by pushing it to the head of the queue.
    pub fn retire_record(&mut self, retired: RetiredPtr)
        ensures
            final(self)@ == seq![retired] + old(self)@,
    {
        self.raw.push(retired);
    }

    /// Takes every record out of the queue, pushes those still protected by an
    /// address of the sorted `scan_cache` back in their order, and returns
    /// the others, in their order, for reclamation.
    pub fn reclaim_all_unprotected(&mut self, scan_cache: &[usize]) -> (reclaimed: Vec<RetiredPtr>)
        requires
            sorted(scan_cache@),
        ensures
            final(self)@ == old(self)@.filter(protected_by(scan_cache@)),
            reclaimed@ == old(self)@.filter(unprotected_by(scan_cache@)),
    {
        let taken = self.raw.take_all();
        let (kept, reclaimed) = split_unprotected(taken, scan_cache);
        if kept.len() > 0 {
            self.raw.push_many(kept);
        }
        assert(self@ =~= old(self)@.filter(protected_by(scan_cache@)));
        reclaimed
    }

    /// Gives up the queue when the global state is dropped: no thread is left
    /// to protect anything, so every remaining record can be reclaimed.
    pub fn drop_all(self) -> (all: Vec<RetiredPtr>)
        ensures
            all@ == self@,
    {
        let mut raw = self.raw;
        raw.take_all_unsync()
    }
}

} // verus!
