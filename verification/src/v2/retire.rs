//! The retire strategies of the alternative interface. The global
//! strategy keeps all retired records in one global queue; the local strategy
//! keeps each thread's records in a node of its own and owns the global queue
//! of abandoned nodes.

use vstd::prelude::*;

use crate::scan_cache::sorted;
use crate::strategy::global_retire::RetiredQueue;
use crate::strategy::local_retire::{all_records, AbandonedQueue, RetireNode};
use crate::strategy::{lemma_filter_to_multiset, protected_by, unprotected_by, RetiredPtr};

verus! {

/// The global retire strategy: it needs no thread-local state.
#[derive(Copy, Clone, Debug, Default, PartialEq, Eq, Structural)]
pub struct GlobalRetire;

impl GlobalRetire {
    /// Creates the strategy for a thread.
    pub fn new(global: &RetiredQueue) -> (s: Self) {
        GlobalRetire
    }

    /// Returns `true` if the global queue holds no retired record.
    pub fn no_retired_records(&self, global: &RetiredQueue) -> (b: bool)
        ensures
            b == (global@.len() == 0),
    {
        global.is_empty()
    }

    /// Reclaims the records of the global queue that no address of the sorted
    /// `protected` cache protects, keeping the others in the queue in order.
    pub fn reclaim_all_unprotected(&mut self, global: &mut RetiredQueue, protected: &[usize]) -> (reclaimed: Vec<RetiredPtr>)
        requires
            sorted(protected@),
        ensures
            final(global)@ == old(global)@.filter(protected_by(protected@)),
            reclaimed@ == old(global)@.filter(unprotected_by(protected@)),
    {
        global.reclaim_all_unprotected(protected)
    }

    /// Retires `retired` into the global queue.
    pub fn retire(&mut self, global: &mut RetiredQueue, retired: RetiredPtr)
        ensures
            final(global)@ == seq![retired] + old(global)@,
    {
        global.retire_record(retired);
    }
}

/// The local retire strategy, owning the queue of nodes abandoned by exited
/// threads.
#[derive(Debug)]
pub struct LocalRetire {
    abandoned: AbandonedQueue,
}

impl LocalRetire {
    /// The abandoned nodes.
    pub closed spec fn abandoned(&self) -> Seq<RetireNode> {
        self.abandoned.nodes()
    }

    /// Creates the strategy with no abandoned records.
    pub fn default() -> (s: Self)
        ensures
            s.abandoned() == Seq::<RetireNode>::empty(),
    {
        LocalRetire { abandoned: AbandonedQueue::new() }
    }

    /// Builds the local state of a new thread: all abandoned records if there
    /// are any, an empty node otherwise.
    pub fn build_local(&mut self) -> (local: RetireNode)
        ensures
            final(self).abandoned() == Seq::<RetireNode>::empty(),
            local.records().to_multiset() == all_records(old(self).abandoned()),
    {
        match self.abandoned.take_all_and_merge() {
            Some(node) => node,
            None => {
                let node = RetireNode::default();
                proof {
                    broadcast use vstd::seq_lib::group_to_multiset_ensures;

                    assert(node.records().to_multiset() =~= vstd::multiset::Multiset::empty());
                }
                node
            },
        }
    }

    /// Abandons a thread's node on its exit, if it still holds records.
    pub fn on_thread_exit(&mut self, local: RetireNode)
        ensures
            local.records().len() == 0 ==> final(self).abandoned() == old(self).abandoned(),
            local.records().len() > 0 ==> final(self).abandoned() == seq![local] + old(
                self,
            ).abandoned(),
    {
        if !local.is_empty() {
            self.abandoned.push(local);
        }
    }

    /// Returns whether the thread's node is empty (the value the name suggests
    /// is its negation).
    pub fn has_retired_records(&self, local: &RetireNode) -> (b: bool)
        ensures
            b == (local.records().len() == 0),
    {
        local.is_empty()
    }

    /// Adopts all abandoned records into the thread's node and then reclaims
    /// those of its records that no address of the sorted `protected` cache
    /// protects.
    pub fn reclaim_all_unprotected(&mut self, local: &mut RetireNode, protected: &[usize]) -> (reclaimed: Vec<RetiredPtr>)
        requires
            sorted(protected@),
        ensures
            final(self).abandoned() == Seq::<RetireNode>::empty(),
            final(local).records().to_multiset() == old(local).records().to_multiset().add(
                all_records(old(self).abandoned()),
            ).filter(protected_by(protected@)),
            reclaimed@.to_multiset() == old(local).records().to_multiset().add(
                all_records(old(self).abandoned()),
            ).filter(unprotected_by(protected@)),
    {
        let ghost own = local.records();
        match self.abandoned.take_all_and_merge() {
            Some(node) => local.merge(node.into_inner()),
            None => {
                proof {
                    broadcast use vstd::multiset::group_multiset_axioms;

                    assert(own.to_multiset().add(all_records(old(self).abandoned())) =~= own.to_multiset());
                }
            },
        }
        let ghost merged = local.records();
        let reclaimed = local.reclaim_all_unprotected(protected);
        proof {
            lemma_filter_to_multiset(merged, protected_by(protected@));
            lemma_filter_to_multiset(merged, unprotected_by(protected@));
        }
        reclaimed
    }

    /// Retires `retired` into the thread's node.
    pub fn retire(&self, local: &mut RetireNode, retired: RetiredPtr)
        ensures
            final(local).records() == old(local).records().push(retired),
    {
        local.retire_record(retired);
    }
}

} // verus!
