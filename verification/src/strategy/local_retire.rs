//! The local retire strategy: every thread caches its own retired records,
//! and the records a thread could not reclaim when it exits are abandoned to
//! a global queue for other threads to adopt.

use vstd::multiset::Multiset;
use vstd::prelude::*;

use crate::queue::RawQueue;
use crate::scan_cache::sorted;
use crate::strategy::{protected_by, split_unprotected, unprotected_by, RetiredPtr};

verus! {

/// The initial capacity of the cache of retired records.
pub const DEFAULT_INITIAL_CAPACITY: usize = 128;

/// Returns the capacity of `records`.
///
/// Calls `Vec::capacity`, whose documentation states that it returns the
/// number of elements the vector can hold without reallocating, which is never
/// less than its length. What else the allocator chose is not stated.
#[verifier::external_body]
pub(crate) fn vec_capacity<T>(records: &Vec<T>) -> (c: usize)
    ensures
        c >= records@.len(),
{
    records.capacity()
}

/// A thread's cache of retired records, which becomes a node of the global
/// queue of abandoned records when the thread exits before all are reclaimed.
#[derive(Debug)]
pub struct RetireNode {
    vec: Vec<RetiredPtr>,
}

impl RetireNode {
    /// The cached records.
    pub closed spec fn records(&self) -> Seq<RetiredPtr> {
        self.vec@
    }

    /// Creates an empty cache with the default initial capacity.
    pub fn default() -> (n: Self)
        ensures
            n.records() == Seq::<RetiredPtr>::empty(),
    {
        RetireNode { vec: Vec::with_capacity(DEFAULT_INITIAL_CAPACITY) }
    }

    /// Returns the cached records.
    pub fn into_inner(self) -> (v: Vec<RetiredPtr>)
        ensures
            v@ == self.records(),
    {
        self.vec
    }

    /// The number of cached records.
    pub fn len(&self) -> (n: usize)
        ensures
            n == self.records().len(),
    {
        self.vec.len()
    }

    /// Returns `true` if no record is cached.
    pub fn is_empty(&self) -> (b: bool)
        ensures
            b == (self.records().len() == 0),
    {
        self.vec.len() == 0
    }

    /// Adds the records of `other` to the cache. If `other` has more spare
    /// capacity than the cache's whole capacity, the two vectors are swapped
    /// first, so the larger allocation is kept; the records of the two then
    /// come in the other order.
    pub fn merge(&mut self, other: Vec<RetiredPtr>)
        ensures
            final(self).records() == old(self).records() + other@ || final(self).records() == other@
                + old(self).records(),
            final(self).records().to_multiset() == old(self).records().to_multiset().add(
                other@.to_multiset(),
            ),
    {
        let mut other = other;
        let other_capacity = vec_capacity(&other);
        let own_capacity = vec_capacity(&self.vec);
        if other_capacity - other.len() > own_capacity {
            core::mem::swap(&mut self.vec, &mut other);
        }
        let ghost first = self.vec@;
        let ghost second = other@;
        self.vec.append(&mut other);
        proof {
            vstd::seq_lib::lemma_multiset_commutative(first, second);
            vstd::seq_lib::lemma_seq_union_to_multiset_commutative(first, second);
        }
    }

    /// Caches `retired`.
    pub fn retire_record(&mut self, retired: RetiredPtr)
        ensures
            final(self).records() == old(self).records().push(retired),
    {
        self.vec.push(retired);
    }

    /// Keeps the records still protected by an address of the sorted
    /// `protected` cache and returns the others, in their order, for reclamation.
    pub fn reclaim_all_unprotected(&mut self, protected: &[usize]) -> (reclaimed: Vec<
        RetiredPtr,
    >)
        requires
            sorted(protected@),
        ensures
            final(self).records() == old(self).records().filter(protected_by(protected@)),
            reclaimed@ == old(self).records().filter(unprotected_by(protected@)),
    {
        let mut records = Vec::new();
        core::mem::swap(&mut records, &mut self.vec);
        let (kept, reclaimed) = split_unprotected(records, protected);
        self.vec = kept;
        reclaimed
    }
}

/// All records held by a sequence of nodes.
pub open spec fn all_records(nodes: Seq<RetireNode>) -> Multiset<RetiredPtr>
    decreases nodes.len(),
{
    if nodes.len() == 0 {
        Multiset::empty()
    } else {
        nodes[0].records().to_multiset().add(all_records(nodes.drop_first()))
    }
}

/// The global queue of record caches abandoned by exited threads.
#[derive(Debug)]
pub struct AbandonedQueue {
    raw: RawQueue<RetireNode>,
}

impl AbandonedQueue {
    /// The abandoned caches, the most recently abandoned first.
    pub closed spec fn nodes(&self) -> Seq<RetireNode> {
        self.raw@
    }

    /// Creates an empty queue.
    pub fn new() -> (q: Self)
        ensures
            q.nodes() == Seq::<RetireNode>::empty(),
    {
        AbandonedQueue { raw: RawQueue::new() }
    }

    /// Returns `true` if no cache has been abandoned.
    pub fn is_empty(&self) -> (b: bool)
        ensures
            b == (self.nodes().len() == 0),
    {
        self.raw.is_empty()
    }

    /// Abandons `node`.
    pub fn push(&mut self, node: RetireNode)
        ensures
            final(self).nodes() == seq![node] + old(self).nodes(),
    {
        self.raw.push(node);
    }

    /// Gives up the queue when the global state is dropped: no thread is left
    /// to protect anything, so every abandoned record can be reclaimed.
    pub fn drop_all(self) -> (all: Vec<RetiredPtr>)
        ensures
            all@.to_multiset() == all_records(self.nodes()),
    {
        let mut raw = self.raw;
        let mut nodes = raw.take_all_unsync();
        let ghost whole = nodes@;
        let mut all: Vec<RetiredPtr> = Vec::new();
        proof {
            broadcast use vstd::multiset::group_multiset_axioms;
            broadcast use vstd::seq_lib::group_to_multiset_ensures;

            assert(all@.to_multiset() =~= Multiset::empty());
            assert(all@.to_multiset().add(all_records(nodes@)) =~= all_records(whole));
        }
        while nodes.len() > 0
            invariant
                all@.to_multiset().add(all_records(nodes@)) == all_records(whole),
            decreases nodes@.len(),
        {
            let ghost rest = nodes@;
            let node = nodes.remove(0);
            assert(nodes@ =~= rest.drop_first());
            let ghost before = all@;
            let mut records = node.into_inner();
            all.append(&mut records);
            proof {
                broadcast use vstd::multiset::group_multiset_axioms;

                vstd::seq_lib::lemma_multiset_commutative(before, rest[0].records());
                assert(all@.to_multiset().add(all_records(nodes@)) =~= before.to_multiset().add(
                    all_records(rest),
                ));
            }
        }
        proof {
            broadcast use vstd::multiset::group_multiset_axioms;

            assert(all@.to_multiset() =~= all@.to_multiset().add(all_records(nodes@)));
        }
        all
    }

    /// Takes all abandoned caches and merges them into one, leaving the queue
    /// empty; returns `None` if nothing was abandoned.
    pub fn take_all_and_merge(&mut self) -> (merged: Option<RetireNode>)
        ensures
            final(self).nodes() == Seq::<RetireNode>::empty(),
            merged is None <==> old(self).nodes().len() == 0,
            merged matches Some(n) ==> n.records().to_multiset() == all_records(old(self).nodes()),
    {
        let mut taken = self.raw.take_all();
        if taken.len() == 0 {
            return None;
        }
        let ghost all = taken@;
        let mut merged = taken.remove(0);
        assert(taken@ =~= all.drop_first());
        while taken.len() > 0
            invariant
                merged.records().to_multiset().add(all_records(taken@)) == all_records(all),
            decreases taken@.len(),
        {
            let ghost rest = taken@;
            let node = taken.remove(0);
            assert(taken@ =~= rest.drop_first());
            let ghost before = merged.records().to_multiset();
            merged.merge(node.into_inner());
            proof {
                broadcast use vstd::multiset::group_multiset_axioms;

                assert(merged.records().to_multiset().add(all_records(taken@)) =~= before.add(
                    all_records(rest),
                ));
            }
        }
        proof {
            broadcast use vstd::multiset::group_multiset_axioms;

            assert(merged.records().to_multiset() =~= merged.records().to_multiset().add(
                all_records(taken@),
            ));
        }
        Some(merged)
    }
}

} // verus!
