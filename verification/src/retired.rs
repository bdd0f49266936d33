//! Caching of retired records until they can be safely dropped, in bags that
//! exiting threads abandon to a global queue for other threads to adopt.

use vstd::multiset::Multiset;
use vstd::prelude::*;

use crate::queue::RawQueue;
use crate::strategy::local_retire::vec_capacity;

verus! {

/// The initial capacity of a bag of retired records.
pub const DEFAULT_CAPACITY: usize = 256;

/// A retired record, identified by its address.
#[derive(Debug)]
pub struct Retired {
    record: usize,
}

impl Retired {
    /// The address of the record.
    pub closed spec fn addr(&self) -> usize {
        self.record
    }

    /// Retires the record at `record`.
    pub fn new_unchecked(record: usize) -> (r: Self)
        ensures
            r.addr() == record,
    {
        Retired { record }
    }

    /// The address of the record.
    pub fn address(&self) -> (a: usize)
        ensures
            a == self.addr(),
    {
        self.record
    }
}

/// A list of retired records waiting to be dropped; it also serves as the
/// node of the global queue of abandoned bags.
#[derive(Debug)]
pub struct RetiredBag {
    /// The retired records.
    pub inner: Vec<Retired>,
}

impl RetiredBag {
    /// Creates an empty bag with the default capacity.
    pub fn new() -> (b: Self)
        ensures
            b.inner@ == Seq::<Retired>::empty(),
    {
        RetiredBag { inner: Vec::with_capacity(DEFAULT_CAPACITY) }
    }

    /// Adds the records of `other` to the bag. If `other` has more spare
    /// capacity than the bag's whole capacity, the two vectors are swapped
    /// first so the larger allocation is kept; the records of the two then
    /// come in the other order.
    pub fn merge(&mut self, other: Vec<Retired>)
        ensures
            final(self).inner@ == old(self).inner@ + other@ || final(self).inner@ == other@ + old(
                self,
            ).inner@,
            final(self).inner@.to_multiset() == old(self).inner@.to_multiset().add(
                other@.to_multiset(),
            ),
    {
        let mut other = other;
        let other_capacity = vec_capacity(&other);
        let own_capacity = vec_capacity(&self.inner);
        if other_capacity - other.len() > own_capacity {
            core::mem::swap(&mut self.inner, &mut other);
        }
        let ghost first = self.inner@;
        let ghost second = other@;
        self.inner.append(&mut other);
        proof {
            vstd::seq_lib::lemma_multiset_commutative(first, second);
            vstd::seq_lib::lemma_seq_union_to_multiset_commutative(first, second);
        }
    }
}

/// All records held by a sequence of bags.
pub open spec fn bag_records(bags: Seq<RetiredBag>) -> Multiset<Retired>
    decreases bags.len(),
{
    if bags.len() == 0 {
        Multiset::empty()
    } else {
        bags[0].inner@.to_multiset().add(bag_records(bags.drop_first()))
    }
}

/// The queue of retired bags abandoned by exited threads.
#[derive(Debug)]
pub struct AbandonedBags {
    bags: RawQueue<RetiredBag>,
}

impl AbandonedBags {
    /// The abandoned bags, the most recently abandoned first.
    pub closed spec fn bags(&self) -> Seq<RetiredBag> {
        self.bags@
    }

    /// Creates an empty queue.
    pub fn new() -> (q: Self)
        ensures
            q.bags() == Seq::<RetiredBag>::empty(),
    {
        AbandonedBags { bags: RawQueue::new() }
    }

    /// Adds an abandoned bag to the front of the queue.
    pub fn push(&mut self, abandoned: RetiredBag)
        ensures
            final(self).bags() == seq![abandoned] + old(self).bags(),
    {
        self.bags.push(abandoned);
    }

    /// Takes all abandoned bags and merges their records into one bag,
    /// leaving the queue empty; returns `None` if nothing was abandoned.
    pub fn take_and_merge(&mut self) -> (merged: Option<RetiredBag>)
        ensures
            final(self).bags() == Seq::<RetiredBag>::empty(),
            merged is None <==> old(self).bags().len() == 0,
            merged matches Some(b) ==> b.inner@.to_multiset() == bag_records(old(self).bags()),
    {
        if self.bags.is_empty() {
            return None;
        }
        let mut taken = self.bags.take_all();
        let ghost all = taken@;
        let mut merged = taken.remove(0);
        assert(taken@ =~= all.drop_first());
        while taken.len() > 0
            invariant
                merged.inner@.to_multiset().add(bag_records(taken@)) == bag_records(all),
            decreases taken@.len(),
        {
            let ghost rest = taken@;
            let bag = taken.remove(0);
            assert(taken@ =~= rest.drop_first());
            let ghost before = merged.inner@.to_multiset();
            merged.merge(bag.inner);
            proof {
                broadcast use vstd::multiset::group_multiset_axioms;

                assert(merged.inner@.to_multiset().add(bag_records(taken@)) =~= before.add(
                    bag_records(rest),
                ));
            }
        }
        proof {
            broadcast use vstd::multiset::group_multiset_axioms;

            assert(merged.inner@.to_multiset() =~= merged.inner@.to_multiset().add(
                bag_records(taken@),
            ));
        }
        Some(merged)
    }
}

} // verus!
