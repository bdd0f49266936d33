//! Retire strategies: where retired records wait until no hazard pointer
//! protects them any more.
//!
//! With the global strategy all threads retire into one shared queue, so any
//! thread can reclaim any record. With the local strategy every thread keeps
//! its own cache of retired records and, when it exits, abandons what it could
//! not reclaim to a global queue from which other threads adopt it.

pub mod global_retire;
pub mod local_retire;

use vstd::multiset::Multiset;
use vstd::prelude::*;

use crate::scan_cache::{contains_address, sorted};

use self::global_retire::RetiredQueue;
use self::local_retire::{AbandonedQueue, RetireNode};

verus! {

/// A retired record: the address of the record and the offset of its data
/// within it. Hazard pointers protect the data address.
#[derive(Clone, Copy, Debug)]
pub struct RetiredPtr {
    record: usize,
    data_offset: usize,
}

impl RetiredPtr {
    #[verifier::type_invariant]
    spec fn fits(self) -> bool {
        self.record + self.data_offset <= usize::MAX
    }

    /// The address of the record.
    pub closed spec fn record(self) -> usize {
        self.record
    }

    /// The offset of the record's data from the record's address.
    pub closed spec fn data_offset(self) -> usize {
        self.data_offset
    }

    /// The address of the record's data, which hazard pointers protect.
    pub closed spec fn data_addr(self) -> usize {
        (self.record + self.data_offset) as usize
    }

    /// Describes a retired record at `record` whose data lies `data_offset`
    /// bytes into it.
    pub fn new(record: usize, data_offset: usize) -> (r: Self)
        requires
            record + data_offset <= usize::MAX,
        ensures
            r.record() == record,
            r.data_offset() == data_offset,
            r.data_addr() == record + data_offset,
    {
        RetiredPtr { record, data_offset }
    }

    /// The address of the record's data.
    pub fn address(&self) -> (a: usize)
        ensures
            a == self.data_addr(),
            a == self.record() + self.data_offset(),
    {
        proof {
            use_type_invariant(self);
        }
        self.record + self.data_offset
    }

    /// The address of the record itself.
    pub fn record_address(&self) -> (a: usize)
        ensures
            a == self.record(),
    {
        self.record
    }

    /// The offset of the record's data from the record's address.
    pub fn offset_data(&self) -> (o: usize)
        ensures
            o == self.data_offset(),
    {
        self.data_offset
    }
}

/// Whether a record's data address is among the protected `scan` addresses.
pub open spec fn protected_by(scan: Seq<usize>) -> spec_fn(RetiredPtr) -> bool {
    |r: RetiredPtr| scan.contains(r.data_addr())
}

/// Whether a record's data address is not among the protected `scan` addresses.
pub open spec fn unprotected_by(scan: Seq<usize>) -> spec_fn(RetiredPtr) -> bool {
    |r: RetiredPtr| !scan.contains(r.data_addr())
}

/// Splits `records` into those still protected by an address in the sorted
/// `scan` cache and those that can be reclaimed, each in their original order.
pub fn split_unprotected(records: Vec<RetiredPtr>, scan: &[usize]) -> (res: (
    Vec<RetiredPtr>,
    Vec<RetiredPtr>,
))
    requires
        sorted(scan@),
    ensures
        res.0@ == records@.filter(protected_by(scan@)),
        res.1@ == records@.filter(unprotected_by(scan@)),
{
    let mut kept: Vec<RetiredPtr> = Vec::new();
    let mut reclaimed: Vec<RetiredPtr> = Vec::new();
    let mut i: usize = 0;
    while i < records.len()
        invariant
            i <= records@.len(),
            sorted(scan@),
            kept@ == records@.subrange(0, i as int).filter(protected_by(scan@)),
            reclaimed@ == records@.subrange(0, i as int).filter(unprotected_by(scan@)),
        decreases records@.len() - i,
    {
        let r = records[i];
        let addr = r.address();
        proof {
            assert(records@.subrange(0, i + 1) =~= records@.subrange(0, i as int).push(r));
            records@.subrange(0, i as int).lemma_filter_push(r, protected_by(scan@));
            records@.subrange(0, i as int).lemma_filter_push(r, unprotected_by(scan@));
        }
        if contains_address(scan, addr) {
            kept.push(r);
        } else {
            reclaimed.push(r);
        }
        i = i + 1;
    }
    assert(records@.subrange(0, records@.len() as int) =~= records@);
    (kept, reclaimed)
}

/// Filtering a sequence and then counting its elements is counting the
/// elements that pass the filter.
pub proof fn lemma_filter_to_multiset(s: Seq<RetiredPtr>, p: spec_fn(RetiredPtr) -> bool)
    ensures
        s.filter(p).to_multiset() == s.to_multiset().filter(p),
    decreases s.len(),
{
    broadcast use vstd::seq_lib::group_to_multiset_ensures;
    broadcast use vstd::multiset::group_multiset_axioms;

    if s.len() == 0 {
        reveal(Seq::filter);
        assert(s.filter(p) =~= Seq::<RetiredPtr>::empty());
        assert(s.to_multiset().filter(p) =~= Multiset::<RetiredPtr>::empty());
    } else {
        let init = s.drop_last();
        let last = s.last();
        assert(s =~= init.push(last));
        lemma_filter_to_multiset(init, p);
        init.lemma_filter_push(last, p);
        assert(s.to_multiset().filter(p) =~= if p(last) {
            init.to_multiset().filter(p).insert(last)
        } else {
            init.to_multiset().filter(p)
        });
    }
}

/// Every record is either still protected or reclaimable: the two parts
/// together hold exactly the records split.
pub proof fn lemma_split_partitions(s: Seq<RetiredPtr>, scan: Seq<usize>)
    ensures
        s.filter(protected_by(scan)).to_multiset().add(s.filter(unprotected_by(scan)).to_multiset())
            == s.to_multiset(),
{
    broadcast use vstd::multiset::group_multiset_axioms;

    lemma_filter_to_multiset(s, protected_by(scan));
    lemma_filter_to_multiset(s, unprotected_by(scan));
    assert(s.to_multiset().filter(protected_by(scan)).add(
        s.to_multiset().filter(unprotected_by(scan)),
    ) =~= s.to_multiset());
}

/// A marker for the strategies of retiring records.
pub trait RetireStrategy: Sized {

}

/// The global retire strategy: every retired record is stored in one queue
/// shared by all threads, so that any thread can reclaim records retired by
/// any other.
#[derive(Copy, Clone, Debug, Default, Hash, PartialEq, Eq, Structural, PartialOrd, Ord)]
pub struct GlobalRetire;

impl RetireStrategy for GlobalRetire {

}

/// The local retire strategy: every thread stores its retired records in a
/// cache of its own.
#[derive(Copy, Clone, Debug, Default, Hash, PartialEq, Eq, Structural, PartialOrd, Ord)]
pub struct LocalRetire;

impl RetireStrategy for LocalRetire {

}

/// The global state required by the retire strategy.
#[derive(Debug)]
pub enum GlobalRetireState {
    /// A queue for all retired records.
    GlobalStrategy(RetiredQueue),
    /// A queue only for records abandoned by exited threads.
    LocalStrategy(AbandonedQueue),
}

impl GlobalRetireState {
    /// The state for the global strategy, with an empty queue.
    pub fn global_strategy() -> (s: Self)
        ensures
            s matches GlobalRetireState::GlobalStrategy(q) && q@ == Seq::<RetiredPtr>::empty(),
    {
        GlobalRetireState::GlobalStrategy(RetiredQueue::new())
    }

    /// The state for the local strategy, with no abandoned records.
    pub fn local_strategy() -> (s: Self)
        ensures
            s matches GlobalRetireState::LocalStrategy(q) && q.nodes() == Seq::<RetireNode>::empty(),
    {
        GlobalRetireState::LocalStrategy(AbandonedQueue::new())
    }
}

/// The thread-local state required by the retire strategy.
#[derive(Debug)]
pub enum LocalRetireState {
    /// The global strategy keeps no records locally.
    GlobalStrategy,
    /// The local strategy keeps the thread's retired records.
    LocalStrategy(RetireNode),
}

impl LocalRetireState {
    /// Whether the local state belongs to the same strategy as `global`.
    pub open spec fn matches_global(&self, global: &GlobalRetireState) -> bool {
        (self is LocalStrategy) == (global is LocalStrategy)
    }

    /// Builds the local state matching the global one; with the local strategy
    /// a new thread adopts all abandoned records, if there are any.
    pub fn from(retire_state: &mut GlobalRetireState) -> (s: Self)
        ensures
            s.matches_global(final(retire_state)),
            (*final(retire_state) is LocalStrategy) == (*old(retire_state) is LocalStrategy),
            *old(retire_state) is GlobalStrategy ==> *final(retire_state) == *old(retire_state),
            *old(retire_state) matches GlobalRetireState::LocalStrategy(q) ==> {
                &&& (*final(retire_state))->LocalStrategy_0.nodes() == Seq::<RetireNode>::empty()
                &&& s->LocalStrategy_0.records().to_multiset()
                    == local_retire::all_records(q.nodes())
            },
    {
        match retire_state {
            GlobalRetireState::GlobalStrategy(_) => LocalRetireState::GlobalStrategy,
            GlobalRetireState::LocalStrategy(abandoned) => {
                match abandoned.take_all_and_merge() {
                    Some(node) => LocalRetireState::LocalStrategy(node),
                    None => {
                        let node = RetireNode::default();
                        proof {
                            broadcast use vstd::seq_lib::group_to_multiset_ensures;

                            assert(node.records().to_multiset() =~= Multiset::empty());
                        }
                        LocalRetireState::LocalStrategy(node)
                    },
                }
            },
        }
    }
}

} // verus!
