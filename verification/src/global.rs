//! The global state shared by all threads: the list of all hazard pointers
//! and the global part of the retire strategy.

use vstd::prelude::*;

use crate::hazard::list::{acquired_first_available, HazardList};
use crate::hazard::{
    acquired_value, HazardPtr, ProtectStrategy, ProtectedResult, FREE, NOT_YET_USED,
    THREAD_RESERVED,
};
use crate::scan_cache::{sort_addresses, sorted};
use crate::strategy::local_retire::all_records;
use crate::strategy::{GlobalRetireState, RetiredPtr};
use vstd::multiset::Multiset;

verus! {

/// The global state for managing hazard pointers.
#[derive(Debug)]
pub struct Global {
    /// The global state of the retire strategy.
    pub retire_state: GlobalRetireState,
    /// The list of all hazard pointers.
    pub hazards: HazardList,
}

/// The records waiting in the global queue of the global retire strategy.
pub open spec fn global_queue(g: &Global) -> Seq<RetiredPtr> {
    match &g.retire_state {
        GlobalRetireState::GlobalStrategy(q) => q@,
        GlobalRetireState::LocalStrategy(_) => Seq::empty(),
    }
}

/// The records abandoned by exited threads under the local retire strategy.
pub open spec fn abandoned_records(g: &Global) -> Multiset<RetiredPtr> {
    match &g.retire_state {
        GlobalRetireState::GlobalStrategy(_) => Multiset::empty(),
        GlobalRetireState::LocalStrategy(q) => all_records(q.nodes()),
    }
}

/// Whether a record's data address is protected by a hazard pointer of `hazards`.
pub open spec fn protected_in(hazards: HazardList) -> spec_fn(RetiredPtr) -> bool {
    |r: RetiredPtr| hazards.protects(r.data_addr())
}

/// Whether a record's data address is protected by no hazard pointer of `hazards`.
pub open spec fn unprotected_in(hazards: HazardList) -> spec_fn(RetiredPtr) -> bool {
    |r: RetiredPtr| !hazards.protects(r.data_addr())
}

impl Global {
    /// The hazard pointer list is well formed.
    pub open spec fn wf(&self) -> bool {
        self.hazards.wf()
    }

    /// Whether some hazard pointer protects `addr`.
    pub open spec fn protects(&self, addr: usize) -> bool {
        self.hazards.protects(addr)
    }

    /// Creates the global state with no hazard pointers.
    pub fn new(retire_state: GlobalRetireState) -> (g: Self)
        ensures
            g.wf(),
            g.hazards@ == Seq::<usize>::empty(),
            g.retire_state == retire_state,
    {
        Global { retire_state, hazards: HazardList::new() }
    }

    /// The number of hazard pointers.
    pub fn hazard_count(&self) -> (n: usize)
        ensures
            n == self.hazards@.len(),
    {
        self.hazards.len()
    }

    /// The hazard pointer at `idx`.
    pub fn hazard(&self, idx: usize) -> (h: &HazardPtr)
        requires
            idx < self.hazards@.len(),
        ensures
            h.value() == self.hazards@[idx as int],
    {
        self.hazards.hazard(idx)
    }

    /// Acquires a free hazard pointer from the global list, reserved or
    /// protecting an address as `strategy` says, and returns its index.
    pub fn get_hazard(&mut self, strategy: ProtectStrategy) -> (idx: usize)
        requires
            old(self).wf(),
        ensures
            final(self).wf(),
            final(self).retire_state == old(self).retire_state,
            acquired_first_available(
                old(self).hazards@,
                final(self).hazards@,
                idx as int,
                acquired_value(strategy),
            ),
    {
        match strategy {
            ProtectStrategy::ReserveOnly => self.hazards.get_or_insert_reserved_hazard(),
            ProtectStrategy::Protect(protected) => {
                self.hazards.get_or_insert_hazard(protected.into_inner())
            },
        }
    }

    /// Sets the acquired hazard pointer at `idx` free.
    pub fn set_free(&mut self, idx: usize)
        requires
            old(self).hazards.is_acquired(idx as int),
        ensures
            final(self).hazards@ == old(self).hazards@.update(idx as int, FREE),
            final(self).retire_state == old(self).retire_state,
    {
        self.hazards.set_free(idx);
    }

    /// Marks the acquired hazard pointer at `idx` as reserved by its thread.
    pub fn set_thread_reserved(&mut self, idx: usize)
        requires
            old(self).hazards.is_acquired(idx as int),
        ensures
            final(self).hazards@ == old(self).hazards@.update(idx as int, THREAD_RESERVED),
            final(self).retire_state == old(self).retire_state,
    {
        self.hazards.set_thread_reserved(idx);
    }

    /// Makes the acquired hazard pointer at `idx` protect the non-null `protect`.
    pub fn set_protected(&mut self, idx: usize, protect: usize)
        requires
            old(self).hazards.is_acquired(idx as int),
            protect != 0,
        ensures
            final(self).hazards@ == old(self).hazards@.update(idx as int, protect),
            final(self).retire_state == old(self).retire_state,
    {
        self.hazards.set_protected(idx, protect);
    }

    /// Clears `scan_cache`, collects the addresses protected by all hazard
    /// pointers into it, one entry per protecting hazard pointer, and sorts
    /// it. The iteration stops at the first hazard pointer never used, after
    /// which none has been used.
    pub fn collect_hazard_pointers(&self, scan_cache: &mut Vec<usize>)
        requires
            self.wf(),
        ensures
            sorted(final(scan_cache)@),
            final(scan_cache)@.to_multiset() == protected_values(self.hazards@).to_multiset(),
            forall|a: usize| final(scan_cache)@.contains(a) <==> self.protects(a),
    {
        scan_cache.clear();
        let len = self.hazards.len();
        let mut i: usize = 0;
        let mut aborted = false;
        while i < len && !aborted
            invariant
                i <= len,
                len == self.hazards@.len(),
                aborted ==> i < len && self.hazards@[i as int] == NOT_YET_USED,
                scan_cache@ == protected_values(self.hazards@.subrange(0, i as int)),
            decreases len - i + if aborted { 0int } else { 1int },
        {
            let hazard = self.hazards.hazard(i);
            let ghost prefix = self.hazards@.subrange(0, i as int);
            proof {
                assert(self.hazards@.subrange(0, i + 1) =~= prefix.push(self.hazards@[i as int]));
                prefix.lemma_filter_push(self.hazards@[i as int], protecting());
            }
            match hazard.protected() {
                ProtectedResult::Protected(protected) => {
                    let addr = protected.address();
                    scan_cache.push(addr);
                    i = i + 1;
                },
                ProtectedResult::Unprotected => {
                    i = i + 1;
                },
                ProtectedResult::AbortIteration => {
                    aborted = true;
                },
            }
        }
        proof {
            if aborted {
                lemma_unused_rest(self.hazards@, i as int);
            }
            lemma_protected_prefix(self.hazards@, i as int);
            assert(self.hazards@.subrange(0, len as int) =~= self.hazards@);
        }
        let ghost unsorted = scan_cache@;
        sort_addresses(scan_cache);
        proof {
            broadcast use vstd::seq_lib::group_to_multiset_ensures;

            assert forall|a: usize| scan_cache@.contains(a) <==> self.protects(a) by {
                assert(scan_cache@.contains(a) <==> scan_cache@.to_multiset().count(a) > 0);
                assert(unsorted.contains(a) <==> unsorted.to_multiset().count(a) > 0);
                assert(unsorted == self.hazards@.filter(protecting()));
                if unsorted.contains(a) {
                    let k = choose|k: int| 0 <= k < unsorted.len() && unsorted[k] == a;
                    self.hazards@.lemma_filter_pred(protecting(), k);
                    self.hazards@.lemma_filter_contains_rev(protecting(), a);
                    let j = choose|j: int| 0 <= j < self.hazards@.len() && self.hazards@[j] == a;
                    assert(self.hazards@[j] == a && a != NOT_YET_USED && a != FREE && a
                        != THREAD_RESERVED);
                }
                if self.protects(a) {
                    let j = choose|j: int|
                        0 <= j < self.hazards@.len() && #[trigger] self.hazards@[j] == a && a
                            != NOT_YET_USED && a != FREE && a != THREAD_RESERVED;
                    self.hazards@.lemma_filter_contains(protecting(), j);
                }
            }
        }
    }
}

/// Whether a hazard pointer value protects an address.
pub open spec fn protecting() -> spec_fn(usize) -> bool {
    |v: usize| v != NOT_YET_USED && v != FREE && v != THREAD_RESERVED
}

/// The protected addresses held by the hazard pointer values `s`, in order,
/// one per protecting hazard pointer.
pub open spec fn protected_values(s: Seq<usize>) -> Seq<usize> {
    s.filter(protecting())
}

/// In a list whose unused hazard pointers form a suffix starting at `i`, no
/// hazard pointer from `i` on protects anything.
proof fn lemma_unused_rest(s: Seq<usize>, i: int)
    requires
        0 <= i < s.len(),
        s[i] == NOT_YET_USED,
        crate::hazard::list::unused_suffix(s),
    ensures
        forall|j: int| i <= j < s.len() ==> s[j] == NOT_YET_USED,
{
    assert forall|j: int| i <= j < s.len() implies s[j] == NOT_YET_USED by {
        if j > i {
            assert(s[i] == NOT_YET_USED);
        }
    }
}

/// When nothing from `i` on protects an address, the protected values of
/// `s` are those of its first `i` entries.
proof fn lemma_protected_prefix(s: Seq<usize>, i: int)
    requires
        0 <= i <= s.len(),
        i < s.len() ==> forall|j: int| i <= j < s.len() ==> s[j] == NOT_YET_USED,
    ensures
        protected_values(s) == protected_values(s.subrange(0, i)),
    decreases s.len(),
{
    if s.len() == i {
        assert(s.subrange(0, i) =~= s);
    } else {
        let t = s.drop_last();
        lemma_protected_prefix(t, i);
        assert(s =~= t.push(s.last()));
        t.lemma_filter_push(s.last(), protecting());
        assert(t.subrange(0, i) =~= s.subrange(0, i));
    }
}

} // verus!
