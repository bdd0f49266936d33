//! A list of re-usable hazard pointers.
//!
//! The list is made of nodes of [`ELEMENTS`] hazard pointers each. Acquiring a
//! hazard pointer takes the first one, in list order, that is free or has
//! never been used; if there is none, a new node is appended whose first
//! hazard pointer is the acquired one. The list never shrinks, but its
//! entries are reused arbitrarily often.

use vstd::prelude::*;

use crate::hazard::{HazardPtr, FREE, NOT_YET_USED, THREAD_RESERVED};

verus! {

/// The number of hazard pointers in a list node.
pub const ELEMENTS: usize = 128;

/// Whether a hazard pointer holding `v` may be acquired.
pub open spec fn is_available(v: usize) -> bool {
    v == FREE || v == NOT_YET_USED
}

/// The values of a freshly appended node whose first hazard pointer holds `value`.
pub open spec fn new_node(value: usize) -> Seq<usize> {
    Seq::new(ELEMENTS as nat, |i: int| if i == 0 { value } else { NOT_YET_USED })
}

/// Hazard pointers that were never used form a suffix of the list: once one
/// is found, none after it has been used either.
pub open spec fn unused_suffix(s: Seq<usize>) -> bool {
    forall|i: int, j: int| 0 <= i < j < s.len() && s[i] == NOT_YET_USED ==> s[j] == NOT_YET_USED
}

/// A list of hazard pointers, viewed as the sequence of their values.
#[derive(Debug)]
pub struct HazardList {
    hazards: Vec<HazardPtr>,
}

impl View for HazardList {
    type V = Seq<usize>;

    closed spec fn view(&self) -> Seq<usize> {
        Seq::new(self.hazards@.len(), |i: int| self.hazards@[i].value())
    }
}

impl HazardList {
    /// The list is made of whole nodes and its unused hazard pointers form a suffix.
    pub open spec fn wf(&self) -> bool {
        &&& self@.len() as int % (ELEMENTS as int) == 0
        &&& unused_suffix(self@)
    }

    /// Whether the hazard pointer at `idx` exists and has been acquired at least once.
    pub open spec fn is_acquired(&self, idx: int) -> bool {
        0 <= idx < self@.len() && self@[idx] != NOT_YET_USED
    }

    /// `self` arises from `old` without losing anything: the list only grows
    /// and a hazard pointer once acquired never reads as unused again.
    pub open spec fn grows_from(&self, old: &Self) -> bool {
        &&& old@.len() <= self@.len()
        &&& forall|i: int| #[trigger] old.is_acquired(i) ==> self.is_acquired(i)
    }

    /// Whether some hazard pointer of the list protects `addr`.
    pub open spec fn protects(&self, addr: usize) -> bool {
        exists|i: int| 0 <= i < self@.len() && #[trigger] self@[i] == addr && addr != NOT_YET_USED
            && addr != FREE && addr != THREAD_RESERVED
    }

    /// Creates an empty list.
    pub fn new() -> (l: Self)
        ensures
            l@ == Seq::<usize>::empty(),
            l.wf(),
    {
        let l = HazardList { hazards: Vec::new() };
        assert(l@ =~= Seq::<usize>::empty());
        l
    }

    /// The number of hazard pointers in the list.
    pub fn len(&self) -> (n: usize)
        ensures
            n == self@.len(),
    {
        self.hazards.len()
    }

    /// The hazard pointer at `idx`.
    pub fn hazard(&self, idx: usize) -> (h: &HazardPtr)
        requires
            idx < self@.len(),
        ensures
            h.value() == self@[idx as int],
    {
        &self.hazards[idx]
    }

    /// Acquires a hazard pointer reserved for the calling thread and returns
    /// its index.
    pub fn get_or_insert_reserved_hazard(&mut self) -> (idx: usize)
        requires
            old(self).wf(),
        ensures
            final(self).wf(),
            acquired_first_available(old(self)@, final(self)@, idx as int, THREAD_RESERVED),
    {
        self.get_or_insert_unchecked(THREAD_RESERVED)
    }

    /// Acquires a hazard pointer set to protect the non-null address `protect`
    /// and returns its index.
    pub fn get_or_insert_hazard(&mut self, protect: usize) -> (idx: usize)
        requires
            old(self).wf(),
            protect != 0,
        ensures
            final(self).wf(),
            acquired_first_available(old(self)@, final(self)@, idx as int, protect),
    {
        self.get_or_insert_unchecked(protect)
    }

    /// Returns an iterator over all hazard pointers, in list order.
    pub fn iter(&self) -> (it: Iter<'_>)
        ensures
            it.list() == *self,
            it.position() == 0,
    {
        Iter { list: self, idx: 0 }
    }

    fn get_or_insert_unchecked(&mut self, value: usize) -> (idx: usize)
        requires
            old(self).wf(),
            value != NOT_YET_USED,
        ensures
            final(self).wf(),
            acquired_first_available(old(self)@, final(self)@, idx as int, value),
    {
        let nodes = self.hazards.len() / ELEMENTS;
        let mut node: usize = 0;
        // try to acquire a hazard pointer in each node, from the head of the list
        while node < nodes
            invariant
                node <= nodes,
                nodes * ELEMENTS == self@.len(),
                self@ == old(self)@,
                value != NOT_YET_USED,
                self.wf(),
                forall|j: int| 0 <= j < node * ELEMENTS ==> !is_available(#[trigger] self@[j]),
            decreases nodes - node,
        {
            let ghost before = self@;
            match self.try_insert_in_node(node, value) {
                Some(idx) => {
                    proof {
                        assert forall|a: int, b: int|
                            0 <= a < b < self@.len() && self@[a] == NOT_YET_USED implies self@[b]
                            == NOT_YET_USED by {
                            assert(a != idx);
                            if a < idx {
                                assert(!is_available(before[a]));
                            }
                        }
                    }
                    return idx;
                },
                None => {},
            }
            node = node + 1;
        }
        // no hazard pointer in any node was available: insert a new node
        self.insert_back(value)
    }

    /// Appends a node whose first hazard pointer holds `value` and returns
    /// its index.
    fn insert_back(&mut self, value: usize) -> (idx: usize)
        requires
            old(self).wf(),
            value != NOT_YET_USED,
            forall|j: int| 0 <= j < old(self)@.len() ==> !is_available(#[trigger] old(self)@[j]),
        ensures
            final(self).wf(),
            idx == old(self)@.len(),
            final(self)@ == old(self)@ + new_node(value),
    {
        let len = self.hazards.len();
        let ghost before = self@;
        self.hazards.push(HazardPtr::with_protected(value));
        assert(self@ =~= before.push(value));
        let mut k: usize = 1;
        while k < ELEMENTS
            invariant
                1 <= k <= ELEMENTS,
                self@.len() == before.len() + k,
                forall|j: int| 0 <= j < before.len() ==> #[trigger] self@[j] == before[j],
                self@[before.len() as int] == value,
                forall|j: int|
                    before.len() < j < before.len() + k ==> #[trigger] self@[j] == NOT_YET_USED,
            decreases ELEMENTS - k,
        {
            let ghost prev = self@;
            self.hazards.push(HazardPtr::new());
            assert(self@ =~= prev.push(NOT_YET_USED));
            k = k + 1;
        }
        assert(self@ =~= before + new_node(value));
        proof {
            assert forall|a: int, b: int|
                0 <= a < b < self@.len() && self@[a] == NOT_YET_USED implies self@[b]
                == NOT_YET_USED by {
                if a < before.len() {
                    assert(!is_available(before[a]));
                }
            }
            vstd::arithmetic::div_mod::lemma_mod_adds(
                before.len() as int,
                ELEMENTS as int,
                ELEMENTS as int,
            );
        }
        len
    }

    /// Attempts to acquire, for `value`, the first available hazard pointer
    /// of the node with index `node`; returns its index, or `None` if no
    /// hazard pointer of the node is available. Only that one hazard pointer
    /// changes.
    fn try_insert_in_node(&mut self, node: usize, value: usize) -> (idx: Option<usize>)
        requires
            (node + 1) * ELEMENTS <= old(self)@.len(),
        ensures
            idx is None ==> {
                &&& final(self)@ == old(self)@
                &&& forall|j: int|
                    node * ELEMENTS <= j < (node + 1) * ELEMENTS ==> !is_available(
                        #[trigger] old(self)@[j],
                    )
            },
            idx matches Some(i) ==> {
                &&& node * ELEMENTS <= i < (node + 1) * ELEMENTS
                &&& forall|j: int|
                    node * ELEMENTS <= j < i ==> !is_available(#[trigger] old(self)@[j])
                &&& is_available(old(self)@[i as int])
                &&& final(self)@ == old(self)@.update(i as int, value)
            },
    {
        let len = self.hazards.len();
        assert((node + 1) * ELEMENTS <= len);
        let start = node * ELEMENTS;
        let end = start + ELEMENTS;
        let mut i = start;
        while i < end
            invariant
                start <= i <= end,
                start == node * ELEMENTS,
                end == start + ELEMENTS,
                end <= self@.len(),
                self@ == old(self)@,
                forall|j: int| start <= j < i ==> !is_available(#[trigger] self@[j]),
            decreases end - i,
        {
            let current = self.hazards[i].load();
            if current == FREE || current == NOT_YET_USED {
                let ghost before = self@;
                self.hazards.set(i, HazardPtr::with_protected(value));
                assert(self@ =~= before.update(i as int, value));
                return Some(i);
            }
            i = i + 1;
        }
        None
    }

    /// Sets the acquired hazard pointer at `idx` free.
    pub fn set_free(&mut self, idx: usize)
        requires
            old(self).is_acquired(idx as int),
        ensures
            final(self)@ == old(self)@.update(idx as int, FREE),
    {
        let ghost before = self@;
        self.hazards.set(idx, HazardPtr::with_protected(FREE));
        assert(self@ =~= before.update(idx as int, FREE));
    }

    /// Marks the acquired hazard pointer at `idx` as reserved by its thread.
    pub fn set_thread_reserved(&mut self, idx: usize)
        requires
            old(self).is_acquired(idx as int),
        ensures
            final(self)@ == old(self)@.update(idx as int, THREAD_RESERVED),
    {
        let ghost before = self@;
        self.hazards.set(idx, HazardPtr::with_protected(THREAD_RESERVED));
        assert(self@ =~= before.update(idx as int, THREAD_RESERVED));
    }

    /// Makes the acquired hazard pointer at `idx` protect the non-null address `protect`.
    pub fn set_protected(&mut self, idx: usize, protect: usize)
        requires
            old(self).is_acquired(idx as int),
            protect != 0,
        ensures
            final(self)@ == old(self)@.update(idx as int, protect),
    {
        let ghost before = self@;
        self.hazards.set(idx, HazardPtr::with_protected(protect));
        assert(self@ =~= before.update(idx as int, protect));
    }
}

/// The outcome of acquiring a hazard pointer holding `value`: `idx` is the
/// first hazard pointer of `old` that was available, which now holds `value`
/// while all others are unchanged; if none was available, a new node is
/// appended whose first hazard pointer, at `idx`, holds `value`.
pub open spec fn acquired_first_available(
    old: Seq<usize>,
    new: Seq<usize>,
    idx: int,
    value: usize,
) -> bool {
    &&& 0 <= idx <= old.len()
    &&& forall|j: int| 0 <= j < idx ==> !is_available(#[trigger] old[j])
    &&& idx < old.len() ==> is_available(old[idx]) && new == old.update(idx, value)
    &&& idx == old.len() ==> new == old + new_node(value)
}

/// An iterator over the hazard pointers of a list.
pub struct Iter<'a> {
    list: &'a HazardList,
    idx: usize,
}

impl<'a> Iter<'a> {
    /// The list being iterated.
    pub closed spec fn list(&self) -> HazardList {
        *self.list
    }

    /// The index of the next hazard pointer to be returned.
    pub closed spec fn position(&self) -> int {
        self.idx as int
    }

    /// Returns the next hazard pointer, if any is left.
    pub fn next(&mut self) -> (h: Option<&'a HazardPtr>)
        ensures
            final(self).list() == old(self).list(),
            old(self).position() < old(self).list()@.len() ==> {
                &&& h is Some
                &&& h.unwrap().value() == old(self).list()@[old(self).position()]
                &&& final(self).position() == old(self).position() + 1
            },
            old(self).position() >= old(self).list()@.len() ==> h is None && final(self).position()
                == old(self).position(),
    {
        if self.idx < self.list.hazards.len() {
            let idx = self.idx;
            self.idx = self.idx + 1;
            Some(&self.list.hazards[idx])
        } else {
            None
        }
    }
}

/// Changing an acquired hazard pointer to any value but "never used" keeps
/// the list well formed and growing: no hazard pointer is ever lost or
/// becomes unused again.
pub proof fn lemma_update_grows(old: HazardList, new: HazardList, idx: int, value: usize)
    requires
        old.wf(),
        old.is_acquired(idx),
        value != NOT_YET_USED,
        new@ == old@.update(idx, value),
    ensures
        new.wf(),
        new.grows_from(&old),
{
    assert forall|a: int, b: int|
        0 <= a < b < new@.len() && new@[a] == NOT_YET_USED implies new@[b] == NOT_YET_USED by {
        assert(old@[a] == NOT_YET_USED);
    }
}

/// Acquiring a hazard pointer keeps the list well formed, only grows it, and
/// what is acquired was available before.
pub proof fn lemma_acquire_grows(old: HazardList, new: HazardList, idx: int, value: usize)
    requires
        old.wf(),
        value != NOT_YET_USED,
        acquired_first_available(old@, new@, idx, value),
    ensures
        new.grows_from(&old),
        new.is_acquired(idx),
        idx < old@.len() ==> is_available(old@[idx]),
{
    if idx == old@.len() {
        assert(new@[idx] == new_node(value)[0]);
    }
}

} // verus!
