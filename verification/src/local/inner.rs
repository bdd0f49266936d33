//! The thread-local state for acquiring hazard pointers and retiring records.

use arrayvec::{ArrayVec, CapacityError};
use vstd::multiset::Multiset;
use vstd::prelude::*;

use crate::config::{Config, CountStrategy};
use crate::global::{
    abandoned_records, global_queue, protected_in, unprotected_in, Global,
};
use crate::hazard::list::{acquired_first_available, HazardList};
use crate::hazard::{acquired_value, ProtectStrategy, THREAD_RESERVED};
use crate::strategy::local_retire::{all_records, RetireNode};
use crate::strategy::{
    lemma_filter_to_multiset, protected_by, unprotected_by, GlobalRetireState, LocalRetireState,
    RetiredPtr,
};

verus! {

/// The number of hazard pointers a thread keeps reserved for quick reuse.
pub const HAZARD_CACHE: usize = 16;

#[verifier::external_type_specification]
#[verifier::external_body]
#[verifier::reject_recursive_types(T)]
pub struct ExArrayVec<T, const CAP: usize>(ArrayVec<T, CAP>);

#[verifier::external_type_specification]
#[verifier::external_body]
#[verifier::reject_recursive_types(T)]
pub struct ExCapacityError<T>(CapacityError<T>);

/// The indices of the hazard pointers held in a thread's cache, oldest first.
pub uninterp spec fn cached_hazards(cache: ArrayVec<usize, 16>) -> Seq<usize>;

/// Creates an empty cache.
///
/// Calls `ArrayVec::new`, which returns a vector of length zero.
#[verifier::external_body]
fn new_hazard_cache() -> (cache: ArrayVec<usize, 16>)
    ensures
        cached_hazards(cache) == Seq::<usize>::empty(),
{
    ArrayVec::new()
}

/// Removes the most recently cached index.
///
/// Calls `ArrayVec::pop`, which returns `None` on an empty vector and
/// otherwise removes and returns its last element.
#[verifier::external_body]
fn pop_cached(cache: &mut ArrayVec<usize, 16>) -> (idx: Option<usize>)
    ensures
        cached_hazards(*old(cache)).len() == 0 ==> idx is None && cached_hazards(*final(cache))
            == cached_hazards(*old(cache)),
        cached_hazards(*old(cache)).len() > 0 ==> idx == Some(cached_hazards(*old(cache)).last())
            && cached_hazards(*final(cache)) == cached_hazards(*old(cache)).drop_last(),
{
    cache.pop()
}

/// Caches `idx` unless the cache is full.
///
/// Calls `ArrayVec::try_push`, which appends the element if the length is
/// below the capacity and otherwise returns a `CapacityError` and leaves the
/// vector as it was.
#[verifier::external_body]
fn try_push_cached(cache: &mut ArrayVec<usize, 16>, idx: usize) -> (r: Result<
    (),
    CapacityError<usize>,
>)
    ensures
        r is Ok <==> cached_hazards(*old(cache)).len() < 16,
        r is Ok ==> cached_hazards(*final(cache)) == cached_hazards(*old(cache)).push(idx),
        r is Err ==> cached_hazards(*final(cache)) == cached_hazards(*old(cache)),
{
    cache.try_push(idx)
}

/// The cached indices.
///
/// Calls `ArrayVec::as_slice`, which returns the initialized elements in
/// order; their number never exceeds the capacity.
#[verifier::external_body]
fn cached_slice(cache: &ArrayVec<usize, 16>) -> (s: &[usize])
    ensures
        s@ == cached_hazards(*cache),
        s@.len() <= 16,
{
    cache.as_slice()
}

/// The error of recycling a hazard pointer into a full thread-local cache.
#[derive(Copy, Clone, Debug, PartialEq, Eq, Structural, PartialOrd, Ord)]
pub struct RecycleError;

/// The retired records a thread can see: its own cache, the global queue and
/// the abandoned records, depending on the retire strategy.
pub struct RetiredView {
    /// Whether the local retire strategy is used.
    pub is_local: bool,
    /// The thread's own retired records (local strategy).
    pub records: Seq<RetiredPtr>,
    /// The global queue of retired records (global strategy).
    pub queue: Seq<RetiredPtr>,
    /// The records abandoned by exited threads (local strategy).
    pub abandoned: Multiset<RetiredPtr>,
}

/// What retiring `retired` does to the records: with the global strategy it
/// is pushed to the head of the global queue, with the local strategy it is
/// appended to the thread's cache.
pub open spec fn view_after_retire(v: RetiredView, retired: RetiredPtr) -> RetiredView {
    if v.is_local {
        RetiredView { records: v.records.push(retired), ..v }
    } else {
        RetiredView { queue: seq![retired] + v.queue, ..v }
    }
}

/// The outcome of a reclamation attempt while the hazard pointers `hazards` are
/// in place: with the global strategy, the records of the queue still
/// protected stay in it, in order, and all others are reclaimed; with the
/// local strategy, the abandoned records are adopted and of all of them the
/// protected ones stay cached, the others are reclaimed.
pub open spec fn reclaim_outcome(
    before: RetiredView,
    after: RetiredView,
    hazards: HazardList,
    reclaimed: Seq<RetiredPtr>,
) -> bool {
    &&& after.is_local == before.is_local
    &&& !before.is_local ==> {
        &&& after.queue == before.queue.filter(protected_in(hazards))
        &&& reclaimed == before.queue.filter(unprotected_in(hazards))
        &&& after.records == before.records
        &&& after.abandoned == before.abandoned
    }
    &&& before.is_local ==> {
        &&& after.records.to_multiset() == before.records.to_multiset().add(
            before.abandoned,
        ).filter(protected_in(hazards))
        &&& reclaimed.to_multiset() == before.records.to_multiset().add(before.abandoned).filter(
            unprotected_in(hazards),
        )
        &&& after.abandoned == Multiset::<RetiredPtr>::empty()
        &&& after.queue == before.queue
    }
}

/// The same kind of retire strategy is used by both global states.
pub open spec fn same_kind(g1: &Global, g2: &Global) -> bool {
    (g1.retire_state is LocalStrategy) == (g2.retire_state is LocalStrategy)
}

/// The thread-local state for using and managing hazard pointers.
#[derive(Debug)]
pub struct LocalInner {
    /// The configuration used by the thread.
    config: Config,
    /// The local state of the retire strategy.
    state: LocalRetireState,
    /// The count of operations counting towards the reclamation threshold.
    ops_count: u32,
    /// The bounded cache of hazard pointers reserved by this thread.
    hazard_cache: ArrayVec<usize, HAZARD_CACHE>,
    /// The cache of protected addresses collected during reclamation.
    scan_cache: Vec<usize>,
}

impl LocalInner {
    /// The configuration used by the thread.
    pub closed spec fn config(&self) -> Config {
        self.config
    }

    /// The current operations count.
    pub closed spec fn ops_count(&self) -> u32 {
        self.ops_count
    }

    /// The indices of the cached hazard pointers.
    pub closed spec fn cache(&self) -> Seq<usize> {
        cached_hazards(self.hazard_cache)
    }

    /// Whether the local retire strategy is used.
    pub closed spec fn is_local(&self) -> bool {
        self.state is LocalStrategy
    }

    /// The thread's own retired records (always empty with the global strategy).
    pub closed spec fn retired(&self) -> Seq<RetiredPtr> {
        match &self.state {
            LocalRetireState::LocalStrategy(node) => node.records(),
            LocalRetireState::GlobalStrategy => Seq::empty(),
        }
    }

    /// The retired records this thread can see within `g`.
    pub open spec fn retired_view(&self, g: &Global) -> RetiredView {
        RetiredView {
            is_local: self.is_local(),
            records: self.retired(),
            queue: global_queue(g),
            abandoned: abandoned_records(g),
        }
    }

    /// The local state is consistent with the global state `g`: the cache is
    /// bounded and holds distinct hazard pointers of `g` that are reserved by
    /// the thread, both use the same retire strategy and the count is below a
    /// non-zero threshold.
    pub closed spec fn inv(&self, g: &Global) -> bool {
        &&& g.wf()
        &&& self.cache().len() <= HAZARD_CACHE
        &&& self.cache().no_duplicates()
        &&& forall|i: int|
            0 <= i < self.cache().len() ==> #[trigger] g.hazards.is_acquired(self.cache()[i] as int)
        &&& forall|i: int|
            0 <= i < self.cache().len() ==> g.hazards@[#[trigger] self.cache()[i] as int]
                == THREAD_RESERVED
        &&& self.state.matches_global(&g.retire_state)
        &&& self.config.ops_count_threshold > 0 ==> self.ops_count < self.config.ops_count_threshold
        &&& self.is_local() == (g.retire_state is LocalStrategy)
    }

    /// The hazard pointers cached by this thread hold the same values in `g1`
    /// and `g2`.
    pub open spec fn keeps_cached(&self, g1: &Global, g2: &Global) -> bool {
        forall|i: int|
            0 <= i < self.cache().len() ==> g2.hazards@[#[trigger] self.cache()[i] as int]
                == g1.hazards@[self.cache()[i] as int]
    }

    /// The consistency with the global state survives any change of the
    /// global state that only grows its hazard pointer list, keeps its
    /// retire strategy and leaves the thread's cached hazard pointers alone,
    /// such as the operations of other threads.
    pub proof fn lemma_inv_stable(&self, g1: &Global, g2: &Global)
        requires
            self.inv(g1),
            g2.wf(),
            g2.hazards.grows_from(&g1.hazards),
            same_kind(g1, g2),
            self.keeps_cached(g1, g2),
        ensures
            self.inv(g2),
    {
        assert forall|i: int| 0 <= i < self.cache().len() implies #[trigger] g2.hazards.is_acquired(
            self.cache()[i] as int,
        ) by {
            assert(g1.hazards.is_acquired(self.cache()[i] as int));
        }
    }

    /// The configuration used by the thread.
    pub fn current_config(&self) -> (c: Config)
        ensures
            c == self.config(),
    {
        self.config
    }

    /// The current operations count.
    pub fn ops_count_value(&self) -> (n: u32)
        ensures
            n == self.ops_count(),
    {
        self.ops_count
    }

    /// The number of hazard pointers held in the thread-local cache.
    pub fn cached_hazards_count(&self) -> (n: usize)
        ensures
            n == self.cache().len(),
    {
        cached_slice(&self.hazard_cache).len()
    }

    /// The number of retired records the thread holds itself.
    pub fn retired_count(&self) -> (n: usize)
        ensures
            n == self.retired().len(),
    {
        match &self.state {
            LocalRetireState::LocalStrategy(node) => node.len(),
            LocalRetireState::GlobalStrategy => 0,
        }
    }

    /// Consistency with `g` requires `g` to be well formed and the cached
    /// hazard pointers to be distinct acquired ones of `g`, reserved by the
    /// thread.
    pub proof fn lemma_inv_wf(&self, g: &Global)
        requires
            self.inv(g),
        ensures
            g.wf(),
            self.cache().len() <= HAZARD_CACHE,
            self.cache().no_duplicates(),
            self.kind_matches(g),
            forall|i: int|
                0 <= i < self.cache().len() ==> #[trigger] g.hazards.is_acquired(
                    self.cache()[i] as int,
                ),
            forall|i: int|
                0 <= i < self.cache().len() ==> g.hazards@[#[trigger] self.cache()[i] as int]
                    == THREAD_RESERVED,
    {
    }

    /// Whether a thread holding this state uses the local retire strategy
    /// exactly when `g` does.
    pub open spec fn kind_matches(&self, g: &Global) -> bool {
        self.is_local() == (g.retire_state is LocalStrategy)
    }

    /// Creates the local state for a new thread. With the local strategy the
    /// thread adopts all records abandoned so far.
    pub fn new(config: Config, global: &mut Global) -> (l: Self)
        requires
            old(global).wf(),
        ensures
            l.inv(final(global)),
            l.config() == config,
            l.ops_count() == 0,
            l.cache() == Seq::<usize>::empty(),
            final(global).hazards == old(global).hazards,
            same_kind(old(global), final(global)),
            global_queue(final(global)) == global_queue(old(global)),
            l.is_local() ==> l.retired().to_multiset() == abandoned_records(old(global))
                && abandoned_records(final(global)) == Multiset::<RetiredPtr>::empty(),
            !l.is_local() ==> l.retired() == Seq::<RetiredPtr>::empty(),
    {
        let state = LocalRetireState::from(&mut global.retire_state);
        let l = LocalInner {
            config,
            state,
            ops_count: 0,
            hazard_cache: new_hazard_cache(),
            scan_cache: Vec::with_capacity(config.initial_scan_cache_size),
        };
        proof {
            broadcast use vstd::multiset::group_multiset_axioms;

            if !l.is_local() {
                assert(global_queue(final(global)) == global_queue(old(global)));
            } else {
                assert(abandoned_records(final(global)) =~= Multiset::<RetiredPtr>::empty());
            }
        }
        l
    }

    /// Increases the operations count if releasing guards is counted, and
    /// attempts a reclamation when the threshold is reached. Returns the
    /// records that can now be reclaimed.
    pub fn increase_ops_count_if_count_release(&mut self, global: &mut Global) -> (reclaimed: Vec<
        RetiredPtr,
    >)
        requires
            old(self).inv(old(global)),
            old(self).config().ops_count_threshold > 0 || old(self).ops_count() < u32::MAX,
        ensures
            final(self).inv(final(global)),
            final(global).hazards == old(global).hazards,
            final(self).config() == old(self).config(),
            final(self).cache() == old(self).cache(),
            old(self).config().count_strategy != CountStrategy::Release ==> {
                &&& final(self).ops_count() == old(self).ops_count()
                &&& final(self).retired_view(final(global)) == old(self).retired_view(old(global))
                &&& reclaimed@.len() == 0
            },
            old(self).config().count_strategy == CountStrategy::Release ==> counted(
                *old(self),
                *final(self),
                *old(global),
                *final(global),
                reclaimed@,
            ),
    {
        if self.config.count_strategy == CountStrategy::Release {
            self.increase_ops_count(global)
        } else {
            Vec::new()
        }
    }

    /// Acquires a hazard pointer as `strategy` says, from the thread-local
    /// cache if it holds one and otherwise from the global list, and returns
    /// its index.
    pub fn get_hazard(&mut self, global: &mut Global, strategy: ProtectStrategy) -> (idx: usize)
        requires
            old(self).inv(old(global)),
        ensures
            final(self).inv(final(global)),
            final(global).hazards.grows_from(&old(global).hazards),
            final(global).hazards.is_acquired(idx as int),
            final(global).hazards@[idx as int] == acquired_value(strategy),
            !final(self).cache().contains(idx),
            final(global).retire_state == old(global).retire_state,
            final(self).config() == old(self).config(),
            final(self).ops_count() == old(self).ops_count(),
            final(self).retired() == old(self).retired(),
            final(self).is_local() == old(self).is_local(),
            old(self).cache().len() > 0 ==> {
                &&& idx == old(self).cache().last()
                &&& final(self).cache() == old(self).cache().drop_last()
                &&& final(global).hazards@ == match strategy {
                    ProtectStrategy::Protect(p) => old(global).hazards@.update(idx as int, p.addr()),
                    ProtectStrategy::ReserveOnly => old(global).hazards@,
                }
            },
            old(self).cache().len() == 0 ==> {
                &&& final(self).cache() == old(self).cache()
                &&& acquired_first_available(
                    old(global).hazards@,
                    final(global).hazards@,
                    idx as int,
                    acquired_value(strategy),
                )
            },
    {
        let ghost g0 = *global;
        let ghost c0 = old(self).cache();
        match pop_cached(&mut self.hazard_cache) {
            Some(hazard) => {
                assert(g0.hazards.is_acquired(c0[c0.len() - 1] as int));
                assert(g0.hazards@[c0[c0.len() - 1] as int] == THREAD_RESERVED);
                if let ProtectStrategy::Protect(protected) = strategy {
                    global.set_protected(hazard, protected.into_inner());
                }
                proof {
                    assert(global.hazards.grows_from(&g0.hazards));
                    assert forall|i: int| 0 <= i < self.cache().len() implies self.cache()[i]
                        != hazard && #[trigger] self.cache()[i] == c0[i] by {
                        assert(c0[i] != c0[c0.len() - 1]);
                    }
                    assert(self.inv(&g0));
                    assert forall|i: int| 0 <= i < self.cache().len() implies global.hazards@[
                        #[trigger] self.cache()[i] as int] == g0.hazards@[self.cache()[i] as int] by {
                        assert(g0.hazards.is_acquired(c0[i] as int));
                        assert(self.cache()[i] == c0[i]);
                    }
                    self.lemma_inv_stable(&g0, global);
                    assert(!self.cache().contains(hazard));
                }
                hazard
            },
            None => {
                if let ProtectStrategy::Protect(p) = strategy {
                    proof {
                        use_type_invariant(&p);
                        p.lemma_non_null();
                    }
                }
                let idx = global.get_hazard(strategy);
                proof {
                    crate::hazard::list::lemma_acquire_grows(
                        g0.hazards,
                        global.hazards,
                        idx as int,
                        acquired_value(strategy),
                    );
                    if idx < g0.hazards@.len() {
                        assert(!c0.contains(idx)) by {
                            if c0.contains(idx) {
                                let i = choose|i: int| 0 <= i < c0.len() && c0[i] == idx;
                                assert(g0.hazards@[c0[i] as int] == THREAD_RESERVED);
                            }
                        }
                    } else {
                        assert(!c0.contains(idx)) by {
                            if c0.contains(idx) {
                                let i = choose|i: int| 0 <= i < c0.len() && c0[i] == idx;
                                assert(g0.hazards.is_acquired(c0[i] as int));
                            }
                        }
                        assert(global.hazards@[idx as int] == crate::hazard::list::new_node(
                            acquired_value(strategy),
                        )[0]);
                    }
                    assert forall|i: int| 0 <= i < c0.len() implies global.hazards@[
                        #[trigger] c0[i] as int] == g0.hazards@[c0[i] as int] by {
                        assert(g0.hazards.is_acquired(c0[i] as int));
                        assert(c0[i] != idx);
                    }
                    old(self).lemma_inv_stable(&g0, global);
                }
                idx
            },
        }
    }

    /// Attempts to keep the acquired hazard pointer at `hazard` in the
    /// thread-local cache, marking it as reserved by the thread.
    ///
    /// # Errors
    ///
    /// Fails, changing nothing, if the cache is full.
    pub fn try_recycle_hazard(&mut self, global: &mut Global, hazard: usize) -> (r: Result<
        (),
        RecycleError,
    >)
        requires
            old(self).inv(old(global)),
            old(global).hazards.is_acquired(hazard as int),
            !old(self).cache().contains(hazard),
        ensures
            final(self).inv(final(global)),
            final(global).hazards.grows_from(&old(global).hazards),
            final(global).retire_state == old(global).retire_state,
            final(self).config() == old(self).config(),
            final(self).ops_count() == old(self).ops_count(),
            final(self).retired() == old(self).retired(),
            final(self).is_local() == old(self).is_local(),
            r is Ok <==> old(self).cache().len() < HAZARD_CACHE,
            r is Ok ==> {
                &&& final(self).cache() == old(self).cache().push(hazard)
                &&& final(global).hazards@ == old(global).hazards@.update(
                    hazard as int,
                    THREAD_RESERVED,
                )
            },
            r is Err ==> {
                &&& final(self).cache() == old(self).cache()
                &&& final(global).hazards == old(global).hazards
            },
    {
        let ghost g0 = *global;
        match try_push_cached(&mut self.hazard_cache, hazard) {
            Ok(()) => {
                global.set_thread_reserved(hazard);
                proof {
                    let c0 = old(self).cache();
                    assert forall|i: int| 0 <= i < c0.len() implies global.hazards@[
                        #[trigger] c0[i] as int] == g0.hazards@[c0[i] as int] by {
                        assert(g0.hazards.is_acquired(c0[i] as int));
                        assert(c0[i] != hazard);
                    }
                    old(self).lemma_inv_stable(&g0, global);
                    assert forall|i: int| 0 <= i < self.cache().len() implies #[trigger] global.hazards.is_acquired(
                        self.cache()[i] as int,
                    ) && global.hazards@[self.cache()[i] as int] == THREAD_RESERVED by {
                        if i < c0.len() {
                            assert(self.cache()[i] == c0[i]);
                        }
                    }
                    assert(self.cache().no_duplicates()) by {
                        assert forall|a: int, b: int|
                            0 <= a < self.cache().len() && 0 <= b < self.cache().len() && a != b
                                implies self.cache()[a] != self.cache()[b] by {
                            if a < c0.len() && b < c0.len() {
                                assert(self.cache()[a] == c0[a] && self.cache()[b] == c0[b]);
                            } else if a < c0.len() {
                                assert(self.cache()[a] == c0[a]);
                            } else if b < c0.len() {
                                assert(self.cache()[b] == c0[b]);
                            }
                        }
                    }
                }
                Ok(())
            },
            Err(_) => Err(RecycleError),
        }
    }

    /// Retires `retired` as the retire strategy says and, if retiring is
    /// counted, increases the operations count, attempting a reclamation when
    /// the threshold is reached. Returns the records that can now be reclaimed.
    pub fn retire_record(&mut self, global: &mut Global, retired: RetiredPtr) -> (reclaimed: Vec<
        RetiredPtr,
    >)
        requires
            old(self).inv(old(global)),
            old(self).config().ops_count_threshold > 0 || old(self).ops_count() < u32::MAX,
        ensures
            final(self).inv(final(global)),
            final(global).hazards == old(global).hazards,
            final(self).config() == old(self).config(),
            final(self).cache() == old(self).cache(),
            old(self).config().count_strategy != CountStrategy::Retire ==> {
                &&& final(self).ops_count() == old(self).ops_count()
                &&& final(self).retired_view(final(global)) == view_after_retire(
                    old(self).retired_view(old(global)),
                    retired,
                )
                &&& reclaimed@.len() == 0
            },
            old(self).config().count_strategy == CountStrategy::Retire ==> {
                let n = old(self).ops_count() + 1;
                &&& n != old(self).config().ops_count_threshold ==> {
                    &&& final(self).ops_count() == n
                    &&& final(self).retired_view(final(global)) == view_after_retire(
                        old(self).retired_view(old(global)),
                        retired,
                    )
                    &&& reclaimed@.len() == 0
                }
                &&& n == old(self).config().ops_count_threshold ==> {
                    &&& final(self).ops_count() == 0
                    &&& reclaim_outcome(
                        view_after_retire(old(self).retired_view(old(global)), retired),
                        final(self).retired_view(final(global)),
                        old(global).hazards,
                        reclaimed@,
                    )
                }
            },
    {
        self.retire_record_inner(global, retired);
        if self.config.count_strategy == CountStrategy::Retire {
            self.increase_ops_count(global)
        } else {
            Vec::new()
        }
    }

    /// Increases the operations count and attempts a reclamation when the
    /// threshold is reached, resetting the count.
    pub fn increase_ops_count(&mut self, global: &mut Global) -> (reclaimed: Vec<RetiredPtr>)
        requires
            old(self).inv(old(global)),
            old(self).config().ops_count_threshold > 0 || old(self).ops_count() < u32::MAX,
        ensures
            final(self).inv(final(global)),
            final(global).hazards == old(global).hazards,
            final(self).config() == old(self).config(),
            final(self).cache() == old(self).cache(),
            counted(*old(self), *final(self), *old(global), *final(global), reclaimed@),
    {
        self.ops_count = self.ops_count + 1;
        if self.ops_count == self.config.ops_count_threshold {
            self.ops_count = 0;
            self.reclaim_all_unprotected(global)
        } else {
            Vec::new()
        }
    }

    /// Reclaims all records that are not protected by any hazard pointer and
    /// returns them; see [`reclaim_outcome`].
    pub fn reclaim_all_unprotected(&mut self, global: &mut Global) -> (reclaimed: Vec<RetiredPtr>)
        requires
            old(self).inv(old(global)),
        ensures
            final(self).inv(final(global)),
            final(global).hazards == old(global).hazards,
            final(self).config() == old(self).config(),
            final(self).ops_count() == old(self).ops_count(),
            final(self).cache() == old(self).cache(),
            reclaim_outcome(
                old(self).retired_view(old(global)),
                final(self).retired_view(final(global)),
                old(global).hazards,
                reclaimed@,
            ),
    {
        let ghost g0 = *global;
        match &mut self.state {
            LocalRetireState::GlobalStrategy => {
                let empty = match &global.retire_state {
                    GlobalRetireState::GlobalStrategy(queue) => queue.is_empty(),
                    GlobalRetireState::LocalStrategy(_) => true,
                };
                if empty {
                    proof {
                        reveal(Seq::filter);
                        assert(global_queue(&g0).filter(protected_in(g0.hazards)) =~= global_queue(&g0));
                        assert(global_queue(&g0).filter(unprotected_in(g0.hazards)) =~= Seq::<
                            RetiredPtr,
                        >::empty());
                    }
                    return Vec::new();
                }
                // collect all protected pointers into the scan cache
                global.collect_hazard_pointers(&mut self.scan_cache);
                proof {
                    assert(global.hazards == g0.hazards);
                    assert forall|a: usize| #[trigger] self.scan_cache@.contains(a) <==> g0.hazards.protects(a) by {
                        assert(self.scan_cache@.contains(a) <==> global.protects(a));
                    }
                    lemma_scan_matches(self.scan_cache@, g0.hazards);
                }
                match &mut global.retire_state {
                    GlobalRetireState::GlobalStrategy(queue) => {
                        queue.reclaim_all_unprotected(&self.scan_cache)
                    },
                    GlobalRetireState::LocalStrategy(_) => Vec::new(),
                }
            },
            LocalRetireState::LocalStrategy(node) => {
                let ghost own = node.records();
                // adopt the records abandoned by exited threads
                match &mut global.retire_state {
                    GlobalRetireState::LocalStrategy(abandoned) => {
                        match abandoned.take_all_and_merge() {
                            Some(adopted) => node.merge(adopted.into_inner()),
                            None => {},
                        }
                    },
                    GlobalRetireState::GlobalStrategy(_) => {},
                }
                proof {
                    broadcast use vstd::multiset::group_multiset_axioms;

                    assert(node.records().to_multiset() =~= own.to_multiset().add(
                        abandoned_records(&g0),
                    ));
                    assert(abandoned_records(global) =~= Multiset::<RetiredPtr>::empty());
                }
                if node.is_empty() {
                    proof {
                        broadcast use vstd::seq_lib::group_to_multiset_ensures;
                        broadcast use vstd::multiset::group_multiset_axioms;

                        let m = own.to_multiset().add(abandoned_records(&g0));
                        assert(m =~= Multiset::<RetiredPtr>::empty());
                        assert(m.filter(protected_in(g0.hazards)) =~= Multiset::<RetiredPtr>::empty());
                        assert(m.filter(unprotected_in(g0.hazards)) =~= Multiset::<RetiredPtr>::empty());
                        assert(Seq::<RetiredPtr>::empty().to_multiset() =~= Multiset::<RetiredPtr>::empty());
                    }
                    return Vec::new();
                }
                assert(global.hazards == g0.hazards);
                let ghost merged = node.records();
                global.collect_hazard_pointers(&mut self.scan_cache);
                proof {
                    assert(global.hazards == g0.hazards);
                    assert forall|a: usize| #[trigger] self.scan_cache@.contains(a) <==> g0.hazards.protects(a) by {
                        assert(self.scan_cache@.contains(a) <==> global.protects(a));
                    }
                    lemma_scan_matches(self.scan_cache@, g0.hazards);
                }
                let reclaimed = node.reclaim_all_unprotected(&self.scan_cache);
                proof {
                    lemma_filter_to_multiset(merged, protected_in(g0.hazards));
                    lemma_filter_to_multiset(merged, unprotected_in(g0.hazards));
                }
                reclaimed
            },
        }
    }

    /// Retires `retired` into the global queue or the thread's cache.
    fn retire_record_inner(&mut self, global: &mut Global, retired: RetiredPtr)
        requires
            old(self).inv(old(global)),
        ensures
            final(self).inv(final(global)),
            final(global).hazards == old(global).hazards,
            final(self).config() == old(self).config(),
            final(self).ops_count() == old(self).ops_count(),
            final(self).cache() == old(self).cache(),
            final(self).retired_view(final(global)) == view_after_retire(
                old(self).retired_view(old(global)),
                retired,
            ),
    {
        match &mut self.state {
            LocalRetireState::GlobalStrategy => {
                match &mut global.retire_state {
                    GlobalRetireState::GlobalStrategy(queue) => queue.retire_record(retired),
                    GlobalRetireState::LocalStrategy(_) => {},
                }
            },
            LocalRetireState::LocalStrategy(node) => node.retire_record(retired),
        }
    }

    /// Prepares the state for the thread's exit: sets the cached hazard
    /// pointers free, makes a last reclamation attempt and, with the local
    /// strategy, abandons the records that remain to the global queue.
    /// Returns the records that can be reclaimed.
    pub fn on_thread_exit(self, global: &mut Global) -> (reclaimed: Vec<RetiredPtr>)
        requires
            self.inv(old(global)),
        ensures
            final(global).wf(),
            same_kind(old(global), final(global)),
            final(global).hazards@.len() == old(global).hazards@.len(),
            forall|k: int|
                0 <= k < old(global).hazards@.len() ==> #[trigger] final(global).hazards@[k] == if freed_by(
                    self.cache(),
                    self.cache().len() as int,
                    k,
                ) {
                    crate::hazard::FREE
                } else {
                    old(global).hazards@[k]
                },
            forall|j: int|
                0 <= j < self.cache().len() ==> final(global).hazards@[#[trigger] self.cache()[j] as int]
                    == crate::hazard::FREE,
            forall|k: int|
                0 <= k < old(global).hazards@.len() && !self.cache().contains(k as usize)
                    ==> #[trigger] final(global).hazards@[k] == old(global).hazards@[k],
            exists|after: RetiredView|
                {
                    &&& reclaim_outcome(
                        self.retired_view(old(global)),
                        after,
                        final(global).hazards,
                        reclaimed@,
                    )
                    &&& global_queue(final(global)) == after.queue
                    &&& abandoned_records(final(global)) == after.abandoned.add(
                        after.records.to_multiset(),
                    )
                },
    {
        let mut local = self;
        let ghost g0 = *global;
        let cached = cached_slice(&local.hazard_cache);
        let mut i: usize = 0;
        while i < cached.len()
            invariant
                i <= cached@.len(),
                cached@ == local.cache(),
                local.inv(&g0),
                global.wf(),
                global.retire_state == g0.retire_state,
                global.hazards@.len() == g0.hazards@.len(),
                forall|k: int|
                    0 <= k < g0.hazards@.len() ==> #[trigger] global.hazards@[k] == if freed_by(
                        cached@,
                        i as int,
                        k,
                    ) {
                        crate::hazard::FREE
                    } else {
                        g0.hazards@[k]
                    },
                global.hazards.grows_from(&g0.hazards),
            decreases cached@.len() - i,
        {
            let idx = cached[i];
            assert(g0.hazards.is_acquired(local.cache()[i as int] as int));
            let ghost before = *global;
            global.set_free(idx);
            proof {
                assert forall|k: int| 0 <= k < g0.hazards@.len() implies #[trigger] global.hazards@[k]
                    == if freed_by(cached@, i + 1, k) {
                    crate::hazard::FREE
                } else {
                    g0.hazards@[k]
                } by {
                    if freed_by(cached@, i as int, k) {
                        let j = choose|j: int| 0 <= j < i && #[trigger] cached@[j] as int == k;
                        assert(0 <= j < i + 1 && cached@[j] as int == k);
                    }
                    if k == idx as int {
                        assert(cached@[i as int] as int == k);
                    } else if freed_by(cached@, i + 1, k) {
                        let j = choose|j: int| 0 <= j < i + 1 && #[trigger] cached@[j] as int == k;
                        assert(j != i);
                    }
                }
                assert forall|a: int, b: int|
                    0 <= a < b < global.hazards@.len() && global.hazards@[a]
                        == crate::hazard::NOT_YET_USED implies global.hazards@[b]
                    == crate::hazard::NOT_YET_USED by {
                    assert(before.hazards@[a] == crate::hazard::NOT_YET_USED);
                }
                assert(global.hazards@.len() as int % (crate::hazard::list::ELEMENTS as int) == 0);
            }
            i = i + 1;
        }
        // the cached hazard pointers are free now and leave the cache
        local.hazard_cache = new_hazard_cache();
        proof {
            local.lemma_inv_stable(&g0, global);
        }
        let ghost g1 = *global;
        assert(local.retired_view(&g1) == local.retired_view(&g0));
        let reclaimed = local.reclaim_all_unprotected(global);
        let ghost after = local.retired_view(global);
        let ghost g2 = *global;
        match local.state {
            LocalRetireState::LocalStrategy(node) => {
                if !node.is_empty() {
                    match &mut global.retire_state {
                        GlobalRetireState::LocalStrategy(abandoned) => {
                            let ghost before = abandoned.nodes();
                            abandoned.push(node);
                            proof {
                                let nodes = seq![node] + before;
                                assert(nodes[0] == node);
                                assert(nodes.drop_first() =~= before);
                                assert(abandoned_records(global) == node.records().to_multiset().add(
                                    all_records(before),
                                ));
                                broadcast use vstd::multiset::group_multiset_axioms;

                                assert(abandoned_records(global) =~= after.abandoned.add(
                                    after.records.to_multiset(),
                                ));
                            }
                        },
                        GlobalRetireState::GlobalStrategy(_) => {},
                    }
                } else {
                    proof {
                        broadcast use vstd::seq_lib::group_to_multiset_ensures;
                        broadcast use vstd::multiset::group_multiset_axioms;

                        assert(after.abandoned.add(after.records.to_multiset()) =~= after.abandoned);
                    }
                }
            },
            LocalRetireState::GlobalStrategy => {
                proof {
                    broadcast use vstd::seq_lib::group_to_multiset_ensures;
                    broadcast use vstd::multiset::group_multiset_axioms;

                    assert(after.abandoned.add(after.records.to_multiset()) =~= after.abandoned);
                }
            },
        }
        proof {
            assert(global.hazards == g1.hazards);
            assert(reclaim_outcome(self.retired_view(&g0), after, global.hazards, reclaimed@));
            lemma_freed_by_all(self.cache());
            self.lemma_inv_wf(&g0);
            assert forall|j: int| 0 <= j < self.cache().len() implies global.hazards@[
                #[trigger] self.cache()[j] as int] == crate::hazard::FREE by {
                assert(g0.hazards.is_acquired(self.cache()[j] as int));
                assert(self.cache().contains(self.cache()[j]));
            }
            assert forall|k: int|
                0 <= k < g0.hazards@.len() && !self.cache().contains(k as usize) implies #[trigger] global.hazards@[
                k] == g0.hazards@[k] by {
                assert(!freed_by(self.cache(), self.cache().len() as int, (k as usize) as int));
            }
        }
        reclaimed
    }
}

/// A scan cache holding exactly the protected addresses of `hazards` protects
/// exactly the records they protect.
proof fn lemma_scan_matches(scan: Seq<usize>, hazards: HazardList)
    requires
        forall|a: usize| scan.contains(a) <==> hazards.protects(a),
    ensures
        protected_by(scan) == protected_in(hazards),
        unprotected_by(scan) == unprotected_in(hazards),
{
    assert forall|r: RetiredPtr| #[trigger] protected_by(scan)(r) == protected_in(hazards)(r) by {
        assert(scan.contains(r.data_addr()) <==> hazards.protects(r.data_addr()));
    }
    assert forall|r: RetiredPtr| #[trigger] unprotected_by(scan)(r) == unprotected_in(hazards)(
        r,
    ) by {
        assert(scan.contains(r.data_addr()) <==> hazards.protects(r.data_addr()));
    }
    assert(protected_by(scan) =~= protected_in(hazards));
    assert(unprotected_by(scan) =~= unprotected_in(hazards));
}

/// An index is freed by going through the whole cache exactly when the
/// cache holds it.
pub proof fn lemma_freed_by_all(cache: Seq<usize>)
    ensures
        forall|k: usize| freed_by(cache, cache.len() as int, k as int) <==> #[trigger] cache.contains(k),
{
    assert forall|k: usize| freed_by(cache, cache.len() as int, k as int) <==> #[trigger] cache.contains(
        k,
    ) by {
        if cache.contains(k) {
            let j = choose|j: int| 0 <= j < cache.len() && cache[j] == k;
            assert(cache[j] as int == k as int);
        }
        if freed_by(cache, cache.len() as int, k as int) {
            let j = choose|j: int| 0 <= j < cache.len() && #[trigger] cache[j] as int == k as int;
            assert(cache[j] == k);
        }
    }
}

/// Whether index `k` is among the first `i` entries of `cache`.
pub open spec fn freed_by(cache: Seq<usize>, i: int, k: int) -> bool {
    exists|j: int| 0 <= j < i && #[trigger] cache[j] as int == k
}

/// The outcome of counting one operation: the count grows by one, unless it
/// reaches the threshold, in which case it is reset and a reclamation attempt
/// is made.
pub open spec fn counted(
    old_local: LocalInner,
    new_local: LocalInner,
    old_global: Global,
    new_global: Global,
    reclaimed: Seq<RetiredPtr>,
) -> bool {
    counted_scanning(old_local, new_local, old_global, new_global, old_global.hazards, reclaimed)
}

/// The outcome of counting one operation, as [`counted`], where a
/// reclamation attempt scans the hazard pointers `hazards`.
pub open spec fn counted_scanning(
    old_local: LocalInner,
    new_local: LocalInner,
    old_global: Global,
    new_global: Global,
    hazards: HazardList,
    reclaimed: Seq<RetiredPtr>,
) -> bool {
    let n = old_local.ops_count() + 1;
    &&& n != old_local.config().ops_count_threshold ==> {
        &&& new_local.ops_count() == n
        &&& new_local.retired_view(&new_global) == old_local.retired_view(&old_global)
        &&& reclaimed.len() == 0
    }
    &&& n == old_local.config().ops_count_threshold ==> {
        &&& new_local.ops_count() == 0
        &&& reclaim_outcome(
            old_local.retired_view(&old_global),
            new_local.retired_view(&new_global),
            hazards,
            reclaimed,
        )
    }
}

/// All records of a view, wherever they wait.
pub open spec fn all_retired(v: RetiredView) -> Multiset<RetiredPtr> {
    v.records.to_multiset().add(v.queue.to_multiset()).add(v.abandoned)
}

/// A reclamation attempt never reclaims a record whose data a hazard pointer
/// protects, keeps only protected records where it scanned, and loses
/// nothing: what it reclaims and what it keeps are together all there was.
pub proof fn lemma_reclaim_is_safe(
    before: RetiredView,
    after: RetiredView,
    hazards: HazardList,
    reclaimed: Seq<RetiredPtr>,
)
    requires
        reclaim_outcome(before, after, hazards, reclaimed),
    ensures
        forall|i: int|
            0 <= i < reclaimed.len() ==> !hazards.protects(#[trigger] reclaimed[i].data_addr()),
        !before.is_local ==> forall|i: int|
            0 <= i < after.queue.len() ==> hazards.protects(#[trigger] after.queue[i].data_addr()),
        before.is_local ==> forall|r: RetiredPtr|
            #[trigger] after.records.to_multiset().contains(r) ==> hazards.protects(r.data_addr()),
        reclaimed.to_multiset().add(all_retired(after)) == all_retired(before),
{
    broadcast use vstd::multiset::group_multiset_axioms;
    broadcast use vstd::seq_lib::group_to_multiset_ensures;

    if !before.is_local {
        assert forall|i: int| 0 <= i < reclaimed.len() implies !hazards.protects(
            #[trigger] reclaimed[i].data_addr(),
        ) by {
            before.queue.lemma_filter_pred(unprotected_in(hazards), i);
        }
        assert forall|i: int| 0 <= i < after.queue.len() implies hazards.protects(
            #[trigger] after.queue[i].data_addr(),
        ) by {
            before.queue.lemma_filter_pred(protected_in(hazards), i);
        }
        lemma_filter_to_multiset(before.queue, protected_in(hazards));
        lemma_filter_to_multiset(before.queue, unprotected_in(hazards));
        assert(reclaimed.to_multiset().add(all_retired(after)) =~= all_retired(before));
    } else {
        let pending = before.records.to_multiset().add(before.abandoned);
        assert forall|i: int| 0 <= i < reclaimed.len() implies !hazards.protects(
            #[trigger] reclaimed[i].data_addr(),
        ) by {
            assert(reclaimed.to_multiset().count(reclaimed[i]) > 0);
            assert(pending.filter(unprotected_in(hazards)).count(reclaimed[i]) > 0);
        }
        assert forall|r: RetiredPtr| #[trigger] after.records.to_multiset().contains(
            r,
        ) implies hazards.protects(r.data_addr()) by {
            assert(pending.filter(protected_in(hazards)).count(r) > 0);
        }
        assert(reclaimed.to_multiset().add(all_retired(after)) =~= all_retired(before));
    }
}

/// A record whose data address a hazard pointer holds is never reclaimed.
pub proof fn lemma_protected_never_reclaimed(
    before: RetiredView,
    after: RetiredView,
    hazards: HazardList,
    reclaimed: Seq<RetiredPtr>,
    idx: int,
    record: RetiredPtr,
)
    requires
        reclaim_outcome(before, after, hazards, reclaimed),
        0 <= idx < hazards@.len(),
        hazards@[idx] == record.data_addr(),
        record.data_addr() != crate::hazard::NOT_YET_USED,
        record.data_addr() != crate::hazard::FREE,
        record.data_addr() != crate::hazard::THREAD_RESERVED,
    ensures
        !reclaimed.contains(record),
{
    lemma_reclaim_is_safe(before, after, hazards, reclaimed);
    assert(hazards.protects(record.data_addr()));
    if reclaimed.contains(record) {
        let i = choose|i: int| 0 <= i < reclaimed.len() && reclaimed[i] == record;
        assert(!hazards.protects(reclaimed[i].data_addr()));
    }
}

/// With a non-zero threshold, counting an operation advances the count
/// modulo the threshold, and a reclamation attempt is made exactly when the
/// count wraps around to zero.
pub proof fn lemma_count_cycle(
    old_local: LocalInner,
    new_local: LocalInner,
    old_global: Global,
    new_global: Global,
    reclaimed: Seq<RetiredPtr>,
)
    requires
        counted(old_local, new_local, old_global, new_global, reclaimed),
        old_local.inv(&old_global),
        old_local.config().ops_count_threshold > 0,
    ensures
        new_local.ops_count() == (old_local.ops_count() + 1) % (
        old_local.config().ops_count_threshold as int),
        new_local.ops_count() == 0 ==> reclaim_outcome(
            old_local.retired_view(&old_global),
            new_local.retired_view(&new_global),
            old_global.hazards,
            reclaimed,
        ),
        new_local.ops_count() != 0 ==> reclaimed.len() == 0,
{
    let t = old_local.config().ops_count_threshold as int;
    assert(old_local.ops_count() < t);
    if old_local.ops_count() + 1 == t {
        vstd::arithmetic::div_mod::lemma_mod_self_0(t);
    } else {
        vstd::arithmetic::div_mod::lemma_small_mod((old_local.ops_count() + 1) as nat, t as nat);
    }
}

/// The records a thread keeps when it exits are abandoned and adopted, all of
/// them, by the next thread that starts with the local strategy.
pub proof fn lemma_exit_then_adopt(after: RetiredView, g: Global, adopter: LocalInner)
    requires
        abandoned_records(&g) == after.abandoned.add(after.records.to_multiset()),
        adopter.retired().to_multiset() == abandoned_records(&g),
    ensures
        forall|r: RetiredPtr|
            after.records.to_multiset().count(r) <= #[trigger] adopter.retired().to_multiset().count(
                r,
            ),
{
    broadcast use vstd::multiset::group_multiset_axioms;

}

} // verus!
