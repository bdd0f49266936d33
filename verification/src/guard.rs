//! Guards: a thread's handle on one acquired hazard pointer, used to protect
//! pointers loaded from shared memory.
//!
//! Protecting a pointer is a loop that alternates loads from shared memory
//! with decisions; the decisions are made here, one step per load, and the
//! caller performs the loads and feeds their results in.

use vstd::prelude::*;

use crate::config::CountStrategy;
use crate::global::Global;
use crate::hazard::list::acquired_first_available;
use crate::hazard::{
    acquired_value, decodes_to, protected_addr, ProtectStrategy, ProtectedResult, FREE, NOT_YET_USED,
    THREAD_RESERVED,
};
use crate::local::inner::{counted, counted_scanning, LocalInner, RecycleError, HAZARD_CACHE};
use crate::strategy::RetiredPtr;

verus! {

/// A pointer value loaded from shared memory: an address and the tag bits
/// stored alongside it.
#[derive(Clone, Copy, Debug, PartialEq, Eq, Structural)]
pub struct MarkedPtr {
    /// The address; zero is the null pointer.
    pub addr: usize,
    /// The tag bits.
    pub tag: usize,
}

/// The next thing to do while protecting a pointer.
#[derive(Clone, Copy, Debug, PartialEq, Eq, Structural)]
pub enum ProtectAction {
    /// The loaded pointer is null; the hazard pointer was released.
    Null(MarkedPtr),
    /// The loaded pointer is now protected and may be used.
    Protected(MarkedPtr),
    /// The hazard pointer now holds the given address; load the pointer
    /// again and check it with [`Guard::protect_check`].
    Reload(usize),
}

/// The result of the first step of a conditional protection.
#[derive(Clone, Copy, Debug, PartialEq, Eq, Structural)]
pub enum IfEqualAction {
    /// The loaded pointer differs from the expected one.
    NotEqual,
    /// The expected pointer is null; the hazard pointer was released.
    Null(MarkedPtr),
    /// The hazard pointer now holds the loaded address, and held the given
    /// word before; load the pointer again and check it with
    /// [`Guard::protect_if_equal_check`], handing that word back.
    Reload(MarkedPtr, usize),
}

/// An acquired hazard pointer owned by a thread.
#[derive(Debug)]
pub struct Guard {
    hazard: usize,
}

impl Guard {
    /// The index of the guard's hazard pointer in the global list.
    pub closed spec fn hazard(&self) -> usize {
        self.hazard
    }

    /// The guard's hazard pointer is an acquired one of `g`.
    pub open spec fn inv(&self, g: &Global) -> bool {
        g.wf() && g.hazards.is_acquired(self.hazard() as int)
    }

    /// The guard's hazard pointer is not one of those cached by `local`: a
    /// hazard pointer is owned either by one guard or by the thread's cache.
    pub open spec fn apart_from(&self, local: &LocalInner) -> bool {
        !local.cache().contains(self.hazard())
    }

    /// The index of the guard's hazard pointer.
    pub fn hazard_index(&self) -> (idx: usize)
        ensures
            idx == self.hazard(),
    {
        self.hazard
    }

    /// Creates a guard whose hazard pointer is reserved but protects nothing.
    pub fn with_handle(local: &mut LocalInner, global: &mut Global) -> (g: Self)
        requires
            old(local).inv(old(global)),
        ensures
            final(local).inv(final(global)),
            g.inv(final(global)),
            final(global).hazards.grows_from(&old(global).hazards),
            final(global).retire_state == old(global).retire_state,
            final(local).ops_count() == old(local).ops_count(),
            final(local).config() == old(local).config(),
            final(local).retired() == old(local).retired(),
            final(local).is_local() == old(local).is_local(),
            g.apart_from(final(local)),
            final(global).hazards@[g.hazard() as int] == THREAD_RESERVED,
            old(local).cache().len() == 0 ==> {
                &&& final(local).cache() == old(local).cache()
                &&& acquired_first_available(
                    old(global).hazards@,
                    final(global).hazards@,
                    g.hazard() as int,
                    THREAD_RESERVED,
                )
            },
            old(local).cache().len() > 0 ==> {
                &&& g.hazard() == old(local).cache().last()
                &&& final(local).cache() == old(local).cache().drop_last()
                &&& final(global).hazards@ == old(global).hazards@
            },
    {
        proof {
            old(local).lemma_inv_wf(old(global));
        }
        let hazard = local.get_hazard(global, ProtectStrategy::ReserveOnly);
        proof {
            local.lemma_inv_wf(global);
        }
        Guard { hazard }
    }

    /// Releases the protected pointer: the hazard pointer stays reserved by
    /// the thread but protects nothing. With the release count strategy, the
    /// operation is counted; the returned records can be reclaimed.
    pub fn release(&mut self, local: &mut LocalInner, global: &mut Global) -> (reclaimed: Vec<
        RetiredPtr,
    >)
        requires
            old(local).inv(old(global)),
            old(self).inv(old(global)),
            old(self).apart_from(old(local)),
            old(local).config().ops_count_threshold > 0 || old(local).ops_count() < u32::MAX,
        ensures
            final(local).inv(final(global)),
            final(self).inv(final(global)),
            final(self).apart_from(final(local)),
            final(self).hazard() == old(self).hazard(),
            final(global).hazards@ == old(global).hazards@.update(
                old(self).hazard() as int,
                THREAD_RESERVED,
            ),
            final(local).cache() == old(local).cache(),
            final(local).config() == old(local).config(),
            old(local).config().count_strategy == CountStrategy::Release ==> counted(
                *old(local),
                *final(local),
                *old(global),
                *final(global),
                reclaimed@,
            ),
            old(local).config().count_strategy != CountStrategy::Release ==> {
                &&& final(local).ops_count() == old(local).ops_count()
                &&& final(local).retired_view(final(global)) == old(local).retired_view(
                    old(global),
                )
                &&& reclaimed@.len() == 0
            },
    {
        let ghost g0 = *global;
        let reclaimed = local.increase_ops_count_if_count_release(global);
        let ghost g1 = *global;
        global.set_thread_reserved(self.hazard);
        proof {
            assert(global.hazards.grows_from(&g1.hazards));
            lemma_write_own(local, &g1, global, self.hazard);
        }
        reclaimed
    }

    /// Gives the guard's hazard pointer up: it is kept in the thread's cache
    /// if there is room, and set free otherwise. With the release count
    /// strategy the operation is counted; the returned records can be
    /// reclaimed.
    pub fn dispose(self, local: &mut LocalInner, global: &mut Global) -> (reclaimed: Vec<
        RetiredPtr,
    >)
        requires
            old(local).inv(old(global)),
            self.inv(old(global)),
            self.apart_from(old(local)),
            old(local).config().ops_count_threshold > 0 || old(local).ops_count() < u32::MAX,
        ensures
            final(local).inv(final(global)),
            final(global).hazards@.len() == old(global).hazards@.len(),
            old(local).cache().len() < HAZARD_CACHE ==> {
                &&& final(local).cache() == old(local).cache().push(self.hazard())
                &&& final(global).hazards@ == old(global).hazards@.update(
                    self.hazard() as int,
                    THREAD_RESERVED,
                )
            },
            old(local).cache().len() >= HAZARD_CACHE ==> {
                &&& final(local).cache() == old(local).cache()
                &&& final(global).hazards@ == old(global).hazards@.update(
                    self.hazard() as int,
                    FREE,
                )
            },
            final(local).config() == old(local).config(),
            old(local).config().count_strategy == CountStrategy::Release ==> counted_scanning(
                *old(local),
                *final(local),
                *old(global),
                *final(global),
                final(global).hazards,
                reclaimed@,
            ),
            old(local).config().count_strategy != CountStrategy::Release ==> {
                &&& final(local).ops_count() == old(local).ops_count()
                &&& final(local).retired_view(final(global)) == old(local).retired_view(
                    old(global),
                )
                &&& reclaimed@.len() == 0
            },
    {
        let ghost g0 = *global;
        let ghost l0 = *local;
        let recycled: Result<(), RecycleError> = local.try_recycle_hazard(global, self.hazard);
        if recycled.is_err() {
            let ghost g1 = *global;
            global.set_free(self.hazard);
            proof {
                lemma_write_own(local, &g1, global, self.hazard);
            }
        }
        let ghost g2 = *global;
        let ghost l2 = *local;
        let reclaimed = local.increase_ops_count_if_count_release(global);
        reclaimed
    }

    /// Creates a second guard protecting what this guard protects, if anything.
    pub fn clone(&self, local: &mut LocalInner, global: &mut Global) -> (g: Self)
        requires
            old(local).inv(old(global)),
            self.inv(old(global)),
            self.apart_from(old(local)),
        ensures
            final(local).inv(final(global)),
            g.inv(final(global)),
            self.inv(final(global)),
            final(global).hazards.grows_from(&old(global).hazards),
            final(global).retire_state == old(global).retire_state,
            final(local).ops_count() == old(local).ops_count(),
            final(local).config() == old(local).config(),
            final(local).retired() == old(local).retired(),
            final(local).is_local() == old(local).is_local(),
            g.apart_from(final(local)),
            self.apart_from(final(local)),
            final(global).hazards@[g.hazard() as int] == cloned_value(
                old(global).hazards@[self.hazard() as int],
            ),
            ({
                let v = old(global).hazards@[self.hazard() as int];
                let w = final(global).hazards@[g.hazard() as int];
                &&& (v == NOT_YET_USED || v == FREE || v == THREAD_RESERVED) ==> w
                    == THREAD_RESERVED
                &&& !(v == NOT_YET_USED || v == FREE || v == THREAD_RESERVED) ==> w == v
            }),
            old(local).cache().len() > 0 ==> {
                &&& g.hazard() == old(local).cache().last()
                &&& final(local).cache() == old(local).cache().drop_last()
                &&& final(global).hazards@ == old(global).hazards@.update(
                    g.hazard() as int,
                    cloned_value(old(global).hazards@[self.hazard() as int]),
                )
            },
            old(local).cache().len() == 0 ==> {
                &&& final(local).cache() == old(local).cache()
                &&& acquired_first_available(
                    old(global).hazards@,
                    final(global).hazards@,
                    g.hazard() as int,
                    cloned_value(old(global).hazards@[self.hazard() as int]),
                )
            },
    {
        let ghost g0 = *global;
        proof {
            old(local).lemma_inv_wf(old(global));
        }
        let result = global.hazard(self.hazard).protected();
        let strategy = match result.protected() {
            Some(protected) => ProtectStrategy::Protect(protected),
            None => ProtectStrategy::ReserveOnly,
        };
        let hazard = local.get_hazard(global, strategy);
        proof {
            local.lemma_inv_wf(global);
            let v = g0.hazards@[self.hazard() as int];
            if let ProtectStrategy::Protect(p) = strategy {
                assert(protected_addr(v) == Some(p.addr()));
            } else {
                assert(decodes_to(v, result));
                assert(protected_addr(v) is None);
            }
            assert(acquired_value(strategy) == cloned_value(v));
            if old(local).cache().len() > 0 {
                let last = old(local).cache()[old(local).cache().len() - 1];
                assert(g0.hazards@[last as int] == THREAD_RESERVED);
                if strategy is ReserveOnly {
                    assert(g0.hazards@.update(last as int, THREAD_RESERVED) =~= g0.hazards@);
                }
            }
        }
        Guard { hazard }
    }

    /// Makes this guard protect what `source` protects; if `source` protects
    /// nothing, this guard is left as it is.
    pub fn clone_from(&mut self, source: &Self, global: &mut Global)
        requires
            old(self).inv(old(global)),
            source.inv(old(global)),
        ensures
            final(self).inv(final(global)),
            final(self).hazard() == old(self).hazard(),
            final(global).retire_state == old(global).retire_state,
            final(global).hazards@ == match protected_addr(
                old(global).hazards@[source.hazard() as int],
            ) {
                Some(a) => old(global).hazards@.update(old(self).hazard() as int, a),
                None => old(global).hazards@,
            },
    {
        match global.hazard(source.hazard).protected().protected() {
            Some(protected) => global.set_protected(self.hazard, protected.into_inner()),
            None => {},
        }
    }

    /// First step of protecting a pointer, given its value `loaded` from
    /// shared memory: a null pointer releases the hazard pointer; otherwise
    /// the hazard pointer is set to the loaded address, which must then be
    /// loaded again.
    pub fn protect_start(
        &mut self,
        local: &mut LocalInner,
        global: &mut Global,
        loaded: MarkedPtr,
    ) -> (r: (ProtectAction, Vec<RetiredPtr>))
        requires
            old(local).inv(old(global)),
            old(self).inv(old(global)),
            old(self).apart_from(old(local)),
            old(local).config().ops_count_threshold > 0 || old(local).ops_count() < u32::MAX,
        ensures
            final(local).inv(final(global)),
            final(self).inv(final(global)),
            final(self).apart_from(final(local)),
            final(self).hazard() == old(self).hazard(),
            loaded.addr == 0 ==> {
                &&& r.0 == ProtectAction::Null(loaded)
                &&& final(global).hazards@ == old(global).hazards@.update(
                    old(self).hazard() as int,
                    THREAD_RESERVED,
                )
                &&& final(local).config() == old(local).config()
                &&& old(local).config().count_strategy == CountStrategy::Release ==> counted(
                    *old(local),
                    *final(local),
                    *old(global),
                    *final(global),
                    r.1@,
                )
                &&& old(local).config().count_strategy != CountStrategy::Release ==> {
                    &&& final(local).ops_count() == old(local).ops_count()
                    &&& final(local).retired_view(final(global)) == old(local).retired_view(
                        old(global),
                    )
                    &&& r.1@.len() == 0
                }
            },
            loaded.addr != 0 ==> {
                &&& r.0 == ProtectAction::Reload(loaded.addr)
                &&& final(global).hazards@ == old(global).hazards@.update(
                    old(self).hazard() as int,
                    loaded.addr,
                )
                &&& final(global).retire_state == old(global).retire_state
                &&& *final(local) == *old(local)
                &&& r.1@.len() == 0
            },
    {
        if loaded.addr == 0 {
            let reclaimed = self.release(local, global);
            (ProtectAction::Null(loaded), reclaimed)
        } else {
            let ghost g0 = *global;
            global.set_protected(self.hazard, loaded.addr);
            proof {
                lemma_write_own(local, &g0, global, self.hazard);
            }
            (ProtectAction::Reload(loaded.addr), Vec::new())
        }
    }

    /// Next step of protecting a pointer: `protected` is the address the
    /// hazard pointer holds and `reloaded` the pointer's value loaded again.
    /// If the pointer is now null, the hazard pointer is released; if it
    /// still points to the protected address, it is protected; otherwise the
    /// hazard pointer is set to the new address, which must be loaded again.
    pub fn protect_check(
        &mut self,
        local: &mut LocalInner,
        global: &mut Global,
        protected: usize,
        reloaded: MarkedPtr,
    ) -> (r: (ProtectAction, Vec<RetiredPtr>))
        requires
            old(local).inv(old(global)),
            old(self).inv(old(global)),
            old(self).apart_from(old(local)),
            old(global).hazards@[old(self).hazard() as int] == protected,
            old(local).config().ops_count_threshold > 0 || old(local).ops_count() < u32::MAX,
        ensures
            final(local).inv(final(global)),
            final(self).inv(final(global)),
            final(self).apart_from(final(local)),
            final(self).hazard() == old(self).hazard(),
            reloaded.addr == 0 ==> {
                &&& r.0 == ProtectAction::Null(reloaded)
                &&& final(global).hazards@ == old(global).hazards@.update(
                    old(self).hazard() as int,
                    THREAD_RESERVED,
                )
                &&& final(local).config() == old(local).config()
                &&& old(local).config().count_strategy == CountStrategy::Release ==> counted(
                    *old(local),
                    *final(local),
                    *old(global),
                    *final(global),
                    r.1@,
                )
                &&& old(local).config().count_strategy != CountStrategy::Release ==> {
                    &&& final(local).ops_count() == old(local).ops_count()
                    &&& final(local).retired_view(final(global)) == old(local).retired_view(
                        old(global),
                    )
                    &&& r.1@.len() == 0
                }
            },
            reloaded.addr != 0 && reloaded.addr == protected ==> {
                &&& r.0 == ProtectAction::Protected(reloaded)
                &&& *final(global) == *old(global)
                &&& *final(local) == *old(local)
                &&& r.1@.len() == 0
            },
            reloaded.addr != 0 && reloaded.addr != protected ==> {
                &&& r.0 == ProtectAction::Reload(reloaded.addr)
                &&& final(global).hazards@ == old(global).hazards@.update(
                    old(self).hazard() as int,
                    reloaded.addr,
                )
                &&& final(global).retire_state == old(global).retire_state
                &&& *final(local) == *old(local)
                &&& r.1@.len() == 0
            },
    {
        if reloaded.addr == 0 {
            let reclaimed = self.release(local, global);
            (ProtectAction::Null(reloaded), reclaimed)
        } else if reloaded.addr == protected {
            (ProtectAction::Protected(reloaded), Vec::new())
        } else {
            let ghost g0 = *global;
            global.set_protected(self.hazard, reloaded.addr);
            proof {
                lemma_write_own(local, &g0, global, self.hazard);
            }
            (ProtectAction::Reload(reloaded.addr), Vec::new())
        }
    }

    /// First step of protecting a pointer only if its value `loaded` equals
    /// `expected`: a different value changes nothing; a null pointer releases
    /// the hazard pointer; otherwise the hazard pointer is set to the address,
    /// which must then be loaded again.
    pub fn protect_if_equal_start(
        &mut self,
        local: &mut LocalInner,
        global: &mut Global,
        loaded: MarkedPtr,
        expected: MarkedPtr,
    ) -> (r: (IfEqualAction, Vec<RetiredPtr>))
        requires
            old(local).inv(old(global)),
            old(self).inv(old(global)),
            old(self).apart_from(old(local)),
            old(local).config().ops_count_threshold > 0 || old(local).ops_count() < u32::MAX,
        ensures
            final(local).inv(final(global)),
            final(self).inv(final(global)),
            final(self).apart_from(final(local)),
            final(self).hazard() == old(self).hazard(),
            loaded != expected ==> {
                &&& r.0 == IfEqualAction::NotEqual
                &&& *final(global) == *old(global)
                &&& *final(local) == *old(local)
                &&& r.1@.len() == 0
            },
            loaded == expected && loaded.addr == 0 ==> {
                &&& r.0 == IfEqualAction::Null(loaded)
                &&& final(global).hazards@ == old(global).hazards@.update(
                    old(self).hazard() as int,
                    THREAD_RESERVED,
                )
                &&& final(local).config() == old(local).config()
                &&& old(local).config().count_strategy == CountStrategy::Release ==> counted(
                    *old(local),
                    *final(local),
                    *old(global),
                    *final(global),
                    r.1@,
                )
                &&& old(local).config().count_strategy != CountStrategy::Release ==> {
                    &&& final(local).ops_count() == old(local).ops_count()
                    &&& final(local).retired_view(final(global)) == old(local).retired_view(
                        old(global),
                    )
                    &&& r.1@.len() == 0
                }
            },
            loaded == expected && loaded.addr != 0 ==> {
                &&& r.0 == IfEqualAction::Reload(
                    loaded,
                    old(global).hazards@[old(self).hazard() as int],
                )
                &&& final(global).hazards@ == old(global).hazards@.update(
                    old(self).hazard() as int,
                    loaded.addr,
                )
                &&& final(global).retire_state == old(global).retire_state
                &&& *final(local) == *old(local)
                &&& r.1@.len() == 0
            },
    {
        if loaded != expected {
            return (IfEqualAction::NotEqual, Vec::new());
        }
        if loaded.addr == 0 {
            let reclaimed = self.release(local, global);
            (IfEqualAction::Null(loaded), reclaimed)
        } else {
            let ghost g0 = *global;
            let previous = global.hazard(self.hazard).load();
            global.set_protected(self.hazard, loaded.addr);
            proof {
                lemma_write_own(local, &g0, global, self.hazard);
            }
            (IfEqualAction::Reload(loaded, previous), Vec::new())
        }
    }

    /// Last step of a conditional protection: if the pointer `reloaded` is
    /// still the `protected` one, it is protected and `true` returned;
    /// otherwise the hazard pointer gets back the word `previous` it held
    /// before the first step, so a failed attempt changes nothing, and
    /// `false` is returned.
    pub fn protect_if_equal_check(
        &mut self,
        global: &mut Global,
        protected: MarkedPtr,
        previous: usize,
        reloaded: MarkedPtr,
    ) -> (equal: bool)
        requires
            old(self).inv(old(global)),
            previous != NOT_YET_USED,
        ensures
            final(self).inv(final(global)),
            final(self).hazard() == old(self).hazard(),
            final(global).retire_state == old(global).retire_state,
            equal == (reloaded == protected),
            equal ==> *final(global) == *old(global),
            !equal ==> final(global).hazards@ == old(global).hazards@.update(
                old(self).hazard() as int,
                previous,
            ),
    {
        if reloaded == protected {
            true
        } else {
            global.set_protected(self.hazard, previous);
            false
        }
    }

    /// Reads what the guard's hazard pointer protects.
    pub fn protected(&self, global: &Global) -> (r: ProtectedResult)
        requires
            self.inv(global),
        ensures
            decodes_to(global.hazards@[self.hazard() as int], r),
    {
        global.hazard(self.hazard).protected()
    }
}

/// The value a clone's hazard pointer holds when the source's holds `v`: the
/// address `v` protects, or reserved if it protects nothing.
pub open spec fn cloned_value(v: usize) -> usize {
    match protected_addr(v) {
        Some(a) => a,
        None => THREAD_RESERVED,
    }
}

/// A clone holds what its source protects, and is reserved by the thread
/// when the source protects nothing: it is never free or unused, so no other
/// acquisition can hand out the clone's hazard pointer.
pub proof fn lemma_clone_is_owned(source: usize)
    ensures
        cloned_value(source) != FREE,
        cloned_value(source) != NOT_YET_USED,
        (source == NOT_YET_USED || source == FREE || source == THREAD_RESERVED) ==> cloned_value(
            source,
        ) == THREAD_RESERVED,
        !(source == NOT_YET_USED || source == FREE || source == THREAD_RESERVED) ==> cloned_value(
            source,
        ) == source,
{
}

/// After a guard is cloned, acquiring a hazard pointer from the global list
/// never returns the clone's: the clone's hazard pointer is not available.
pub proof fn lemma_clone_not_reacquired(
    hazards: Seq<usize>,
    after: Seq<usize>,
    clone: int,
    source: usize,
    idx: int,
    value: usize,
)
    requires
        0 <= clone < hazards.len(),
        hazards[clone] == cloned_value(source),
        acquired_first_available(hazards, after, idx, value),
    ensures
        idx != clone,
{
    if idx == clone {
        assert(crate::hazard::list::is_available(hazards[clone]));
    }
}

/// Writing a value other than "never used" into a guard's own hazard
/// pointer, which the thread's cache does not hold, keeps the thread-local
/// state consistent with the global state.
proof fn lemma_write_own(local: &LocalInner, g1: &Global, g2: &Global, idx: usize)
    requires
        local.inv(g1),
        g1.hazards.is_acquired(idx as int),
        !local.cache().contains(idx),
        g2.hazards@ == g1.hazards@.update(idx as int, g2.hazards@[idx as int]),
        g2.hazards@[idx as int] != crate::hazard::NOT_YET_USED,
        g2.retire_state == g1.retire_state,
    ensures
        local.inv(g2),
        g2.wf(),
        g2.hazards.grows_from(&g1.hazards),
{
    local.lemma_inv_wf(g1);
    crate::hazard::list::lemma_update_grows(g1.hazards, g2.hazards, idx as int, g2.hazards@[idx as int]);
    assert forall|i: int| 0 <= i < local.cache().len() implies g2.hazards@[
        #[trigger] local.cache()[i] as int] == g1.hazards@[local.cache()[i] as int] by {
        assert(g1.hazards.is_acquired(local.cache()[i] as int));
        assert(local.cache()[i] != idx);
    }
    local.lemma_inv_stable(g1, g2);
}

} // verus!
