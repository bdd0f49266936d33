//! Hazard pointers: globally visible cells that announce which pointer a
//! thread is currently using, so that the pointed-to record is protected from
//! reclamation.
//!
//! A hazard pointer holds one machine word. Three small values are reserved
//! as states: [`NOT_YET_USED`] (never acquired), [`FREE`] (released and
//! available to any thread) and [`THREAD_RESERVED`] (owned by a thread but
//! protecting nothing). Any other value is the address being protected.

pub mod list;
pub mod pair;

use vstd::prelude::*;

verus! {

/// State of a hazard pointer that is free and has never been acquired.
pub const NOT_YET_USED: usize = 0;
/// State of a hazard pointer that is free and has been acquired before.
pub const FREE: usize = 1;
/// State of a hazard pointer that is reserved by a thread but protects nothing.
pub const THREAD_RESERVED: usize = 2;

/// An address protected from reclamation because a hazard pointer holds it.
#[derive(Clone, Copy, Debug, PartialEq, Eq, Structural, PartialOrd, Ord)]
pub struct ProtectedPtr {
    addr: usize,
}

impl ProtectedPtr {
    /// A protected address is never null.
    #[verifier::type_invariant]
    pub closed spec fn non_null(self) -> bool {
        self.addr != 0
    }

    /// The protected address.
    pub closed spec fn addr(self) -> usize {
        self.addr
    }

    /// The type invariant says that the address is not null.
    pub proof fn lemma_non_null(self)
        requires
            self.non_null(),
        ensures
            self.addr() != 0,
    {
    }

    /// Wraps a non-null address.
    pub fn new(addr: usize) -> (p: Self)
        requires
            addr != 0,
        ensures
            p.addr() == addr,
    {
        ProtectedPtr { addr }
    }

    /// Returns the protected (non-null) address.
    pub fn into_inner(self) -> (a: usize)
        ensures
            a == self.addr(),
            a != 0,
    {
        proof {
            use_type_invariant(&self);
        }
        self.addr
    }

    /// Returns the protected address.
    pub fn address(self) -> (a: usize)
        ensures
            a == self.addr(),
            a != 0,
    {
        proof {
            use_type_invariant(&self);
        }
        self.addr
    }

    /// The protected address, as a pointer value.
    fn as_ptr(self) -> (p: usize)
        ensures
            p == self.addr(),
    {
        self.addr
    }

    /// Compares the protected address with `ptr`.
    pub fn compare_with(self, ptr: usize) -> (o: core::cmp::Ordering)
        ensures
            (o == core::cmp::Ordering::Less) == (self.addr() < ptr),
            (o == core::cmp::Ordering::Equal) == (self.addr() == ptr),
            (o == core::cmp::Ordering::Greater) == (self.addr() > ptr),
    {
        let own = self.as_ptr();
        if own < ptr {
            core::cmp::Ordering::Less
        } else if own == ptr {
            core::cmp::Ordering::Equal
        } else {
            core::cmp::Ordering::Greater
        }
    }
}

/// What a hazard pointer's value says about it.
#[derive(Clone, Copy, Debug, PartialEq, Eq, Structural, PartialOrd, Ord)]
pub enum ProtectedResult {
    /// The hazard pointer protects the contained address.
    Protected(ProtectedPtr),
    /// The hazard pointer is in use or free but protects nothing.
    Unprotected,
    /// The hazard pointer has never been used. Since hazard pointers are
    /// acquired in order, no later one has been used either, so an iteration
    /// over all hazard pointers may stop here.
    AbortIteration,
}

/// Whether `r` is what a hazard pointer holding `value` reads as.
pub open spec fn decodes_to(value: usize, r: ProtectedResult) -> bool {
    match r {
        ProtectedResult::AbortIteration => value == NOT_YET_USED,
        ProtectedResult::Unprotected => value == FREE || value == THREAD_RESERVED,
        ProtectedResult::Protected(p) => protected_addr(value) == Some(p.addr()),
    }
}

/// The address a hazard pointer value protects, if any.
pub open spec fn protected_addr(value: usize) -> Option<usize> {
    if value == NOT_YET_USED || value == FREE || value == THREAD_RESERVED {
        None
    } else {
        Some(value)
    }
}

impl ProtectedResult {
    /// Returns the protected address, if there is one.
    pub fn protected(self) -> (p: Option<ProtectedPtr>)
        ensures
            p == (match self {
                ProtectedResult::Protected(q) => Some(q),
                _ => None,
            }),
    {
        match self {
            ProtectedResult::Protected(protected) => Some(protected),
            _ => None,
        }
    }
}

/// How a hazard pointer is to be acquired.
#[derive(Clone, Copy, Debug)]
pub enum ProtectStrategy {
    /// Acquire it as reserved by the calling thread, protecting nothing.
    ReserveOnly,
    /// Acquire it protecting the given address.
    Protect(ProtectedPtr),
}

/// The value a hazard pointer holds right after being acquired by `strategy`.
pub open spec fn acquired_value(strategy: ProtectStrategy) -> usize {
    match strategy {
        ProtectStrategy::ReserveOnly => THREAD_RESERVED,
        ProtectStrategy::Protect(p) => p.addr(),
    }
}

/// A hazard pointer: one word announcing what its owner currently uses.
#[derive(Debug)]
pub struct HazardPtr {
    protected: usize,
}

impl HazardPtr {
    /// The word the hazard pointer holds.
    pub closed spec fn value(&self) -> usize {
        self.protected
    }

    /// Creates a hazard pointer that has never been used.
    pub fn new() -> (h: Self)
        ensures
            h.value() == NOT_YET_USED,
    {
        HazardPtr { protected: NOT_YET_USED }
    }

    /// Creates a hazard pointer holding `protected` from the start.
    pub fn with_protected(protected: usize) -> (h: Self)
        ensures
            h.value() == protected,
    {
        HazardPtr { protected }
    }

    /// Reads the word the hazard pointer holds.
    pub fn load(&self) -> (v: usize)
        ensures
            v == self.value(),
    {
        self.protected
    }

    /// Sets the hazard pointer free: it protects nothing and any thread may
    /// acquire it.
    pub fn set_free(&mut self)
        ensures
            final(self).value() == FREE,
    {
        self.protected = FREE;
    }

    /// Marks the hazard pointer as reserved by its thread, protecting nothing.
    pub fn set_thread_reserved(&mut self)
        ensures
            final(self).value() == THREAD_RESERVED,
    {
        self.protected = THREAD_RESERVED;
    }

    /// Reads what the hazard pointer currently protects.
    pub fn protected(&self) -> (r: ProtectedResult)
        ensures
            decodes_to(self.value(), r),
    {
        if self.protected == NOT_YET_USED {
            ProtectedResult::AbortIteration
        } else if self.protected == FREE || self.protected == THREAD_RESERVED {
            ProtectedResult::Unprotected
        } else {
            ProtectedResult::Protected(ProtectedPtr { addr: self.protected })
        }
    }

    /// Makes the hazard pointer protect the non-null address `protected`.
    pub fn set_protected(&mut self, protected: usize)
        requires
            protected != 0,
        ensures
            final(self).value() == protected,
    {
        self.protected = protected;
    }
}

} // verus!
