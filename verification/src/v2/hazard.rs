//! Hazard pointers of the alternative interface, which know only two
//! states besides a protected address: free and reserved by a thread.

use vstd::prelude::*;

verus! {

/// State of a hazard pointer that is free.
pub const FREE: usize = 0;
/// State of a hazard pointer that is reserved by a thread but protects nothing.
pub const THREAD_RESERVED: usize = 1;

/// An address protected from reclamation because a hazard pointer holds it.
#[derive(Clone, Copy, Debug, PartialEq, Eq, Structural, PartialOrd, Ord)]
pub struct Protected {
    addr: usize,
}

impl Protected {
    /// A protected address is never null.
    #[verifier::type_invariant]
    pub closed spec fn non_null(self) -> bool {
        self.addr != 0
    }

    /// The protected address.
    pub closed spec fn addr(self) -> usize {
        self.addr
    }

    /// The protected address, as a pointer value.
    pub fn as_const_ptr(self) -> (p: usize)
        ensures
            p == self.addr(),
    {
        self.addr
    }

    /// The memory address of the protected pointer.
    pub fn address(self) -> (a: usize)
        ensures
            a == self.addr(),
    {
        self.addr
    }

    /// The protected (non-null) address.
    pub fn into_inner(self) -> (a: usize)
        ensures
            a == self.addr(),
            a != 0,
    {
        proof {
            use_type_invariant(&self);
        }
        self.addr
    }
}

/// What a hazard pointer holding `value` protects: nothing if it is free or
/// reserved, else the value itself.
pub open spec fn protects(value: usize) -> Option<usize> {
    if value == FREE || value == THREAD_RESERVED {
        None
    } else {
        Some(value)
    }
}

/// A hazard pointer: one word announcing what its owner currently uses.
#[derive(Debug)]
pub struct Hazard {
    protected: usize,
}

impl Hazard {
    /// The word the hazard pointer holds.
    pub closed spec fn value(&self) -> usize {
        self.protected
    }

    /// Creates a free hazard pointer.
    pub fn new() -> (h: Self)
        ensures
            h.value() == FREE,
    {
        Hazard { protected: FREE }
    }

    /// Creates a hazard pointer holding `protected` from the start.
    pub fn with_protected(protected: usize) -> (h: Self)
        ensures
            h.value() == protected,
    {
        Hazard { protected }
    }

    /// Sets the hazard pointer free.
    pub fn set_free(&mut self)
        ensures
            final(self).value() == FREE,
    {
        self.protected = FREE;
    }

    /// Marks the hazard pointer as reserved by its thread, protecting nothing.
    pub fn set_thread_reserved(&mut self)
        ensures
            final(self).value() == THREAD_RESERVED,
    {
        self.protected = THREAD_RESERVED;
    }

    /// Reads the protected address, if there is one.
    pub fn protected(&self) -> (p: Option<Protected>)
        ensures
            match p {
                Some(q) => protects(self.value()) == Some(q.addr()),
                None => protects(self.value()) is None,
            },
    {
        if self.protected == FREE || self.protected == THREAD_RESERVED {
            None
        } else {
            Some(Protected { addr: self.protected })
        }
    }

    /// Makes the hazard pointer protect the non-null address `protected`.
    pub fn set_protected(&mut self, protected: usize)
        requires
            protected != 0,
        ensures
            final(self).value() == protected,
    {
        self.protected = protected;
    }
}

} // verus!
