//! Single hazard pointers whose word is either free, reserved by a thread,
//! or the protected address; a simpler variant of
//! [`HazardPtr`](crate::hazard::HazardPtr).

use vstd::prelude::*;

verus! {

/// State of a hazard pointer that is unused and available to any thread.
pub const FREE: usize = 0;
/// State of a hazard pointer that is unused but reserved by a thread.
pub const RESERVED: usize = 1;

/// A pointer protected from reclamation because a hazard pointer holds it.
#[derive(Clone, Copy, Debug, PartialEq, Eq, Structural, PartialOrd, Ord)]
pub struct Protected {
    addr: usize,
}

impl Protected {
    /// The protected address.
    pub closed spec fn addr(self) -> usize {
        self.addr
    }

    /// Gets the memory address of the protected pointer.
    pub fn address(self) -> (a: usize)
        ensures
            a == self.addr(),
    {
        self.addr
    }
}

/// What a hazard pointer holding `value` protects, if anything.
pub open spec fn protects(value: usize) -> Option<usize> {
    if value == FREE || value == RESERVED {
        None
    } else {
        Some(value)
    }
}

/// A pointer visible to all threads that is protected from reclamation.
#[derive(Debug)]
pub struct Hazard {
    protected: usize,
}

impl Hazard {
    /// The word the hazard pointer holds.
    pub closed spec fn value(&self) -> usize {
        self.protected
    }

    /// Creates a hazard pointer protecting the non-null address `protect`.
    pub fn new(protect: usize) -> (h: Self)
        requires
            protect != 0,
        ensures
            h.value() == protect,
    {
        Hazard { protected: protect }
    }

    /// Reads the word the hazard pointer holds.
    pub fn load(&self) -> (v: usize)
        ensures
            v == self.value(),
    {
        self.protected
    }

    /// Marks the hazard pointer as unused and available to any thread.
    pub fn set_free(&mut self)
        ensures
            final(self).value() == FREE,
    {
        self.protected = FREE;
    }

    /// Marks the hazard pointer as unused but reserved by its thread.
    pub fn set_reserved(&mut self)
        ensures
            final(self).value() == RESERVED,
    {
        self.protected = RESERVED;
    }

    /// Gets the protected pointer, if there is one.
    pub fn protected(&self) -> (p: Option<Protected>)
        ensures
            match p {
                Some(q) => protects(self.value()) == Some(q.addr()),
                None => protects(self.value()) is None,
            },
    {
        if self.protected == FREE || self.protected == RESERVED {
            None
        } else {
            Some(Protected { addr: self.protected })
        }
    }

    /// Marks the hazard pointer as protecting the non-null address `protect`.
    pub fn set_protected(&mut self, protect: usize)
        requires
            protect != 0,
        ensures
            final(self).value() == protect,
    {
        self.protected = protect;
    }
}

} // verus!
