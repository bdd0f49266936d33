//! Thread-local state for reserving hazard pointers and storing retired
//! records.

pub mod inner;

use arrayvec::CapacityError;
use vstd::prelude::*;

verus! {

/// The state of a thread using hazard pointers.
pub type Local = inner::LocalInner;

/// Error of a thread-local recycle operation.
#[derive(Copy, Clone, Debug, PartialEq, Eq, Structural, PartialOrd, Ord)]
pub enum RecycleError {
    /// The thread-local storage was already destroyed.
    Access,
    /// The thread-local cache of hazard pointers is full.
    Capacity,
}

impl From<CapacityError<usize>> for RecycleError {
    fn from(err: CapacityError<usize>) -> (e: Self) {
        RecycleError::Capacity
    }
}

impl vstd::std_specs::convert::FromSpecImpl<CapacityError<usize>> for RecycleError {
    open spec fn obeys_from_spec() -> bool {
        true
    }

    open spec fn from_spec(v: CapacityError<usize>) -> Self {
        RecycleError::Capacity
    }
}

impl RecycleError {
    /// Describes the error.
    pub fn message(&self) -> (s: &'static str)
        ensures
            *self == RecycleError::Access ==> s@
                == "failed to access already destroyed thread local storage"@,
            *self == RecycleError::Capacity ==> s@
                == "thread local cache for hazard pointer already full"@,
    {
        match self {
            RecycleError::Access => "failed to access already destroyed thread local storage",
            RecycleError::Capacity => "thread local cache for hazard pointer already full",
        }
    }
}

} // verus!
