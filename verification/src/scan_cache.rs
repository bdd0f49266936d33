//! The scan cache: a sorted collection of the addresses currently protected
//! by hazard pointers, searched for every retired record during reclamation.

use vstd::prelude::*;

verus! {

/// The addresses are in ascending order.
pub open spec fn sorted(s: Seq<usize>) -> bool {
    forall|i: int, j: int| 0 <= i <= j < s.len() ==> s[i] <= s[j]
}

/// Sorts the addresses in ascending order.
///
/// Calls `<[usize]>::sort_unstable`, whose documentation states that it sorts
/// the slice in ascending order; the result is a permutation of the input.
#[verifier::external_body]
pub(crate) fn sort_addresses(addresses: &mut Vec<usize>)
    ensures
        sorted(final(addresses)@),
        final(addresses)@.to_multiset() == old(addresses)@.to_multiset(),
{
    addresses.sort_unstable();
}

/// Returns whether the sorted `addresses` contain `addr`.
///
/// Calls `<[usize]>::binary_search`, whose documentation states that on a
/// sorted slice it returns `Ok` if the value is found and `Err` otherwise.
#[verifier::external_body]
pub(crate) fn contains_address(addresses: &[usize], addr: usize) -> (found: bool)
    requires
        sorted(addresses@),
    ensures
        found == addresses@.contains(addr),
{
    addresses.binary_search(&addr).is_ok()
}

} // verus!
