use hazptr::retired::{AbandonedBags, Retired, RetiredBag, DEFAULT_CAPACITY};

#[test]
fn abandoned_bags() {
    let mut bag1 = RetiredBag::new();
    bag1.inner.push(Retired::new_unchecked(0x10));
    bag1.inner.push(Retired::new_unchecked(0x20));
    bag1.inner.push(Retired::new_unchecked(0x30));

    let mut bag2 = RetiredBag::new();
    bag2.inner.push(Retired::new_unchecked(0x40));
    bag2.inner.push(Retired::new_unchecked(0x50));

    let mut bag3 = RetiredBag::new();
    bag3.inner.push(Retired::new_unchecked(0x60));
    bag3.inner.push(Retired::new_unchecked(0x70));

    let mut abandoned = AbandonedBags::new();
    abandoned.push(bag1);
    abandoned.push(bag2);
    abandoned.push(bag3);

    let merged = abandoned.take_and_merge().unwrap();
    assert_eq!(merged.inner.len(), 7);
    assert_eq!(DEFAULT_CAPACITY, merged.inner.capacity());
    let mut addresses: Vec<usize> = merged.inner.iter().map(|r| r.address()).collect();
    addresses.sort();
    assert_eq!(addresses, vec![0x10, 0x20, 0x30, 0x40, 0x50, 0x60, 0x70]);
    assert!(abandoned.take_and_merge().is_none());
}

#[test]
fn take_and_merge_of_nothing_is_none() {
    let mut abandoned = AbandonedBags::new();
    assert!(abandoned.take_and_merge().is_none());
}

#[test]
fn merge_swaps_when_other_has_more_room() {
    let mut small = RetiredBag { inner: Vec::with_capacity(1) };
    small.inner.push(Retired::new_unchecked(1));
    let mut large = Vec::with_capacity(64);
    large.push(Retired::new_unchecked(2));
    small.merge(large);
    let addresses: Vec<usize> = small.inner.iter().map(|r| r.address()).collect();
    assert_eq!(addresses, vec![2, 1]);
    assert!(small.inner.capacity() >= 64);
}
