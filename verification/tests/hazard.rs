use hazptr::hazard::list::{HazardList, ELEMENTS};
use hazptr::hazard::{HazardPtr, ProtectedPtr, ProtectedResult, FREE, NOT_YET_USED};

const ADDR: usize = 0x1000;

#[test]
fn hazard_ptr() {
    let mut hazard = HazardPtr::new();
    assert_eq!(hazard.protected(), ProtectedResult::AbortIteration);
    hazard.set_protected(ADDR);
    assert!(hazard.protected().protected().is_some());
    hazard.set_thread_reserved();
    assert_eq!(hazard.protected(), ProtectedResult::Unprotected);
    hazard.set_free();
    assert_eq!(hazard.protected(), ProtectedResult::Unprotected);
}

#[test]
fn hazard_ptr_reads_back_protected_address() {
    let mut hazard = HazardPtr::with_protected(ADDR);
    assert_eq!(hazard.protected().protected().unwrap().address(), ADDR);
    hazard.set_free();
    assert_eq!(hazard.load(), FREE);
    let fresh = HazardPtr::new();
    assert_eq!(fresh.load(), NOT_YET_USED);
}

#[test]
fn protected_ptr_compare_with() {
    let p = ProtectedPtr::new(ADDR);
    assert_eq!(p.compare_with(ADDR), std::cmp::Ordering::Equal);
    assert_eq!(p.compare_with(ADDR + 1), std::cmp::Ordering::Less);
    assert_eq!(p.compare_with(ADDR - 1), std::cmp::Ordering::Greater);
    assert_eq!(p.into_inner(), ADDR);
}

#[test]
fn list_new() {
    let list = HazardList::new();
    assert!(list.iter().next().is_none());
}

#[test]
fn list_insert_one() {
    let mut list = HazardList::new();
    let hazard = list.get_or_insert_reserved_hazard();
    let mut iter = list.iter();
    assert!(std::ptr::eq(list.hazard(hazard), iter.next().unwrap()));
}

#[test]
fn list_insert_full_node() {
    let mut list = HazardList::new();
    for _ in 0..ELEMENTS {
        let _ = list.get_or_insert_reserved_hazard();
    }
    let mut iter = list.iter();
    let mut count = 0;
    while iter.next().is_some() {
        count += 1;
    }
    assert_eq!(count, ELEMENTS);
}

#[test]
fn list_insert_reserved_full_node_plus_one() {
    let mut list = HazardList::new();
    for _ in 0..ELEMENTS + 1 {
        let _ = list.get_or_insert_reserved_hazard();
    }
    let mut hazards = Vec::new();
    let mut iter = list.iter();
    while let Some(hazard) = iter.next() {
        hazards.push(hazard);
    }
    assert_eq!(hazards.len(), 2 * ELEMENTS);
    assert_eq!(
        hazards
            .iter()
            .take_while(|hazard| hazard.protected() == ProtectedResult::Unprotected)
            .count(),
        ELEMENTS + 1
    );
}

#[test]
fn list_insert_protected_full_node_plus_one() {
    let mut list = HazardList::new();
    for _ in 0..ELEMENTS + 1 {
        let _ = list.get_or_insert_hazard(ADDR);
    }
    let mut hazards = Vec::new();
    let mut iter = list.iter();
    while let Some(hazard) = iter.next() {
        if hazard.protected().protected().is_none() {
            break;
        }
        hazards.push(hazard);
    }
    assert_eq!(hazards.len(), ELEMENTS + 1);
}

#[test]
fn reuse_hazard_from_list() {
    let mut list = HazardList::new();
    for _ in 0..ELEMENTS + (ELEMENTS / 2) {
        let _ = list.get_or_insert_reserved_hazard();
    }
    let inner_hazard = ELEMENTS - 2;
    list.set_free(inner_hazard);
    let acquired_hazard = list.get_or_insert_reserved_hazard();
    assert_eq!(inner_hazard, acquired_hazard);
}

#[test]
fn release_on_panic() {}
