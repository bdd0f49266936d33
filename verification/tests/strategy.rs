use hazptr::global::Global;
use hazptr::hazard::{ProtectStrategy, ProtectedPtr};
use hazptr::strategy::global_retire::RetiredQueue;
use hazptr::strategy::local_retire::{AbandonedQueue, RetireNode, DEFAULT_INITIAL_CAPACITY};
use hazptr::strategy::{split_unprotected, GlobalRetireState, LocalRetireState, RetiredPtr};

fn addresses(records: &[RetiredPtr]) -> Vec<usize> {
    records.iter().map(|r| r.address()).collect()
}

#[test]
fn retired_ptr_data_address() {
    let r = RetiredPtr::new(0x100, 0x10);
    assert_eq!(r.address(), 0x110);
    assert_eq!(r.record_address(), 0x100);
    assert_eq!(r.offset_data(), 0x10);
}

#[test]
fn split_keeps_protected_in_order() {
    let records = vec![
        RetiredPtr::new(0x10, 0),
        RetiredPtr::new(0x20, 0),
        RetiredPtr::new(0x30, 0),
        RetiredPtr::new(0x40, 0),
    ];
    let (kept, reclaimed) = split_unprotected(records, &[0x20, 0x40]);
    assert_eq!(addresses(&kept), vec![0x20, 0x40]);
    assert_eq!(addresses(&reclaimed), vec![0x10, 0x30]);
}

#[test]
fn retired_queue_reclaims_unprotected_and_keeps_order() {
    let mut queue = RetiredQueue::new();
    assert!(queue.is_empty());
    queue.retire_record(RetiredPtr::new(0x10, 0));
    queue.retire_record(RetiredPtr::new(0x20, 0));
    queue.retire_record(RetiredPtr::new(0x30, 0));
    let reclaimed = queue.reclaim_all_unprotected(&[0x10, 0x30]);
    assert_eq!(addresses(&reclaimed), vec![0x20]);
    assert!(!queue.is_empty());
    let rest = queue.reclaim_all_unprotected(&[]);
    assert_eq!(addresses(&rest), vec![0x30, 0x10]);
    assert!(queue.is_empty());
}

#[test]
fn retire_node_reclaims_unprotected() {
    let mut node = RetireNode::default();
    assert!(node.is_empty());
    node.retire_record(RetiredPtr::new(0x10, 8));
    node.retire_record(RetiredPtr::new(0x20, 8));
    let reclaimed = node.reclaim_all_unprotected(&[0x18]);
    assert_eq!(addresses(&reclaimed), vec![0x28]);
    assert_eq!(addresses(&node.into_inner()), vec![0x18]);
}

#[test]
fn retire_node_merge_appends() {
    let mut node = RetireNode::default();
    node.retire_record(RetiredPtr::new(0x10, 0));
    node.merge(vec![RetiredPtr::new(0x20, 0)]);
    assert_eq!(addresses(&node.into_inner()), vec![0x10, 0x20]);
    assert_eq!(DEFAULT_INITIAL_CAPACITY, 128);
}

#[test]
fn abandoned_queue_merges_all_nodes() {
    let mut queue = AbandonedQueue::new();
    assert!(queue.take_all_and_merge().is_none());
    let mut a = RetireNode::default();
    a.retire_record(RetiredPtr::new(0x10, 0));
    let mut b = RetireNode::default();
    b.retire_record(RetiredPtr::new(0x20, 0));
    b.retire_record(RetiredPtr::new(0x30, 0));
    queue.push(a);
    queue.push(b);
    assert!(!queue.is_empty());
    let merged = queue.take_all_and_merge().unwrap();
    let mut all = addresses(&merged.into_inner());
    all.sort();
    assert_eq!(all, vec![0x10, 0x20, 0x30]);
    assert!(queue.is_empty());
}

#[test]
fn new_thread_adopts_abandoned_records() {
    let mut state = GlobalRetireState::local_strategy();
    if let GlobalRetireState::LocalStrategy(queue) = &mut state {
        let mut node = RetireNode::default();
        node.retire_record(RetiredPtr::new(0x10, 0));
        queue.push(node);
    }
    match LocalRetireState::from(&mut state) {
        LocalRetireState::LocalStrategy(node) => assert_eq!(node.len(), 1),
        LocalRetireState::GlobalStrategy => panic!("wrong strategy"),
    }
    match LocalRetireState::from(&mut GlobalRetireState::global_strategy()) {
        LocalRetireState::GlobalStrategy => {}
        LocalRetireState::LocalStrategy(_) => panic!("wrong strategy"),
    }
}

#[test]
fn collect_hazard_pointers_sorted_and_complete() {
    let mut global = Global::new(GlobalRetireState::global_strategy());
    let a = global.get_hazard(ProtectStrategy::Protect(ProtectedPtr::new(0x30)));
    let b = global.get_hazard(ProtectStrategy::ReserveOnly);
    let c = global.get_hazard(ProtectStrategy::Protect(ProtectedPtr::new(0x10)));
    assert_eq!((a, b, c), (0, 1, 2));
    let mut scan = vec![0xdead];
    global.collect_hazard_pointers(&mut scan);
    assert_eq!(scan, vec![0x10, 0x30]);
    global.set_free(a);
    global.collect_hazard_pointers(&mut scan);
    assert_eq!(scan, vec![0x10]);
    // the freed hazard pointer is the first one acquired again
    assert_eq!(global.get_hazard(ProtectStrategy::ReserveOnly), a);
}
