use hazptr::strategy::local_retire::RetireNode;
use hazptr::strategy::global_retire::RetiredQueue;
use hazptr::strategy::RetiredPtr;
use hazptr::v2::config::{Config, ConfigBuilder, Operation};
use hazptr::v2::hazard::{Hazard, FREE, THREAD_RESERVED};
use hazptr::v2::retire::{GlobalRetire, LocalRetire};
use hazptr::v2::RawQueue;

#[test]
fn v2_config_defaults_and_builder() {
    let config = Config::default();
    assert_eq!(config.initial_scan_cache_size, 128);
    assert_eq!(config.max_reserved_hazard_pointers, 16);
    assert_eq!(config.ops_count_threshold, 128);
    assert!(config.is_count_retire());
    assert!(!config.is_count_release());
    assert_eq!(Operation::default(), Operation::Retire);
    let built = ConfigBuilder::new().initial_scan_cache_size(4).build();
    assert_eq!(built.initial_scan_cache_size, 4);
    assert_eq!(built.max_reserved_hazard_pointers, 16);
    assert_eq!(ConfigBuilder::new().build(), Config::default());
}

#[test]
fn v2_hazard_states() {
    let mut hazard = Hazard::new();
    assert_eq!(hazard.protected(), None);
    hazard.set_protected(0x100);
    let protected = hazard.protected().unwrap();
    assert_eq!(protected.address(), 0x100);
    assert_eq!(protected.as_const_ptr(), 0x100);
    assert_eq!(protected.into_inner(), 0x100);
    hazard.set_thread_reserved();
    assert_eq!(hazard.protected(), None);
    hazard.set_free();
    assert_eq!(hazard.protected(), None);
    let h = Hazard::with_protected(0x200);
    assert_eq!(h.protected().unwrap().address(), 0x200);
    assert_eq!((FREE, THREAD_RESERVED), (0, 1));
}

#[test]
fn v2_global_retire() {
    let mut queue = RetiredQueue::new();
    let mut strategy = GlobalRetire::new(&queue);
    assert!(strategy.no_retired_records(&queue));
    strategy.retire(&mut queue, RetiredPtr::new(0x10, 0));
    strategy.retire(&mut queue, RetiredPtr::new(0x20, 0));
    assert!(!strategy.no_retired_records(&queue));
    let reclaimed = strategy.reclaim_all_unprotected(&mut queue, &[0x20]);
    assert_eq!(reclaimed.len(), 1);
    assert_eq!(reclaimed[0].address(), 0x10);
}

#[test]
fn v2_local_retire_adopts_on_reclaim() {
    let mut strategy = LocalRetire::default();
    let mut exiting = strategy.build_local();
    strategy.retire(&mut exiting, RetiredPtr::new(0x10, 0));
    strategy.on_thread_exit(exiting);

    let mut local: RetireNode = strategy.build_local();
    assert!(!strategy.has_retired_records(&local));
    strategy.retire(&mut local, RetiredPtr::new(0x20, 0));
    let other = {
        let mut n = RetireNode::default();
        n.retire_record(RetiredPtr::new(0x30, 0));
        n
    };
    strategy.on_thread_exit(other);
    let reclaimed = strategy.reclaim_all_unprotected(&mut local, &[0x30]);
    let mut addresses: Vec<usize> = reclaimed.iter().map(|r| r.address()).collect();
    addresses.sort();
    assert_eq!(addresses, vec![0x10, 0x20]);
    assert_eq!(local.len(), 1);
    let empty = strategy.build_local();
    assert!(strategy.has_retired_records(&empty));
}

#[test]
fn v2_raw_queue() {
    let mut queue = RawQueue::new();
    queue.push(1u8);
    queue.push_many(vec![2, 3]);
    assert_eq!(queue.take_all(), vec![2, 3, 1]);
}
