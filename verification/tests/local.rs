use hazptr::config::{Config, ConfigBuilder, CountStrategy};
use hazptr::global::Global;
use hazptr::hazard::{ProtectStrategy, ProtectedPtr, ProtectedResult, FREE, THREAD_RESERVED};
use hazptr::local::inner::{LocalInner, RecycleError, HAZARD_CACHE};
use hazptr::local::RecycleError as LocalRecycleError;
use hazptr::strategy::{GlobalRetireState, RetiredPtr};
use hazptr::{Hp, LocalRetire};
use hazptr::guard::{Guard, MarkedPtr};

#[test]
fn acquire_local() {
    let mut hp: Hp<LocalRetire> = Hp::default();
    let mut local = hp.build_local(None);
    let protect = ProtectedPtr::new(0x1000);

    let hazards: Vec<usize> = (0..HAZARD_CACHE)
        .map(|_| local.get_hazard(&mut hp.state, ProtectStrategy::Protect(protect)))
        .collect();
    for &hazard in &hazards {
        local.try_recycle_hazard(&mut hp.state, hazard).unwrap();
    }
    // the local hazard cache is full
    assert_eq!(0, local.ops_count_value());
    assert_eq!(HAZARD_CACHE, local.cached_hazards_count());

    // takes all hazards out of the local cache and then acquires a new one
    let hazards: Vec<usize> = (0..HAZARD_CACHE)
        .map(|_| local.get_hazard(&mut hp.state, ProtectStrategy::Protect(protect)))
        .collect();
    let extra = local.get_hazard(&mut hp.state, ProtectStrategy::Protect(protect));
    assert_eq!(0, local.ops_count_value());
    assert_eq!(0, local.cached_hazards_count());
    assert_eq!(extra, HAZARD_CACHE);

    for &hazard in &hazards {
        local.try_recycle_hazard(&mut hp.state, hazard).unwrap();
    }
    assert_eq!(local.try_recycle_hazard(&mut hp.state, extra), Err(RecycleError));
}

#[test]
fn cached_hazard_is_reused_and_reserved() {
    let mut global = Global::new(GlobalRetireState::local_strategy());
    let mut local = LocalInner::new(Config::default(), &mut global);
    let first = local.get_hazard(&mut global, ProtectStrategy::ReserveOnly);
    assert_eq!(global.hazard(first).load(), THREAD_RESERVED);
    global.set_protected(first, 0x40);
    local.try_recycle_hazard(&mut global, first).unwrap();
    assert_eq!(global.hazard(first).protected(), ProtectedResult::Unprotected);
    let again = local.get_hazard(&mut global, ProtectStrategy::Protect(ProtectedPtr::new(0x50)));
    assert_eq!(again, first);
    assert_eq!(global.hazard(again).protected().protected().unwrap().address(), 0x50);
}

#[test]
fn retire() {
    let threshold = Config::default().ops_count_threshold;
    let mut hp: Hp<LocalRetire> = Hp::default();
    let mut local = hp.build_local(None);

    for i in 0..(threshold - 1) as usize {
        let reclaimed = local.retire_record(&mut hp.state, RetiredPtr::new(0x1000 + 16 * i, 0));
        assert!(reclaimed.is_empty());
    }
    assert_eq!(threshold - 1, local.ops_count_value());
    assert_eq!((threshold - 1) as usize, local.retired_count());

    // retiring another record triggers a scan which reclaims all records
    let reclaimed = local.retire_record(&mut hp.state, RetiredPtr::new(0x100000, 0));
    assert_eq!(0, local.ops_count_value());
    assert_eq!(0, local.retired_count());
    assert_eq!(threshold as usize, reclaimed.len());
}

#[test]
fn drop() {
    let below_threshold = Config::default().ops_count_threshold / 2;
    let mut hp: Hp<LocalRetire> = Hp::default();
    let local = {
        let mut local = hp.build_local(None);
        for i in 0..below_threshold as usize {
            let reclaimed = local.retire_record(&mut hp.state, RetiredPtr::new(0x1000 + 16 * i, 0));
            assert!(reclaimed.is_empty());
        }
        local
    };
    // all retired records are reclaimed when the thread exits
    let reclaimed = local.on_thread_exit(&mut hp.state);
    assert_eq!(below_threshold as usize, reclaimed.len());
}

#[test]
fn exit_abandons_protected_records_to_next_thread() {
    let config = ConfigBuilder::new().set_ops_count_threshold(1000).build();
    let mut hp = Hp::local_retire(config);
    let mut reader = hp.build_local(None);
    let hazard = reader.get_hazard(&mut hp.state, ProtectStrategy::Protect(ProtectedPtr::new(0x20)));

    let mut writer = hp.build_local(None);
    assert!(writer.retire_record(&mut hp.state, RetiredPtr::new(0x10, 0)).is_empty());
    assert!(writer.retire_record(&mut hp.state, RetiredPtr::new(0x20, 0)).is_empty());
    let reclaimed = writer.on_thread_exit(&mut hp.state);
    assert_eq!(reclaimed.len(), 1);
    assert_eq!(reclaimed[0].address(), 0x10);

    // the protected record was abandoned and is adopted by the next thread
    let adopter = hp.build_local(None);
    assert_eq!(adopter.retired_count(), 1);

    // once unprotected, the adopted record is reclaimed on the adopter's exit
    hp.state.set_thread_reserved(hazard);
    let reclaimed = adopter.on_thread_exit(&mut hp.state);
    assert_eq!(reclaimed.len(), 1);
    assert_eq!(reclaimed[0].address(), 0x20);
    reader.try_recycle_hazard(&mut hp.state, hazard).unwrap();
    let _ = reader.on_thread_exit(&mut hp.state);
    assert_eq!(hp.state.hazard(hazard).load(), FREE);
}

#[test]
fn global_strategy_reclaims_records_of_other_threads() {
    let config = ConfigBuilder::new().set_ops_count_threshold(2).build();
    let mut hp = Hp::global_retire(config);
    let mut a = hp.build_local(None);
    let mut b = hp.build_local(None);
    assert!(a.retire_record(&mut hp.state, RetiredPtr::new(0x10, 0)).is_empty());
    assert!(b.retire_record(&mut hp.state, RetiredPtr::new(0x20, 0)).is_empty());
    // the second retirement by `b` reaches its threshold and reclaims all
    let reclaimed = b.retire_record(&mut hp.state, RetiredPtr::new(0x30, 0));
    assert_eq!(reclaimed.len(), 3);
    assert_eq!(a.retired_count(), 0);
}

#[test]
fn release_strategy_counts_only_releases() {
    let config = ConfigBuilder::new()
        .set_ops_count_threshold(2)
        .set_count_strategy(CountStrategy::Release)
        .build();
    let mut hp = Hp::local_retire(config);
    let mut local = hp.build_local(None);
    for i in 0..5 {
        assert!(local.retire_record(&mut hp.state, RetiredPtr::new(0x10 * (i + 1), 0)).is_empty());
    }
    assert_eq!(local.ops_count_value(), 0);
    assert!(local.increase_ops_count_if_count_release(&mut hp.state).is_empty());
    assert_eq!(local.ops_count_value(), 1);
    let reclaimed = local.increase_ops_count_if_count_release(&mut hp.state);
    assert_eq!(reclaimed.len(), 5);
    assert_eq!(local.ops_count_value(), 0);
}

#[test]
fn recycle_error_messages() {
    assert_eq!(
        LocalRecycleError::Access.message(),
        "failed to access already destroyed thread local storage"
    );
    assert_eq!(
        LocalRecycleError::Capacity.message(),
        "thread local cache for hazard pointer already full"
    );
}

#[test]
fn integration_abandon_on_panic() {
    let config = ConfigBuilder::new()
        .set_ops_count_threshold(1)
        .set_count_strategy(CountStrategy::Release)
        .build();
    let mut hp = Hp::local_retire(config);
    let records = [0x1000usize, 0x2000, 0x3000];

    // thread 1 protects the first two records
    let mut t1 = hp.build_local(None);
    let mut guard1 = Guard::with_handle(&mut t1, &mut hp.state);
    let mut guard2 = Guard::with_handle(&mut t1, &mut hp.state);
    let _ = guard1.protect_start(&mut t1, &mut hp.state, MarkedPtr { addr: records[0], tag: 0 });
    let _ = guard2.protect_start(&mut t1, &mut hp.state, MarkedPtr { addr: records[1], tag: 0 });

    // thread 2 retires all three records and exits
    let mut t2 = hp.build_local(None);
    for &addr in &records {
        assert!(t2.retire_record(&mut hp.state, RetiredPtr::new(addr, 0)).is_empty());
    }
    let reclaimed = t2.on_thread_exit(&mut hp.state);
    // thread 1 still protects two records, so only one is reclaimed
    assert_eq!(reclaimed.len(), 1);
    assert_eq!(reclaimed[0].address(), records[2]);

    // thread 1, which retired nothing itself, adopts and reclaims the others
    let first = guard1.dispose(&mut t1, &mut hp.state);
    let second = guard2.dispose(&mut t1, &mut hp.state);
    assert_eq!(first.len() + second.len(), 2);
    assert_eq!(first[0].address(), records[0]);
    assert_eq!(second[0].address(), records[1]);
}
