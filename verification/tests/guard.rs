use hazptr::config::{ConfigBuilder, CountStrategy};
use hazptr::guard::{Guard, IfEqualAction, MarkedPtr, ProtectAction};
use hazptr::hazard::{ProtectedResult, FREE, THREAD_RESERVED};
use hazptr::strategy::RetiredPtr;
use hazptr::Hp;

fn ptr(addr: usize) -> MarkedPtr {
    MarkedPtr { addr, tag: 0 }
}

#[test]
fn guard_starts_reserved() {
    let mut hp = Hp::local_retire(ConfigBuilder::new().build());
    let mut local = hp.build_local(None);
    let guard = Guard::with_handle(&mut local, &mut hp.state);
    assert_eq!(guard.protected(&hp.state), ProtectedResult::Unprotected);
    assert_eq!(hp.state.hazard(guard.hazard_index()).load(), THREAD_RESERVED);
}

#[test]
fn protect_loop_until_stable() {
    let mut hp = Hp::local_retire(ConfigBuilder::new().build());
    let mut local = hp.build_local(None);
    let mut guard = Guard::with_handle(&mut local, &mut hp.state);

    let (action, _) = guard.protect_start(&mut local, &mut hp.state, ptr(0x100));
    assert_eq!(action, ProtectAction::Reload(0x100));
    // the pointer changed in between: protect the new one
    let (action, _) = guard.protect_check(&mut local, &mut hp.state, 0x100, ptr(0x200));
    assert_eq!(action, ProtectAction::Reload(0x200));
    let (action, _) = guard.protect_check(&mut local, &mut hp.state, 0x200, ptr(0x200));
    assert_eq!(action, ProtectAction::Protected(ptr(0x200)));
    assert_eq!(guard.protected(&hp.state).protected().unwrap().address(), 0x200);

    // a null pointer releases the hazard pointer
    let (action, _) = guard.protect_check(&mut local, &mut hp.state, 0x200, ptr(0));
    assert_eq!(action, ProtectAction::Null(ptr(0)));
    assert_eq!(guard.protected(&hp.state), ProtectedResult::Unprotected);
}

#[test]
fn protect_null_releases() {
    let mut hp = Hp::local_retire(ConfigBuilder::new().build());
    let mut local = hp.build_local(None);
    let mut guard = Guard::with_handle(&mut local, &mut hp.state);
    let null = MarkedPtr { addr: 0, tag: 1 };
    let (action, reclaimed) = guard.protect_start(&mut local, &mut hp.state, null);
    assert_eq!(action, ProtectAction::Null(null));
    assert!(reclaimed.is_empty());
    assert_eq!(guard.protected(&hp.state), ProtectedResult::Unprotected);
}

#[test]
fn protect_if_equal_steps() {
    let mut hp = Hp::local_retire(ConfigBuilder::new().build());
    let mut local = hp.build_local(None);
    let mut guard = Guard::with_handle(&mut local, &mut hp.state);

    let (action, _) = guard.protect_if_equal_start(&mut local, &mut hp.state, ptr(0), ptr(0));
    assert_eq!(action, IfEqualAction::Null(ptr(0)));
    assert_eq!(guard.protected(&hp.state), ProtectedResult::Unprotected);

    let (action, _) = guard.protect_if_equal_start(&mut local, &mut hp.state, ptr(0x100), ptr(0));
    assert_eq!(action, IfEqualAction::NotEqual);
    assert_eq!(guard.protected(&hp.state), ProtectedResult::Unprotected);

    let (action, _) =
        guard.protect_if_equal_start(&mut local, &mut hp.state, ptr(0x100), ptr(0x100));
    assert_eq!(action, IfEqualAction::Reload(ptr(0x100), THREAD_RESERVED));
    assert!(guard.protect_if_equal_check(&mut hp.state, ptr(0x100), THREAD_RESERVED, ptr(0x100)));
    assert_eq!(guard.protected(&hp.state).protected().unwrap().address(), 0x100);

    // a failed check restores what the hazard pointer protected before
    let (action, _) =
        guard.protect_if_equal_start(&mut local, &mut hp.state, ptr(0x200), ptr(0x200));
    assert_eq!(action, IfEqualAction::Reload(ptr(0x200), 0x100));
    assert!(!guard.protect_if_equal_check(&mut hp.state, ptr(0x200), 0x100, ptr(0x300)));
    assert_eq!(guard.protected(&hp.state).protected().unwrap().address(), 0x100);
}

#[test]
fn clone_protects_the_same_address() {
    let mut hp = Hp::local_retire(ConfigBuilder::new().build());
    let mut local = hp.build_local(None);
    let mut guard = Guard::with_handle(&mut local, &mut hp.state);
    let _ = guard.protect_start(&mut local, &mut hp.state, ptr(0x100));
    let copy = guard.clone(&mut local, &mut hp.state);
    assert_ne!(copy.hazard_index(), guard.hazard_index());
    assert_eq!(copy.protected(&hp.state).protected().unwrap().address(), 0x100);

    let mut other = Guard::with_handle(&mut local, &mut hp.state);
    other.clone_from(&guard, &mut hp.state);
    assert_eq!(other.protected(&hp.state).protected().unwrap().address(), 0x100);
}

#[test]
fn dispose_recycles_then_frees() {
    let mut hp = Hp::local_retire(ConfigBuilder::new().build());
    let mut local = hp.build_local(None);
    let mut guards = Vec::new();
    for _ in 0..17 {
        guards.push(Guard::with_handle(&mut local, &mut hp.state));
    }
    let indices: Vec<usize> = guards.iter().map(|g| g.hazard_index()).collect();
    for guard in guards {
        let _ = guard.dispose(&mut local, &mut hp.state);
    }
    assert_eq!(local.cached_hazards_count(), 16);
    for &idx in &indices[..16] {
        assert_eq!(hp.state.hazard(idx).load(), THREAD_RESERVED);
    }
    assert_eq!(hp.state.hazard(indices[16]).load(), FREE);
}

#[test]
fn protected_record_survives_reclamation() {
    let config = ConfigBuilder::new().set_ops_count_threshold(1).build();
    let mut hp = Hp::local_retire(config);
    let mut local = hp.build_local(None);
    let mut guard = Guard::with_handle(&mut local, &mut hp.state);
    let _ = guard.protect_start(&mut local, &mut hp.state, ptr(0x1000));
    let (action, _) = guard.protect_check(&mut local, &mut hp.state, 0x1000, ptr(0x1000));
    assert_eq!(action, ProtectAction::Protected(ptr(0x1000)));

    let reclaimed = local.retire_record(&mut hp.state, RetiredPtr::new(0x1000, 0));
    assert!(reclaimed.is_empty());

    let _ = guard.release(&mut local, &mut hp.state);
    let reclaimed = local.retire_record(&mut hp.state, RetiredPtr::new(0x2000, 0));
    let mut addresses: Vec<usize> = reclaimed.iter().map(|r| r.address()).collect();
    addresses.sort();
    assert_eq!(addresses, vec![0x1000, 0x2000]);
}

#[test]
fn release_counts_with_release_strategy() {
    let config = ConfigBuilder::new()
        .set_ops_count_threshold(2)
        .set_count_strategy(CountStrategy::Release)
        .build();
    let mut hp = Hp::local_retire(config);
    let mut local = hp.build_local(None);
    let mut guard = Guard::with_handle(&mut local, &mut hp.state);
    let _ = local.retire_record(&mut hp.state, RetiredPtr::new(0x10, 0));
    assert!(guard.release(&mut local, &mut hp.state).is_empty());
    assert_eq!(local.ops_count_value(), 1);
    let reclaimed = guard.release(&mut local, &mut hp.state);
    assert_eq!(reclaimed.len(), 1);
    assert_eq!(local.ops_count_value(), 0);
}

#[test]
fn guarded_new() {
    let mut hp = Hp::global_retire(ConfigBuilder::new().build());
    let mut local = hp.build_local(None);
    let guard = Guard::with_handle(&mut local, &mut hp.state);
    assert!(guard.protected(&hp.state).protected().is_none());
}

#[test]
fn empty_guarded() {
    let mut hp = Hp::global_retire(ConfigBuilder::new().build());
    let mut local = hp.build_local(None);
    let guard = Guard::with_handle(&mut local, &mut hp.state);
    assert!(guard.protected(&hp.state).protected().is_none());
}

#[test]
fn protect() {
    let mut hp = Hp::global_retire(ConfigBuilder::new().build());
    let mut local = hp.build_local(None);
    let mut guard = Guard::with_handle(&mut local, &mut hp.state);

    let null = ptr(0);
    let (action, _) = guard.protect_start(&mut local, &mut hp.state, null);
    assert_eq!(action, ProtectAction::Null(ptr(0)));
    assert!(guard.protected(&hp.state).protected().is_none());

    let addr: usize = 0x1000;
    let (action, _) = guard.protect_start(&mut local, &mut hp.state, ptr(addr));
    assert_eq!(action, ProtectAction::Reload(addr));
    let (action, _) = guard.protect_check(&mut local, &mut hp.state, addr, ptr(addr));
    assert_eq!(action, ProtectAction::Protected(ptr(addr)));
    assert_eq!(guard.protected(&hp.state).protected().unwrap().address(), addr);

    let _ = guard.protect_start(&mut local, &mut hp.state, null);
    assert!(guard.protected(&hp.state).protected().is_none());
}

#[test]
fn protect_if_equal() {
    let mut hp = Hp::global_retire(ConfigBuilder::new().build());
    let mut local = hp.build_local(None);
    let mut guard = Guard::with_handle(&mut local, &mut hp.state);

    let null_ptr = ptr(0);

    let (action, _) = guard.protect_if_equal_start(&mut local, &mut hp.state, null_ptr, null_ptr);
    assert_eq!(action, IfEqualAction::Null(ptr(0)));
    assert!(guard.protected(&hp.state).protected().is_none());

    let marked = ptr(0x1000);

    let (action, _) = guard.protect_if_equal_start(&mut local, &mut hp.state, marked, null_ptr);
    assert_eq!(action, IfEqualAction::NotEqual);
    assert!(guard.protected(&hp.state).protected().is_none());

    let (action, _) = guard.protect_if_equal_start(&mut local, &mut hp.state, marked, marked);
    assert_eq!(action, IfEqualAction::Reload(marked, THREAD_RESERVED));
    assert!(guard.protect_if_equal_check(&mut hp.state, marked, THREAD_RESERVED, marked));
    assert_eq!(guard.protected(&hp.state).protected().unwrap().address(), marked.addr);

    // a failed protection attempt must not alter the previous state
    let (action, _) = guard.protect_if_equal_start(&mut local, &mut hp.state, null_ptr, marked);
    assert_eq!(action, IfEqualAction::NotEqual);
    assert_eq!(guard.protected(&hp.state).protected().unwrap().address(), marked.addr);

    let (action, _) = guard.protect_if_equal_start(&mut local, &mut hp.state, null_ptr, null_ptr);
    assert_eq!(action, IfEqualAction::Null(ptr(0)));
    assert!(guard.protected(&hp.state).protected().is_none());
}

#[test]
fn acquire_null() {
    let mut hp = Hp::global_retire(ConfigBuilder::new().build());
    let mut local = hp.build_local(None);
    let mut guard = Guard::with_handle(&mut local, &mut hp.state);

    let (action, _) = guard.protect_start(&mut local, &mut hp.state, ptr(0));
    assert!(matches!(action, ProtectAction::Null(_)));
    assert!(guard.protected(&hp.state).protected().is_none());

    let addr: usize = 0x1000;
    let _ = guard.protect_start(&mut local, &mut hp.state, ptr(addr));
    let (action, _) = guard.protect_check(&mut local, &mut hp.state, addr, ptr(addr));
    assert!(matches!(action, ProtectAction::Protected(_)));
    assert!(guard.protected(&hp.state).protected().is_some());
    let _ = guard.release(&mut local, &mut hp.state);

    assert!(guard.protected(&hp.state).protected().is_none());
    assert_eq!(local.cached_hazards_count(), 0);
    let _ = guard.dispose(&mut local, &mut hp.state);
    assert_eq!(local.cached_hazards_count(), 1);
}

#[test]
fn acquire_if_equal() {
    let mut hp = Hp::global_retire(ConfigBuilder::new().build());
    let mut local = hp.build_local(None);
    let mut guard = Guard::with_handle(&mut local, &mut hp.state);

    let (action, _) = guard.protect_if_equal_start(&mut local, &mut hp.state, ptr(0), ptr(0));
    assert_eq!(action, IfEqualAction::Null(ptr(0)));
    assert!(guard.protected(&hp.state).protected().is_none());

    let marked = ptr(0x1000);
    let (action, _) = guard.protect_if_equal_start(&mut local, &mut hp.state, marked, ptr(0));
    assert_eq!(action, IfEqualAction::NotEqual);
    assert!(guard.protected(&hp.state).protected().is_none());

    let (action, _) = guard.protect_if_equal_start(&mut local, &mut hp.state, marked, marked);
    assert_eq!(action, IfEqualAction::Reload(marked, THREAD_RESERVED));
    assert!(guard.protect_if_equal_check(&mut hp.state, marked, THREAD_RESERVED, marked));
    assert_eq!(guard.protected(&hp.state).protected().unwrap().address(), marked.addr);
}
