use pg_shmem::{
    pg_shmem_init, HandleState, Host, HookSlot, PgAtomic, PgLwLock, ShmemError, StartupHooks,
};

#[test]
fn an_empty_slot_runs_nothing() {
    let slot = HookSlot::new();
    assert_eq!(slot.invoke(), Vec::<u64>::new());
}

#[test]
fn earlier_callbacks_run_first() {
    let mut slot = HookSlot::new();
    slot.install(7);
    assert_eq!(slot.invoke(), vec![7]);
    slot.install(3);
    slot.install(9);
    assert_eq!(slot.invoke(), vec![7, 3, 9]);
    let head = slot.current.as_ref().unwrap();
    assert_eq!(head.owner, 9);
    assert_eq!(head.saved.as_ref().unwrap().owner, 3);
}

#[test]
fn a_split_host_gets_both_callbacks() {
    let mut hooks = StartupHooks::new(true);
    assert!(!hooks.install_hooks(1));
    assert!(!hooks.install_hooks(2));
    assert_eq!(hooks.request.as_ref().unwrap().invoke(), vec![1, 2]);
    assert_eq!(hooks.startup.invoke(), vec![1, 2]);
}

#[test]
fn a_combined_host_gets_the_attach_callback_only() {
    let mut hooks = StartupHooks::new(false);
    assert!(hooks.install_hooks(1));
    assert!(hooks.install_hooks(2));
    assert!(hooks.request.is_none());
    assert_eq!(hooks.startup.invoke(), vec![1, 2]);
}

#[test]
fn registration_on_a_split_host_asks_nothing_yet() {
    let mut hooks = StartupHooks::new(true);
    let mut host = Host::new();
    let mut lock = PgLwLock::new(b"counter".to_vec(), vec![0u8; 4]);
    assert_eq!(pg_shmem_init(&mut hooks, &mut host, 1, &mut lock), Ok(()));
    assert_eq!(lock.state, HandleState::Declared);
    assert_eq!(host.requested_bytes, 0);
    assert_eq!(hooks.request.as_ref().unwrap().invoke(), vec![1]);
    assert_eq!(hooks.startup.invoke(), vec![1]);
}

#[test]
fn registration_on_a_combined_host_requests_at_once() {
    let mut hooks = StartupHooks::new(false);
    let mut host = Host::new();
    let mut lock = PgLwLock::new(b"counter".to_vec(), vec![0u8; 4]);
    let mut flag = PgAtomic::new(vec![0u8]);
    assert_eq!(pg_shmem_init(&mut hooks, &mut host, 1, &mut lock), Ok(()));
    assert_eq!(pg_shmem_init(&mut hooks, &mut host, 2, &mut flag), Ok(()));
    assert_eq!(lock.state, HandleState::Requested);
    assert_eq!(flag.state, HandleState::Requested);
    assert_eq!(host.requested_bytes, 5);
    assert_eq!(
        pg_shmem_init(&mut hooks, &mut host, 1, &mut lock),
        Err(ShmemError::DuplicateName)
    );
    assert_eq!(hooks.startup.invoke(), vec![1, 2, 1]);
}
