use pg_shmem::names::{generate_identifier, is_valid_name, same_name};
use pg_shmem::{
    HandleState, Host, PgAtomic, PgLwLock, PgSharedMem, PgSharedMemoryInitialization, Phase,
    ShmemError,
};

fn name(text: &str) -> Vec<u8> {
    text.as_bytes().to_vec()
}

fn counter() -> PgLwLock {
    PgLwLock::new(name("counter"), 0i32.to_ne_bytes().to_vec())
}

#[test]
fn counter_is_shared_by_two_processes() {
    let mut host = Host::new();
    let mut declared = counter();
    assert_eq!(PgSharedMem::pg_init_locked(&mut host, &mut declared), Ok(()));
    assert_eq!(host.requested_bytes, 4);
    assert_eq!(host.lock_names, vec![name("counter")]);
    assert_eq!(host.allocate(), Ok(()));

    let mut a = declared.clone();
    let mut b = declared.clone();
    assert_eq!(PgSharedMem::shmem_init_locked(&mut host, &mut a), Ok(false));
    assert_eq!(PgSharedMem::shmem_init_locked(&mut host, &mut b), Ok(true));
    assert_eq!(a.state, HandleState::Attached(0));
    assert_eq!(b.state, HandleState::Attached(0));
    assert_eq!(host.slot_names.len(), 1);
    assert_eq!(host.used_bytes, 4);

    assert_eq!(a.acquire(&mut host), Ok(()));
    assert_eq!(a.get(&host), Ok(0i32.to_ne_bytes().to_vec()));
    assert_eq!(a.release(&mut host), Ok(()));
    assert_eq!(b.acquire(&mut host), Ok(()));
    assert_eq!(b.get(&host), Ok(0i32.to_ne_bytes().to_vec()));
    assert_eq!(b.release(&mut host), Ok(()));

    assert_eq!(a.acquire(&mut host), Ok(()));
    assert_eq!(a.set(&mut host, &5i32.to_ne_bytes().to_vec()), Ok(()));
    assert_eq!(a.release(&mut host), Ok(()));

    assert_eq!(b.acquire(&mut host), Ok(()));
    assert_eq!(b.get(&host), Ok(5i32.to_ne_bytes().to_vec()));
    assert_eq!(b.release(&mut host), Ok(()));
}

#[test]
fn atomic_flag_defaults_to_false_and_flips_without_a_lock() {
    let mut host = Host::new();
    let mut flag = PgAtomic::new(vec![0u8]);
    assert_eq!(PgSharedMem::pg_init_atomic(&mut host, &mut flag), Ok(()));
    assert_eq!(host.requested_bytes, 1);
    assert!(host.lock_names.is_empty());
    assert_eq!(host.allocate(), Ok(()));
    assert_eq!(PgSharedMem::shmem_init_atomic(&mut host, &mut flag), Ok(false));
    assert_eq!(flag.state, HandleState::Attached(0));
    assert_eq!(flag.load(&host), Ok(vec![0u8]));
    assert_eq!(flag.store(&mut host, &vec![1u8]), Ok(()));
    assert_eq!(flag.load(&host), Ok(vec![1u8]));
    assert!(host.lock_held.is_empty());
}

#[test]
fn attach_overwrites_an_existing_slot_with_the_default() {
    let mut host = Host::new();
    let mut declared = counter();
    PgSharedMem::pg_init_locked(&mut host, &mut declared).unwrap();
    host.allocate().unwrap();
    let mut a = declared.clone();
    let mut b = declared.clone();
    PgSharedMem::shmem_init_locked(&mut host, &mut a).unwrap();
    a.acquire(&mut host).unwrap();
    a.set(&mut host, &7i32.to_ne_bytes().to_vec()).unwrap();
    a.release(&mut host).unwrap();
    assert_eq!(host.slot_values[0], 7i32.to_ne_bytes().to_vec());
    assert_eq!(PgSharedMem::shmem_init_locked(&mut host, &mut b), Ok(true));
    assert_eq!(host.slot_values[0], 0i32.to_ne_bytes().to_vec());
}

#[test]
fn second_request_for_a_name_is_a_duplicate() {
    let mut host = Host::new();
    let mut first = counter();
    let mut second = counter();
    assert_eq!(PgSharedMem::pg_init_locked(&mut host, &mut first), Ok(()));
    assert_eq!(
        PgSharedMem::pg_init_locked(&mut host, &mut first),
        Err(ShmemError::DuplicateName)
    );
    assert_eq!(
        PgSharedMem::pg_init_locked(&mut host, &mut second),
        Err(ShmemError::DuplicateName)
    );
    assert_eq!(second.state, HandleState::Declared);
    assert_eq!(host.requested_bytes, 4);
    assert_eq!(host.lock_names.len(), 1);
}

#[test]
fn second_request_for_an_atomic_is_a_duplicate() {
    let mut host = Host::new();
    let mut flag = PgAtomic::new(vec![0u8]);
    assert_eq!(PgSharedMem::pg_init_atomic(&mut host, &mut flag), Ok(()));
    assert_eq!(
        PgSharedMem::pg_init_atomic(&mut host, &mut flag),
        Err(ShmemError::DuplicateName)
    );
    assert_eq!(host.requested_bytes, 1);
}

#[test]
fn attach_before_request_is_detected() {
    let mut host = Host::new();
    let mut lock = counter();
    assert_eq!(
        PgSharedMem::shmem_init_locked(&mut host, &mut lock),
        Err(ShmemError::NotRequested)
    );
    let mut flag = PgAtomic::new(vec![0u8]);
    assert_eq!(
        PgSharedMem::shmem_init_atomic(&mut host, &mut flag),
        Err(ShmemError::NotRequested)
    );
    host.allocate().unwrap();
    assert_eq!(
        PgSharedMem::shmem_init_locked(&mut host, &mut lock),
        Err(ShmemError::NotRequested)
    );
    assert_eq!(lock.state, HandleState::Declared);
    assert!(host.slot_names.is_empty());
}

#[test]
fn attach_before_the_region_is_sized_is_detected() {
    let mut host = Host::new();
    let mut lock = counter();
    PgSharedMem::pg_init_locked(&mut host, &mut lock).unwrap();
    assert_eq!(
        PgSharedMem::shmem_init_locked(&mut host, &mut lock),
        Err(ShmemError::NotAllocated)
    );
    let mut flag = PgAtomic::new(vec![0u8]);
    PgSharedMem::pg_init_atomic(&mut host, &mut flag).unwrap();
    assert_eq!(
        PgSharedMem::shmem_init_atomic(&mut host, &mut flag),
        Err(ShmemError::NotAllocated)
    );
    assert_eq!(flag.state, HandleState::Requested);
}

#[test]
fn attach_for_a_lock_the_host_does_not_know_is_detected() {
    let mut host = Host::new();
    host.reserve_bytes(4).unwrap();
    host.allocate().unwrap();
    let mut lock = counter();
    lock.state = HandleState::Requested;
    assert_eq!(
        PgSharedMem::shmem_init_locked(&mut host, &mut lock),
        Err(ShmemError::NotRequested)
    );
}

#[test]
fn request_after_the_region_is_sized_is_refused() {
    let mut host = Host::new();
    assert_eq!(host.phase, Phase::Requesting);
    assert_eq!(host.allocate(), Ok(()));
    assert_eq!(host.phase, Phase::Attaching);
    assert_eq!(host.allocate(), Err(ShmemError::RequestPhaseOver));
    let mut lock = counter();
    assert_eq!(
        PgSharedMem::pg_init_locked(&mut host, &mut lock),
        Err(ShmemError::RequestPhaseOver)
    );
    let mut flag = PgAtomic::new(vec![0u8]);
    assert_eq!(
        PgSharedMem::pg_init_atomic(&mut host, &mut flag),
        Err(ShmemError::RequestPhaseOver)
    );
    assert_eq!(host.reserve_bytes(1), Err(ShmemError::RequestPhaseOver));
    assert_eq!(
        host.reserve_named_lock(&name("late")),
        Err(ShmemError::RequestPhaseOver)
    );
}

#[test]
fn name_with_a_nul_byte_is_refused() {
    let mut host = Host::new();
    let mut lock = PgLwLock::new(vec![b'a', 0, b'b'], vec![0u8]);
    assert_eq!(
        PgSharedMem::pg_init_locked(&mut host, &mut lock),
        Err(ShmemError::InvalidName)
    );
    assert_eq!(host.reserve_named_lock(&vec![0u8]), Err(ShmemError::InvalidName));
    host.allocate().unwrap();
    assert_eq!(
        host.find_or_create_named_slot(&vec![b'x', 0], 1),
        Err(ShmemError::InvalidName)
    );
    assert!(!is_valid_name(&vec![b'a', 0, b'b']));
    assert!(is_valid_name(&name("counter")));
    assert!(is_valid_name(&Vec::new()));
}

#[test]
fn requested_sizes_that_overflow_are_refused() {
    let mut host = Host::new();
    assert_eq!(host.reserve_bytes(usize::MAX), Ok(()));
    let mut lock = counter();
    assert_eq!(
        PgSharedMem::pg_init_locked(&mut host, &mut lock),
        Err(ShmemError::SizeOverflow)
    );
    assert_eq!(lock.state, HandleState::Declared);
    assert!(host.lock_names.is_empty());
    let mut flag = PgAtomic::new(vec![0u8]);
    assert_eq!(
        PgSharedMem::pg_init_atomic(&mut host, &mut flag),
        Err(ShmemError::SizeOverflow)
    );
    assert_eq!(host.requested_bytes, usize::MAX);
}

#[test]
fn a_handle_is_attached_once() {
    let mut host = Host::new();
    let mut lock = counter();
    PgSharedMem::pg_init_locked(&mut host, &mut lock).unwrap();
    host.allocate().unwrap();
    assert_eq!(PgSharedMem::shmem_init_locked(&mut host, &mut lock), Ok(false));
    assert_eq!(
        PgSharedMem::shmem_init_locked(&mut host, &mut lock),
        Err(ShmemError::AlreadyAttached)
    );
    assert_eq!(lock.attach(3), Err(ShmemError::AlreadyAttached));
    assert_eq!(lock.state, HandleState::Attached(0));
    let mut flag = PgAtomic::new(vec![0u8]);
    assert_eq!(flag.attach(2), Ok(()));
    assert_eq!(flag.state, HandleState::Attached(2));
    assert_eq!(flag.attach(1), Err(ShmemError::AlreadyAttached));
    assert_eq!(
        PgSharedMem::shmem_init_atomic(&mut host, &mut flag),
        Err(ShmemError::AlreadyAttached)
    );
}

#[test]
fn a_slot_of_another_size_is_a_mismatch() {
    let mut host = Host::new();
    let mut small = counter();
    PgSharedMem::pg_init_locked(&mut host, &mut small).unwrap();
    host.reserve_bytes(8).unwrap();
    host.allocate().unwrap();
    let mut wide = PgLwLock::new(name("counter"), vec![0u8; 8]);
    wide.state = HandleState::Requested;
    assert_eq!(PgSharedMem::shmem_init_locked(&mut host, &mut small), Ok(false));
    assert_eq!(
        PgSharedMem::shmem_init_locked(&mut host, &mut wide),
        Err(ShmemError::SizeMismatch)
    );
    small.acquire(&mut host).unwrap();
    assert_eq!(small.set(&mut host, &vec![1u8; 3]), Err(ShmemError::SizeMismatch));
    assert_eq!(small.get(&host), Ok(vec![0u8; 4]));
}

#[test]
fn a_slot_that_was_not_requested_does_not_fit() {
    let mut host = Host::new();
    let mut flag = PgAtomic::new(vec![0u8]);
    PgSharedMem::pg_init_atomic(&mut host, &mut flag).unwrap();
    host.allocate().unwrap();
    let mut wide = PgAtomic::new(vec![0u8; 8]);
    wide.state = HandleState::Requested;
    assert_eq!(
        PgSharedMem::shmem_init_atomic(&mut host, &mut wide),
        Err(ShmemError::OutOfSharedMemory)
    );
    assert_eq!(PgSharedMem::shmem_init_atomic(&mut host, &mut flag), Ok(false));
    assert_eq!(host.used_bytes, 1);
    assert_eq!(
        host.find_or_create_named_slot(&name("more"), 1),
        Err(ShmemError::OutOfSharedMemory)
    );
}

#[test]
fn access_before_attach_fails_fast() {
    let mut host = Host::new();
    let mut lock = counter();
    assert_eq!(lock.get(&host), Err(ShmemError::NotAttached));
    assert_eq!(lock.set(&mut host, &vec![0u8; 4]), Err(ShmemError::NotAttached));
    assert_eq!(lock.acquire(&mut host), Err(ShmemError::NotAttached));
    assert_eq!(lock.release(&mut host), Err(ShmemError::NotAttached));
    PgSharedMem::pg_init_locked(&mut host, &mut lock).unwrap();
    assert_eq!(lock.get(&host), Err(ShmemError::NotAttached));
    let flag = PgAtomic::new(vec![0u8]);
    assert_eq!(flag.load(&host), Err(ShmemError::NotAttached));
    assert_eq!(flag.store(&mut host, &vec![1u8]), Err(ShmemError::NotAttached));
    assert_eq!(lock.bound_slot(&host), None);
}

#[test]
fn access_without_the_lock_fails_fast() {
    let mut host = Host::new();
    let mut declared = counter();
    PgSharedMem::pg_init_locked(&mut host, &mut declared).unwrap();
    host.allocate().unwrap();
    let mut a = declared.clone();
    let mut b = declared.clone();
    PgSharedMem::shmem_init_locked(&mut host, &mut a).unwrap();
    PgSharedMem::shmem_init_locked(&mut host, &mut b).unwrap();
    assert_eq!(a.get(&host), Err(ShmemError::LockNotHeld));
    assert_eq!(a.set(&mut host, &vec![1u8; 4]), Err(ShmemError::LockNotHeld));
    assert_eq!(a.release(&mut host), Err(ShmemError::LockNotHeld));
    assert_eq!(a.acquire(&mut host), Ok(()));
    assert_eq!(host.lock_held, vec![true]);
    assert_eq!(b.acquire(&mut host), Err(ShmemError::LockBusy));
    assert_eq!(a.acquire(&mut host), Err(ShmemError::LockBusy));
    assert_eq!(b.get(&host), Err(ShmemError::LockNotHeld));
    assert_eq!(a.release(&mut host), Ok(()));
    assert_eq!(host.lock_held, vec![false]);
    assert_eq!(b.acquire(&mut host), Ok(()));
}

#[test]
fn a_store_of_another_size_is_a_mismatch() {
    let mut host = Host::new();
    let mut flag = PgAtomic::new(vec![0u8]);
    PgSharedMem::pg_init_atomic(&mut host, &mut flag).unwrap();
    host.allocate().unwrap();
    PgSharedMem::shmem_init_atomic(&mut host, &mut flag).unwrap();
    assert_eq!(flag.store(&mut host, &vec![1u8, 2u8]), Err(ShmemError::SizeMismatch));
    assert_eq!(flag.load(&host), Ok(vec![0u8]));
}

#[test]
fn two_atomics_get_slots_of_their_own() {
    let mut host = Host::new();
    let mut first = PgAtomic::new(vec![0u8; 4]);
    let mut second = PgAtomic::new(vec![9u8; 4]);
    PgSharedMem::pg_init_atomic(&mut host, &mut first).unwrap();
    PgSharedMem::pg_init_atomic(&mut host, &mut second).unwrap();
    assert_eq!(host.requested_bytes, 8);
    host.allocate().unwrap();
    assert_eq!(PgSharedMem::shmem_init_atomic(&mut host, &mut first), Ok(false));
    first.store(&mut host, &vec![1u8, 2, 3, 4]).unwrap();
    assert_eq!(PgSharedMem::shmem_init_atomic(&mut host, &mut second), Ok(false));
    assert_eq!(first.state, HandleState::Attached(0));
    assert_eq!(second.state, HandleState::Attached(1));
    assert!(!same_name(&host.slot_names[0], &host.slot_names[1]));
    assert_eq!(first.load(&host), Ok(vec![1u8, 2, 3, 4]));
    assert_eq!(second.load(&host), Ok(vec![9u8; 4]));
}

#[test]
fn attach_under_a_given_identifier() {
    let mut host = Host::new();
    let mut first = PgAtomic::new(vec![3u8]);
    let mut second = PgAtomic::new(vec![4u8]);
    PgSharedMem::pg_init_atomic(&mut host, &mut first).unwrap();
    PgSharedMem::pg_init_atomic(&mut host, &mut second).unwrap();
    host.allocate().unwrap();
    assert_eq!(
        PgSharedMem::shmem_init_atomic_named(&mut host, &mut first, &name("one")),
        Ok(false)
    );
    assert_eq!(
        PgSharedMem::shmem_init_atomic_named(&mut host, &mut second, &name("one")),
        Ok(true)
    );
    assert_eq!(host.slot_names, vec![name("one")]);
    assert_eq!(first.load(&host), Ok(vec![4u8]));
    let mut third = PgAtomic::new(vec![5u8]);
    third.state = HandleState::Requested;
    assert_eq!(
        PgSharedMem::shmem_init_atomic_named(&mut host, &mut third, &vec![b'a', 0]),
        Err(ShmemError::InvalidName)
    );
}

#[test]
fn ten_thousand_identifiers_are_unique() {
    let mut seen = std::collections::HashSet::new();
    for _ in 0..10_000 {
        assert!(seen.insert(generate_identifier()));
    }
    assert_eq!(seen.len(), 10_000);
}

#[test]
fn an_identifier_is_a_hyphenated_version_four_uuid() {
    for _ in 0..100 {
        let id = generate_identifier();
        assert_eq!(id.len(), 36);
        for (i, b) in id.iter().enumerate() {
            if i == 8 || i == 13 || i == 18 || i == 23 {
                assert_eq!(*b, b'-');
            } else {
                assert!(b.is_ascii_digit() || (b'a'..=b'f').contains(b));
            }
        }
        assert_eq!(id[14], b'4');
        assert!(matches!(id[19], b'8' | b'9' | b'a' | b'b'));
        assert!(is_valid_name(&id));
    }
}

#[test]
fn the_trait_runs_both_phases() {
    let mut host = Host::new();
    let mut lock = counter();
    let mut flag = PgAtomic::new(vec![0u8]);
    assert_eq!(lock.pg_init(&mut host), Ok(()));
    assert_eq!(flag.pg_init(&mut host), Ok(()));
    assert_eq!(flag.pg_init(&mut host), Err(ShmemError::DuplicateName));
    assert_eq!(host.requested_bytes, 5);
    host.allocate().unwrap();
    assert_eq!(lock.shmem_init(&mut host), Ok(()));
    assert_eq!(flag.shmem_init(&mut host), Ok(()));
    assert_eq!(lock.shmem_init(&mut host), Err(ShmemError::AlreadyAttached));
    assert_eq!(lock.get_name(), name("counter"));
    assert_eq!(host.slot_values[0], vec![0u8; 4]);
    assert_eq!(host.slot_values[1], vec![0u8]);
}

#[test]
fn host_calls_one_by_one() {
    let mut host = Host::new();
    assert_eq!(host.reserve_bytes(6), Ok(()));
    assert_eq!(host.reserve_named_lock(&name("a")), Ok(()));
    assert_eq!(host.reserve_named_lock(&name("a")), Err(ShmemError::DuplicateName));
    assert_eq!(
        host.find_or_create_named_slot(&name("a"), 2),
        Err(ShmemError::NotAllocated)
    );
    host.allocate().unwrap();
    assert_eq!(host.find_or_create_named_slot(&name("a"), 2), Ok((0, false)));
    assert_eq!(host.read_slot(0), vec![0u8, 0u8]);
    assert_eq!(host.find_or_create_named_slot(&name("b"), 4), Ok((1, false)));
    assert_eq!(host.find_or_create_named_slot(&name("a"), 2), Ok((0, true)));
    assert_eq!(
        host.find_or_create_named_slot(&name("a"), 3),
        Err(ShmemError::SizeMismatch)
    );
    host.write_slot(1, &vec![1u8, 2, 3, 4]);
    assert_eq!(host.read_slot(1), vec![1u8, 2, 3, 4]);
    assert_eq!(host.read_slot(0), vec![0u8, 0u8]);
    assert_eq!(host.used_bytes, 6);
    host.set_lock_state(0, true);
    assert_eq!(host.lock_held, vec![true]);
}

#[test]
fn attach_is_refused_while_the_attach_phase_is_locked() {
    let mut host = Host::new();
    let mut lock = counter();
    let mut flag = PgAtomic::new(vec![0u8]);
    PgSharedMem::pg_init_locked(&mut host, &mut lock).unwrap();
    PgSharedMem::pg_init_atomic(&mut host, &mut flag).unwrap();
    host.allocate().unwrap();
    assert_eq!(host.acquire_init_lock(), Ok(()));
    assert_eq!(host.acquire_init_lock(), Err(ShmemError::LockBusy));
    assert_eq!(
        PgSharedMem::shmem_init_locked(&mut host, &mut lock),
        Err(ShmemError::LockBusy)
    );
    assert_eq!(
        PgSharedMem::shmem_init_atomic(&mut host, &mut flag),
        Err(ShmemError::LockBusy)
    );
    assert!(host.init_lock_held);
    host.release_init_lock();
    assert!(!host.init_lock_held);
    assert_eq!(PgSharedMem::shmem_init_locked(&mut host, &mut lock), Ok(false));
    assert!(!host.init_lock_held);
    assert_eq!(PgSharedMem::shmem_init_atomic(&mut host, &mut flag), Ok(false));
    assert!(!host.init_lock_held);
}

#[test]
fn a_failed_attach_gives_the_attach_lock_back() {
    let mut host = Host::new();
    host.allocate().unwrap();
    let mut wide = PgAtomic::new(vec![0u8; 8]);
    wide.state = HandleState::Requested;
    assert_eq!(
        PgSharedMem::shmem_init_atomic(&mut host, &mut wide),
        Err(ShmemError::OutOfSharedMemory)
    );
    assert!(!host.init_lock_held);
    let mut lock = counter();
    lock.state = HandleState::Requested;
    assert_eq!(
        PgSharedMem::shmem_init_locked(&mut host, &mut lock),
        Err(ShmemError::NotRequested)
    );
    assert!(!host.init_lock_held);
}

#[test]
fn a_typed_declaration_checks_the_size_of_its_default() {
    let lock = PgLwLock::declare::<i32>(name("counter"), 0i32.to_ne_bytes().to_vec()).unwrap();
    assert_eq!(lock.name, name("counter"));
    assert_eq!(lock.default_value, vec![0u8; 4]);
    assert_eq!(lock.state, HandleState::Declared);
    assert!(!lock.holding);
    assert!(PgLwLock::declare::<i32>(name("counter"), vec![0u8; 3]).is_none());
    assert!(PgLwLock::declare::<(u8, u8)>(name("pair"), vec![0u8; 2]).is_some());
    assert!(PgLwLock::declare::<heapless::Vec<u8, 4>>(name("inline"), vec![0u8; 1]).is_none());
    assert!(PgLwLock::declare::<()>(name("unit"), Vec::new()).is_some());
}
