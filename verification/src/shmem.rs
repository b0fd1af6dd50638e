//! The registrar: the request phase and the attach phase of a declaration.

use vstd::prelude::*;
use crate::error::ShmemError;
use crate::handles::{HandleState, PgAtomic, PgLwLock};
use crate::hooks::StartupHooks;
use crate::host::{Host, HostView, Phase};
use crate::names::{find_name, generate_identifier, is_hyphenated_v4, is_valid_name, valid_name};

verus! {

/// The host once the slot called `name` was located and `value` written
/// over it, whether or not the slot existed before.
pub open spec fn attached_host(host: HostView, name: Seq<u8>, value: Seq<u8>) -> HostView {
    let located = host.located(name, value.len());
    located.with_value_at(located.slot_names.index_of(name), value)
}

/// Why the request phase refuses a guarded declaration, if it does.
pub open spec fn request_locked_refusal(host: HostView, lock: PgLwLock) -> Option<ShmemError> {
    if !valid_name(lock.name@) {
        Some(ShmemError::InvalidName)
    } else if lock.state != HandleState::Declared {
        Some(ShmemError::DuplicateName)
    } else if host.phase != Phase::Requesting {
        Some(ShmemError::RequestPhaseOver)
    } else if host.has_lock(lock.name@) {
        Some(ShmemError::DuplicateName)
    } else if host.requested + lock.default_value@.len() > usize::MAX {
        Some(ShmemError::SizeOverflow)
    } else {
        None
    }
}

/// Why the request phase refuses a lock-free declaration, if it does.
pub open spec fn request_atomic_refusal(host: HostView, atomic: PgAtomic) -> Option<ShmemError> {
    if atomic.state != HandleState::Declared {
        Some(ShmemError::DuplicateName)
    } else if host.phase != Phase::Requesting {
        Some(ShmemError::RequestPhaseOver)
    } else if host.requested + atomic.default_value@.len() > usize::MAX {
        Some(ShmemError::SizeOverflow)
    } else {
        None
    }
}

/// Why the attach phase refuses a guarded declaration, if it does.
pub open spec fn attach_locked_refusal(host: HostView, lock: PgLwLock) -> Option<ShmemError> {
    match lock.state {
        HandleState::Declared => Some(ShmemError::NotRequested),
        HandleState::Attached(_) => Some(ShmemError::AlreadyAttached),
        HandleState::Requested => if host.init_lock_held {
            Some(ShmemError::LockBusy)
        } else if !host.has_lock(lock.name@) {
            Some(ShmemError::NotRequested)
        } else {
            host.slot_refusal(lock.name@, lock.default_value@.len())
        },
    }
}

/// Why the attach phase refuses a lock-free declaration whose slot is to be
/// called `id`, if it does.
pub open spec fn attach_atomic_refusal(host: HostView, atomic: PgAtomic, id: Seq<u8>) -> Option<
    ShmemError,
> {
    match atomic.state {
        HandleState::Declared => Some(ShmemError::NotRequested),
        HandleState::Attached(_) => Some(ShmemError::AlreadyAttached),
        HandleState::Requested => if host.init_lock_held {
            Some(ShmemError::LockBusy)
        } else {
            host.slot_refusal(id, atomic.default_value@.len())
        },
    }
}

/// What the attach phase of a lock-free declaration does when its slot is
/// called `id`: the outcome, the host and the handle afterwards.
pub open spec fn atomic_attached(
    host: HostView,
    atomic: PgAtomic,
    id: Seq<u8>,
    outcome: Result<bool, ShmemError>,
    host_after: HostView,
    atomic_after: PgAtomic,
) -> bool {
    &&& atomic_after.default_value == atomic.default_value
    &&& match outcome {
        Ok(found) => {
            &&& attach_atomic_refusal(host, atomic, id) is None
            &&& found == host.has_slot(id)
            &&& host_after == attached_host(host, id, atomic.default_value@)
            &&& atomic_after.state is Attached
            &&& atomic_after.state->Attached_0 as int == host_after.slot_names.index_of(id)
            &&& atomic_after.slot_in(host_after) == Some(host_after.slot_names.index_of(id))
        },
        Err(e) => {
            &&& attach_atomic_refusal(host, atomic, id) == Some(e)
            &&& host_after == host
            &&& atomic_after.state == atomic.state
        },
    }
}

/// The outcome of an attach phase without the word on whether the slot
/// existed.
pub open spec fn without_found(attached: Result<bool, ShmemError>) -> Result<(), ShmemError> {
    match attached {
        Ok(_) => Ok(()),
        Err(e) => Err(e),
    }
}

/// Drives the two phases for the declarations of a module.
pub struct PgSharedMem {}

impl PgSharedMem {
    /// The request phase of a guarded declaration: asks the host for the
    /// value's bytes and for one lock under the declaration's name. A name
    /// with a NUL byte, a second request for the declaration or the name, a
    /// request after the region was sized and a total that overflows are
    /// refused, and then nothing has changed.
    pub fn pg_init_locked(host: &mut Host, lock: &mut PgLwLock) -> (outcome: Result<
        (),
        ShmemError,
    >)
        requires
            old(host)@.wf(),
        ensures
            final(host)@.wf(),
            final(lock).name == old(lock).name,
            final(lock).default_value == old(lock).default_value,
            final(lock).holding == old(lock).holding,
            match outcome {
                Ok(()) => {
                    &&& request_locked_refusal(old(host)@, *old(lock)) is None
                    &&& final(host)@ == old(host)@.with_bytes(
                        old(lock).default_value@.len(),
                    ).with_lock(old(lock).name@)
                    &&& final(lock).state == HandleState::Requested
                },
                Err(e) => {
                    &&& request_locked_refusal(old(host)@, *old(lock)) == Some(e)
                    &&& final(host)@ == old(host)@
                    &&& final(lock).state == old(lock).state
                },
            },
    {
        if !is_valid_name(&lock.name) {
            return Err(ShmemError::InvalidName);
        }
        match lock.state {
            HandleState::Declared => {},
            _ => {
                return Err(ShmemError::DuplicateName);
            },
        }
        match host.phase {
            Phase::Requesting => {},
            Phase::Attaching => {
                return Err(ShmemError::RequestPhaseOver);
            },
        }
        if find_name(&host.lock_names, &lock.name).is_some() {
            return Err(ShmemError::DuplicateName);
        }
        match host.reserve_bytes(lock.default_value.len()) {
            Err(e) => {
                return Err(e);
            },
            Ok(()) => {},
        }
        match host.reserve_named_lock(&lock.name) {
            Err(e) => {
                return Err(e);
            },
            Ok(()) => {},
        }
        lock.state = HandleState::Requested;
        Ok(())
    }

    /// The request phase of a lock-free declaration: asks the host for the
    /// value's bytes. A second request for the declaration, a request after
    /// the region was sized and a total that overflows are refused, and then
    /// nothing has changed.
    pub fn pg_init_atomic(host: &mut Host, atomic: &mut PgAtomic) -> (outcome: Result<
        (),
        ShmemError,
    >)
        requires
            old(host)@.wf(),
        ensures
            final(host)@.wf(),
            final(atomic).default_value == old(atomic).default_value,
            match outcome {
                Ok(()) => {
                    &&& request_atomic_refusal(old(host)@, *old(atomic)) is None
                    &&& final(host)@ == old(host)@.with_bytes(old(atomic).default_value@.len())
                    &&& final(atomic).state == HandleState::Requested
                },
                Err(e) => {
                    &&& request_atomic_refusal(old(host)@, *old(atomic)) == Some(e)
                    &&& final(host)@ == old(host)@
                    &&& final(atomic).state == old(atomic).state
                },
            },
    {
        match atomic.state {
            HandleState::Declared => {},
            _ => {
                return Err(ShmemError::DuplicateName);
            },
        }
        match host.reserve_bytes(atomic.default_value.len()) {
            Err(e) => {
                return Err(e);
            },
            Ok(()) => {},
        }
        atomic.state = HandleState::Requested;
        Ok(())
    }

    /// The attach phase of a guarded declaration. While it holds the lock
    /// that serialises the attach phase, it locates the slot of the
    /// declaration's name, making it where it does not exist, writes the
    /// default value over it whether or not it existed, and binds the handle
    /// to it. Returns whether the slot existed. A declaration that was not
    /// requested, or is bound already, is refused, as is what the host
    /// refuses; then nothing has changed.
    pub fn shmem_init_locked(host: &mut Host, lock: &mut PgLwLock) -> (outcome: Result<
        bool,
        ShmemError,
    >)
        requires
            old(host)@.wf(),
        ensures
            final(host)@.wf(),
            final(lock).name == old(lock).name,
            final(lock).default_value == old(lock).default_value,
            final(lock).holding == old(lock).holding,
            match outcome {
                Ok(found) => {
                    &&& attach_locked_refusal(old(host)@, *old(lock)) is None
                    &&& found == old(host)@.has_slot(old(lock).name@)
                    &&& final(host)@ == attached_host(
                        old(host)@,
                        old(lock).name@,
                        old(lock).default_value@,
                    )
                    &&& final(lock).slot_in(final(host)@) == Some(
                        final(host)@.slot_names.index_of(old(lock).name@),
                    )
                    &&& final(host)@.has_slot(old(lock).name@)
                    &&& final(host)@.slot_value(old(lock).name@) == old(lock).default_value@
                },
                Err(e) => {
                    &&& attach_locked_refusal(old(host)@, *old(lock)) == Some(e)
                    &&& final(host)@ == old(host)@
                    &&& final(lock).state == old(lock).state
                },
            },
    {
        match lock.state {
            HandleState::Declared => {
                return Err(ShmemError::NotRequested);
            },
            HandleState::Attached(_) => {
                return Err(ShmemError::AlreadyAttached);
            },
            HandleState::Requested => {},
        }
        match host.acquire_init_lock() {
            Err(e) => {
                return Err(e);
            },
            Ok(()) => {},
        }
        if find_name(&host.lock_names, &lock.name).is_none() {
            host.release_init_lock();
            return Err(ShmemError::NotRequested);
        }
        match host.find_or_create_named_slot(&lock.name, lock.default_value.len()) {
            Err(e) => {
                host.release_init_lock();
                Err(e)
            },
            Ok((index, found)) => {
                host.write_slot(index, &lock.default_value);
                let bound = lock.attach(index);
                assert(bound is Ok);
                host.release_init_lock();
                Ok(found)
            },
        }
    }

    /// The attach phase of a lock-free declaration whose slot is to be called
    /// `id`. While it holds the lock that serialises the attach phase, it
    /// locates that slot, making it where it does not exist, binds
    /// the handle to it and writes the default value over it. Returns whether the
    /// slot existed. A declaration that was not requested, or is bound
    /// already, is refused, as is what the host refuses; then nothing has
    /// changed.
    pub fn shmem_init_atomic_named(host: &mut Host, atomic: &mut PgAtomic, id: &Vec<u8>) -> (outcome:
        Result<bool, ShmemError>)
        requires
            old(host)@.wf(),
        ensures
            final(host)@.wf(),
            atomic_attached(old(host)@, *old(atomic), id@, outcome, final(host)@, *final(atomic)),
    {
        match atomic.state {
            HandleState::Declared => {
                return Err(ShmemError::NotRequested);
            },
            HandleState::Attached(_) => {
                return Err(ShmemError::AlreadyAttached);
            },
            HandleState::Requested => {},
        }
        match host.acquire_init_lock() {
            Err(e) => {
                return Err(e);
            },
            Ok(()) => {},
        }
        match host.find_or_create_named_slot(id, atomic.default_value.len()) {
            Err(e) => {
                host.release_init_lock();
                Err(e)
            },
            Ok((index, found)) => {
                let bound = atomic.attach(index);
                assert(bound is Ok);
                host.write_slot(index, &atomic.default_value);
                host.release_init_lock();
                Ok(found)
            },
        }
    }

    /// The attach phase of a lock-free declaration: mints a fresh identifier
    /// and attaches under it. Which identifier is minted is left to chance,
    /// so the contract says what holds for whichever it was; what does not
    /// depend on it is stated outright.
    pub fn shmem_init_atomic(host: &mut Host, atomic: &mut PgAtomic) -> (outcome: Result<
        bool,
        ShmemError,
    >)
        requires
            old(host)@.wf(),
        ensures
            final(host)@.wf(),
            exists|id: Seq<u8>|
                is_hyphenated_v4(id) && #[trigger] atomic_attached(
                    old(host)@,
                    *old(atomic),
                    id,
                    outcome,
                    final(host)@,
                    *final(atomic),
                ),
            old(atomic).state == HandleState::Declared ==> outcome == Err::<bool, ShmemError>(
                ShmemError::NotRequested,
            ),
            old(atomic).state is Attached ==> outcome == Err::<bool, ShmemError>(
                ShmemError::AlreadyAttached,
            ),
            old(atomic).state == HandleState::Requested && old(host)@.init_lock_held ==> outcome
                == Err::<bool, ShmemError>(ShmemError::LockBusy),
            old(atomic).state == HandleState::Requested && !old(host)@.init_lock_held && old(host)@.phase != Phase::Attaching ==> outcome == Err::<bool, ShmemError>(
                ShmemError::NotAllocated,
            ),
            outcome is Err ==> final(host)@ == old(host)@,
            outcome is Err ==> final(atomic).state == old(atomic).state,
            outcome is Ok ==> final(atomic).slot_in(final(host)@) is Some,
            outcome is Ok ==> final(host)@.slot_values[final(atomic).slot_in(
                final(host)@,
            ).unwrap()] == old(atomic).default_value@,
    {
        let id = generate_identifier();
        Self::shmem_init_atomic_named(host, atomic, &id)
    }
}

/// The two phases, as a declaration offers them to the startup hooks.
pub trait PgSharedMemoryInitialization {
    /// The request phase; run when the module is loaded, or from the host's
    /// request hook.
    fn pg_init(&mut self, host: &mut Host) -> (outcome: Result<(), ShmemError>)
        requires
            old(host)@.wf(),
        ensures
            final(host)@.wf(),
            outcome is Err ==> final(host)@ == old(host)@,
    ;

    /// The attach phase; run from the host's startup hook.
    fn shmem_init(&mut self, host: &mut Host) -> (outcome: Result<(), ShmemError>)
        requires
            old(host)@.wf(),
        ensures
            final(host)@.wf(),
            outcome is Err ==> final(host)@ == old(host)@,
    ;
}

/// Registers one declaration while its module is loaded. The attach phase is
/// always left to the host's startup hook. On a host with a request hook the
/// request phase is left to that hook, and nothing is asked of the host now.
/// On a host without one the request phase runs at once, and its outcome is
/// returned.
pub fn pg_shmem_init<D: PgSharedMemoryInitialization>(
    hooks: &mut StartupHooks,
    host: &mut Host,
    owner: u64,
    thing: &mut D,
) -> (outcome: Result<(), ShmemError>)
    requires
        old(host)@.wf(),
    ensures
        final(host)@.wf(),
        final(hooks).request is None == old(hooks).request is None,
        final(hooks).startup.order() == old(hooks).startup.order().push(owner),
        old(hooks).request is Some ==> outcome is Ok,
        old(hooks).request is Some ==> final(hooks).request.unwrap().order() == old(hooks).request.unwrap().order().push(owner),
        old(hooks).request is Some ==> final(host)@ == old(host)@,
        old(hooks).request is Some ==> *final(thing) == *old(thing),
        outcome is Err ==> final(host)@ == old(host)@,
{
    if hooks.install_hooks(owner) {
        thing.pg_init(host)
    } else {
        Ok(())
    }
}

impl PgSharedMemoryInitialization for PgLwLock {
    /// The request phase of a guarded declaration, as
    /// [`PgSharedMem::pg_init_locked`] runs it.
    fn pg_init(&mut self, host: &mut Host) -> (outcome: Result<(), ShmemError>)
        ensures
            final(self).name == old(self).name,
            final(self).default_value == old(self).default_value,
            final(self).holding == old(self).holding,
            match outcome {
                Ok(()) => {
                    &&& request_locked_refusal(old(host)@, *old(self)) is None
                    &&& final(host)@ == old(host)@.with_bytes(
                        old(self).default_value@.len(),
                    ).with_lock(old(self).name@)
                    &&& final(self).state == HandleState::Requested
                },
                Err(e) => {
                    &&& request_locked_refusal(old(host)@, *old(self)) == Some(e)
                    &&& final(self).state == old(self).state
                },
            },
    {
        PgSharedMem::pg_init_locked(host, self)
    }

    /// The attach phase of a guarded declaration, as
    /// [`PgSharedMem::shmem_init_locked`] runs it.
    fn shmem_init(&mut self, host: &mut Host) -> (outcome: Result<(), ShmemError>)
        ensures
            final(self).name == old(self).name,
            final(self).default_value == old(self).default_value,
            final(self).holding == old(self).holding,
            match outcome {
                Ok(()) => {
                    &&& attach_locked_refusal(old(host)@, *old(self)) is None
                    &&& final(host)@ == attached_host(
                        old(host)@,
                        old(self).name@,
                        old(self).default_value@,
                    )
                    &&& final(self).slot_in(final(host)@) == Some(
                        final(host)@.slot_names.index_of(old(self).name@),
                    )
                    &&& final(host)@.slot_value(old(self).name@) == old(self).default_value@
                },
                Err(e) => {
                    &&& attach_locked_refusal(old(host)@, *old(self)) == Some(e)
                    &&& final(self).state == old(self).state
                },
            },
    {
        match PgSharedMem::shmem_init_locked(host, self) {
            Ok(_) => Ok(()),
            Err(e) => Err(e),
        }
    }
}

impl PgSharedMemoryInitialization for PgAtomic {
    /// The request phase of a lock-free declaration, as
    /// [`PgSharedMem::pg_init_atomic`] runs it.
    fn pg_init(&mut self, host: &mut Host) -> (outcome: Result<(), ShmemError>)
        ensures
            final(self).default_value == old(self).default_value,
            match outcome {
                Ok(()) => {
                    &&& request_atomic_refusal(old(host)@, *old(self)) is None
                    &&& final(host)@ == old(host)@.with_bytes(old(self).default_value@.len())
                    &&& final(self).state == HandleState::Requested
                },
                Err(e) => {
                    &&& request_atomic_refusal(old(host)@, *old(self)) == Some(e)
                    &&& final(self).state == old(self).state
                },
            },
    {
        PgSharedMem::pg_init_atomic(host, self)
    }

    /// The attach phase of a lock-free declaration, as
    /// [`PgSharedMem::shmem_init_atomic`] runs it, under an identifier that
    /// is left to chance.
    fn shmem_init(&mut self, host: &mut Host) -> (outcome: Result<(), ShmemError>)
        ensures
            exists|id: Seq<u8>, attached: Result<bool, ShmemError>|
                is_hyphenated_v4(id) && outcome == without_found(attached)
                    && #[trigger] atomic_attached(
                    old(host)@,
                    *old(self),
                    id,
                    attached,
                    final(host)@,
                    *final(self),
                ),
            old(self).state == HandleState::Declared ==> outcome == Err::<(), ShmemError>(
                ShmemError::NotRequested,
            ),
            old(self).state is Attached ==> outcome == Err::<(), ShmemError>(
                ShmemError::AlreadyAttached,
            ),
            old(self).state == HandleState::Requested && old(host)@.init_lock_held ==> outcome
                == Err::<(), ShmemError>(ShmemError::LockBusy),
            old(self).state == HandleState::Requested && !old(host)@.init_lock_held && old(host)@.phase
                != Phase::Attaching ==> outcome == Err::<(), ShmemError>(ShmemError::NotAllocated),
            outcome is Err ==> final(self).state == old(self).state,
            outcome is Ok ==> final(self).slot_in(final(host)@) is Some,
            outcome is Ok ==> final(host)@.slot_values[final(self).slot_in(
                final(host)@,
            ).unwrap()] == old(self).default_value@,
    {
        let attached = PgSharedMem::shmem_init_atomic(host, self);
        match attached {
            Ok(_) => Ok(()),
            Err(e) => Err(e),
        }
    }
}

} // verus!
