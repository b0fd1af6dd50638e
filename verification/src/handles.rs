//! The handles through which a process reaches its shared values: a cell
//! guarded by a named lock, and a lock-free cell.

use vstd::prelude::*;
use vstd::layout::size_of;
use crate::eligible::PGRXSharedMemory;
use crate::error::ShmemError;
use crate::host::{Host, HostView};
use crate::names::{copy_bytes, find_name, lemma_index_of_unique, same_name};

verus! {

/// How far a declaration has come in this process.
#[derive(Clone, Copy, Debug, PartialEq, Eq, Structural)]
pub enum HandleState {
    /// Declared; nothing was asked of the host.
    Declared,
    /// Its room was requested; it is bound to no slot yet.
    Requested,
    /// Bound to the slot at this index of the host's registry.
    Attached(usize),
}

/// A shared value guarded by the lock of the same name. The value is held as
/// the flat bytes of its type; `default_value` is the type's default state.
#[derive(Clone, Debug)]
pub struct PgLwLock {
    pub name: Vec<u8>,
    pub default_value: Vec<u8>,
    pub state: HandleState,
    pub holding: bool,
}

/// A shared value that needs no lock. The value is held as the flat bytes of
/// its type; `default_value` is the type's default state.
#[derive(Clone, Debug)]
pub struct PgAtomic {
    pub default_value: Vec<u8>,
    pub state: HandleState,
}

impl PgLwLock {
    /// The index of the slot this handle is bound to in `host`, if it is
    /// bound to one that carries its name.
    pub open spec fn slot_in(self, host: HostView) -> Option<int> {
        match self.state {
            HandleState::Attached(i) => if i < host.slot_names.len() && host.slot_names[i as int]
                == self.name@ {
                Some(i as int)
            } else {
                None
            },
            _ => None,
        }
    }

    /// Why the lock cannot be taken, if it cannot.
    pub open spec fn acquire_refusal(self, host: HostView) -> Option<ShmemError> {
        if self.slot_in(host) is None {
            Some(ShmemError::NotAttached)
        } else if !host.has_lock(self.name@) {
            Some(ShmemError::NotRequested)
        } else if host.lock_is_held(self.name@) {
            Some(ShmemError::LockBusy)
        } else {
            None
        }
    }

    /// Why the lock cannot be given back, if it cannot.
    pub open spec fn release_refusal(self, host: HostView) -> Option<ShmemError> {
        if self.slot_in(host) is None {
            Some(ShmemError::NotAttached)
        } else if !self.holding {
            Some(ShmemError::LockNotHeld)
        } else if !host.has_lock(self.name@) {
            Some(ShmemError::NotRequested)
        } else {
            None
        }
    }

    /// Why the value cannot be read, if it cannot.
    pub open spec fn get_refusal(self, host: HostView) -> Option<ShmemError> {
        if self.slot_in(host) is None {
            Some(ShmemError::NotAttached)
        } else if !self.holding {
            Some(ShmemError::LockNotHeld)
        } else {
            None
        }
    }

    /// Why `value` cannot be written, if it cannot.
    pub open spec fn set_refusal(self, host: HostView, value: Seq<u8>) -> Option<ShmemError> {
        if self.slot_in(host) is None {
            Some(ShmemError::NotAttached)
        } else if !self.holding {
            Some(ShmemError::LockNotHeld)
        } else if host.slot_values[self.slot_in(host).unwrap()].len() != value.len() {
            Some(ShmemError::SizeMismatch)
        } else {
            None
        }
    }

    /// Declares a guarded value called `name`.
    pub fn new(name: Vec<u8>, default_value: Vec<u8>) -> (lock: PgLwLock)
        ensures
            lock.name == name,
            lock.default_value == default_value,
            lock.state == HandleState::Declared,
            !lock.holding,
    {
        PgLwLock { name, default_value, state: HandleState::Declared, holding: false }
    }

    /// Declares a guarded value of type `T` called `name`. The default value
    /// is given as the flat bytes of `T`, so it must have the size of `T`.
    pub fn declare<T: PGRXSharedMemory>(name: Vec<u8>, default_value: Vec<u8>) -> (lock: Option<
        PgLwLock,
    >)
        ensures
            lock is Some <==> default_value@.len() == size_of::<T>(),
            lock is Some ==> lock.unwrap().name == name && lock.unwrap().default_value
                == default_value && lock.unwrap().state == HandleState::Declared
                && !lock.unwrap().holding,
    {
        if default_value.len() == core::mem::size_of::<T>() {
            Some(PgLwLock::new(name, default_value))
        } else {
            None
        }
    }

    /// A copy of the declared name.
    pub fn get_name(&self) -> (name: Vec<u8>)
        ensures
            name@ == self.name@,
    {
        copy_bytes(&self.name)
    }

    /// Binds the handle to the slot at `index`. A handle is bound once.
    pub fn attach(&mut self, index: usize) -> (outcome: Result<(), ShmemError>)
        ensures
            outcome == (if old(self).state is Attached {
                Err::<(), ShmemError>(ShmemError::AlreadyAttached)
            } else {
                Ok(())
            }),
            final(self).name == old(self).name,
            final(self).default_value == old(self).default_value,
            final(self).holding == old(self).holding,
            final(self).state == (if old(self).state is Attached {
                old(self).state
            } else {
                HandleState::Attached(index)
            }),
    {
        match self.state {
            HandleState::Attached(_) => Err(ShmemError::AlreadyAttached),
            _ => {
                self.state = HandleState::Attached(index);
                Ok(())
            },
        }
    }

    /// The index of the slot this handle is bound to in `host`.
    pub fn bound_slot(&self, host: &Host) -> (slot: Option<usize>)
        ensures
            match slot {
                Some(i) => self.slot_in(host@) == Some(i as int),
                None => self.slot_in(host@) is None,
            },
    {
        match self.state {
            HandleState::Attached(i) => {
                if i < host.slot_names.len() && same_name(&host.slot_names[i], &self.name) {
                    Some(i)
                } else {
                    None
                }
            },
            _ => None,
        }
    }

    /// Takes the lock that guards the value. In a server the call would wait
    /// for the holder; here a held lock is reported.
    pub fn acquire(&mut self, host: &mut Host) -> (outcome: Result<(), ShmemError>)
        requires
            old(host)@.wf(),
        ensures
            final(host)@.wf(),
            final(self).name == old(self).name,
            final(self).default_value == old(self).default_value,
            final(self).state == old(self).state,
            match outcome {
                Ok(()) => {
                    &&& old(self).acquire_refusal(old(host)@) is None
                    &&& final(self).holding
                    &&& final(host)@ == old(host)@.with_lock_state(
                        old(host)@.lock_names.index_of(old(self).name@),
                        true,
                    )
                },
                Err(e) => {
                    &&& old(self).acquire_refusal(old(host)@) == Some(e)
                    &&& final(self).holding == old(self).holding
                    &&& final(host)@ == old(host)@
                },
            },
    {
        if self.bound_slot(host).is_none() {
            return Err(ShmemError::NotAttached);
        }
        match find_name(&host.lock_names, &self.name) {
            None => Err(ShmemError::NotRequested),
            Some(j) => {
                proof {
                    lemma_index_of_unique(host@.lock_names, self.name@, j as int);
                }
                if host.lock_held[j] {
                    Err(ShmemError::LockBusy)
                } else {
                    host.set_lock_state(j, true);
                    self.holding = true;
                    Ok(())
                }
            },
        }
    }

    /// Gives the lock back.
    pub fn release(&mut self, host: &mut Host) -> (outcome: Result<(), ShmemError>)
        requires
            old(host)@.wf(),
        ensures
            final(host)@.wf(),
            final(self).name == old(self).name,
            final(self).default_value == old(self).default_value,
            final(self).state == old(self).state,
            match outcome {
                Ok(()) => {
                    &&& old(self).release_refusal(old(host)@) is None
                    &&& !final(self).holding
                    &&& final(host)@ == old(host)@.with_lock_state(
                        old(host)@.lock_names.index_of(old(self).name@),
                        false,
                    )
                },
                Err(e) => {
                    &&& old(self).release_refusal(old(host)@) == Some(e)
                    &&& final(self).holding == old(self).holding
                    &&& final(host)@ == old(host)@
                },
            },
    {
        if self.bound_slot(host).is_none() {
            return Err(ShmemError::NotAttached);
        }
        if !self.holding {
            return Err(ShmemError::LockNotHeld);
        }
        match find_name(&host.lock_names, &self.name) {
            None => Err(ShmemError::NotRequested),
            Some(j) => {
                proof {
                    lemma_index_of_unique(host@.lock_names, self.name@, j as int);
                }
                host.set_lock_state(j, false);
                self.holding = false;
                Ok(())
            },
        }
    }

    /// Reads the value. The handle must be bound and hold the lock.
    pub fn get(&self, host: &Host) -> (outcome: Result<Vec<u8>, ShmemError>)
        requires
            host@.wf(),
        ensures
            match outcome {
                Ok(value) => {
                    &&& self.get_refusal(host@) is None
                    &&& value@ == host@.slot_values[self.slot_in(host@).unwrap()]
                    &&& value@ == host@.slot_value(self.name@)
                },
                Err(e) => self.get_refusal(host@) == Some(e),
            },
    {
        match self.bound_slot(host) {
            None => Err(ShmemError::NotAttached),
            Some(i) => {
                if !self.holding {
                    Err(ShmemError::LockNotHeld)
                } else {
                    proof {
                        lemma_index_of_unique(host@.slot_names, self.name@, i as int);
                    }
                    Ok(host.read_slot(i))
                }
            },
        }
    }

    /// Writes `value`. The handle must be bound and hold the lock, and the
    /// value must have the slot's size.
    pub fn set(&self, host: &mut Host, value: &Vec<u8>) -> (outcome: Result<(), ShmemError>)
        requires
            old(host)@.wf(),
        ensures
            final(host)@.wf(),
            match outcome {
                Ok(()) => {
                    &&& self.set_refusal(old(host)@, value@) is None
                    &&& final(host)@ == old(host)@.with_value_at(
                        self.slot_in(old(host)@).unwrap(),
                        value@,
                    )
                },
                Err(e) => {
                    &&& self.set_refusal(old(host)@, value@) == Some(e)
                    &&& final(host)@ == old(host)@
                },
            },
    {
        match self.bound_slot(host) {
            None => Err(ShmemError::NotAttached),
            Some(i) => {
                if !self.holding {
                    Err(ShmemError::LockNotHeld)
                } else if host.slot_values[i].len() != value.len() {
                    Err(ShmemError::SizeMismatch)
                } else {
                    host.write_slot(i, value);
                    Ok(())
                }
            },
        }
    }
}

impl PgAtomic {
    /// The index of the slot this handle is bound to in `host`, if it is
    /// bound to one of its value's size.
    pub open spec fn slot_in(self, host: HostView) -> Option<int> {
        match self.state {
            HandleState::Attached(i) => if i < host.slot_values.len()
                && host.slot_values[i as int].len() == self.default_value@.len() {
                Some(i as int)
            } else {
                None
            },
            _ => None,
        }
    }

    /// Declares a lock-free value.
    pub fn new(default_value: Vec<u8>) -> (atomic: PgAtomic)
        ensures
            atomic.default_value == default_value,
            atomic.state == HandleState::Declared,
    {
        PgAtomic { default_value, state: HandleState::Declared }
    }

    /// Binds the handle to the slot at `index`. A handle is bound once.
    pub fn attach(&mut self, index: usize) -> (outcome: Result<(), ShmemError>)
        ensures
            outcome == (if old(self).state is Attached {
                Err::<(), ShmemError>(ShmemError::AlreadyAttached)
            } else {
                Ok(())
            }),
            final(self).default_value == old(self).default_value,
            final(self).state == (if old(self).state is Attached {
                old(self).state
            } else {
                HandleState::Attached(index)
            }),
    {
        match self.state {
            HandleState::Attached(_) => Err(ShmemError::AlreadyAttached),
            _ => {
                self.state = HandleState::Attached(index);
                Ok(())
            },
        }
    }

    /// The index of the slot this handle is bound to in `host`.
    pub fn bound_slot(&self, host: &Host) -> (slot: Option<usize>)
        ensures
            match slot {
                Some(i) => self.slot_in(host@) == Some(i as int),
                None => self.slot_in(host@) is None,
            },
    {
        match self.state {
            HandleState::Attached(i) => {
                if i < host.slot_values.len() && host.slot_values[i].len()
                    == self.default_value.len() {
                    Some(i)
                } else {
                    None
                }
            },
            _ => None,
        }
    }

    /// Reads the value; no lock is involved.
    pub fn load(&self, host: &Host) -> (outcome: Result<Vec<u8>, ShmemError>)
        requires
            host@.wf(),
        ensures
            match outcome {
                Ok(value) => {
                    &&& self.slot_in(host@) is Some
                    &&& value@ == host@.slot_values[self.slot_in(host@).unwrap()]
                },
                Err(e) => self.slot_in(host@) is None && e == ShmemError::NotAttached,
            },
    {
        match self.bound_slot(host) {
            None => Err(ShmemError::NotAttached),
            Some(i) => Ok(host.read_slot(i)),
        }
    }

    /// Writes `value`; no lock is involved. The value must have the slot's
    /// size.
    pub fn store(&self, host: &mut Host, value: &Vec<u8>) -> (outcome: Result<(), ShmemError>)
        requires
            old(host)@.wf(),
        ensures
            final(host)@.wf(),
            outcome == (if self.slot_in(old(host)@) is None {
                Err::<(), ShmemError>(ShmemError::NotAttached)
            } else if value@.len() != self.default_value@.len() {
                Err(ShmemError::SizeMismatch)
            } else {
                Ok(())
            }),
            outcome is Ok ==> final(host)@ == old(host)@.with_value_at(
                self.slot_in(old(host)@).unwrap(),
                value@,
            ),
            outcome is Err ==> final(host)@ == old(host)@,
    {
        match self.bound_slot(host) {
            None => Err(ShmemError::NotAttached),
            Some(i) => {
                if value.len() != self.default_value.len() {
                    Err(ShmemError::SizeMismatch)
                } else {
                    host.write_slot(i, value);
                    Ok(())
                }
            },
        }
    }
}

} // verus!
