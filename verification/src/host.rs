//! The host engine as this library sees it: a ledger of size and lock
//! requests that is closed once, a registry of named slots, and the one lock
//! that serialises the attach phase.

use vstd::prelude::*;
use crate::error::ShmemError;
use crate::names::{copy_bytes, find_name, is_valid_name, lemma_index_of_unique, lemma_push_fresh, name_views, valid_name};

verus! {

/// Where the host stands in its startup sequence.
#[derive(Clone, Copy, Debug, PartialEq, Eq, Structural)]
pub enum Phase {
    /// Requests are taken; the region does not exist yet.
    Requesting,
    /// The region was sized from the ledger; slots can be located.
    Attaching,
}

/// The host's ledger and slot registry.
pub struct Host {
    pub phase: Phase,
    pub requested_bytes: usize,
    pub used_bytes: usize,
    pub init_lock_held: bool,
    pub lock_names: Vec<Vec<u8>>,
    pub lock_held: Vec<bool>,
    pub slot_names: Vec<Vec<u8>>,
    pub slot_values: Vec<Vec<u8>>,
}

/// The mathematical content of a [`Host`].
pub struct HostView {
    pub phase: Phase,
    pub requested: nat,
    pub used: nat,
    pub init_lock_held: bool,
    pub lock_names: Seq<Seq<u8>>,
    pub lock_held: Seq<bool>,
    pub slot_names: Seq<Seq<u8>>,
    pub slot_values: Seq<Seq<u8>>,
}

impl HostView {
    /// A host before any request.
    pub open spec fn empty() -> HostView {
        HostView {
            phase: Phase::Requesting,
            requested: 0,
            used: 0,
            init_lock_held: false,
            lock_names: Seq::empty(),
            lock_held: Seq::empty(),
            slot_names: Seq::empty(),
            slot_values: Seq::empty(),
        }
    }

    /// No lock and no slot is registered twice, every lock has a state, every
    /// slot has a value, and the slots fit in what was requested.
    pub open spec fn wf(self) -> bool {
        &&& self.lock_names.no_duplicates()
        &&& self.lock_held.len() == self.lock_names.len()
        &&& self.slot_names.no_duplicates()
        &&& self.slot_values.len() == self.slot_names.len()
        &&& self.used <= self.requested
        &&& self.requested <= usize::MAX
    }

    pub open spec fn has_lock(self, name: Seq<u8>) -> bool {
        self.lock_names.contains(name)
    }

    pub open spec fn has_slot(self, name: Seq<u8>) -> bool {
        self.slot_names.contains(name)
    }

    /// The value in the slot called `name`.
    pub open spec fn slot_value(self, name: Seq<u8>) -> Seq<u8>
        recommends
            self.has_slot(name),
    {
        self.slot_values[self.slot_names.index_of(name)]
    }

    /// Whether the lock called `name` is held.
    pub open spec fn lock_is_held(self, name: Seq<u8>) -> bool
        recommends
            self.has_lock(name),
    {
        self.lock_held[self.lock_names.index_of(name)]
    }

    /// The ledger after `n` more bytes were requested.
    pub open spec fn with_bytes(self, n: nat) -> HostView {
        HostView { requested: self.requested + n, ..self }
    }

    /// The ledger after a lock called `name` was reserved.
    pub open spec fn with_lock(self, name: Seq<u8>) -> HostView {
        HostView {
            lock_names: self.lock_names.push(name),
            lock_held: self.lock_held.push(false),
            ..self
        }
    }

    /// The host after the ledger was closed.
    pub open spec fn allocated(self) -> HostView {
        HostView { phase: Phase::Attaching, ..self }
    }

    /// The registry after a new slot called `name` was made, filled with
    /// `size` zero bytes.
    pub open spec fn with_new_slot(self, name: Seq<u8>, size: nat) -> HostView {
        HostView {
            used: self.used + size,
            slot_names: self.slot_names.push(name),
            slot_values: self.slot_values.push(Seq::new(size, |i: int| 0u8)),
            ..self
        }
    }

    /// The registry after `value` was written to the slot at `index`.
    pub open spec fn with_value_at(self, index: int, value: Seq<u8>) -> HostView {
        HostView { slot_values: self.slot_values.update(index, value), ..self }
    }

    /// The host after the lock that serialises the attach phase was taken or
    /// given back.
    pub open spec fn with_init_lock(self, held: bool) -> HostView {
        HostView { init_lock_held: held, ..self }
    }

    /// The host after the lock at `index` was taken or given back.
    pub open spec fn with_lock_state(self, index: int, held: bool) -> HostView {
        HostView { lock_held: self.lock_held.update(index, held), ..self }
    }

    /// Why a request for a slot called `name` of `size` bytes fails, if it
    /// does.
    pub open spec fn slot_refusal(self, name: Seq<u8>, size: nat) -> Option<ShmemError> {
        if !valid_name(name) {
            Some(ShmemError::InvalidName)
        } else if self.phase != Phase::Attaching {
            Some(ShmemError::NotAllocated)
        } else if self.has_slot(name) {
            if self.slot_value(name).len() != size {
                Some(ShmemError::SizeMismatch)
            } else {
                None
            }
        } else if self.used + size > self.requested {
            Some(ShmemError::OutOfSharedMemory)
        } else {
            None
        }
    }

    /// The registry once a slot called `name` of `size` bytes was located:
    /// unchanged where it existed, one slot longer where it did not.
    pub open spec fn located(self, name: Seq<u8>, size: nat) -> HostView {
        if self.has_slot(name) {
            self
        } else {
            self.with_new_slot(name, size)
        }
    }
}

impl View for Host {
    type V = HostView;

    open spec fn view(&self) -> HostView {
        HostView {
            phase: self.phase,
            requested: self.requested_bytes as nat,
            used: self.used_bytes as nat,
            init_lock_held: self.init_lock_held,
            lock_names: name_views(self.lock_names@),
            lock_held: self.lock_held@,
            slot_names: name_views(self.slot_names@),
            slot_values: name_views(self.slot_values@),
        }
    }
}

impl Host {
    /// A host before any request.
    pub fn new() -> (host: Host)
        ensures
            host@ == HostView::empty(),
            host@.wf(),
    {
        let host = Host {
            phase: Phase::Requesting,
            requested_bytes: 0,
            used_bytes: 0,
            init_lock_held: false,
            lock_names: Vec::new(),
            lock_held: Vec::new(),
            slot_names: Vec::new(),
            slot_values: Vec::new(),
        };
        assert(host@.lock_names =~= Seq::empty());
        assert(host@.slot_names =~= Seq::empty());
        assert(host@.slot_values =~= Seq::empty());
        host
    }

    /// Adds `n` bytes to the size that the region will have. Refused once the
    /// region was sized, and where the sum does not fit in a `usize`.
    pub fn reserve_bytes(&mut self, n: usize) -> (outcome: Result<(), ShmemError>)
        requires
            old(self)@.wf(),
        ensures
            final(self)@.wf(),
            outcome == (if old(self)@.phase != Phase::Requesting {
                Err::<(), ShmemError>(ShmemError::RequestPhaseOver)
            } else if old(self)@.requested + n > usize::MAX {
                Err(ShmemError::SizeOverflow)
            } else {
                Ok(())
            }),
            outcome is Ok ==> final(self)@ == old(self)@.with_bytes(n as nat),
            outcome is Err ==> final(self)@ == old(self)@,
    {
        match self.phase {
            Phase::Attaching => Err(ShmemError::RequestPhaseOver),
            Phase::Requesting => match self.requested_bytes.checked_add(n) {
                None => Err(ShmemError::SizeOverflow),
                Some(total) => {
                    self.requested_bytes = total;
                    Ok(())
                },
            },
        }
    }

    /// Reserves one lock under `name`. Refused for a name with a NUL byte,
    /// once the region was sized, and for a name reserved before.
    pub fn reserve_named_lock(&mut self, name: &Vec<u8>) -> (outcome: Result<(), ShmemError>)
        requires
            old(self)@.wf(),
        ensures
            final(self)@.wf(),
            outcome == (if !valid_name(name@) {
                Err::<(), ShmemError>(ShmemError::InvalidName)
            } else if old(self)@.phase != Phase::Requesting {
                Err(ShmemError::RequestPhaseOver)
            } else if old(self)@.has_lock(name@) {
                Err(ShmemError::DuplicateName)
            } else {
                Ok(())
            }),
            outcome is Ok ==> final(self)@ == old(self)@.with_lock(name@),
            outcome is Err ==> final(self)@ == old(self)@,
    {
        if !is_valid_name(name) {
            return Err(ShmemError::InvalidName);
        }
        match self.phase {
            Phase::Attaching => {
                return Err(ShmemError::RequestPhaseOver);
            },
            Phase::Requesting => {},
        }
        if find_name(&self.lock_names, name).is_some() {
            return Err(ShmemError::DuplicateName);
        }
        self.lock_names.push(copy_bytes(name));
        self.lock_held.push(false);
        proof {
            lemma_push_fresh(old(self)@.lock_names, name@);
            assert(self@.lock_names =~= old(self)@.lock_names.push(name@));
        }
        Ok(())
    }

    /// Closes the ledger: the region is sized from what was requested, and
    /// slots can be located from now on. Refused the second time.
    pub fn allocate(&mut self) -> (outcome: Result<(), ShmemError>)
        requires
            old(self)@.wf(),
        ensures
            final(self)@.wf(),
            outcome == (if old(self)@.phase != Phase::Requesting {
                Err::<(), ShmemError>(ShmemError::RequestPhaseOver)
            } else {
                Ok(())
            }),
            outcome is Ok ==> final(self)@ == old(self)@.allocated(),
            outcome is Err ==> final(self)@ == old(self)@,
    {
        match self.phase {
            Phase::Attaching => Err(ShmemError::RequestPhaseOver),
            Phase::Requesting => {
                self.phase = Phase::Attaching;
                Ok(())
            },
        }
    }

    /// Takes, in exclusive mode, the lock that serialises the attach phase. In
    /// a server the call would wait for the holder; here a held lock is
    /// reported.
    pub fn acquire_init_lock(&mut self) -> (outcome: Result<(), ShmemError>)
        requires
            old(self)@.wf(),
        ensures
            final(self)@.wf(),
            outcome == (if old(self)@.init_lock_held {
                Err::<(), ShmemError>(ShmemError::LockBusy)
            } else {
                Ok(())
            }),
            outcome is Ok ==> final(self)@ == old(self)@.with_init_lock(true),
            outcome is Err ==> final(self)@ == old(self)@,
    {
        if self.init_lock_held {
            Err(ShmemError::LockBusy)
        } else {
            self.init_lock_held = true;
            Ok(())
        }
    }

    /// Gives back the lock that serialises the attach phase.
    pub fn release_init_lock(&mut self)
        requires
            old(self)@.wf(),
        ensures
            final(self)@.wf(),
            final(self)@ == old(self)@.with_init_lock(false),
    {
        self.init_lock_held = false;
    }

    /// Locates the slot called `name`, making it where it does not exist.
    /// Returns its index and whether it existed. A new slot holds `size` zero
    /// bytes. Refused for a name with a NUL byte, before the region was sized,
    /// for an existing slot of another size, and where a new slot does not
    /// fit in what is left of the region.
    pub fn find_or_create_named_slot(&mut self, name: &Vec<u8>, size: usize) -> (outcome: Result<
        (usize, bool),
        ShmemError,
    >)
        requires
            old(self)@.wf(),
        ensures
            final(self)@.wf(),
            match outcome {
                Ok((index, found)) => {
                    &&& old(self)@.slot_refusal(name@, size as nat) is None
                    &&& found == old(self)@.has_slot(name@)
                    &&& final(self)@ == old(self)@.located(name@, size as nat)
                    &&& final(self)@.has_slot(name@)
                    &&& index as int == final(self)@.slot_names.index_of(name@)
                    &&& index < final(self)@.slot_names.len()
                    &&& final(self)@.slot_names[index as int] == name@
                    &&& final(self)@.slot_values[index as int].len() == size
                },
                Err(e) => {
                    &&& old(self)@.slot_refusal(name@, size as nat) == Some(e)
                    &&& final(self)@ == old(self)@
                },
            },
    {
        if !is_valid_name(name) {
            return Err(ShmemError::InvalidName);
        }
        match self.phase {
            Phase::Requesting => {
                return Err(ShmemError::NotAllocated);
            },
            Phase::Attaching => {},
        }
        match find_name(&self.slot_names, name) {
            Some(index) => {
                proof {
                    lemma_index_of_unique(self@.slot_names, name@, index as int);
                }
                if self.slot_values[index].len() != size {
                    Err(ShmemError::SizeMismatch)
                } else {
                    Ok((index, true))
                }
            },
            None => {
                if size > self.requested_bytes - self.used_bytes {
                    return Err(ShmemError::OutOfSharedMemory);
                }
                let index = self.slot_names.len();
                let mut zeros: Vec<u8> = Vec::new();
                let mut i: usize = 0;
                while i < size
                    invariant
                        i <= size,
                        zeros@ == Seq::new(i as nat, |k: int| 0u8),
                    decreases size - i,
                {
                    zeros.push(0u8);
                    assert(zeros@ =~= Seq::new((i + 1) as nat, |k: int| 0u8));
                    i += 1;
                }
                self.used_bytes = self.used_bytes + size;
                self.slot_names.push(copy_bytes(name));
                self.slot_values.push(zeros);
                proof {
                    lemma_push_fresh(old(self)@.slot_names, name@);
                    assert(self@.slot_names =~= old(self)@.slot_names.push(name@));
                    assert(self@.slot_values =~= old(self)@.slot_values.push(
                        Seq::new(size as nat, |k: int| 0u8),
                    ));
                }
                Ok((index, false))
            },
        }
    }

    /// Writes `value` over the slot at `index`.
    pub fn write_slot(&mut self, index: usize, value: &Vec<u8>)
        requires
            old(self)@.wf(),
            index < old(self)@.slot_names.len(),
            value@.len() == old(self)@.slot_values[index as int].len(),
        ensures
            final(self)@.wf(),
            final(self)@ == old(self)@.with_value_at(index as int, value@),
    {
        self.slot_values.set(index, copy_bytes(value));
        proof {
            assert(self@.slot_values =~= old(self)@.slot_values.update(index as int, value@));
        }
    }

    /// A copy of the value in the slot at `index`.
    pub fn read_slot(&self, index: usize) -> (value: Vec<u8>)
        requires
            self@.wf(),
            index < self@.slot_names.len(),
        ensures
            value@ == self@.slot_values[index as int],
    {
        copy_bytes(&self.slot_values[index])
    }

    /// Marks the lock at `index` as held or free.
    pub fn set_lock_state(&mut self, index: usize, held: bool)
        requires
            old(self)@.wf(),
            index < old(self)@.lock_names.len(),
        ensures
            final(self)@.wf(),
            final(self)@ == old(self)@.with_lock_state(index as int, held),
    {
        self.lock_held.set(index, held);
    }
}

} // verus!
