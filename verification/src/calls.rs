//! What the registrar asks of the host, as values. The registrar performs
//! these calls on the modelled host; a caller inside a server performs the
//! same calls, in the same order, on the server.

use vstd::prelude::*;
use crate::error::ShmemError;
use crate::host::{Host, HostView, Phase};
use crate::names::{copy_bytes, valid_name};

verus! {

/// One call into the host.
#[derive(Clone, Debug)]
pub enum HostCall {
    /// Add this many bytes to the size of the region.
    ReserveBytes(usize),
    /// Reserve one lock under this name.
    ReserveNamedLock(Vec<u8>),
    /// Take, in exclusive mode, the lock that serialises the attach phase.
    AcquireInitLock,
    /// Locate the slot of this name and size, making it where it is missing.
    FindOrCreateNamedSlot(Vec<u8>, usize),
    /// Write these bytes over the slot at this place.
    WriteSlot(usize, Vec<u8>),
    /// Give back the lock that serialises the attach phase.
    ReleaseInitLock,
}

/// The mathematical content of a [`HostCall`].
pub enum HostCallView {
    ReserveBytes(nat),
    ReserveNamedLock(Seq<u8>),
    AcquireInitLock,
    FindOrCreateNamedSlot(Seq<u8>, nat),
    WriteSlot(int, Seq<u8>),
    ReleaseInitLock,
}

impl View for HostCall {
    type V = HostCallView;

    open spec fn view(&self) -> HostCallView {
        match *self {
            HostCall::ReserveBytes(n) => HostCallView::ReserveBytes(n as nat),
            HostCall::ReserveNamedLock(name) => HostCallView::ReserveNamedLock(name@),
            HostCall::AcquireInitLock => HostCallView::AcquireInitLock,
            HostCall::FindOrCreateNamedSlot(name, size) => HostCallView::FindOrCreateNamedSlot(
                name@,
                size as nat,
            ),
            HostCall::WriteSlot(index, bytes) => HostCallView::WriteSlot(index as int, bytes@),
            HostCall::ReleaseInitLock => HostCallView::ReleaseInitLock,
        }
    }
}

impl HostCallView {
    /// Why the host refuses the call, if it does.
    pub open spec fn refusal(self, host: HostView) -> Option<ShmemError> {
        match self {
            HostCallView::ReserveBytes(n) => if host.phase != Phase::Requesting {
                Some(ShmemError::RequestPhaseOver)
            } else if host.requested + n > usize::MAX {
                Some(ShmemError::SizeOverflow)
            } else {
                None
            },
            HostCallView::ReserveNamedLock(name) => if !valid_name(name) {
                Some(ShmemError::InvalidName)
            } else if host.phase != Phase::Requesting {
                Some(ShmemError::RequestPhaseOver)
            } else if host.has_lock(name) {
                Some(ShmemError::DuplicateName)
            } else {
                None
            },
            HostCallView::AcquireInitLock => if host.init_lock_held {
                Some(ShmemError::LockBusy)
            } else {
                None
            },
            HostCallView::FindOrCreateNamedSlot(name, size) => host.slot_refusal(name, size),
            HostCallView::WriteSlot(index, bytes) => if !(0 <= index < host.slot_values.len()) {
                Some(ShmemError::NotAttached)
            } else if host.slot_values[index].len() != bytes.len() {
                Some(ShmemError::SizeMismatch)
            } else {
                None
            },
            HostCallView::ReleaseInitLock => None,
        }
    }

    /// The host after the call, where it is not refused.
    pub open spec fn effect(self, host: HostView) -> HostView {
        match self {
            HostCallView::ReserveBytes(n) => host.with_bytes(n),
            HostCallView::ReserveNamedLock(name) => host.with_lock(name),
            HostCallView::AcquireInitLock => host.with_init_lock(true),
            HostCallView::FindOrCreateNamedSlot(name, size) => host.located(name, size),
            HostCallView::WriteSlot(index, bytes) => host.with_value_at(index, bytes),
            HostCallView::ReleaseInitLock => host.with_init_lock(false),
        }
    }

    /// What the host hands back: for a slot that was located, its place and
    /// whether it existed; nothing for every other call.
    pub open spec fn answer(self, host: HostView) -> Option<(int, bool)> {
        match self {
            HostCallView::FindOrCreateNamedSlot(name, size) => Some(
                (host.located(name, size).slot_names.index_of(name), host.has_slot(name)),
            ),
            _ => None,
        }
    }
}

/// The answer of the host to a slot lookup, as the machine holds it.
pub open spec fn answer_view(answer: Option<(usize, bool)>) -> Option<(int, bool)> {
    match answer {
        Some((index, found)) => Some((index as int, found)),
        None => None,
    }
}

impl Host {
    /// Performs one call. A refused call changes nothing.
    pub fn perform(&mut self, call: &HostCall) -> (outcome: Result<Option<(usize, bool)>, ShmemError>)
        requires
            old(self)@.wf(),
        ensures
            final(self)@.wf(),
            match outcome {
                Ok(answer) => {
                    &&& call@.refusal(old(self)@) is None
                    &&& final(self)@ == call@.effect(old(self)@)
                    &&& answer_view(answer) == call@.answer(old(self)@)
                },
                Err(e) => {
                    &&& call@.refusal(old(self)@) == Some(e)
                    &&& final(self)@ == old(self)@
                },
            },
    {
        match call {
            HostCall::ReserveBytes(n) => match self.reserve_bytes(*n) {
                Ok(()) => Ok(None),
                Err(e) => Err(e),
            },
            HostCall::ReserveNamedLock(name) => match self.reserve_named_lock(name) {
                Ok(()) => Ok(None),
                Err(e) => Err(e),
            },
            HostCall::AcquireInitLock => match self.acquire_init_lock() {
                Ok(()) => Ok(None),
                Err(e) => Err(e),
            },
            HostCall::FindOrCreateNamedSlot(name, size) => match self.find_or_create_named_slot(
                name,
                *size,
            ) {
                Ok(located) => Ok(Some(located)),
                Err(e) => Err(e),
            },
            HostCall::WriteSlot(index, bytes) => {
                if *index >= self.slot_values.len() {
                    Err(ShmemError::NotAttached)
                } else if self.slot_values[*index].len() != bytes.len() {
                    Err(ShmemError::SizeMismatch)
                } else {
                    self.write_slot(*index, bytes);
                    Ok(None)
                }
            },
            HostCall::ReleaseInitLock => {
                self.release_init_lock();
                Ok(None)
            },
        }
    }
}

/// The calls of the request phase of a guarded declaration: the value's
/// bytes, then one lock under the declaration's name.
pub fn request_calls_locked(name: &Vec<u8>, size: usize) -> (calls: Vec<HostCall>)
    ensures
        calls@.len() == 2,
        calls@[0]@ == HostCallView::ReserveBytes(size as nat),
        calls@[1]@ == HostCallView::ReserveNamedLock(name@),
{
    let mut calls: Vec<HostCall> = Vec::new();
    calls.push(HostCall::ReserveBytes(size));
    calls.push(HostCall::ReserveNamedLock(copy_bytes(name)));
    calls
}

/// The calls of the request phase of a lock-free declaration: the value's
/// bytes.
pub fn request_calls_atomic(size: usize) -> (calls: Vec<HostCall>)
    ensures
        calls@.len() == 1,
        calls@[0]@ == HostCallView::ReserveBytes(size as nat),
{
    let mut calls: Vec<HostCall> = Vec::new();
    calls.push(HostCall::ReserveBytes(size));
    calls
}

/// The calls that open the attach phase: the lock that serialises it is
/// taken, then the slot is located.
pub fn attach_calls_opening(name: &Vec<u8>, size: usize) -> (calls: Vec<HostCall>)
    ensures
        calls@.len() == 2,
        calls@[0]@ == HostCallView::AcquireInitLock,
        calls@[1]@ == HostCallView::FindOrCreateNamedSlot(name@, size as nat),
{
    let mut calls: Vec<HostCall> = Vec::new();
    calls.push(HostCall::AcquireInitLock);
    calls.push(HostCall::FindOrCreateNamedSlot(copy_bytes(name), size));
    calls
}

/// The calls that close the attach phase once the slot was located at
/// `index`: the default value is written over it, then the lock is given
/// back.
pub fn attach_calls_closing(index: usize, default_value: &Vec<u8>) -> (calls: Vec<HostCall>)
    ensures
        calls@.len() == 2,
        calls@[0]@ == HostCallView::WriteSlot(index as int, default_value@),
        calls@[1]@ == HostCallView::ReleaseInitLock,
{
    let mut calls: Vec<HostCall> = Vec::new();
    calls.push(HostCall::WriteSlot(index, copy_bytes(default_value)));
    calls.push(HostCall::ReleaseInitLock);
    calls
}

} // verus!
