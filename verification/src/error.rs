//! The ways in which the protocol can be broken. None is recoverable: a caller
//! inside a server aborts startup on any of them.

use vstd::prelude::*;

verus! {

#[derive(Clone, Copy, Debug, PartialEq, Eq, Structural)]
pub enum ShmemError {
    /// The name holds a NUL byte and cannot be handed to the host.
    InvalidName,
    /// The declaration, or another under the same name, was requested before.
    DuplicateName,
    /// A request came after the host had sized the region.
    RequestPhaseOver,
    /// The requested sizes do not fit in the machine's word.
    SizeOverflow,
    /// The attach phase ran for a declaration whose request phase did not.
    NotRequested,
    /// The attach phase ran before the host had sized the region.
    NotAllocated,
    /// The handle is bound to a slot already.
    AlreadyAttached,
    /// A slot of that name exists with another size, or a value of another
    /// size was written to a slot.
    SizeMismatch,
    /// The region has no room left for a new slot.
    OutOfSharedMemory,
    /// The handle was used before it was bound to a slot.
    NotAttached,
    /// The value was touched without holding the lock that guards it.
    LockNotHeld,
    /// The lock is held by another handle.
    LockBusy,
}

} // verus!
