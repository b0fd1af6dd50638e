//! A model of the shared-memory registration protocol that extension modules
//! follow inside a multi-process database server.
//!
//! The server sizes one shared region at startup. A module first asks for
//! room (the request phase) and later binds its handles to named slots of the
//! region (the attach phase). This crate states that protocol over a model of
//! the host's ledger and slot registry, and proves what callers may rely on.

pub mod names;
pub mod error;
pub mod host;
pub mod calls;
pub mod handles;
pub mod shmem;
pub mod hooks;
pub mod eligible;
pub mod laws;

pub use crate::eligible::PGRXSharedMemory;
pub use crate::error::ShmemError;
pub use crate::handles::{HandleState, PgAtomic, PgLwLock};
pub use crate::hooks::{Hook, HookSlot, StartupHooks};
pub use crate::host::{Host, Phase};
pub use crate::shmem::{pg_shmem_init, PgSharedMem, PgSharedMemoryInitialization};
