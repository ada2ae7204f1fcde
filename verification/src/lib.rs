//! Host-side virtual-memory management for the linear memory of a sandboxed
//! WebAssembly instance.
//!
//! A single reservation backs each instance: a contiguous virtual address
//! range large enough for the instance's currently accessible pages plus a
//! trailing guard region that is kept inaccessible, so that out-of-bounds
//! accesses fault instead of corrupting neighbouring memory. Growth adjusts
//! page protections in place and never moves the base address, because the
//! engine caches raw pointers into the mapping.
//!
//! The platform syscalls that reserve address space, change protections and
//! query residency live in the unverified platform glue; this crate holds the
//! bookkeeping and the decisions, with contracts.

pub mod error;
pub mod laws;
pub mod memory;
pub mod pages;
pub mod probe;
pub mod reservation;

pub use error::MemoryError;
pub use memory::MachMemory;
pub use reservation::{MachAllocator, ReservationPlan};

use vstd::prelude::*;

verus! {

/// The size of one wasm page in bytes, fixed by the WebAssembly standard.
pub const WASM_PAGE_SIZE: u64 = 65536;

} // verus!
