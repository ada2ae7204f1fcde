//! Errors reported while reserving memory for an instance.
//!
//! Only allocation-time failures are reported as values: the engine then
//! simply fails to instantiate. A denied growth is reported as `None` from
//! `grow`, and a protection change that the platform refuses after it granted
//! the mapping is a contract violation that the platform glue turns into an
//! abort rather than a value of this type.

use vstd::prelude::*;

verus! {

/// Why a reservation could not be made.
#[derive(Clone, Copy, Debug, PartialEq, Eq, Structural)]
pub enum MemoryError {
    /// The byte-size arithmetic for the requested range overflowed `u64`.
    SizeOverflow,
    /// The platform could not satisfy the address-space reservation; the
    /// field carries the kernel's return code.
    ReservationFailed(i32),
}

} // verus!
