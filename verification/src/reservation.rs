//! Planning one contiguous virtual-memory reservation.
//!
//! A reservation backs one instance's linear memory: the accessible region
//! for the minimum page count, then everything up to the mapped size kept
//! inaccessible until growth makes it reachable. The platform glue performs
//! the actual mapping and protection syscalls; the arithmetic and the
//! decisions are here.

use vstd::prelude::*;
use crate::error::MemoryError;
use crate::pages::{bytes_of_pages, page_bytes};

verus! {

/// The kernel return code that means success.
pub const KERN_RETURN_SUCCESS: i32 = 0;

/// The capability needed to issue memory syscalls: the port of the task whose
/// address space holds the reservations. Obtained once from the platform glue
/// at startup, immutable afterwards.
pub struct MachAllocator {
    pub task: u32,
}

impl MachAllocator {
    /// Wraps the task port under which all reservations will be made.
    pub fn new(task: u32) -> (r: MachAllocator)
        ensures
            r.task == task,
    {
        MachAllocator { task }
    }

    /// The task port to pass to the platform's memory syscalls.
    pub fn task_port(&self) -> (r: u32)
        ensures
            r == self.task,
    {
        self.task
    }
}

/// The sizes of one reservation before any address is known.
#[derive(Clone, Copy, Debug, PartialEq, Eq)]
pub struct ReservationPlan {
    /// Byte size of the initially accessible region.
    pub accessible_bytes: u64,
    /// Total byte size of the range to map: the requested reservation plus
    /// the guard region.
    pub mapped_bytes: u64,
    /// Byte size of the trailing guard region.
    pub guard_bytes: u64,
}

impl ReservationPlan {
    /// The accessible region and the trailing guard region both fit in the
    /// mapped range.
    pub open spec fn wf(self) -> bool {
        self.accessible_bytes + self.guard_bytes <= self.mapped_bytes
    }

    /// The sub-range of the mapping that must be made inaccessible right
    /// after the range is mapped at `base`: everything past the initially
    /// accessible region. Returns its start address and its byte length.
    pub fn guard_region(&self, base: u64) -> (r: (u64, u64))
        requires
            self.wf(),
            base + self.mapped_bytes <= u64::MAX,
        ensures
            r.0 == base + self.accessible_bytes,
            r.1 == self.mapped_bytes - self.accessible_bytes,
    {
        (base + self.accessible_bytes, self.mapped_bytes - self.accessible_bytes)
    }
}

/// The byte size the engine asked to reserve: the explicit request if one was
/// given, otherwise the accessible size of the minimum page count.
pub open spec fn requested_bytes(min_pages: u32, reserved_size: Option<u64>) -> int {
    match reserved_size {
        Some(reserved) => reserved as int,
        None => page_bytes(min_pages as int),
    }
}

/// Computes the sizes of the reservation for an instance whose memory starts
/// at `min_pages` pages, with `guard_size` guard bytes after it.
///
/// An explicit `reserved_size` must cover the accessible size of the minimum
/// page count: growth may enlarge the accessible region within the
/// reservation, never shrink it below the minimum. Returns `SizeOverflow`
/// exactly when the reserved size plus the guard size overflows `u64`.
pub fn plan_reservation(min_pages: u32, reserved_size: Option<u64>, guard_size: u64) -> (r:
    Result<ReservationPlan, MemoryError>)
    requires
        reserved_size matches Some(reserved) ==> page_bytes(min_pages as int) <= reserved,
    ensures
        r is Ok <==> requested_bytes(min_pages, reserved_size) + guard_size <= u64::MAX,
        r matches Ok(plan) ==> {
            &&& plan.wf()
            &&& plan.accessible_bytes == page_bytes(min_pages as int)
            &&& plan.guard_bytes == guard_size
            &&& plan.mapped_bytes == requested_bytes(min_pages, reserved_size) + guard_size
        },
        r is Err ==> r == Err::<ReservationPlan, MemoryError>(MemoryError::SizeOverflow),
{
    let accessible_bytes = bytes_of_pages(min_pages);
    let reserved = match reserved_size {
        Some(reserved) => reserved,
        None => accessible_bytes,
    };
    if guard_size > u64::MAX - reserved {
        return Err(MemoryError::SizeOverflow);
    }
    Ok(ReservationPlan {
        accessible_bytes,
        mapped_bytes: reserved + guard_size,
        guard_bytes: guard_size,
    })
}

/// Interprets the kernel's answer to the mapping request: the address it
/// chose on success, `ReservationFailed` with the kernel's code otherwise.
pub fn reservation_outcome(code: i32, address: u64) -> (r: Result<u64, MemoryError>)
    ensures
        code == KERN_RETURN_SUCCESS ==> r == Ok::<u64, MemoryError>(address),
        code != KERN_RETURN_SUCCESS ==> r == Err::<u64, MemoryError>(
            MemoryError::ReservationFailed(code),
        ),
{
    if code == KERN_RETURN_SUCCESS {
        Ok(address)
    } else {
        Err(MemoryError::ReservationFailed(code))
    }
}

/// Whether a protection-change syscall succeeded. A failure after the kernel
/// granted the mapping is unrecoverable: the platform glue must abort rather
/// than leave guard pages accessible.
pub fn protection_change_succeeded(code: i32) -> (r: bool)
    ensures
        r == (code == KERN_RETURN_SUCCESS),
{
    code == KERN_RETURN_SUCCESS
}

} // verus!
