//! One instance's guarded linear memory.
//!
//! A `MachMemory` owns one reservation: a fixed base address, a fixed mapped
//! size, a fixed trailing guard size, and the one mutable piece of state, the
//! currently accessible page count. Growth raises that count in place — the
//! base address never changes, because the engine caches raw pointers into
//! the mapping — and is denied, with no state change, whenever it would pass
//! the configured maximum or the reservation's capacity.
//!
//! `grow` takes an exclusive reference; an embedder whose engine only hands
//! out shared references must serialize `grow` and `size` on one instance
//! behind a lock of its own.

use vstd::prelude::*;
use crate::pages::{bytes_of_pages, page_bytes};
use crate::reservation::ReservationPlan;

verus! {

/// A reserved virtual address range backing one instance's linear memory.
pub struct MachMemory {
    /// The virtual base address of the mapping; fixed for the instance's
    /// lifetime.
    pub address: u64,
    /// Total byte size of the mapping (accessible region plus everything
    /// reserved for growth plus the guard region); fixed at creation.
    pub mapped_bytes: u64,
    /// Byte size of the trailing guard region; fixed at creation.
    pub guard_bytes: u64,
    /// The currently accessible number of wasm pages; never decreases.
    pub wasm_pages: u32,
    /// The maximum page count this memory may be grown to; `None` leaves
    /// growth bounded only by the reservation's capacity.
    pub wasm_pages_max: Option<u32>,
}

/// Whether growing `m` by `delta` pages is allowed: the new page count must
/// not overflow `u32` nor pass the configured maximum, and the new accessible
/// region together with the guard region must still fit in the mapping.
pub open spec fn grow_allowed(m: MachMemory, delta: u32) -> bool {
    &&& m.wasm_pages + delta <= u32::MAX
    &&& (m.wasm_pages_max matches Some(max) ==> m.wasm_pages + delta <= max)
    &&& page_bytes(m.wasm_pages + delta) + m.guard_bytes <= m.mapped_bytes
}

/// What `grow` returns: the new page count where growth is allowed, `None`
/// where it is denied.
pub open spec fn grow_result(m: MachMemory, delta: u32) -> Option<u32> {
    if grow_allowed(m, delta) {
        Some((m.wasm_pages + delta) as u32)
    } else {
        None
    }
}

/// The state after `grow`: only the page count changes, and only where growth
/// is allowed.
pub open spec fn grow_post(m: MachMemory, delta: u32) -> MachMemory {
    if grow_allowed(m, delta) {
        MachMemory { wasm_pages: (m.wasm_pages + delta) as u32, ..m }
    } else {
        m
    }
}

impl MachMemory {
    /// The accessible region and the trailing guard region fit in the
    /// mapping, the page count respects the configured maximum, and the
    /// mapping lies within the address space.
    pub open spec fn wf(self) -> bool {
        &&& page_bytes(self.wasm_pages as int) + self.guard_bytes <= self.mapped_bytes
        &&& (self.wasm_pages_max matches Some(max) ==> self.wasm_pages <= max)
        &&& self.address + self.mapped_bytes <= u64::MAX
    }

    /// Takes ownership of the range the platform mapped at `address` for
    /// `plan`, accessible for `min_pages` pages and growable up to
    /// `max_pages`.
    pub fn from_plan(plan: &ReservationPlan, address: u64, min_pages: u32, max_pages: Option<
        u32,
    >) -> (r: MachMemory)
        requires
            plan.wf(),
            plan.accessible_bytes == page_bytes(min_pages as int),
            max_pages matches Some(max) ==> min_pages <= max,
            address + plan.mapped_bytes <= u64::MAX,
        ensures
            r.wf(),
            r.address == address,
            r.mapped_bytes == plan.mapped_bytes,
            r.guard_bytes == plan.guard_bytes,
            r.wasm_pages == min_pages,
            r.wasm_pages_max == max_pages,
    {
        MachMemory {
            address,
            mapped_bytes: plan.mapped_bytes,
            guard_bytes: plan.guard_bytes,
            wasm_pages: min_pages,
            wasm_pages_max: max_pages,
        }
    }

    /// The currently accessible page count.
    pub fn size(&self) -> (r: u32)
        ensures
            r == self.wasm_pages,
    {
        self.wasm_pages
    }

    /// The configured maximum page count, if any.
    pub fn maximum(&self) -> (r: Option<u32>)
        ensures
            r == self.wasm_pages_max,
    {
        self.wasm_pages_max
    }

    /// The fixed base address of the mapping. The platform glue hands this
    /// out as the instance's base pointer; it is identical before and after
    /// every `grow`.
    pub fn base_address(&self) -> (r: u64)
        ensures
            r == self.address,
    {
        self.address
    }

    /// Byte size of the currently accessible region. After a successful
    /// `grow` the platform glue makes exactly `[base_address, base_address +
    /// accessible_bytes)` readable and writable, leaving the rest of the
    /// mapping inaccessible.
    pub fn accessible_bytes(&self) -> (r: u64)
        ensures
            r == page_bytes(self.wasm_pages as int),
    {
        bytes_of_pages(self.wasm_pages)
    }

    /// Grows the accessible region by `delta` pages.
    ///
    /// Returns the new page count, or `None` — with the state unchanged —
    /// where the new count would overflow, pass the configured maximum, or
    /// no longer fit in the reservation together with the guard region. The
    /// base address, the mapped size and the guard size never change, and
    /// the page count never decreases.
    pub fn grow(&mut self, delta: u32) -> (r: Option<u32>)
        requires
            old(self).wf(),
        ensures
            final(self).wf(),
            *final(self) == grow_post(*old(self), delta),
            r == grow_result(*old(self), delta),
    {
        if delta > u32::MAX - self.wasm_pages {
            return None;
        }
        let new_pages = self.wasm_pages + delta;
        if let Some(max) = self.wasm_pages_max {
            if new_pages > max {
                return None;
            }
        }
        let new_bytes = bytes_of_pages(new_pages);
        if self.guard_bytes > u64::MAX - new_bytes {
            return None;
        }
        if new_bytes + self.guard_bytes > self.mapped_bytes {
            return None;
        }
        self.wasm_pages = new_pages;
        Some(new_pages)
    }
}

} // verus!
