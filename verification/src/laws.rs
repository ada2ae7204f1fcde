//! What holds of every growth sequence, stated once and proved.
//!
//! Each lemma speaks over `grow_post` and `grow_result`, the spec-level model
//! that `MachMemory::grow` is proved to follow exactly, so what is shown here
//! holds of every run of the executable code.

use vstd::prelude::*;
use crate::memory::{grow_post, grow_result, MachMemory};
use crate::pages::page_bytes;

verus! {

/// Growth is monotonic: the page count never decreases, and a denied growth
/// changes nothing at all.
pub proof fn lemma_grow_monotonic(m: MachMemory, delta: u32)
    ensures
        grow_post(m, delta).wasm_pages >= m.wasm_pages,
        grow_result(m, delta) is None ==> grow_post(m, delta) == m,
{
}

/// The state after growing `m` by each delta of `deltas` in turn.
pub open spec fn grow_post_seq(m: MachMemory, deltas: Seq<u32>) -> MachMemory
    decreases deltas.len(),
{
    if deltas.len() == 0 {
        m
    } else {
        grow_post_seq(grow_post(m, deltas[0]), deltas.subrange(1, deltas.len() as int))
    }
}

/// Over any sequence of `grow` calls on one instance, the page count is
/// non-decreasing, the base address, the mapped size and the guard size are
/// identical throughout, and a well-formed instance stays well-formed.
pub proof fn lemma_grow_sequence_monotonic(m: MachMemory, deltas: Seq<u32>)
    ensures
        grow_post_seq(m, deltas).wasm_pages >= m.wasm_pages,
        grow_post_seq(m, deltas).address == m.address,
        grow_post_seq(m, deltas).mapped_bytes == m.mapped_bytes,
        grow_post_seq(m, deltas).guard_bytes == m.guard_bytes,
        grow_post_seq(m, deltas).wasm_pages_max == m.wasm_pages_max,
        m.wf() ==> grow_post_seq(m, deltas).wf(),
    decreases deltas.len(),
{
    if deltas.len() > 0 {
        lemma_grow_sequence_monotonic(
            grow_post(m, deltas[0]),
            deltas.subrange(1, deltas.len() as int),
        );
    }
}

/// Once growth is denied, it stays denied: after a `grow` that returned
/// `None`, any `grow` by the same or a larger delta returns `None` too.
pub proof fn lemma_denied_growth_persists(m: MachMemory, delta: u32, larger: u32)
    requires
        grow_result(m, delta) is None,
        delta <= larger,
    ensures
        grow_result(grow_post(m, delta), larger) is None,
{
}

/// The configured maximum is enforced: with `wasm_pages_max == Some(max)`,
/// growth is denied whenever it would pass `max`, and succeeds with exactly
/// the new page count whenever it stays within `max` and within the
/// reservation's capacity.
pub proof fn lemma_maximum_enforced(m: MachMemory, delta: u32, max: u32)
    requires
        m.wasm_pages_max == Some(max),
    ensures
        m.wasm_pages + delta > max ==> grow_result(m, delta) is None,
        (m.wasm_pages + delta <= max && page_bytes(m.wasm_pages + delta) + m.guard_bytes
            <= m.mapped_bytes) ==> grow_result(m, delta) == Some((m.wasm_pages + delta) as u32),
{
}

/// The base address is identical before and after every `grow`, successful
/// or denied: growth never relocates the mapping.
pub proof fn lemma_base_address_stable(m: MachMemory, delta: u32)
    ensures
        grow_post(m, delta).address == m.address,
{
}

/// The guard region survives every growth step: the mapped size and the
/// guard size never change, and the accessible region never reaches into the
/// trailing `guard_bytes` of the mapping, so the region the platform glue
/// makes readable and writable after a `grow` stays clear of the guard.
pub proof fn lemma_guard_region_preserved(m: MachMemory, delta: u32)
    requires
        m.wf(),
    ensures
        grow_post(m, delta).wf(),
        grow_post(m, delta).mapped_bytes == m.mapped_bytes,
        grow_post(m, delta).guard_bytes == m.guard_bytes,
        page_bytes(grow_post(m, delta).wasm_pages as int) + m.guard_bytes <= m.mapped_bytes,
{
}

/// Growing by `u32::MAX` from any nonzero page count is denied: the new count
/// would overflow, and the state is left untouched rather than wrapped.
pub proof fn lemma_overflow_growth_denied(m: MachMemory)
    requires
        m.wasm_pages > 0,
    ensures
        grow_result(m, u32::MAX) is None,
        grow_post(m, u32::MAX) == m,
{
}

/// Growing by zero always succeeds, reports the current page count, and
/// changes nothing.
pub proof fn lemma_zero_growth_identity(m: MachMemory)
    requires
        m.wf(),
    ensures
        grow_result(m, 0) == Some(m.wasm_pages),
        grow_post(m, 0) == m,
{
}

} // verus!
