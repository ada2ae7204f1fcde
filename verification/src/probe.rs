//! Converting the platform's residency report to bytes.
//!
//! The platform's region query reports how many pages of a mapping are
//! currently backed by physical memory; together with the platform's
//! page-shift constant that count becomes a byte size. The query itself is a
//! syscall made by the platform glue; the conversion is here.

use vstd::prelude::*;
use vstd::arithmetic::power2::pow2;
use vstd::bits::lemma_u64_shl_is_mul;

verus! {

/// Bytes of physical memory behind `pages_resident` pages of `1 <<
/// page_shift` bytes each.
pub fn resident_size_bytes(pages_resident: u32, page_shift: u32) -> (r: usize)
    requires
        page_shift < 64,
        pages_resident * pow2(page_shift as nat) <= usize::MAX,
    ensures
        r == pages_resident * pow2(page_shift as nat),
{
    let bytes: u64 = (pages_resident as u64) << (page_shift as u64);
    proof {
        lemma_u64_shl_is_mul(pages_resident as u64, page_shift as u64);
    }
    bytes as usize
}

} // verus!
