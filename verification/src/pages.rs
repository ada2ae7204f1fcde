//! Conversions between wasm page counts and byte sizes.

use vstd::prelude::*;
use crate::WASM_PAGE_SIZE;

verus! {

/// The byte size of `pages` wasm pages.
pub open spec fn page_bytes(pages: int) -> int {
    pages * (WASM_PAGE_SIZE as int)
}

/// Converts a wasm page count to its byte size. The product of a `u32` page
/// count and the wasm page size always fits in a `u64`.
pub fn bytes_of_pages(pages: u32) -> (r: u64)
    ensures
        r == page_bytes(pages as int),
{
    (pages as u64) * WASM_PAGE_SIZE
}

} // verus!
