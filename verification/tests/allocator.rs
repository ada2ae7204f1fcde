use mach_memory::error::MemoryError;
use mach_memory::memory::MachMemory;
use mach_memory::pages::bytes_of_pages;
use mach_memory::probe::resident_size_bytes;
use mach_memory::reservation::{
    plan_reservation, protection_change_succeeded, reservation_outcome, MachAllocator,
};
use mach_memory::WASM_PAGE_SIZE;

const PAGE: u64 = WASM_PAGE_SIZE;

fn memory(min_pages: u32, reserved_pages: u64, guard: u64, max: Option<u32>) -> MachMemory {
    let plan = plan_reservation(min_pages, Some(reserved_pages * PAGE), guard).unwrap();
    MachMemory::from_plan(&plan, 0x1_0000_0000, min_pages, max)
}

#[test]
fn bytes_of_pages_exact() {
    assert_eq!(bytes_of_pages(0), 0);
    assert_eq!(bytes_of_pages(1), 65536);
    assert_eq!(bytes_of_pages(1024), 1024 * 65536);
    assert_eq!(bytes_of_pages(u32::MAX), (u32::MAX as u64) * 65536);
}

#[test]
fn plan_exact_values() {
    let plan = plan_reservation(1, None, 4096).unwrap();
    assert_eq!(plan.accessible_bytes, 65536);
    assert_eq!(plan.guard_bytes, 4096);
    assert_eq!(plan.mapped_bytes, 69632);
}

#[test]
fn plan_uses_requested_reservation() {
    let plan = plan_reservation(2, Some(100 * PAGE), 0).unwrap();
    assert_eq!(plan.accessible_bytes, 2 * PAGE);
    assert_eq!(plan.mapped_bytes, 100 * PAGE);
    assert_eq!(plan.guard_bytes, 0);
}

#[test]
fn plan_size_overflow() {
    assert_eq!(
        plan_reservation(1, Some(u64::MAX), 1),
        Err(MemoryError::SizeOverflow)
    );
    assert_eq!(
        plan_reservation(1, None, u64::MAX),
        Err(MemoryError::SizeOverflow)
    );
}

#[test]
fn plan_guard_may_be_zero() {
    let plan = plan_reservation(3, None, 0).unwrap();
    assert_eq!(plan.accessible_bytes, 3 * PAGE);
    assert_eq!(plan.mapped_bytes, 3 * PAGE);
}

#[test]
fn guard_region_follows_accessible_region() {
    let plan = plan_reservation(1, Some(8 * PAGE), 4096).unwrap();
    let (start, len) = plan.guard_region(0x2_0000);
    assert_eq!(start, 0x2_0000 + PAGE);
    assert_eq!(len, 7 * PAGE + 4096);
}

#[test]
fn reservation_outcome_reports_address_or_code() {
    assert_eq!(reservation_outcome(0, 0xdead_0000), Ok(0xdead_0000));
    assert_eq!(
        reservation_outcome(3, 0),
        Err(MemoryError::ReservationFailed(3))
    );
}

#[test]
fn protection_outcome() {
    assert!(protection_change_succeeded(0));
    assert!(!protection_change_succeeded(1));
    assert!(!protection_change_succeeded(-304));
}

#[test]
fn allocator_keeps_task_port() {
    let alloc = MachAllocator::new(0x907);
    assert_eq!(alloc.task_port(), 0x907);
}

#[test]
fn grow_within_capacity() {
    let mut m = memory(1, 1024, PAGE, None);
    assert_eq!(m.size(), 1);
    assert_eq!(m.grow(1), Some(2));
    assert_eq!(m.size(), 2);
    assert_eq!(m.accessible_bytes(), 2 * PAGE);
    assert_eq!(m.grow(100), Some(102));
    assert_eq!(m.size(), 102);
}

#[test]
fn grow_respects_maximum() {
    let mut m = memory(1, 1024, 0, Some(5));
    assert_eq!(m.maximum(), Some(5));
    assert_eq!(m.grow(5), None);
    assert_eq!(m.size(), 1);
    assert_eq!(m.grow(4), Some(5));
    assert_eq!(m.grow(1), None);
    assert_eq!(m.size(), 5);
}

#[test]
fn grow_respects_reservation_capacity() {
    let mut m = memory(1, 2, PAGE, None);
    assert_eq!(m.grow(2), None);
    assert_eq!(m.size(), 1);
    assert_eq!(m.grow(1), Some(2));
    assert_eq!(m.grow(1), None);
    assert_eq!(m.size(), 2);
}

#[test]
fn grow_zero_is_idempotent() {
    let mut m = memory(7, 16, 4096, Some(16));
    let base = m.base_address();
    assert_eq!(m.grow(0), Some(7));
    assert_eq!(m.grow(0), Some(7));
    assert_eq!(m.size(), 7);
    assert_eq!(m.base_address(), base);
    assert_eq!(m.accessible_bytes(), 7 * PAGE);
}

#[test]
fn grow_by_u32_max_is_denied() {
    let mut m = memory(1, 1024, 0, None);
    assert_eq!(m.grow(u32::MAX), None);
    assert_eq!(m.size(), 1);
}

#[test]
fn denied_growth_stays_denied() {
    let mut m = memory(1, 4, 0, None);
    assert_eq!(m.grow(10), None);
    assert_eq!(m.grow(10), None);
    assert_eq!(m.grow(11), None);
    assert_eq!(m.size(), 1);
}

#[test]
fn base_address_stable_across_grow() {
    let mut m = memory(1, 1024, PAGE, None);
    let before = m.base_address();
    assert_eq!(m.grow(17), Some(18));
    assert_eq!(m.base_address(), before);
    assert_eq!(m.grow(1_000_000), None);
    assert_eq!(m.base_address(), before);
}

#[test]
fn resident_size_conversion() {
    assert_eq!(resident_size_bytes(0, 14), 0);
    assert_eq!(resident_size_bytes(3, 12), 3 * 4096);
    assert_eq!(resident_size_bytes(1, 16), 65536);
}
