//! Queue memory layout arithmetic for the legacy addressing scheme.
//!
//! Under the legacy protocol one contiguous, page-aligned allocation holds
//! the descriptor table, the driver (available) ring and the device (used)
//! ring of a queue, in that order, with the device area rounded up to the
//! next page boundary.  The device is told only the page number of the
//! descriptor table, so the relative offsets of the three areas are fixed
//! by the queue size and must be checked before programming the device.

use vstd::prelude::*;

verus! {

/// A guest physical address.
pub type PhysAddr = u64;

/// The page size both sides assume under the legacy addressing scheme.
pub const PAGE_SIZE: u64 = 4096;

/// The size in bytes of one descriptor-table entry: a 64-bit buffer
/// address, a 32-bit length, and two 16-bit link/flag words.
pub const DESC_ENTRY_SIZE: u64 = 16;

/// `size` rounded up to the next multiple of the page size.
pub open spec fn spec_align_up(size: int) -> int {
    ((size + PAGE_SIZE - 1) / (PAGE_SIZE as int)) * (PAGE_SIZE as int)
}

/// Rounds a region size up to the next page boundary.
pub fn align_up(size: u64) -> (aligned: u64)
    requires
        size + PAGE_SIZE - 1 <= u64::MAX,
    ensures
        aligned == spec_align_up(size as int),
{
    ((size + (PAGE_SIZE - 1)) / PAGE_SIZE) * PAGE_SIZE
}

/// The legacy layout contract on a queue of `size` entries: the driver area
/// starts right after the descriptor table, the device area starts at the
/// next page boundary after the driver ring (whose entries are two bytes,
/// with three trailing words), the descriptor table itself is page aligned,
/// and its page number fits the 32-bit page-number register.
pub open spec fn spec_legacy_layout_ok(
    descriptors: PhysAddr,
    driver_area: PhysAddr,
    device_area: PhysAddr,
    size: u32,
) -> bool {
    &&& driver_area == descriptors + DESC_ENTRY_SIZE * size
    &&& device_area == descriptors + spec_align_up(DESC_ENTRY_SIZE * size + 2 * (size + 3))
    &&& (descriptors as int) % (PAGE_SIZE as int) == 0
    &&& (descriptors as int) / (PAGE_SIZE as int) <= u32::MAX
}

/// Checks the legacy layout contract for a queue of `size` entries at the
/// three given addresses.
pub fn legacy_layout_ok(
    descriptors: PhysAddr,
    driver_area: PhysAddr,
    device_area: PhysAddr,
    size: u32,
) -> (ok: bool)
    ensures
        ok == spec_legacy_layout_ok(descriptors, driver_area, device_area, size),
{
    let table_bytes: u64 = DESC_ENTRY_SIZE * (size as u64);
    let ring_end: u64 = table_bytes + 2 * ((size as u64) + 3);
    let device_offset: u64 = align_up(ring_end);
    let driver_ok: bool = driver_area >= descriptors && driver_area - descriptors == table_bytes;
    let device_ok: bool = device_area >= descriptors && device_area - descriptors == device_offset;
    driver_ok && device_ok && descriptors % PAGE_SIZE == 0 && descriptors / PAGE_SIZE <= 0xffff_ffff
}

} // verus!
