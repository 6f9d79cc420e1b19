//! Static description of the target's flash geometry.
//!
//! The descriptor is fixed per build target: base address, total size,
//! page size, erase-unit size, erased-byte value and the ordered sector
//! list. Every operation consumes it; nothing mutates it.

use vstd::prelude::*;

verus! {

use vstd::arithmetic::div_mod::lemma_fundamental_div_mod;
use vstd::arithmetic::mul::lemma_mul_inequality;

/// First address of the target's flash region.
pub const FLASH_BASE: u32 = 0x0;
/// Total flash size of the target in bytes.
pub const FLASH_SIZE: u32 = 1_048_576;
/// Smallest programmable unit of the target in bytes.
pub const PAGE_SIZE: u32 = 2048;
/// Smallest erasable unit of the target in bytes.
pub const SECTOR_SIZE: u32 = 2048;
/// Value every erased flash byte of the target reads as.
pub const EMPTY_VALUE: u8 = 0xFF;

/// One entry of the sector list: from `address` on, sectors are
/// `size` bytes each.
#[derive(Clone, Copy, Debug, PartialEq, Eq, Structural)]
pub struct SectorDesc {
    pub size: u32,
    pub address: u32,
}

/// Flash geometry of a target part. Built once, never mutated.
pub struct FlashDevice {
    /// First address of the flash region.
    pub flash_address: u32,
    /// Total size of the flash region in bytes.
    pub device_size: u32,
    /// Smallest programmable unit in bytes.
    pub page_size: u32,
    /// Smallest erasable unit in bytes.
    pub erase_unit_size: u32,
    /// The value every byte of an erased region reads as.
    pub empty_value: u8,
    /// Ordered sector regions, starting at `flash_address`.
    pub sectors: Vec<SectorDesc>,
}

impl FlashDevice {
    /// Geometry invariant: page and erase unit are non-empty and divide
    /// the device size, the whole region fits the address space, and the
    /// sector list is non-empty, ordered, starts at the base address,
    /// and every listed sector size divides the device size.
    pub open spec fn wf(self) -> bool {
        &&& self.page_size > 0
        &&& self.erase_unit_size > 0
        &&& self.device_size as int % self.page_size as int == 0
        &&& self.device_size as int % self.erase_unit_size as int == 0
        &&& self.flash_address as int + self.device_size as int <= u32::MAX as int + 1
        &&& self.sectors@.len() > 0
        &&& self.sectors@[0].address == self.flash_address
        &&& forall|i: int|
            0 <= i < self.sectors@.len() ==> (#[trigger] self.sectors@[i]).size > 0
                && self.device_size as int % self.sectors@[i].size as int == 0
                && self.flash_address <= self.sectors@[i].address
                && (self.sectors@[i].address as int) < self.flash_address as int
                + self.device_size as int
        &&& forall|i: int, j: int|
            0 <= i < j < self.sectors@.len() ==> (#[trigger] self.sectors@[i]).address
                < (#[trigger] self.sectors@[j]).address
    }

    /// Total size of the flash region in bytes.
    pub fn total_size(&self) -> (r: u32)
        ensures
            r == self.device_size,
    {
        self.device_size
    }

    /// Number of erase units the device is divided into.
    pub fn sector_count(&self) -> (r: u32)
        requires
            self.wf(),
        ensures
            r == self.device_size as int / self.erase_unit_size as int,
    {
        self.device_size / self.erase_unit_size
    }

    /// Number of programmable pages the device is divided into.
    pub fn page_count(&self) -> (r: u32)
        requires
            self.wf(),
        ensures
            r == self.device_size as int / self.page_size as int,
    {
        self.device_size / self.page_size
    }

    /// Base address of the sector with the given index, in ascending
    /// address order.
    pub fn sector_address(&self, index: u32) -> (r: u32)
        requires
            self.wf(),
            index < self.device_size as int / self.erase_unit_size as int,
        ensures
            r == self.flash_address + index * self.erase_unit_size,
    {
        proof {
            lemma_unit_address_in_range(
                self.device_size as int,
                self.erase_unit_size as int,
                index as int,
            );
        }
        self.flash_address + index * self.erase_unit_size
    }

    /// Base address of the page with the given index, in ascending
    /// address order.
    pub fn page_address(&self, index: u32) -> (r: u32)
        requires
            self.wf(),
            index < self.device_size as int / self.page_size as int,
        ensures
            r == self.flash_address + index * self.page_size,
    {
        proof {
            lemma_unit_address_in_range(
                self.device_size as int,
                self.page_size as int,
                index as int,
            );
        }
        self.flash_address + index * self.page_size
    }
}

/// Offsets of whole units stay inside the device: with `unit` dividing
/// `size` and `index` below `size / unit`, the unit starting at
/// `index * unit` ends at or before `size`.
pub proof fn lemma_unit_address_in_range(size: int, unit: int, index: int)
    requires
        size >= 0,
        unit > 0,
        0 <= index < size / unit,
    ensures
        index * unit + unit <= size,
        0 <= index * unit,
{
    lemma_fundamental_div_mod(size, unit);
    lemma_mul_inequality(index + 1, size / unit, unit);
    vstd::arithmetic::mul::lemma_mul_is_distributive_add_other_way(unit, index, 1);
    vstd::arithmetic::mul::lemma_mul_nonnegative(index, unit);
}

/// The CC13x4/CC26x4 part this algorithm targets: 1 MiB of flash in
/// 2 KiB sectors, programmable in 2 KiB pages, erased bytes reading
/// `0xFF`, one uniform sector region from the base address.
pub fn target_device() -> (r: FlashDevice)
    ensures
        r.flash_address == FLASH_BASE,
        r.device_size == FLASH_SIZE,
        r.page_size == PAGE_SIZE,
        r.erase_unit_size == SECTOR_SIZE,
        r.empty_value == EMPTY_VALUE,
        r.sectors@.len() == 1,
        r.sectors@[0] == (SectorDesc { size: SECTOR_SIZE, address: FLASH_BASE }),
        r.wf(),
{
    let mut sectors: Vec<SectorDesc> = Vec::new();
    sectors.push(SectorDesc { size: SECTOR_SIZE, address: FLASH_BASE });
    FlashDevice {
        flash_address: FLASH_BASE,
        device_size: FLASH_SIZE,
        page_size: PAGE_SIZE,
        erase_unit_size: SECTOR_SIZE,
        empty_value: EMPTY_VALUE,
        sectors,
    }
}

} // verus!
