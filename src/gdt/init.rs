use vstd::prelude::*;

use crate::gdt::access::{
    Access, AccessBit, DescriptorPriviledgeLevel, Direction, ExecutabilityType, Presence,
    ReadWriteAble, SegmentType,
};
use crate::gdt::entry::Entry;
use crate::gdt::flag::{DataProtectionSize, Flag, Granularity, LongMode};

verus! {

/// Flat 4 GiB code or data segment of privilege `dpl`.
fn flat_segment(dpl: DescriptorPriviledgeLevel, e: ExecutabilityType) -> (r: u64)
    ensures
        dpl == DescriptorPriviledgeLevel::Lvl0 && e == ExecutabilityType::Code ==> r
            == 0x00CF9A000000FFFF,
        dpl == DescriptorPriviledgeLevel::Lvl0 && e == ExecutabilityType::Data ==> r
            == 0x00CF92000000FFFF,
        dpl == DescriptorPriviledgeLevel::Lvl3 && e == ExecutabilityType::Code ==> r
            == 0x00CFFA000000FFFF,
        dpl == DescriptorPriviledgeLevel::Lvl3 && e == ExecutabilityType::Data ==> r
            == 0x00CFF2000000FFFF,
{
    Entry::new(
        0,
        0xFFFFF,
        Flag::new(Granularity::PageSize4K, DataProtectionSize::Segm32bit, LongMode::Other),
        Access::new(
            Presence::Valid,
            dpl,
            SegmentType::CodeOrData,
            e,
            Direction::GrowsUp,
            ReadWriteAble::Active,
            AccessBit::OnlyForSpecial,
        ),
    ).to_u64()
}

/// Kernel code segment: base 0, limit 4 GiB, ring 0, executable, readable.
pub fn entry_kernel_code() -> (r: u64)
    ensures
        r == 0x00CF9A000000FFFF,
{
    flat_segment(DescriptorPriviledgeLevel::Lvl0, ExecutabilityType::Code)
}

/// Kernel data segment: base 0, limit 4 GiB, ring 0, writable.
pub fn entry_kernel_data() -> (r: u64)
    ensures
        r == 0x00CF92000000FFFF,
{
    flat_segment(DescriptorPriviledgeLevel::Lvl0, ExecutabilityType::Data)
}

/// User code segment: base 0, limit 4 GiB, ring 3, executable, readable.
pub fn entry_user_code() -> (r: u64)
    ensures
        r == 0x00CFFA000000FFFF,
{
    flat_segment(DescriptorPriviledgeLevel::Lvl3, ExecutabilityType::Code)
}

/// User data segment: base 0, limit 4 GiB, ring 3, writable.
pub fn entry_user_data() -> (r: u64)
    ensures
        r == 0x00CFF2000000FFFF,
{
    flat_segment(DescriptorPriviledgeLevel::Lvl3, ExecutabilityType::Data)
}

/// The first descriptors of the table loaded at boot: the null descriptor,
/// then the kernel code and kernel data segments.
pub fn init() -> (r: Vec<u64>)
    ensures
        r@ == seq![0u64, 0x00CF9A000000FFFFu64, 0x00CF92000000FFFFu64],
{
    let mut table: Vec<u64> = Vec::new();
    table.push(Entry::new_zero().to_u64());
    table.push(entry_kernel_code());
    table.push(entry_kernel_data());
    table
}

} // verus!
