use textmode::gdt::access::{
    Access, AccessBit, DescriptorPriviledgeLevel, Direction, ExecutabilityType, Presence,
    ReadWriteAble, SegmentType,
};
use textmode::gdt::entry::Entry;
use textmode::gdt::flag::{DataProtectionSize, Flag, Granularity, LongMode};
use textmode::gdt::init::{entry_kernel_code, entry_kernel_data, entry_user_code, entry_user_data, init};

fn flat(dpl: DescriptorPriviledgeLevel, e: ExecutabilityType) -> u64 {
    let flag = Flag::new(Granularity::PageSize4K, DataProtectionSize::Segm32bit, LongMode::Other);
    let access = Access::new(
        Presence::Valid,
        dpl,
        SegmentType::CodeOrData,
        e,
        Direction::GrowsUp,
        ReadWriteAble::Active,
        AccessBit::OnlyForSpecial,
    );
    Entry::new(0, 0x000FFFFF, flag, access).to_u64()
}

#[test]
fn test_gdt_code_pl0() {
    assert_eq!(flat(DescriptorPriviledgeLevel::Lvl0, ExecutabilityType::Code), 0x00CF9A000000FFFF)
}

#[test]
fn test_gdt_data_pl0() {
    assert_eq!(flat(DescriptorPriviledgeLevel::Lvl0, ExecutabilityType::Data), 0x00CF92000000FFFF)
}

#[test]
fn test_gdt_code_pl3() {
    assert_eq!(flat(DescriptorPriviledgeLevel::Lvl3, ExecutabilityType::Code), 0x00CFFA000000FFFF)
}

#[test]
fn test_gdt_data_pl3() {
    assert_eq!(flat(DescriptorPriviledgeLevel::Lvl3, ExecutabilityType::Data), 0x00CFF2000000FFFF)
}

#[test]
fn test_kernel_code() {
    assert_eq!(entry_kernel_code(), 0x00CF9A000000FFFF);
}

#[test]
fn test_kernel_data() {
    assert_eq!(entry_kernel_data(), 0x00CF92000000FFFF);
}

#[test]
fn test_user_code() {
    assert_eq!(entry_user_code(), 0x00CFFA000000FFFF);
}

#[test]
fn test_user_data() {
    assert_eq!(entry_user_data(), 0x00CFF2000000FFFF);
}

#[test]
fn table_starts_with_null_then_kernel_segments() {
    assert_eq!(init(), vec![0, 0x00CF9A000000FFFF, 0x00CF92000000FFFF]);
    assert_eq!(Entry::new_zero().to_u64(), 0);
}

#[test]
fn descriptor_fields_land_in_place() {
    let flag = Flag::new(Granularity::SingleByte, DataProtectionSize::Segm16bit, LongMode::Segm64bit);
    assert_eq!(flag.to_u8(), 0x20);
    let access = Access::new(
        Presence::Valid,
        DescriptorPriviledgeLevel::Lvl2,
        SegmentType::System,
        ExecutabilityType::Data,
        Direction::GrowsDown,
        ReadWriteAble::Clear,
        AccessBit::Default,
    );
    assert_eq!(access.to_u8(), 0xC5);
    let e = Entry::new(0x12345678, 0x000ABCDE, flag, access).to_u64();
    assert_eq!(e, 0x122AC5345678BCDE);
}
