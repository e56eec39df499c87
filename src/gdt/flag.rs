use vstd::prelude::*;

verus! {

/// Unit of the segment limit.
#[derive(Debug, Clone, Copy, PartialEq, Eq, Structural)]
pub enum Granularity {
    SingleByte,
    PageSize4K,
}

/// Default operand size of a protected-mode segment.
#[derive(Debug, Clone, Copy, PartialEq, Eq, Structural)]
pub enum DataProtectionSize {
    Segm16bit,
    Segm32bit,
}

/// Whether the segment is a 64-bit code segment.
#[derive(Debug, Clone, Copy, PartialEq, Eq, Structural)]
pub enum LongMode {
    Other,
    Segm64bit,
}

pub open spec fn granularity_bit(v: Granularity) -> int {
    match v {
        Granularity::SingleByte => 0,
        Granularity::PageSize4K => 1,
    }
}

pub open spec fn size_bit(v: DataProtectionSize) -> int {
    match v {
        DataProtectionSize::Segm16bit => 0,
        DataProtectionSize::Segm32bit => 1,
    }
}

pub open spec fn long_mode_bit(v: LongMode) -> int {
    match v {
        LongMode::Other => 0,
        LongMode::Segm64bit => 1,
    }
}

/// The flags nibble, placed in the high half of a byte whose low half is
/// left for the top bits of the limit: granularity (bit 7), size (bit 6),
/// long mode (bit 5).
pub open spec fn flag_byte(g: Granularity, d: DataProtectionSize, l: LongMode) -> u8 {
    ((granularity_bit(g) * 8 + size_bit(d) * 4 + long_mode_bit(l) * 2) * 16) as u8
}

/// The flags of a segment descriptor.
pub struct Flag {
    granularity: Granularity,
    data_protection_size: DataProtectionSize,
    long_mode: LongMode,
}

impl View for Flag {
    type V = u8;

    closed spec fn view(&self) -> u8 {
        flag_byte(self.granularity, self.data_protection_size, self.long_mode)
    }
}

impl Flag {
    /// Flags of a segment; a 32-bit segment cannot also be a long-mode one.
    pub fn new(
        granularity: Granularity,
        data_protection_size: DataProtectionSize,
        long_mode: LongMode,
    ) -> (r: Self)
        requires
            !(data_protection_size == DataProtectionSize::Segm32bit && long_mode
                == LongMode::Segm64bit),
        ensures
            r@ == flag_byte(granularity, data_protection_size, long_mode),
            r@ % 16 == 0,
    {
        Flag { granularity, data_protection_size, long_mode }
    }

    /// The flags nibble in the high half of a byte.
    pub fn to_u8(&self) -> (r: u8)
        ensures
            r == self@,
            r % 16 == 0,
    {
        let g: u8 = if self.granularity == Granularity::PageSize4K {
            1
        } else {
            0
        };
        let d: u8 = if self.data_protection_size == DataProtectionSize::Segm32bit {
            1
        } else {
            0
        };
        let l: u8 = if self.long_mode == LongMode::Segm64bit {
            1
        } else {
            0
        };
        let mut flag: u8 = 0;
        flag = flag | (g << 3);
        flag = flag | (d << 2);
        flag = flag | (l << 1);
        flag = flag << 4;
        assert(flag == (g * 8 + d * 4 + l * 2) * 16) by (bit_vector)
            requires
                g < 2 && d < 2 && l < 2,
                flag == ((0u8 | (g << 3) | (d << 2) | (l << 1)) << 4),
        ;
        flag
    }
}

} // verus!
