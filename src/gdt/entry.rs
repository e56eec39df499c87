use vstd::prelude::*;

use crate::gdt::access::Access;
use crate::gdt::flag::Flag;

verus! {

/// The 64-bit segment descriptor for `base`, `limit` (20 bits used), the
/// flags byte `flags` (high nibble) and the access byte `access`.
pub open spec fn descriptor(base: u32, limit: u32, flags: u8, access: u8) -> u64 {
    (base as int / 0x1000000 * 0x100000000000000 + (flags as int + limit as int / 0x10000 % 16)
        * 0x1000000000000 + access as int * 0x10000000000 + base as int / 0x10000 % 0x100
        * 0x100000000 + base as int % 0x10000 * 0x10000 + limit as int % 0x10000) as u64
}

/// A segment descriptor, split into its fields.
#[derive(Debug, Clone, Copy)]
pub struct Entry {
    base_31_24: u8,
    flags_limit_16_19: u8,
    access: u8,
    base_16_23: u8,
    base_0_15: u16,
    limit_0_15: u16,
}

impl View for Entry {
    type V = u64;

    /// The descriptor as laid out in the table.
    closed spec fn view(&self) -> u64 {
        (self.base_31_24 as int * 0x100000000000000 + self.flags_limit_16_19 as int
            * 0x1000000000000 + self.access as int * 0x10000000000 + self.base_16_23 as int
            * 0x100000000 + self.base_0_15 as int * 0x10000 + self.limit_0_15 as int) as u64
    }
}

impl Entry {
    /// The descriptor of the segment at `base` with limit `limit` (its low 20
    /// bits), flags `flag` and access byte `access`.
    pub fn new(base: u32, limit: u32, flag: Flag, access: Access) -> (r: Self)
        ensures
            r@ == descriptor(base, limit, flag@, access@),
    {
        let f = flag.to_u8();
        let a = access.to_u8();
        let limit_high: u8 = ((limit & 0x000F0000) >> 16) as u8;
        let b3124: u8 = ((base & 0xFF000000) >> 24) as u8;
        let b1623: u8 = ((base & 0x00FF0000) >> 16) as u8;
        let b015: u16 = (base & 0x0000FFFF) as u16;
        let l015: u16 = (limit & 0x0000FFFF) as u16;
        assert(((limit & 0x000F0000) >> 16) == limit / 0x10000 % 16) by (bit_vector);
        assert(((base & 0xFF000000) >> 24) == base / 0x1000000) by (bit_vector);
        assert(((base & 0x00FF0000) >> 16) == base / 0x10000 % 0x100) by (bit_vector);
        assert((base & 0x0000FFFF) == base % 0x10000) by (bit_vector);
        assert((limit & 0x0000FFFF) == limit % 0x10000) by (bit_vector);
        assert(f | limit_high == f + limit_high) by (bit_vector)
            requires
                f % 16 == 0,
                limit_high < 16,
        ;
        Entry {
            base_31_24: b3124,
            flags_limit_16_19: f | limit_high,
            access: a,
            base_16_23: b1623,
            base_0_15: b015,
            limit_0_15: l015,
        }
    }

    /// The null descriptor.
    pub fn new_zero() -> (r: Self)
        ensures
            r@ == 0,
    {
        Entry {
            base_31_24: 0,
            flags_limit_16_19: 0,
            access: 0,
            base_16_23: 0,
            base_0_15: 0,
            limit_0_15: 0,
        }
    }

    /// The descriptor as one 64-bit word.
    pub fn to_u64(&self) -> (r: u64)
        ensures
            r == self@,
    {
        let b3 = self.base_31_24 as u64;
        let fl = self.flags_limit_16_19 as u64;
        let ac = self.access as u64;
        let b2 = self.base_16_23 as u64;
        let b0 = self.base_0_15 as u64;
        let l0 = self.limit_0_15 as u64;
        let mut result: u64 = 0;
        result = result | (b3 << 56);
        result = result | (fl << 48);
        result = result | (ac << 40);
        result = result | (b2 << 32);
        result = result | (b0 << 16);
        result = result | l0;
        assert(result == b3 * 0x100000000000000 + fl * 0x1000000000000 + ac * 0x10000000000 + b2
            * 0x100000000 + b0 * 0x10000 + l0) by (bit_vector)
            requires
                b3 < 256 && fl < 256 && ac < 256 && b2 < 256 && b0 < 0x10000 && l0 < 0x10000,
                result == 0u64 | (b3 << 56) | (fl << 48) | (ac << 40) | (b2 << 32) | (b0 << 16)
                    | l0,
        ;
        result
    }
}

} // verus!
