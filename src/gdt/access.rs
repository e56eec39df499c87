use vstd::prelude::*;

verus! {

/// Whether the segment is present.
#[derive(Debug, Clone, Copy, PartialEq, Eq, Structural)]
pub enum Presence {
    Invalid,
    Valid,
}

/// Privilege ring of the segment.
#[derive(Debug, Clone, Copy, PartialEq, Eq, Structural)]
pub enum DescriptorPriviledgeLevel {
    Lvl0,
    Lvl1,
    Lvl2,
    Lvl3,
}

/// System segment, or code/data segment.
#[derive(Debug, Clone, Copy, PartialEq, Eq, Structural)]
pub enum SegmentType {
    System,
    CodeOrData,
}

/// Data segment, or code segment.
#[derive(Debug, Clone, Copy, PartialEq, Eq, Structural)]
pub enum ExecutabilityType {
    Data,
    Code,
}

/// Growth direction of a data segment (conforming bit of a code segment).
#[derive(Debug, Clone, Copy, PartialEq, Eq, Structural)]
pub enum Direction {
    GrowsUp,
    GrowsDown,
}

/// Readable (code) or writable (data) bit.
#[derive(Debug, Clone, Copy, PartialEq, Eq, Structural)]
pub enum ReadWriteAble {
    Clear,
    Active,
}

/// Accessed bit.
#[derive(Debug, Clone, Copy, PartialEq, Eq, Structural)]
pub enum AccessBit {
    OnlyForSpecial,
    Default,
}

pub open spec fn presence_bit(v: Presence) -> int {
    match v {
        Presence::Invalid => 0,
        Presence::Valid => 1,
    }
}

pub open spec fn level_bits(v: DescriptorPriviledgeLevel) -> int {
    match v {
        DescriptorPriviledgeLevel::Lvl0 => 0,
        DescriptorPriviledgeLevel::Lvl1 => 1,
        DescriptorPriviledgeLevel::Lvl2 => 2,
        DescriptorPriviledgeLevel::Lvl3 => 3,
    }
}

pub open spec fn segment_bit(v: SegmentType) -> int {
    match v {
        SegmentType::System => 0,
        SegmentType::CodeOrData => 1,
    }
}

pub open spec fn executable_bit(v: ExecutabilityType) -> int {
    match v {
        ExecutabilityType::Data => 0,
        ExecutabilityType::Code => 1,
    }
}

pub open spec fn direction_bit(v: Direction) -> int {
    match v {
        Direction::GrowsUp => 0,
        Direction::GrowsDown => 1,
    }
}

pub open spec fn rw_bit(v: ReadWriteAble) -> int {
    match v {
        ReadWriteAble::Clear => 0,
        ReadWriteAble::Active => 1,
    }
}

pub open spec fn accessed_bit(v: AccessBit) -> int {
    match v {
        AccessBit::OnlyForSpecial => 0,
        AccessBit::Default => 1,
    }
}

/// The access byte: present (bit 7), privilege level (bits 5-6), descriptor
/// type (bit 4), executable (bit 3), direction/conforming (bit 2),
/// readable/writable (bit 1), accessed (bit 0).
pub open spec fn access_byte(
    p: Presence,
    dpl: DescriptorPriviledgeLevel,
    s: SegmentType,
    e: ExecutabilityType,
    dc: Direction,
    rw: ReadWriteAble,
    a: AccessBit,
) -> u8 {
    (presence_bit(p) * 128 + level_bits(dpl) * 32 + segment_bit(s) * 16 + executable_bit(e) * 8
        + direction_bit(dc) * 4 + rw_bit(rw) * 2 + accessed_bit(a)) as u8
}

/// One bit as a byte.
fn bit(b: bool) -> (r: u8)
    ensures
        r == (if b { 1u8 } else { 0u8 }),
{
    if b {
        1
    } else {
        0
    }
}

/// The access byte of a segment descriptor.
pub struct Access {
    p: Presence,
    dpl: DescriptorPriviledgeLevel,
    s: SegmentType,
    e: ExecutabilityType,
    dc: Direction,
    rw: ReadWriteAble,
    a: AccessBit,
}

impl View for Access {
    type V = u8;

    closed spec fn view(&self) -> u8 {
        access_byte(self.p, self.dpl, self.s, self.e, self.dc, self.rw, self.a)
    }
}

impl Access {
    pub fn new(
        p: Presence,
        dpl: DescriptorPriviledgeLevel,
        s: SegmentType,
        e: ExecutabilityType,
        dc: Direction,
        rw: ReadWriteAble,
        a: AccessBit,
    ) -> (r: Self)
        ensures
            r@ == access_byte(p, dpl, s, e, dc, rw, a),
    {
        Access { p, dpl, s, e, dc, rw, a }
    }

    /// The encoded access byte.
    pub fn to_u8(&self) -> (r: u8)
        ensures
            r == self@,
    {
        let p = bit(self.p == Presence::Valid);
        let dpl: u8 = match self.dpl {
            DescriptorPriviledgeLevel::Lvl0 => 0,
            DescriptorPriviledgeLevel::Lvl1 => 1,
            DescriptorPriviledgeLevel::Lvl2 => 2,
            DescriptorPriviledgeLevel::Lvl3 => 3,
        };
        let s = bit(self.s == SegmentType::CodeOrData);
        let e = bit(self.e == ExecutabilityType::Code);
        let dc = bit(self.dc == Direction::GrowsDown);
        let rw = bit(self.rw == ReadWriteAble::Active);
        let a = bit(self.a == AccessBit::Default);
        let mut result: u8 = 0;
        result = result | (p << 7);
        result = result | (dpl << 5);
        result = result | (s << 4);
        result = result | (e << 3);
        result = result | (dc << 2);
        result = result | (rw << 1);
        result = result | a;
        assert(result == p * 128 + dpl * 32 + s * 16 + e * 8 + dc * 4 + rw * 2 + a) by (bit_vector)
            requires
                p < 2 && dpl < 4 && s < 2 && e < 2 && dc < 2 && rw < 2 && a < 2,
                result == 0u8 | (p << 7) | (dpl << 5) | (s << 4) | (e << 3) | (dc << 2) | (rw << 1)
                    | a,
        ;
        result
    }
}

} // verus!
