use vstd::prelude::*;

verus! {

/// A gate of the interrupt descriptor table, in table order: offset bits
/// 0-15, code segment selector, a zero byte, gate type and attributes,
/// offset bits 16-31.
pub struct Entry {
    offset_1: u16,
    selector: u16,
    zero: u8,
    type_attributes: u8,
    offset_2: u16,
}

/// The fields of a gate, in table order.
pub struct GateFields {
    pub offset_1: u16,
    pub selector: u16,
    pub zero: u8,
    pub type_attributes: u8,
    pub offset_2: u16,
}

impl View for Entry {
    type V = GateFields;

    closed spec fn view(&self) -> GateFields {
        GateFields {
            offset_1: self.offset_1,
            selector: self.selector,
            zero: self.zero,
            type_attributes: self.type_attributes,
            offset_2: self.offset_2,
        }
    }
}

impl Entry {
    /// A gate with the given fields; the reserved byte is zero.
    pub fn new(offset_1: u16, selector: u16, type_attributes: u8, offset_2: u16) -> (r: Self)
        ensures
            r@ == (GateFields { offset_1, selector, zero: 0, type_attributes, offset_2 }),
    {
        Self { offset_1, selector, zero: 0u8, type_attributes, offset_2 }
    }
}

/// Sets up interrupt handling: nothing is installed, input is polled.
pub fn init() {
}

} // verus!
