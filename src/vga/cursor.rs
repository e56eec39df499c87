use vstd::prelude::*;

use crate::vga::{VGA_HEIGHT, VGA_WIDTH};

verus! {

/// CRT controller register holding the low byte of the cursor position.
pub const LOCATION_REG_LOW: u8 = 0x0F;

/// CRT controller register holding the high byte of the cursor position.
pub const LOCATION_REG_HIGH: u8 = 0x0E;

/// CRT controller register holding the first scanline of the cursor shape.
pub const REG_START: u8 = 0x0A;

/// CRT controller register holding the last scanline of the cursor shape.
pub const REG_END: u8 = 0x0B;

/// What the text-mode cursor registers should hold: the linear position
/// `row * VGA_WIDTH + col` and the first and last scanline of its shape.
/// The bytes to send to the index/data port pair are given by
/// `position_writes` and `shape_writes`.
pub struct Cursor {
    pos: u16,
    start: u8,
    end: u8,
}

/// The registers of a `Cursor`: linear position, first and last scanline.
pub struct CursorRegs {
    pub pos: u16,
    pub start: u8,
    pub end: u8,
}

impl View for Cursor {
    type V = CursorRegs;

    closed spec fn view(&self) -> CursorRegs {
        CursorRegs { pos: self.pos, start: self.start, end: self.end }
    }
}

impl Cursor {
    /// A cursor at the top-left cell with an empty shape.
    pub fn new() -> (r: Cursor)
        ensures
            r@ == (CursorRegs { pos: 0, start: 0, end: 0 }),
    {
        Cursor { pos: 0, start: 0, end: 0 }
    }

    /// Places the cursor at column `x` of screen row `y`; a position outside
    /// the visible screen is ignored.
    pub fn update_pos(&mut self, x: u16, y: u16)
        ensures
            final(self)@.start == old(self)@.start,
            final(self)@.end == old(self)@.end,
            x < VGA_WIDTH && y < VGA_HEIGHT ==> final(self)@.pos == y * VGA_WIDTH as int + x,
            !(x < VGA_WIDTH && y < VGA_HEIGHT) ==> final(self)@.pos == old(self)@.pos,
    {
        if x >= VGA_WIDTH as u16 || y >= VGA_HEIGHT as u16 {
            return;
        }
        self.pos = y * VGA_WIDTH as u16 + x;
    }

    /// Sets the cursor shape to the scanlines `start..=end`.
    pub fn resize(&mut self, start: u8, end: u8)
        ensures
            final(self)@ == (CursorRegs { pos: old(self)@.pos, start, end }),
    {
        self.start = start;
        self.end = end;
    }

    /// The (register index, value) pairs that load the position: low byte
    /// first, then high byte.
    pub fn position_writes(&self) -> (r: Vec<(u8, u8)>)
        ensures
            r@ == seq![
                (LOCATION_REG_LOW, (self@.pos % 256) as u8),
                (LOCATION_REG_HIGH, (self@.pos / 256) as u8),
            ],
    {
        let p = self.pos;
        let low: u8 = (p & 0xFF) as u8;
        let high: u8 = ((p >> 8) & 0xFF) as u8;
        assert(p & 0xFF == p % 256 && (p >> 8) & 0xFF == p / 256) by (bit_vector);
        let mut r: Vec<(u8, u8)> = Vec::new();
        r.push((LOCATION_REG_LOW, low));
        r.push((LOCATION_REG_HIGH, high));
        r
    }

    /// The (register index, value) pairs that load the shape: start scanline,
    /// then end scanline.
    pub fn shape_writes(&self) -> (r: Vec<(u8, u8)>)
        ensures
            r@ == seq![(REG_START, self@.start), (REG_END, self@.end)],
    {
        let mut r: Vec<(u8, u8)> = Vec::new();
        r.push((REG_START, self.start));
        r.push((REG_END, self.end));
        r
    }
}

} // verus!
