use vstd::prelude::*;

use crate::vga::{VGA_BUFFER_SIZE, VGA_HEIGHT, VGA_WIDTH};

verus! {

/// Number of lines kept in the scrollback buffer.
pub const MAX_BUFFERED_LINES: u8 = 100;

/// Number of cells in the scrollback buffer (`VGA_WIDTH * MAX_BUFFERED_LINES`).
pub const BUFFER_CELLS: usize = 8000;

/// Character byte of a cell that marks an explicit line break.
pub const NEWLINE: u8 = 0xFF;

/// The character byte of a cell (its low byte).
pub open spec fn char_of(e: u16) -> u8 {
    (e % 256) as u8
}

/// The attribute byte of a cell (its high byte).
pub open spec fn color_of(e: u16) -> u8 {
    (e / 256) as u8
}

/// The cell holding `character` drawn with attribute `color`.
pub open spec fn cell(character: u8, color: u8) -> u16 {
    (color as int * 256 + character as int) as u16
}

/// A cell that ends a block of text: never written, or a line break.
pub open spec fn is_stop(e: u16) -> bool {
    char_of(e) == 0 || char_of(e) == NEWLINE
}

/// Number of consecutive cells from index `i` on that hold text, that is,
/// the distance from `i` to the first line break or never-written cell (or to
/// the end of `cells`).
pub open spec fn run_len(cells: Seq<u16>, i: int) -> nat
    decreases cells.len() - i,
{
    if i < 0 || i >= cells.len() || is_stop(cells[i]) {
        0
    } else {
        1 + run_len(cells, i + 1)
    }
}

/// Index of column `col` of line `row` in the flat scrollback buffer.
pub open spec fn index_of(col: int, row: int) -> int {
    row * VGA_WIDTH as int + col
}

/// The `VGA_BUFFER_SIZE` cells shown when the screen starts at line `line_offset`.
pub open spec fn window(cells: Seq<u16>, line_offset: int) -> Seq<u16> {
    cells.subrange(
        line_offset * VGA_WIDTH as int,
        line_offset * VGA_WIDTH as int + VGA_BUFFER_SIZE as int,
    )
}

pub proof fn lemma_char_byte(e: u16)
    ensures
        e & 0xFF == e % 256,
        (e & 0xFF) as u8 == char_of(e),
{
    assert(e & 0xFF == e % 256) by (bit_vector);
}

pub proof fn lemma_cell_bits(character: u8, color: u8)
    ensures
        (character as u16) | ((color as u16) << 8) == cell(character, color),
        char_of(cell(character, color)) == character,
        color_of(cell(character, color)) == color,
{
    let c = character as u16;
    let k = color as u16;
    assert(c < 256 && k < 256);
    assert(c | (k << 8) == k * 256 + c) by (bit_vector)
        requires
            c < 256,
            k < 256,
    ;
}

/// A run of text cells is what the recursive definition counts.
pub proof fn lemma_run_len_bounds(cells: Seq<u16>, i: int)
    requires
        0 <= i <= cells.len(),
    ensures
        i + run_len(cells, i) <= cells.len(),
        forall|j: int| i <= j < i + run_len(cells, i) ==> !is_stop(#[trigger] cells[j]),
        i + run_len(cells, i) < cells.len() ==> is_stop(cells[i + run_len(cells, i)]),
    decreases cells.len() - i,
{
    if i < cells.len() && !is_stop(cells[i]) {
        lemma_run_len_bounds(cells, i + 1);
    }
}

/// The scrollback buffer: `VGA_WIDTH * MAX_BUFFERED_LINES` cells, each a
/// character byte under an attribute byte. Line `row`, column `col` is cell
/// `row * VGA_WIDTH + col`.
pub struct Buffer {
    buf: Vec<u16>,
}

impl View for Buffer {
    type V = Seq<u16>;

    closed spec fn view(&self) -> Seq<u16> {
        self.buf@
    }
}

impl Buffer {
    /// The buffer always holds exactly `BUFFER_CELLS` cells.
    pub open spec fn wf(&self) -> bool {
        self@.len() == BUFFER_CELLS
    }

    /// A buffer where every cell is empty (zero).
    pub fn new() -> (r: Self)
        ensures
            r.wf(),
            forall|i: int| 0 <= i < BUFFER_CELLS ==> #[trigger] r@[i] == 0,
    {
        let mut buf: Vec<u16> = Vec::new();
        while buf.len() < BUFFER_CELLS
            invariant
                buf.len() <= BUFFER_CELLS,
                forall|i: int| 0 <= i < buf.len() ==> #[trigger] buf@[i] == 0,
            decreases BUFFER_CELLS - buf.len(),
        {
            buf.push(0);
        }
        Buffer { buf }
    }

    /// Writes `entry` at `line_offset * VGA_WIDTH + rel_index`; a write past
    /// the end of the buffer is dropped.
    pub fn write(&mut self, line_offset: u8, rel_index: u16, entry: u16)
        requires
            old(self).wf(),
        ensures
            final(self).wf(),
            ({
                let abs = line_offset as int * VGA_WIDTH as int + rel_index as int;
                if abs < BUFFER_CELLS {
                    final(self)@ == old(self)@.update(abs, entry)
                } else {
                    final(self)@ == old(self)@
                }
            }),
    {
        let abs_index: usize = linear_index(rel_index, line_offset);
        if abs_index >= self.buf.len() {
            return;
        }
        self.buf.set(abs_index, entry);
    }

    /// The `VGA_BUFFER_SIZE` cells of the screen that starts at line `line_offset`.
    pub fn slice(&self, line_offset: u8) -> (r: Vec<u16>)
        requires
            self.wf(),
            line_offset as int + VGA_HEIGHT as int <= MAX_BUFFERED_LINES as int,
        ensures
            r@ == window(self@, line_offset as int),
    {
        let start: usize = linear_index(0, line_offset);
        let end: usize = start + VGA_BUFFER_SIZE as usize;
        let mut r: Vec<u16> = Vec::new();
        let mut i: usize = start;
        while i < end
            invariant
                start <= i <= end,
                end == start + VGA_BUFFER_SIZE as usize,
                end <= self@.len(),
                r@ == self@.subrange(start as int, i as int),
            decreases end - i,
        {
            r.push(self.buf[i]);
            i = i + 1;
        }
        r
    }

    /// The cell at `pos`, or `None` past the end of the buffer.
    pub fn at(&self, pos: u16) -> (r: Option<u16>)
        ensures
            pos < self@.len() ==> r == Some(self@[pos as int]),
            pos >= self@.len() ==> r.is_none(),
    {
        if (pos as usize) < self.buf.len() {
            Some(self.buf[pos as usize])
        } else {
            None
        }
    }

    /// Length of the text from column `from_x` of line `from_y`: the distance
    /// to the first line break or never-written cell. A position that is
    /// itself such a cell, or lies past the end of the buffer, gives 0.
    pub fn block_length(&self, from_x: u8, from_y: u8) -> (r: u16)
        requires
            self.wf(),
        ensures
            r == run_len(self@, index_of(from_x as int, from_y as int)),
            index_of(from_x as int, from_y as int) < self@.len() && is_stop(
                self@[index_of(from_x as int, from_y as int)],
            ) ==> r == 0,
    {
        let start: usize = linear_index(from_x as u16, from_y);
        if start >= self.buf.len() {
            return 0;
        }
        let mut i: usize = start;
        while i < self.buf.len() && !is_stop_cell(self.buf[i])
            invariant
                start <= i <= self@.len(),
                self.wf(),
                run_len(self@, start as int) == (i - start) + run_len(self@, i as int),
            decreases self@.len() - i,
        {
            i = i + 1;
        }
        (i - start) as u16
    }

    /// Number of cells in the buffer.
    pub fn len(&self) -> (r: u16)
        requires
            self.wf(),
        ensures
            r == BUFFER_CELLS,
    {
        self.buf.len() as u16
    }
}

/// Index of column `col` of line `row`.
pub fn linear_index(col: u16, row: u8) -> (r: usize)
    ensures
        r == index_of(col as int, row as int),
        r <= 255 * 80 + 65535,
{
    proof {
        assert(row as int * 80 <= 255 * 80) by (nonlinear_arith)
            requires
                row <= 255,
        ;
    }
    row as usize * 80 + col as usize
}

/// Whether `e` ends a block of text (never written, or a line break).
pub fn is_stop_cell(e: u16) -> (r: bool)
    ensures
        r == is_stop(e),
{
    proof {
        lemma_char_byte(e);
    }
    let c = (e & 0xFF) as u8;
    c == 0 || c == NEWLINE
}

} // verus!
