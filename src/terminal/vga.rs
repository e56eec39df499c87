use vstd::prelude::*;

use crate::terminal::screen::{Screen, ScreenState, BUFFER_SIZE};
use crate::vga::buffer::{cell, char_of};

verus! {

/// Width of the display in characters.
pub const VIEW_WIDTH: usize = 80;

/// Height of the display in characters.
pub const VIEW_HEIGHT: usize = 25;

/// Number of character positions on the display.
pub const VIEW_BUFFER_SIZE: usize = 2000;

/// Attributes used by the terminal.
#[derive(Debug, Clone, Copy, PartialEq, Eq, Structural)]
pub enum Color {
    /// Light grey on black.
    Default,
    /// White on red.
    Error,
}

/// The attribute byte of a terminal colour.
pub open spec fn attribute(c: Color) -> u8 {
    match c {
        Color::Default => 0x07,
        Color::Error => 0x4F,
    }
}

impl Color {
    /// The attribute byte.
    pub fn to_u8(self) -> (r: u8)
        ensures
            r == attribute(self),
    {
        match self {
            Color::Default => 0x07,
            Color::Error => 0x4F,
        }
    }
}

/// A position outside the display.
#[derive(Debug, Clone, Copy, PartialEq, Eq, Structural)]
pub struct OutOfBoundsErr;

/// A character with its attribute byte.
pub struct Entry {
    color: u8,
    character: u8,
}

impl View for Entry {
    type V = u16;

    /// The entry as stored: attribute in the high byte, character in the
    /// low byte.
    closed spec fn view(&self) -> u16 {
        cell(self.character, self.color)
    }
}

impl Entry {
    /// `character` in the default attribute (light grey on black).
    pub fn new(character: u8) -> (r: Self)
        ensures
            r@ == cell(character, attribute(Color::Default)),
    {
        Entry { color: Color::Default.to_u8(), character }
    }

    /// `character` in attribute `color`.
    pub fn new_with_color(character: u8, color: u8) -> (r: Self)
        ensures
            r@ == cell(character, color),
    {
        Entry { color, character }
    }

    /// The entry as stored: attribute in the high byte, character in the
    /// low byte.
    pub fn to_u16(&self) -> (r: u16)
        ensures
            r == self@,
    {
        proof {
            crate::vga::buffer::lemma_cell_bits(self.character, self.color);
        }
        (self.character as u16) | ((self.color as u16) << 8)
    }
}

/// Display position of the `k`-th entry of `entries` from index `start` on,
/// when laid out from the top-left cell: a line break sends what follows to
/// the start of the next row, any other entry takes the next cell.
pub open spec fn layout_pos(entries: Seq<u16>, start: int, k: int) -> int
    decreases k,
{
    if k <= 0 {
        0
    } else {
        let p = layout_pos(entries, start, k - 1);
        if char_of(entries[start + k - 1]) == 10 {
            (p / VIEW_WIDTH as int + 1) * VIEW_WIDTH as int
        } else {
            p + 1
        }
    }
}

/// The display after laying out the first `k` entries from index `start`:
/// each entry other than a line break is shown at its position, if that is
/// on the display; every other cell holds a blank.
pub open spec fn layout(entries: Seq<u16>, start: int, k: int) -> Seq<u16>
    decreases k,
{
    if k <= 0 {
        Seq::new(VIEW_BUFFER_SIZE as nat, |i: int| cell(32, attribute(Color::Default)))
    } else {
        let f = layout(entries, start, k - 1);
        let p = layout_pos(entries, start, k - 1);
        let e = entries[start + k - 1];
        if p < VIEW_BUFFER_SIZE && char_of(e) != 10 {
            f.update(p, e)
        } else {
            f
        }
    }
}

/// First index from `k` on whose entry is laid out at position `target` or
/// later (counting from the first entry), or `BUFFER_SIZE` if none is.
pub open spec fn first_at_or_after(entries: Seq<u16>, target: int, k: int) -> int
    decreases BUFFER_SIZE - k,
{
    if k >= BUFFER_SIZE || layout_pos(entries, 0, k) >= target {
        k
    } else {
        first_at_or_after(entries, target, k + 1)
    }
}

/// Display row, counting from the first entry, of the view's last row: the
/// row of the last entry, less the rows scrolled back. When the last entry
/// lies past the buffer, no row holds it and the first row counts.
pub open spec fn bottom_row(s: ScreenState) -> int {
    let last_row = if s.last_entry_index < BUFFER_SIZE {
        layout_pos(s.buffer, 0, s.last_entry_index as int) / VIEW_WIDTH as int
    } else {
        0
    };
    if last_row > s.rows_scrolled {
        last_row - s.rows_scrolled
    } else {
        0
    }
}

/// Index of the first entry shown: the one that starts the row
/// `VIEW_HEIGHT - 1` rows above the bottom row, or the first entry when the
/// bottom row is on the first screen.
pub open spec fn view_start(s: ScreenState) -> int {
    let r = bottom_row(s);
    if r < VIEW_HEIGHT {
        0
    } else {
        first_at_or_after(s.buffer, (r - (VIEW_HEIGHT - 1)) * VIEW_WIDTH as int, 0)
    }
}

/// Where the hardware cursor goes when the view starts at `start`: the
/// display position of the entry under the insertion cursor, if it is shown.
pub open spec fn cursor_cell(s: ScreenState, start: int) -> Option<u16> {
    if start <= s.cursor && layout_pos(s.buffer, start, s.cursor - start) < VIEW_BUFFER_SIZE {
        Some(layout_pos(s.buffer, start, s.cursor - start) as u16)
    } else {
        None
    }
}

/// What the display shows: its cells, and the cursor position if any.
pub struct Frame {
    pub cells: Vec<u16>,
    pub cursor: Option<u16>,
}

/// Position of the entry after one at position `p` that holds `e`.
fn next_pos(p: usize, e: u16) -> (r: usize)
    requires
        p <= 80 * BUFFER_SIZE,
    ensures
        r <= p + VIEW_WIDTH,
        char_of(e) == 10 ==> r == (p as int / VIEW_WIDTH as int + 1) * VIEW_WIDTH as int,
        char_of(e) != 10 ==> r == p + 1,
{
    proof {
        crate::vga::buffer::lemma_char_byte(e);
    }
    if (e & 0xFF) == 10 {
        assert((p / 80 + 1) * 80 <= p + 80) by (nonlinear_arith);
        (p / VIEW_WIDTH + 1) * VIEW_WIDTH
    } else {
        p + 1
    }
}

/// Index of the first entry to show (see `view_start`).
pub fn calculate_view_start_index(t: &Screen) -> (r: usize)
    requires
        t.wf(),
    ensures
        r == view_start(t@),
{
    let mut p: usize = 0;
    let mut k: usize = 0;
    let mut last_row: usize = 0;
    while k < BUFFER_SIZE
        invariant
            t.wf(),
            k <= BUFFER_SIZE,
            p == layout_pos(t.buffer@, 0, k as int),
            p <= 80 * k,
            last_row <= BUFFER_SIZE,
            t.last_entry_index >= k ==> last_row == 0,
            t.last_entry_index < k ==> last_row == layout_pos(
                t.buffer@,
                0,
                t.last_entry_index as int,
            ) / VIEW_WIDTH as int,
        decreases BUFFER_SIZE - k,
    {
        if k == t.last_entry_index {
            assert(p / 80 <= 1000) by (nonlinear_arith)
                requires
                    p <= 80 * k,
                    k < 1000,
            ;
            last_row = p / VIEW_WIDTH;
        }
        p = next_pos(p, t.buffer[k]);
        k = k + 1;
    }
    let r: usize = if last_row > t.rows_scrolled {
        last_row - t.rows_scrolled
    } else {
        0
    };
    if r < VIEW_HEIGHT {
        return 0;
    }
    assert(r <= 1000);
    let target: usize = (r - (VIEW_HEIGHT - 1)) * VIEW_WIDTH;
    p = 0;
    k = 0;
    while k < BUFFER_SIZE && p < target
        invariant
            t.wf(),
            k <= BUFFER_SIZE,
            p == layout_pos(t.buffer@, 0, k as int),
            p <= 80 * k,
            first_at_or_after(t.buffer@, target as int, 0) == first_at_or_after(
                t.buffer@,
                target as int,
                k as int,
            ),
        decreases BUFFER_SIZE - k,
    {
        p = next_pos(p, t.buffer[k]);
        k = k + 1;
    }
    k
}

/// Lays the screen out onto the display (see `layout`, `view_start` and
/// `cursor_cell`).
pub fn flush_vga(t: &Screen) -> (r: Frame)
    requires
        t.wf(),
    ensures
        r.cells@ == layout(t.buffer@, view_start(t@), BUFFER_SIZE - view_start(t@)),
        r.cursor == cursor_cell(t@, view_start(t@)),
{
    let start = calculate_view_start_index(t);
    let blank = Entry::new(32).to_u16();
    let mut cells: Vec<u16> = Vec::new();
    while cells.len() < VIEW_BUFFER_SIZE
        invariant
            cells.len() <= VIEW_BUFFER_SIZE,
            blank == cell(32, attribute(Color::Default)),
            forall|i: int| 0 <= i < cells.len() ==> #[trigger] cells@[i] == blank,
        decreases VIEW_BUFFER_SIZE - cells.len(),
    {
        cells.push(blank);
    }
    assert(cells@ =~= layout(t.buffer@, start as int, 0));
    let mut cursor: Option<u16> = None;
    let mut p: usize = 0;
    let mut k: usize = 0;
    while start + k < BUFFER_SIZE
        invariant
            t.wf(),
            start == view_start(t@),
            start + k <= BUFFER_SIZE || k == 0,
            p == layout_pos(t.buffer@, start as int, k as int),
            p <= 80 * k,
            k <= BUFFER_SIZE,
            cells@ == layout(t.buffer@, start as int, k as int),
            cells@.len() == VIEW_BUFFER_SIZE,
            cursor == (if start <= t.cursor < start + k && layout_pos(
                t.buffer@,
                start as int,
                t.cursor - start,
            ) < VIEW_BUFFER_SIZE {
                Some(layout_pos(t.buffer@, start as int, t.cursor - start) as u16)
            } else {
                None::<u16>
            }),
        decreases BUFFER_SIZE - start - k,
    {
        let e = t.buffer[start + k];
        if start <= t.cursor && t.cursor - start == k && p < VIEW_BUFFER_SIZE {
            cursor = Some(p as u16);
        }
        proof {
            crate::vga::buffer::lemma_char_byte(e);
        }
        if p < VIEW_BUFFER_SIZE && (e & 0xFF) != 10 {
            cells.set(p, e);
        }
        p = next_pos(p, e);
        k = k + 1;
    }
    Frame { cells, cursor }
}

} // verus!
