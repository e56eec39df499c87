use vstd::prelude::*;

use crate::vga::buffer::{cell, index_of, run_len, BUFFER_CELLS, MAX_BUFFERED_LINES, NEWLINE};
use crate::vga::color::{color_index, Color};
use crate::ps2::Key;
use crate::vga::{Direction, VGA_BUFFER_SIZE, VGA_HEIGHT, VGA_WIDTH};

verus! {

/// The logical state of the editor: attribute, cursor column and screen row,
/// the scrollback line shown at the top of the screen, and the cells of the
/// scrollback buffer.
pub struct EditorState {
    pub color: u8,
    pub x: u8,
    pub y: u8,
    pub line_offset: u8,
    pub cells: Seq<u16>,
}

/// Highest line offset: the screen then shows the last `VGA_HEIGHT` lines.
pub open spec fn max_offset() -> int {
    MAX_BUFFERED_LINES - VGA_HEIGHT
}

impl EditorState {
    /// The cursor is on the screen, and the screen inside the buffer.
    pub open spec fn valid(self) -> bool {
        &&& self.x < VGA_WIDTH
        &&& self.y < VGA_HEIGHT
        &&& self.line_offset <= max_offset()
        &&& self.cells.len() == BUFFER_CELLS
    }

    /// Buffer line under the cursor.
    pub open spec fn row(self) -> int {
        self.y + self.line_offset
    }

    /// Buffer index of the cell under the cursor.
    pub open spec fn pos(self) -> int {
        index_of(self.x as int, self.row())
    }

    /// Buffer index of the first visible cell.
    pub open spec fn first_visible(self) -> int {
        index_of(0, self.line_offset as int)
    }

    /// Buffer index of the bottom-right visible cell. Text is never written
    /// there or past it.
    pub open spec fn corner(self) -> int {
        index_of(VGA_WIDTH - 1, self.line_offset + VGA_HEIGHT - 1)
    }

    /// An empty cell in the current attribute.
    pub open spec fn blank(self) -> u16 {
        cell(0, self.color)
    }

    pub open spec fn with_cells(self, cells: Seq<u16>) -> EditorState {
        EditorState { cells, ..self }
    }

    pub open spec fn with_color(self, color: u8) -> EditorState {
        EditorState { color, ..self }
    }

    pub open spec fn with_cursor(self, x: u8, y: u8) -> EditorState {
        EditorState { x, y, ..self }
    }
}

/// The state after writing `e` at buffer index `i`, which only happens when
/// `i` is on the screen and before its bottom-right cell.
pub open spec fn put(s: EditorState, i: int, e: u16) -> EditorState {
    if s.first_visible() <= i < s.corner() {
        s.with_cells(s.cells.update(i, e))
    } else {
        s
    }
}

/// The cells after inserting `e` under the cursor: the block of text from
/// the cursor moves one cell further, each moved cell landing only where
/// text may be written.
pub open spec fn inserted(s: EditorState, e: u16) -> Seq<u16> {
    let p = s.pos();
    let bl = run_len(s.cells, p);
    Seq::new(
        s.cells.len(),
        |i: int|
            if i == p {
                e
            } else if p < i <= p + bl && i < s.corner() {
                s.cells[i - 1]
            } else {
                s.cells[i]
            },
    )
}

/// The cells with line `r` made of `e` only.
pub open spec fn filled_line(cells: Seq<u16>, r: int, e: u16) -> Seq<u16> {
    Seq::new(
        cells.len(),
        |i: int|
            if index_of(0, r) <= i < index_of(0, r + 1) {
                e
            } else {
                cells[i]
            },
    )
}

/// Scrolling one line down: the screen moves one line further, the cursor
/// goes to the bottom row, and the line that comes into view is cleared.
/// Nothing changes when the screen shows the last lines already.
pub open spec fn scroll_down_spec(s: EditorState) -> EditorState {
    if s.line_offset == max_offset() {
        s
    } else {
        let lo = (s.line_offset + 1) as u8;
        EditorState {
            line_offset: lo,
            y: (VGA_HEIGHT - 1) as u8,
            cells: filled_line(s.cells, lo + VGA_HEIGHT - 1, s.blank()),
            ..s
        }
    }
}

/// Moving the cursor one cell on: to the next column, or to the start of the
/// next row, scrolling from the bottom row. The bottom-right cell keeps it.
pub open spec fn inc_cursor_spec(s: EditorState) -> EditorState {
    if s.x == VGA_WIDTH - 1 && s.y == VGA_HEIGHT - 1 {
        s
    } else if s.x + 1 < VGA_WIDTH {
        s.with_cursor((s.x + 1) as u8, s.y)
    } else if s.y + 1 < VGA_HEIGHT {
        s.with_cursor(0, (s.y + 1) as u8)
    } else {
        scroll_down_spec(s.with_cursor(0, s.y))
    }
}

/// Column at which the cursor lands on buffer line `r` when stepping back
/// onto it: just after its text, kept on the screen.
pub open spec fn end_column(cells: Seq<u16>, r: int) -> u8 {
    let bl = run_len(cells, index_of(0, r));
    if bl < VGA_WIDTH {
        bl as u8
    } else {
        (VGA_WIDTH - 1) as u8
    }
}

/// Moving the cursor one cell back. From the start of a row it goes to the
/// end of the text of the row above; from the start of the top row the
/// screen first moves one line up, if it can.
pub open spec fn dec_cursor_spec(s: EditorState) -> EditorState {
    if s.x == 0 && s.y == 0 {
        let lo: u8 = if s.line_offset > 0 {
            (s.line_offset - 1) as u8
        } else {
            0
        };
        EditorState { line_offset: lo, x: end_column(s.cells, lo as int), ..s }
    } else if s.x == 0 {
        let y = (s.y - 1) as u8;
        s.with_cursor(end_column(s.cells, y + s.line_offset), y)
    } else {
        s.with_cursor((s.x - 1) as u8, s.y)
    }
}

/// Writing character `c`: inserted under the cursor, which then moves on.
/// Nothing happens at the bottom-right cell.
pub open spec fn write_char_spec(s: EditorState, c: u8) -> EditorState {
    if s.x == VGA_WIDTH - 1 && s.y == VGA_HEIGHT - 1 {
        s
    } else {
        inc_cursor_spec(s.with_cells(inserted(s, cell(c, s.color))))
    }
}

/// Writing the bytes of `s` in turn, up to the first zero byte.
pub open spec fn write_bytes_spec(st: EditorState, s: Seq<u8>) -> EditorState
    decreases s.len(),
{
    if s.len() == 0 || s[0] == 0 {
        st
    } else {
        write_bytes_spec(write_char_spec(st, s[0]), s.subrange(1, s.len() as int))
    }
}

/// Deleting: the cursor moves one cell back, and the cell it lands on is
/// emptied.
pub open spec fn delete_char_spec(s: EditorState) -> EditorState {
    let t = dec_cursor_spec(s);
    put(t, t.pos(), t.blank())
}

/// Index of the cell that ends the text of the cursor's line: where a line
/// break goes.
pub open spec fn line_end(s: EditorState) -> int {
    index_of(0, s.row()) + run_len(s.cells, index_of(0, s.row()))
}

/// Breaking the line: refused on the bottom row when the buffer is used up;
/// else a line break goes at the end of the text of the cursor's line, and
/// the cursor to the start of the next row, scrolling from the bottom row.
pub open spec fn new_line_spec(s: EditorState) -> EditorState {
    if s.y == VGA_HEIGHT - 1 && s.line_offset == max_offset() {
        s
    } else {
        let t = put(s, line_end(s), cell(NEWLINE, s.color));
        if s.y + 1 < VGA_HEIGHT {
            t.with_cursor(0, (s.y + 1) as u8)
        } else {
            scroll_down_spec(t.with_cursor(0, s.y))
        }
    }
}

/// Clearing the screen: every visible cell emptied, the cursor kept.
pub open spec fn clear_screen_spec(s: EditorState) -> EditorState {
    s.with_cells(
        Seq::new(
            s.cells.len(),
            |i: int|
                if s.first_visible() <= i < s.first_visible() + VGA_BUFFER_SIZE {
                    s.blank()
                } else {
                    s.cells[i]
                },
        ),
    )
}

/// Moving the cursor: up and down by one row and left by one column, each
/// stopping at the edge; right to the end of the text block under it, at
/// most to the last column.
pub open spec fn move_cursor_spec(s: EditorState, dir: Direction) -> EditorState {
    match dir {
        Direction::Up => s.with_cursor(s.x, if s.y > 0 { (s.y - 1) as u8 } else { 0 }),
        Direction::Down => s.with_cursor(
            s.x,
            if s.y + 1 < VGA_HEIGHT { (s.y + 1) as u8 } else { s.y },
        ),
        Direction::Left => s.with_cursor(if s.x > 0 { (s.x - 1) as u8 } else { 0 }, s.y),
        Direction::Right => {
            let nx = s.x + run_len(s.cells, s.pos());
            s.with_cursor(if nx < VGA_WIDTH { nx as u8 } else { (VGA_WIDTH - 1) as u8 }, s.y)
        },
    }
}

/// What a decoded key does: a printable byte is written, Backspace deletes,
/// Enter breaks the line, an arrow moves the cursor, and Tab changes
/// nothing.
pub open spec fn handle_key_spec(s: EditorState, key: Key) -> EditorState {
    match key {
        Key::Char(c) => write_char_spec(s, c),
        Key::Backspace => delete_char_spec(s),
        Key::Enter => new_line_spec(s),
        Key::ArrowLeft => move_cursor_spec(s, Direction::Left),
        Key::ArrowRight => move_cursor_spec(s, Direction::Right),
        Key::ArrowUp => move_cursor_spec(s, Direction::Up),
        Key::ArrowDown => move_cursor_spec(s, Direction::Down),
        Key::Tab => s,
    }
}

/// The attribute with its foreground nibble replaced by `c`.
pub open spec fn with_foreground(color: u8, c: Color) -> u8 {
    ((color / 16) * 16 + color_index(c)) as u8
}

/// The attribute with its background nibble replaced by `c`.
pub open spec fn with_background(color: u8, c: Color) -> u8 {
    (color_index(c) * 16 + color % 16) as u8
}

} // verus!
