use vstd::prelude::*;

pub mod buffer;
pub mod color;
pub mod cursor;
pub mod laws;
pub mod model;

use crate::ps2::Key;
use crate::vga::buffer::{
    cell, index_of, lemma_cell_bits, lemma_run_len_bounds, linear_index, window, Buffer,
    BUFFER_CELLS, NEWLINE,
};
use crate::vga::color::{color_index, Color};
use crate::vga::cursor::{Cursor, CursorRegs};
use crate::vga::model::{
    clear_screen_spec, dec_cursor_spec, delete_char_spec, end_column, filled_line, handle_key_spec,
    inc_cursor_spec, inserted, max_offset, move_cursor_spec, new_line_spec, put,
    scroll_down_spec, with_background, with_foreground, write_bytes_spec, write_char_spec,
    EditorState,
};

verus! {

/// Number of columns of the hardware text mode.
pub const VGA_WIDTH: u8 = 80;

/// Number of rows of the hardware text mode.
pub const VGA_HEIGHT: u8 = 25;

/// Number of cells on the visible screen.
pub const VGA_BUFFER_SIZE: u16 = 2000;

/// Highest line offset: the screen then shows the last `VGA_HEIGHT` lines
/// of the buffer (`MAX_BUFFERED_LINES - VGA_HEIGHT`).
pub const MAX_OFFSET: u8 = 75;

/// First scanline of the cursor shape set up by `Vga::new`.
pub const CURSOR_START: u8 = 0x0D;

/// Last scanline of the cursor shape set up by `Vga::new`.
pub const CURSOR_END: u8 = 0x0F;

/// A direction in which the cursor moves.
#[derive(Debug, Clone, Copy, PartialEq, Eq, Structural)]
pub enum Direction {
    Up,
    Down,
    Left,
    Right,
}

/// A position outside the visible screen.
#[derive(Debug, Clone, Copy, PartialEq, Eq, Structural)]
pub struct OutOfBoundsError;

/// The editor: a scrollback buffer, the attribute applied to what is
/// written, a cursor on the visible screen, and which buffer line the screen
/// starts at. After every editing operation, `frame` holds the visible window
/// of the buffer and `cursor` the cursor position, ready to be copied to the
/// display hardware.
pub struct Vga {
    color: u8,
    x: u8,
    y: u8,
    cursor: Cursor,
    buffer: Buffer,
    line_offset: u8,
    frame: Vec<u16>,
}

impl View for Vga {
    type V = EditorState;

    closed spec fn view(&self) -> EditorState {
        EditorState {
            color: self.color,
            x: self.x,
            y: self.y,
            line_offset: self.line_offset,
            cells: self.buffer@,
        }
    }
}

impl Default for Vga {
    /// Same as `Vga::new`.
    fn default() -> (r: Vga)
        ensures
            r.wf(),
            r@.x == 0,
            r@.y == 0,
            r@.line_offset == 0,
            r@.color == 0x0F,
            forall|i: int| 0 <= i < BUFFER_CELLS ==> #[trigger] r@.cells[i] == 0,
    {
        Vga::new()
    }
}

/// Cell of character `character` in attribute `color`.
fn make_cell(character: u8, color: u8) -> (r: u16)
    ensures
        r == cell(character, color),
{
    proof {
        lemma_cell_bits(character, color);
    }
    (character as u16) | ((color as u16) << 8)
}

/// The cells after the moves of the first `bl - k` steps of a shift that
/// walks the block `(p, p + bl]` from its end.
spec fn shift_partial(cells: Seq<u16>, p: int, bl: int, k: int, corner: int) -> Seq<u16> {
    Seq::new(
        cells.len(),
        |i: int|
            if p + k < i <= p + bl && i < corner {
                cells[i - 1]
            } else {
                cells[i]
            },
    )
}

impl Vga {
    /// The cells last flushed to the frame.
    pub closed spec fn frame_view(&self) -> Seq<u16> {
        self.frame@
    }

    /// The cursor registers as last set.
    pub closed spec fn cursor_view(&self) -> CursorRegs {
        self.cursor@
    }

    /// A consistent editor: a valid state, whose frame shows the visible
    /// window and whose hardware cursor sits at the logical cursor.
    pub open spec fn wf(&self) -> bool {
        &&& self@.valid()
        &&& self.frame_view() == window(self@.cells, self@.line_offset as int)
        &&& self.cursor_view().pos == index_of(self@.x as int, self@.y as int)
        &&& self.cursor_view().start == CURSOR_START
        &&& self.cursor_view().end == CURSOR_END
    }

    /// An editor with an empty buffer, the cursor at the top-left cell,
    /// white on black.
    pub fn new() -> (r: Vga)
        ensures
            r.wf(),
            r@.x == 0,
            r@.y == 0,
            r@.line_offset == 0,
            r@.color == with_background(with_foreground(0, Color::White), Color::Black),
            r@.color == 0x0F,
            forall|i: int| 0 <= i < BUFFER_CELLS ==> #[trigger] r@.cells[i] == 0,
    {
        let buffer = Buffer::new();
        let frame = buffer.slice(0);
        let mut t = Vga { color: 0, x: 0, y: 0, cursor: Cursor::new(), buffer, line_offset: 0, frame };
        t.set_foreground_color(Color::White);
        t.set_background_color(Color::Black);
        t.cursor.update_pos(0, 0);
        t.cursor.resize(CURSOR_START, CURSOR_END);
        t
    }

    /// Current attribute.
    pub fn color(&self) -> (r: u8)
        ensures
            r == self@.color,
    {
        self.color
    }

    /// Cursor column.
    pub fn x(&self) -> (r: u8)
        ensures
            r == self@.x,
    {
        self.x
    }

    /// Cursor row on the screen.
    pub fn y(&self) -> (r: u8)
        ensures
            r == self@.y,
    {
        self.y
    }

    /// Buffer line shown at the top of the screen.
    pub fn line_offset(&self) -> (r: u8)
        ensures
            r == self@.line_offset,
    {
        self.line_offset
    }

    /// The scrollback buffer.
    pub fn buffer(&self) -> (r: &Buffer)
        ensures
            r@ == self@.cells,
    {
        &self.buffer
    }

    /// The cells of the visible screen as last flushed.
    pub fn frame(&self) -> (r: &Vec<u16>)
        ensures
            r@ == self.frame_view(),
    {
        &self.frame
    }

    /// The cursor registers.
    pub fn cursor(&self) -> (r: &Cursor)
        ensures
            r@ == self.cursor_view(),
    {
        &self.cursor
    }

    /// Copies the visible window of the buffer to the frame.
    fn flush(&mut self)
        requires
            old(self)@.valid(),
        ensures
            final(self)@ == old(self)@,
            final(self).cursor_view() == old(self).cursor_view(),
            final(self).frame_view() == window(final(self)@.cells, final(self)@.line_offset as int),
    {
        self.frame = self.buffer.slice(self.line_offset);
    }

    /// Mirrors the logical cursor into the cursor registers and flushes.
    fn sync(&mut self)
        requires
            old(self)@.valid(),
            old(self).cursor_view().start == CURSOR_START,
            old(self).cursor_view().end == CURSOR_END,
        ensures
            final(self).wf(),
            final(self)@ == old(self)@,
    {
        self.cursor.update_pos(self.x as u16, self.y as u16);
        self.flush();
    }

    /// Writes `e` at buffer index `i` if that cell is on the screen and
    /// before its bottom-right cell.
    fn put_cell(&mut self, i: usize, e: u16)
        requires
            old(self)@.valid(),
        ensures
            final(self)@ == put(old(self)@, i as int, e),
            final(self).cursor_view() == old(self).cursor_view(),
    {
        let first: usize = linear_index(0, self.line_offset);
        let corner: usize = linear_index(VGA_WIDTH as u16 - 1, self.line_offset + VGA_HEIGHT - 1);
        if first <= i && i < corner {
            self.buffer.write(0, i as u16, e);
        }
    }

    /// Writes `character` in the current attribute at column `x` of screen
    /// row `y`. The bottom-right cell is never written; a position off the
    /// screen is an error.
    fn write_char_at(&mut self, x: u8, y: u8, character: u8) -> (r: Result<(), OutOfBoundsError>)
        requires
            old(self)@.valid(),
        ensures
            final(self).cursor_view() == old(self).cursor_view(),
            r.is_ok() == (x < VGA_WIDTH && y < VGA_HEIGHT),
            x < VGA_WIDTH && y < VGA_HEIGHT ==> final(self)@ == put(
                old(self)@,
                index_of(x as int, y + old(self)@.line_offset),
                cell(character, old(self)@.color),
            ),
            !(x < VGA_WIDTH && y < VGA_HEIGHT) ==> final(self)@ == old(self)@,
    {
        if y == VGA_HEIGHT - 1 && x == VGA_WIDTH - 1 {
            return Ok(());
        }
        if y >= VGA_HEIGHT || x >= VGA_WIDTH {
            return Err(OutOfBoundsError);
        }
        let entry = make_cell(character, self.color);
        let index: usize = linear_index(x as u16, y + self.line_offset);
        self.put_cell(index, entry);
        Ok(())
    }

    /// Moves the block of text under the cursor one cell further, walking
    /// from its end so that no cell is overwritten before it has moved.
    fn shift_text_right(&mut self)
        requires
            old(self)@.valid(),
        ensures
            final(self)@ == old(self)@.with_cells(
                inserted(old(self)@, old(self)@.cells[old(self)@.pos()]),
            ),
            final(self).cursor_view() == old(self).cursor_view(),
    {
        let ghost s0 = self@;
        let row: u8 = self.y + self.line_offset;
        let p: usize = linear_index(self.x as u16, row);
        let bl: usize = self.buffer.block_length(self.x, row) as usize;
        let corner: usize = linear_index(VGA_WIDTH as u16 - 1, self.line_offset + VGA_HEIGHT - 1);
        proof {
            lemma_run_len_bounds(s0.cells, p as int);
        }
        let mut k: usize = bl;
        assert(self.buffer@ =~= shift_partial(s0.cells, p as int, bl as int, k as int, corner as int));
        while k > 0
            invariant
                s0.valid(),
                p == s0.pos(),
                bl == crate::vga::buffer::run_len(s0.cells, p as int),
                corner == s0.corner(),
                p + bl <= BUFFER_CELLS,
                k <= bl,
                self.cursor_view() == old(self).cursor_view(),
                self@ == s0.with_cells(
                    shift_partial(s0.cells, p as int, bl as int, k as int, corner as int),
                ),
            decreases k,
        {
            let t: usize = p + k;
            if t < corner {
                let e: u16 = match self.buffer.at((t - 1) as u16) {
                    Some(v) => v,
                    None => 0,
                };
                self.buffer.write(0, t as u16, e);
            }
            k = k - 1;
            assert(self.buffer@ =~= shift_partial(
                s0.cells,
                p as int,
                bl as int,
                k as int,
                corner as int,
            ));
        }
        assert(self.buffer@ =~= inserted(s0, s0.cells[s0.pos()]));
    }

    /// Clears buffer line `r` to empty cells in the current attribute.
    fn clear_line(&mut self, r: u8)
        requires
            old(self)@.valid(),
            r < 100,
        ensures
            final(self)@ == old(self)@.with_cells(
                filled_line(old(self)@.cells, r as int, old(self)@.blank()),
            ),
            final(self).cursor_view() == old(self).cursor_view(),
    {
        let ghost s0 = self@;
        let blank = make_cell(0, self.color);
        let mut col: u16 = 0;
        assert(self.buffer@ =~= Seq::new(
            s0.cells.len(),
            |i: int|
                if index_of(0, r as int) <= i < index_of(col as int, r as int) {
                    blank
                } else {
                    s0.cells[i]
                },
        ));
        while col < VGA_WIDTH as u16
            invariant
                s0.valid(),
                r < 100,
                col <= VGA_WIDTH,
                blank == s0.blank(),
                self.cursor_view() == old(self).cursor_view(),
                self@ == s0.with_cells(
                    Seq::new(
                        s0.cells.len(),
                        |i: int|
                            if index_of(0, r as int) <= i < index_of(col as int, r as int) {
                                blank
                            } else {
                                s0.cells[i]
                            },
                    ),
                ),
            decreases VGA_WIDTH - col,
        {
            self.buffer.write(r, col, blank);
            col = col + 1;
            assert(self.buffer@ =~= Seq::new(
                s0.cells.len(),
                |i: int|
                    if index_of(0, r as int) <= i < index_of(col as int, r as int) {
                        blank
                    } else {
                        s0.cells[i]
                    },
            ));
        }
        assert(self.buffer@ =~= filled_line(s0.cells, r as int, s0.blank()));
    }

    /// Scrolls one line down and puts the cursor on the bottom row; nothing
    /// happens when the screen shows the last lines of the buffer already.
    fn scroll_down(&mut self)
        requires
            old(self)@.x < VGA_WIDTH,
            old(self)@.line_offset <= max_offset(),
            old(self)@.cells.len() == BUFFER_CELLS,
        ensures
            final(self)@ == scroll_down_spec(old(self)@),
            final(self).cursor_view() == old(self).cursor_view(),
    {
        if self.line_offset == MAX_OFFSET {
            return;
        }
        self.y = VGA_HEIGHT - 1;
        self.line_offset = self.line_offset + 1;
        self.clear_line(self.line_offset + VGA_HEIGHT - 1);
    }

    /// Moves the cursor one cell on (see `inc_cursor_spec`), without
    /// flushing.
    fn advance(&mut self)
        requires
            old(self)@.valid(),
        ensures
            final(self)@ == inc_cursor_spec(old(self)@),
            final(self).cursor_view() == old(self).cursor_view(),
    {
        if self.x == VGA_WIDTH - 1 && self.y == VGA_HEIGHT - 1 {
            return;
        }
        if self.x + 1 < VGA_WIDTH {
            self.x = self.x + 1;
        } else if self.y + 1 < VGA_HEIGHT {
            self.x = 0;
            self.y = self.y + 1;
        } else {
            self.x = 0;
            self.scroll_down();
        }
    }

    /// Column just after the text of screen row `y`, kept on the screen.
    fn get_x_for_y(&self, y: u8) -> (r: u8)
        requires
            self@.valid(),
            y < VGA_HEIGHT,
        ensures
            r == end_column(self@.cells, y + self@.line_offset),
    {
        let bl = self.buffer.block_length(0, y + self.line_offset);
        if bl < VGA_WIDTH as u16 {
            bl as u8
        } else {
            VGA_WIDTH - 1
        }
    }

    /// Moves the cursor one cell back (see `dec_cursor_spec`), without
    /// flushing.
    fn dec_cursor(&mut self)
        requires
            old(self)@.valid(),
        ensures
            final(self)@ == dec_cursor_spec(old(self)@),
            final(self).cursor_view() == old(self).cursor_view(),
    {
        if self.x == 0 && self.y == 0 {
            if self.line_offset > 0 {
                self.line_offset = self.line_offset - 1;
            }
            self.x = self.get_x_for_y(0);
        } else if self.x == 0 {
            self.y = self.y - 1;
            self.x = self.get_x_for_y(self.y);
        } else {
            self.x = self.x - 1;
        }
    }

    /// Moves the cursor one cell on: to the next column, or to the start of
    /// the next row, scrolling from the bottom row. The bottom-right cell
    /// keeps it.
    pub fn inc_cursor(&mut self)
        requires
            old(self).wf(),
        ensures
            final(self).wf(),
            final(self)@ == inc_cursor_spec(old(self)@),
    {
        self.advance();
        self.sync();
    }

    /// Inserts `c` under the cursor and moves the cursor on. The text from
    /// the cursor to the next line break or empty cell moves one cell
    /// further first. At the bottom-right cell nothing is written.
    pub fn write_char(&mut self, c: u8)
        requires
            old(self).wf(),
        ensures
            final(self).wf(),
            final(self)@ == write_char_spec(old(self)@, c),
    {
        if self.x == VGA_WIDTH - 1 && self.y == VGA_HEIGHT - 1 {
            self.sync();
            return;
        }
        let ghost s0 = self@;
        self.shift_text_right();
        let _ = self.write_char_at(self.x, self.y, c);
        assert(self.buffer@ =~= inserted(s0, cell(c, s0.color)));
        self.advance();
        self.sync();
    }

    /// Moves the cursor one cell back and empties the cell it lands on.
    pub fn delete_char(&mut self)
        requires
            old(self).wf(),
        ensures
            final(self).wf(),
            final(self)@ == delete_char_spec(old(self)@),
    {
        self.dec_cursor();
        let _ = self.write_char_at(self.x, self.y, 0);
        self.sync();
    }

    /// Writes the bytes of `s` in turn with `write_char`, stopping at the
    /// first zero byte.
    pub fn write_u8_arr(&mut self, s: &[u8])
        requires
            old(self).wf(),
        ensures
            final(self).wf(),
            final(self)@ == write_bytes_spec(old(self)@, s@),
    {
        let mut i: usize = 0;
        assert(s@.subrange(0, s@.len() as int) =~= s@);
        while i < s.len()
            invariant
                i <= s@.len(),
                self.wf(),
                write_bytes_spec(old(self)@, s@) == write_bytes_spec(
                    self@,
                    s@.subrange(i as int, s@.len() as int),
                ),
            decreases s@.len() - i,
        {
            let c = s[i];
            if c == 0 {
                assert(write_bytes_spec(self@, s@.subrange(i as int, s@.len() as int)) == self@);
                return;
            }
            assert(s@.subrange(i as int, s@.len() as int).subrange(1, s@.len() - i)
                =~= s@.subrange(i + 1, s@.len() as int));
            let ghost before = self@;
            self.write_char(c);
            assert(write_bytes_spec(before, s@.subrange(i as int, s@.len() as int))
                == write_bytes_spec(self@, s@.subrange(i + 1, s@.len() as int)));
            i = i + 1;
        }
    }

    /// Empties every visible cell; the cursor stays.
    pub fn clear_screen(&mut self)
        requires
            old(self).wf(),
        ensures
            final(self).wf(),
            final(self)@ == clear_screen_spec(old(self)@),
    {
        let ghost s0 = self@;
        let blank = make_cell(0, self.color);
        let first: usize = linear_index(0, self.line_offset);
        let end: usize = first + VGA_BUFFER_SIZE as usize;
        let mut i: usize = first;
        assert(self.buffer@ =~= Seq::new(
            s0.cells.len(),
            |j: int|
                if first <= j < i {
                    blank
                } else {
                    s0.cells[j]
                },
        ));
        while i < end
            invariant
                s0.valid(),
                first == s0.first_visible(),
                end == first + VGA_BUFFER_SIZE,
                first <= i <= end,
                blank == s0.blank(),
                self.cursor_view() == old(self).cursor_view(),
                self@ == s0.with_cells(
                    Seq::new(
                        s0.cells.len(),
                        |j: int|
                            if first <= j < i {
                                blank
                            } else {
                                s0.cells[j]
                            },
                    ),
                ),
            decreases end - i,
        {
            self.buffer.write(0, i as u16, blank);
            i = i + 1;
            assert(self.buffer@ =~= Seq::new(
                s0.cells.len(),
                |j: int|
                    if first <= j < i {
                        blank
                    } else {
                        s0.cells[j]
                    },
            ));
        }
        assert(self.buffer@ =~= clear_screen_spec(s0).cells);
        self.sync();
    }

    /// Breaks the line: a line break goes at the end of the text of the
    /// cursor's line, and the cursor to the start of the next row, scrolling
    /// from the bottom row. Refused on the bottom row once the screen shows
    /// the last lines of the buffer.
    pub fn new_line(&mut self)
        requires
            old(self).wf(),
        ensures
            final(self).wf(),
            final(self)@ == new_line_spec(old(self)@),
    {
        if self.y == VGA_HEIGHT - 1 && self.line_offset == MAX_OFFSET {
            self.sync();
            return;
        }
        let row: u8 = self.y + self.line_offset;
        let bl: u16 = self.buffer.block_length(0, row);
        proof {
            lemma_run_len_bounds(self@.cells, index_of(0, row as int));
        }
        let end: usize = linear_index(0, row) + bl as usize;
        let sentinel = make_cell(NEWLINE, self.color);
        self.put_cell(end, sentinel);
        self.x = 0;
        if self.y + 1 < VGA_HEIGHT {
            self.y = self.y + 1;
        } else {
            self.scroll_down();
        }
        self.sync();
    }

    /// Moves the cursor (see `move_cursor_spec`).
    pub fn move_cursor(&mut self, dir: Direction)
        requires
            old(self).wf(),
        ensures
            final(self).wf(),
            final(self)@ == move_cursor_spec(old(self)@, dir),
    {
        match dir {
            Direction::Up => {
                if self.y > 0 {
                    self.y = self.y - 1;
                }
            },
            Direction::Down => {
                if self.y + 1 < VGA_HEIGHT {
                    self.y = self.y + 1;
                }
            },
            Direction::Left => {
                if self.x > 0 {
                    self.x = self.x - 1;
                }
            },
            Direction::Right => {
                let bl = self.buffer.block_length(self.x, self.y + self.line_offset);
                if (self.x as usize) + (bl as usize) < VGA_WIDTH as usize {
                    self.x = self.x + bl as u8;
                } else {
                    self.x = VGA_WIDTH - 1;
                }
            },
        }
        self.sync();
    }

    /// Applies one decoded key (see `handle_key_spec`).
    pub fn handle_key(&mut self, key: Key)
        requires
            old(self).wf(),
        ensures
            final(self).wf(),
            final(self)@ == handle_key_spec(old(self)@, key),
    {
        match key {
            Key::Char(c) => self.write_char(c),
            Key::Backspace => self.delete_char(),
            Key::Enter => self.new_line(),
            Key::ArrowLeft => self.move_cursor(Direction::Left),
            Key::ArrowRight => self.move_cursor(Direction::Right),
            Key::ArrowUp => self.move_cursor(Direction::Up),
            Key::ArrowDown => self.move_cursor(Direction::Down),
            Key::Tab => {},
        }
    }

    /// Replaces the foreground nibble of the attribute; affects later writes
    /// only.
    pub fn set_foreground_color(&mut self, foreground: Color)
        ensures
            final(self)@ == old(self)@.with_color(with_foreground(old(self)@.color, foreground)),
            final(self).frame_view() == old(self).frame_view(),
            final(self).cursor_view() == old(self).cursor_view(),
    {
        let f = foreground.to_foreground();
        let c = self.color;
        assert((c & 0xF0) | f == (c / 16) * 16 + f) by (bit_vector)
            requires
                f < 16,
        ;
        self.color = (self.color & 0xF0) | f;
    }

    /// Replaces the background nibble of the attribute; affects later writes
    /// only.
    pub fn set_background_color(&mut self, background: Color)
        ensures
            final(self)@ == old(self)@.with_color(with_background(old(self)@.color, background)),
            final(self).frame_view() == old(self).frame_view(),
            final(self).cursor_view() == old(self).cursor_view(),
    {
        let b = background.to_background();
        let c = self.color;
        let ghost k = color_index(background);
        assert(b == k * 16 && k < 16);
        assert((c & 0x0F) | b == b + c % 16) by (bit_vector)
            requires
                b % 16 == 0,
        ;
        self.color = (self.color & 0x0F) | b;
    }
}

} // verus!
