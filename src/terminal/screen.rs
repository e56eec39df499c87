use vstd::prelude::*;
use vstd::string::*;

use crate::ps2::Key;
use crate::terminal::vga::{
    attribute, cursor_cell, flush_vga, layout, view_start, Color, Entry, Frame,
};
use crate::vga::buffer::cell;

verus! {

/// Number of entries a screen keeps.
pub const BUFFER_SIZE: usize = 1000;

/// The text of a screen, as a flat sequence of entries in which a line break
/// is the character `'\n'`, with an insertion cursor, the index of the last
/// entry, and how many rows the view is scrolled back.
pub struct Screen {
    pub buffer: Vec<u16>,
    pub cursor: usize,
    pub last_entry_index: usize,
    pub rows_scrolled: usize,
}

/// The state of a `Screen`.
pub struct ScreenState {
    pub buffer: Seq<u16>,
    pub cursor: usize,
    pub last_entry_index: usize,
    pub rows_scrolled: usize,
}

impl View for Screen {
    type V = ScreenState;

    open spec fn view(&self) -> ScreenState {
        ScreenState {
            buffer: self.buffer@,
            cursor: self.cursor,
            last_entry_index: self.last_entry_index,
            rows_scrolled: self.rows_scrolled,
        }
    }
}

/// A space in the default attribute: what an unused entry holds.
pub open spec fn blank_entry() -> u16 {
    cell(32, attribute(Color::Default))
}

impl ScreenState {
    /// `BUFFER_SIZE` entries, the cursor among them.
    pub open spec fn valid(self) -> bool {
        &&& self.buffer.len() == BUFFER_SIZE
        &&& self.cursor < BUFFER_SIZE
    }

    /// The entry count can take `n` more writes without passing the largest
    /// `usize`.
    pub open spec fn room_for(self, n: int) -> bool {
        self.last_entry_index + n <= usize::MAX
    }

    /// A write would be accepted only where the entry count can take it.
    pub open spec fn can_write(self) -> bool {
        self.cursor < BUFFER_SIZE - 1 ==> self.room_for(1)
    }
}

/// Inserting `character` in attribute `color` at the cursor: the entries
/// from the cursor on move one place (the last one drops off), the cursor
/// moves past the new entry, the entry count grows by one, and the view
/// returns to the bottom. Nothing happens with the cursor on the last entry.
pub open spec fn write_color_spec(s: ScreenState, character: u8, color: u8) -> ScreenState {
    if s.cursor >= BUFFER_SIZE - 1 {
        s
    } else {
        ScreenState {
            buffer: Seq::new(
                BUFFER_SIZE as nat,
                |i: int|
                    if i < s.cursor {
                        s.buffer[i]
                    } else if i == s.cursor {
                        cell(character, color)
                    } else {
                        s.buffer[i - 1]
                    },
            ),
            cursor: (s.cursor + 1) as usize,
            last_entry_index: (s.last_entry_index + 1) as usize,
            rows_scrolled: 0,
        }
    }
}

/// Writing each byte of `bytes` in turn.
pub open spec fn write_bytes_spec(s: ScreenState, bytes: Seq<u8>, color: u8) -> ScreenState
    decreases bytes.len(),
{
    if bytes.len() == 0 {
        s
    } else {
        write_bytes_spec(
            write_color_spec(s, bytes[0], color),
            bytes.subrange(1, bytes.len() as int),
            color,
        )
    }
}

/// Removing the entry at `index`: the later entries move one place back and
/// a blank fills the last one.
pub open spec fn remove_spec(s: ScreenState, index: int) -> ScreenState {
    ScreenState {
        buffer: Seq::new(
            BUFFER_SIZE as nat,
            |i: int|
                if i < index {
                    s.buffer[i]
                } else if i + 1 < BUFFER_SIZE {
                    s.buffer[i + 1]
                } else {
                    blank_entry()
                },
        ),
        last_entry_index: if s.last_entry_index > 0 {
            (s.last_entry_index - 1) as usize
        } else {
            0
        },
        ..s
    }
}

/// Scrolling the view `delta` rows back (forward when negative), never past
/// the bottom.
pub open spec fn scroll_spec(s: ScreenState, delta: isize) -> ScreenState {
    let rows: int = if delta >= 0 {
        if s.rows_scrolled + delta <= usize::MAX {
            s.rows_scrolled + delta
        } else {
            usize::MAX as int
        }
    } else if -delta <= s.rows_scrolled {
        s.rows_scrolled + delta
    } else {
        0
    };
    ScreenState { rows_scrolled: rows as usize, ..s }
}

/// What a key does to a screen: Enter writes a line break, Backspace
/// removes the entry before the cursor, Up and Down scroll the view, Left
/// and Right move the cursor within the text, a character is written, and
/// Tab does nothing here.
pub open spec fn handle_key_spec(s: ScreenState, key: Key) -> ScreenState {
    match key {
        Key::Tab => s,
        Key::Enter => write_color_spec(s, 10, attribute(Color::Default)),
        Key::Backspace => {
            let c: usize = if s.cursor > 0 {
                (s.cursor - 1) as usize
            } else {
                0
            };
            remove_spec(ScreenState { cursor: c, ..s }, c as int)
        },
        Key::ArrowUp => scroll_spec(s, 1isize),
        Key::ArrowDown => scroll_spec(s, -1isize),
        Key::ArrowLeft => ScreenState {
            cursor: if s.cursor > 0 {
                (s.cursor - 1) as usize
            } else {
                0
            },
            ..s
        },
        Key::ArrowRight => if s.cursor < BUFFER_SIZE - 1 && s.cursor <= s.last_entry_index {
            ScreenState { cursor: (s.cursor + 1) as usize, ..s }
        } else {
            s
        },
        Key::Char(c) => write_color_spec(s, c, attribute(Color::Default)),
    }
}

impl Screen {
    /// A well-formed screen.
    pub open spec fn wf(&self) -> bool {
        self@.valid()
    }

    /// An empty screen: blanks only, the cursor at the start, not scrolled.
    pub fn default() -> (r: Screen)
        ensures
            r.wf(),
            r@.buffer == Seq::new(BUFFER_SIZE as nat, |i: int| blank_entry()),
            r@.cursor == 0,
            r@.last_entry_index == 0,
            r@.rows_scrolled == 0,
    {
        let blank = Entry::new(32).to_u16();
        let mut buffer: Vec<u16> = Vec::new();
        while buffer.len() < BUFFER_SIZE
            invariant
                buffer.len() <= BUFFER_SIZE,
                blank == blank_entry(),
                forall|i: int| 0 <= i < buffer.len() ==> #[trigger] buffer@[i] == blank,
            decreases BUFFER_SIZE - buffer.len(),
        {
            buffer.push(blank);
        }
        assert(buffer@ =~= Seq::new(BUFFER_SIZE as nat, |i: int| blank_entry()));
        Screen { buffer, cursor: 0, last_entry_index: 0, rows_scrolled: 0 }
    }

    /// Handles a key (see `handle_key_spec`).
    pub fn handle_key(&mut self, key: Key)
        requires
            old(self).wf(),
            old(self)@.can_write(),
        ensures
            final(self).wf(),
            final(self)@ == handle_key_spec(old(self)@, key),
    {
        match key {
            Key::Tab => {},
            Key::Enter => self.write(10),
            Key::Backspace => {
                if self.cursor > 0 {
                    self.cursor = self.cursor - 1;
                }
                self.remove_entry_at(self.cursor);
            },
            Key::ArrowUp => self.scroll(1),
            Key::ArrowDown => self.scroll(-1),
            Key::ArrowLeft => {
                if self.cursor > 0 {
                    self.cursor = self.cursor - 1;
                }
            },
            Key::ArrowRight => {
                if self.cursor < BUFFER_SIZE - 1 && self.cursor <= self.last_entry_index {
                    self.cursor = self.cursor + 1;
                }
            },
            Key::Char(c) => self.write(c),
        }
    }

    /// Scrolls the view `delta` rows back (forward when negative), never
    /// past the bottom.
    pub fn scroll(&mut self, delta: isize)
        ensures
            final(self)@ == scroll_spec(old(self)@, delta),
    {
        if delta >= 0 {
            self.rows_scrolled = self.rows_scrolled.saturating_add(delta as usize);
            return;
        }
        let magnitude: usize = if delta == isize::MIN {
            (isize::MAX as usize) + 1
        } else {
            (-delta) as usize
        };
        if magnitude <= self.rows_scrolled {
            self.rows_scrolled = self.rows_scrolled - magnitude;
        } else {
            self.rows_scrolled = 0;
        }
    }

    /// Writes `character` in the default attribute at the cursor.
    pub fn write(&mut self, character: u8)
        requires
            old(self).wf(),
            old(self)@.can_write(),
        ensures
            final(self).wf(),
            final(self)@ == write_color_spec(old(self)@, character, attribute(Color::Default)),
    {
        self.write_color(character, Color::Default.to_u8());
    }

    /// Inserts `character` in attribute `color` at the cursor (see
    /// `write_color_spec`).
    pub fn write_color(&mut self, character: u8, color: u8)
        requires
            old(self).wf(),
            old(self)@.can_write(),
        ensures
            final(self).wf(),
            final(self)@ == write_color_spec(old(self)@, character, color),
    {
        if self.cursor >= BUFFER_SIZE - 1 {
            return;
        }
        let ghost b0 = self.buffer@;
        let mut k: usize = BUFFER_SIZE - 1;
        while k > self.cursor
            invariant
                self.wf(),
                self.cursor < BUFFER_SIZE - 1,
                self.cursor <= k < BUFFER_SIZE,
                b0.len() == BUFFER_SIZE,
                self.cursor == old(self).cursor,
                self.last_entry_index == old(self).last_entry_index,
                b0 == old(self).buffer@,
                forall|i: int|
                    0 <= i < BUFFER_SIZE ==> #[trigger] self.buffer@[i] == if k < i {
                        b0[i - 1]
                    } else {
                        b0[i]
                    },
            decreases k,
        {
            let prev = self.buffer[k - 1];
            self.buffer.set(k, prev);
            k = k - 1;
        }
        self.rows_scrolled = 0;
        self.last_entry_index = self.last_entry_index + 1;
        let entry = Entry::new_with_color(character, color).to_u16();
        self.buffer.set(self.cursor, entry);
        self.cursor = self.cursor + 1;
        assert(self.buffer@ =~= write_color_spec(old(self)@, character, color).buffer);
    }

    /// Writes the bytes of `string` in the default attribute.
    pub fn write_str(&mut self, string: &str)
        requires
            old(self).wf(),
            old(self)@.room_for(string.spec_bytes().len() as int),
        ensures
            final(self).wf(),
            final(self)@ == write_bytes_spec(
                old(self)@,
                string.spec_bytes(),
                attribute(Color::Default),
            ),
    {
        self.write_color_str(string, Color::Default.to_u8());
    }

    /// Writes the bytes of `string` in attribute `color`.
    pub fn write_color_str(&mut self, string: &str, color: u8)
        requires
            old(self).wf(),
            old(self)@.room_for(string.spec_bytes().len() as int),
        ensures
            final(self).wf(),
            final(self)@ == write_bytes_spec(old(self)@, string.spec_bytes(), color),
    {
        let bytes = string.as_bytes();
        let mut i: usize = 0;
        assert(bytes@.subrange(0, bytes@.len() as int) =~= bytes@);
        while i < bytes.len()
            invariant
                i <= bytes@.len(),
                bytes@ == string.spec_bytes(),
                self.wf(),
                self@.room_for(bytes@.len() - i),
                write_bytes_spec(old(self)@, bytes@, color) == write_bytes_spec(
                    self@,
                    bytes@.subrange(i as int, bytes@.len() as int),
                    color,
                ),
            decreases bytes@.len() - i,
        {
            assert(bytes@.subrange(i as int, bytes@.len() as int).subrange(1, bytes@.len() - i)
                =~= bytes@.subrange(i + 1, bytes@.len() as int));
            self.write_color(bytes[i], color);
            i = i + 1;
        }
    }

    /// Lays the screen out onto the display (see `flush_vga`).
    pub fn flush(&self) -> (r: Frame)
        requires
            self.wf(),
        ensures
            r.cells@ == layout(self.buffer@, view_start(self@), BUFFER_SIZE - view_start(self@)),
            r.cursor == cursor_cell(self@, view_start(self@)),
    {
        flush_vga(self)
    }

    /// Removes the entry at `index`; the later entries move one place back
    /// and a blank fills the last one.
    fn remove_entry_at(&mut self, index: usize)
        requires
            old(self).wf(),
            index < BUFFER_SIZE,
        ensures
            final(self).wf(),
            final(self)@ == remove_spec(old(self)@, index as int),
    {
        let ghost b0 = self.buffer@;
        let mut i: usize = index;
        while i + 1 < BUFFER_SIZE
            invariant
                self.wf(),
                index <= i < BUFFER_SIZE,
                b0 == old(self).buffer@,
                self.cursor == old(self).cursor,
                self.last_entry_index == old(self).last_entry_index,
                self.rows_scrolled == old(self).rows_scrolled,
                forall|j: int|
                    0 <= j < BUFFER_SIZE ==> #[trigger] self.buffer@[j] == if index <= j < i {
                        b0[j + 1]
                    } else {
                        b0[j]
                    },
            decreases BUFFER_SIZE - i,
        {
            let next = self.buffer[i + 1];
            self.buffer.set(i, next);
            i = i + 1;
        }
        if self.last_entry_index > 0 {
            self.last_entry_index = self.last_entry_index - 1;
        }
        let blank = Entry::new(32).to_u16();
        self.buffer.set(i, blank);
        assert(self.buffer@ =~= remove_spec(old(self)@, index as int).buffer);
    }
}

} // verus!
