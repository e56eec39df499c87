use vstd::prelude::*;
use vstd::string::*;

use crate::ps2::Key;
use crate::terminal::screen::{
    blank_entry, handle_key_spec, write_bytes_spec, Screen, ScreenState, BUFFER_SIZE,
};
use crate::terminal::vga::{attribute, cursor_cell, layout, view_start, Color, Frame};

verus! {

/// Number of independent screens of a terminal.
pub const NBR_OF_SCREENS_PER_TERMINAL: usize = 5;

/// A fixed pool of independent screens, one of them active.
pub struct Terminal {
    active_screen: usize,
    screens: Vec<Screen>,
}

/// The state of a `Terminal`.
pub struct TerminalState {
    pub active_screen: usize,
    pub screens: Seq<ScreenState>,
}

impl View for Terminal {
    type V = TerminalState;

    closed spec fn view(&self) -> TerminalState {
        TerminalState {
            active_screen: self.active_screen,
            screens: Seq::new(self.screens@.len(), |i: int| self.screens@[i]@),
        }
    }
}

impl TerminalState {
    /// Every screen valid, and the active one among them.
    pub open spec fn valid(self) -> bool {
        &&& self.screens.len() == NBR_OF_SCREENS_PER_TERMINAL
        &&& self.active_screen < NBR_OF_SCREENS_PER_TERMINAL
        &&& forall|i: int| 0 <= i < self.screens.len() ==> (#[trigger] self.screens[i]).valid()
    }

    /// The terminal with the active screen replaced by `s`.
    pub open spec fn with_active(self, s: ScreenState) -> TerminalState {
        TerminalState { screens: self.screens.update(self.active_screen as int, s), ..self }
    }

    /// The active screen.
    pub open spec fn active(self) -> ScreenState {
        self.screens[self.active_screen as int]
    }
}

/// What a key does to a terminal: Tab makes the next screen active (after
/// the last comes the first); any other key goes to the active screen.
pub open spec fn terminal_key_spec(t: TerminalState, key: Key) -> TerminalState {
    match key {
        Key::Tab => TerminalState {
            active_screen: if t.active_screen + 1 >= NBR_OF_SCREENS_PER_TERMINAL {
                0
            } else {
                (t.active_screen + 1) as usize
            },
            ..t
        },
        _ => t.with_active(handle_key_spec(t.active(), key)),
    }
}

impl Terminal {
    pub open spec fn wf(&self) -> bool {
        self@.valid()
    }

    /// A terminal of empty screens, the first one active.
    pub fn default() -> (r: Terminal)
        ensures
            r.wf(),
            r@.active_screen == 0,
            forall|i: int|
                0 <= i < NBR_OF_SCREENS_PER_TERMINAL ==> (#[trigger] r@.screens[i]).buffer
                    == Seq::new(BUFFER_SIZE as nat, |j: int| blank_entry()) && r@.screens[i].cursor
                    == 0 && r@.screens[i].last_entry_index == 0 && r@.screens[i].rows_scrolled
                    == 0,
    {
        let mut screens: Vec<Screen> = Vec::new();
        while screens.len() < NBR_OF_SCREENS_PER_TERMINAL
            invariant
                screens.len() <= NBR_OF_SCREENS_PER_TERMINAL,
                forall|i: int|
                    0 <= i < screens.len() ==> (#[trigger] screens@[i]).wf() && screens@[i]@.buffer
                        == Seq::new(BUFFER_SIZE as nat, |j: int| blank_entry())
                        && screens@[i]@.cursor == 0 && screens@[i]@.last_entry_index == 0
                        && screens@[i]@.rows_scrolled == 0,
            decreases NBR_OF_SCREENS_PER_TERMINAL - screens.len(),
        {
            screens.push(Screen::default());
        }
        Terminal { active_screen: 0, screens }
    }

    /// Handles a key (see `terminal_key_spec`).
    pub fn handle_key(&mut self, key: Key)
        requires
            old(self).wf(),
            old(self)@.active().can_write(),
        ensures
            final(self).wf(),
            final(self)@ == terminal_key_spec(old(self)@, key),
    {
        match key {
            Key::Tab => {
                self.active_screen = self.active_screen + 1;
                if self.active_screen >= NBR_OF_SCREENS_PER_TERMINAL {
                    self.active_screen = 0;
                }
                assert(self@.screens =~= old(self)@.screens);
            },
            _ => {
                let i = self.active_screen;
                assert(self.screens@[i as int]@ == self@.screens[i as int]);
                self.screens[i].handle_key(key);
                assert(self@.screens =~= old(self)@.with_active(
                    handle_key_spec(old(self)@.active(), key),
                ).screens);
            },
        }
    }

    /// Writes `string` on the active screen in the default attribute.
    pub fn write_str(&mut self, string: &str)
        requires
            old(self).wf(),
            old(self)@.active().room_for(string.spec_bytes().len() as int),
        ensures
            final(self).wf(),
            final(self)@ == old(self)@.with_active(
                write_bytes_spec(old(self)@.active(), string.spec_bytes(), attribute(Color::Default)),
            ),
    {
        let i = self.active_screen;
        assert(self.screens@[i as int]@ == self@.screens[i as int]);
        self.screens[i].write_str(string);
        assert(self@.screens =~= old(self)@.with_active(
            write_bytes_spec(old(self)@.active(), string.spec_bytes(), attribute(Color::Default)),
        ).screens);
    }

    /// Writes `string` on the active screen in attribute `color`.
    pub fn write_color_str(&mut self, string: &str, color: u8)
        requires
            old(self).wf(),
            old(self)@.active().room_for(string.spec_bytes().len() as int),
        ensures
            final(self).wf(),
            final(self)@ == old(self)@.with_active(
                write_bytes_spec(old(self)@.active(), string.spec_bytes(), color),
            ),
    {
        let i = self.active_screen;
        assert(self.screens@[i as int]@ == self@.screens[i as int]);
        self.screens[i].write_color_str(string, color);
        assert(self@.screens =~= old(self)@.with_active(
            write_bytes_spec(old(self)@.active(), string.spec_bytes(), color),
        ).screens);
    }

    /// Lays the active screen out onto the display.
    pub fn flush(&self) -> (r: Frame)
        requires
            self.wf(),
        ensures
            r.cells@ == layout(
                self@.active().buffer,
                view_start(self@.active()),
                BUFFER_SIZE - view_start(self@.active()),
            ),
            r.cursor == cursor_cell(self@.active(), view_start(self@.active())),
    {
        assert(self.screens@[self.active_screen as int]@ == self@.active());
        self.screens[self.active_screen].flush()
    }
}

} // verus!
