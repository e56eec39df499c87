use textmode::idt;
use textmode::ps2::Key;
use textmode::terminal::screen::{Screen, BUFFER_SIZE};
use textmode::terminal::terminal::Terminal;
use textmode::ps2::{buffer_full, scancode_to_key};
use textmode::terminal::vga::{calculate_view_start_index, flush_vga, Color, Entry};

#[test]
fn entries_pack_attribute_over_character() {
    assert_eq!(Entry::new(b'A').to_u16(), 0x0741);
    assert_eq!(Entry::new_with_color(b'x', Color::Error.to_u8()).to_u16(), 0x4F78);
}

#[test]
fn screen_inserts_at_cursor() {
    let mut s = Screen::default();
    s.write_str("ac");
    s.handle_key(Key::ArrowLeft);
    s.handle_key(Key::Char(b'b'));
    assert_eq!(s.buffer[0] & 0xFF, b'a' as u16);
    assert_eq!(s.buffer[1] & 0xFF, b'b' as u16);
    assert_eq!(s.buffer[2] & 0xFF, b'c' as u16);
    assert_eq!(s.cursor, 2);
    assert_eq!(s.last_entry_index, 3);
}

#[test]
fn screen_backspace_removes_previous_entry() {
    let mut s = Screen::default();
    s.write_str("abc");
    s.handle_key(Key::Backspace);
    assert_eq!(s.cursor, 2);
    assert_eq!(s.buffer[2], Entry::new(b' ').to_u16());
    assert_eq!(s.buffer[BUFFER_SIZE - 1], Entry::new(b' ').to_u16());
    s.handle_key(Key::Enter);
    assert_eq!(s.buffer[2] & 0xFF, b'\n' as u16);
}

#[test]
fn screen_backspace_on_empty_screen_stays() {
    let mut s = Screen::default();
    s.handle_key(Key::Backspace);
    assert_eq!(s.cursor, 0);
    assert_eq!(s.last_entry_index, 0);
}

#[test]
fn screen_scroll_never_passes_bottom() {
    let mut s = Screen::default();
    s.handle_key(Key::ArrowUp);
    s.handle_key(Key::ArrowUp);
    assert_eq!(s.rows_scrolled, 2);
    s.handle_key(Key::ArrowDown);
    assert_eq!(s.rows_scrolled, 1);
    s.scroll(-5);
    assert_eq!(s.rows_scrolled, 0);
    s.scroll(3);
    s.write(b'q');
    assert_eq!(s.rows_scrolled, 0);
}

#[test]
fn screen_right_stops_after_text() {
    let mut s = Screen::default();
    s.write_str("a");
    s.handle_key(Key::ArrowRight);
    assert_eq!(s.cursor, 2);
    s.handle_key(Key::ArrowRight);
    assert_eq!(s.cursor, 2);
}

#[test]
fn screen_full_drops_writes() {
    let mut s = Screen::default();
    for _ in 0..BUFFER_SIZE + 5 {
        s.write(b'x');
    }
    assert_eq!(s.cursor, BUFFER_SIZE - 1);
    assert_eq!(s.last_entry_index, BUFFER_SIZE - 1);
}

#[test]
fn terminal_tab_cycles_screens() {
    let mut t = Terminal::default();
    t.write_str("one");
    for _ in 0..5 {
        t.handle_key(Key::Tab);
    }
    t.write_color_str("!", Color::Error.to_u8());
    t.handle_key(Key::Tab);
    t.handle_key(Key::Char(b'z'));
}

#[test]
fn idt_gate_builds() {
    let _gate = idt::Entry::new(0x1000, 0x08, 0x8E, 0x0010);
    idt::init();
}

#[test]
fn layout_breaks_lines_and_places_cursor() {
    let mut s = Screen::default();
    s.write_str("ab\ncd");
    let f = s.flush();
    assert_eq!(f.cells.len(), 2000);
    assert_eq!(f.cells[0], Entry::new(b'a').to_u16());
    assert_eq!(f.cells[1], Entry::new(b'b').to_u16());
    assert_eq!(f.cells[2], Entry::new(b' ').to_u16());
    assert_eq!(f.cells[79], Entry::new(b' ').to_u16());
    assert_eq!(f.cells[80], Entry::new(b'c').to_u16());
    assert_eq!(f.cells[81], Entry::new(b'd').to_u16());
    assert_eq!(f.cursor, Some(82));
}

#[test]
fn layout_follows_last_line_and_scrollback() {
    let mut s = Screen::default();
    for _ in 0..30 {
        s.write_str("x\n");
    }
    assert_eq!(calculate_view_start_index(&s), 12);
    let f = flush_vga(&s);
    assert_eq!(f.cells[0], Entry::new(b'x').to_u16());
    assert_eq!(f.cursor, Some(1920));
    s.handle_key(Key::ArrowUp);
    assert_eq!(calculate_view_start_index(&s), 10);
    for _ in 0..10 {
        s.handle_key(Key::ArrowUp);
    }
    assert_eq!(calculate_view_start_index(&s), 0);
}

#[test]
fn long_line_wraps_in_layout() {
    let mut s = Screen::default();
    for _ in 0..85 {
        s.write(b'w');
    }
    let f = s.flush();
    assert_eq!(f.cells[84], Entry::new(b'w').to_u16());
    assert_eq!(f.cells[85], Entry::new(b' ').to_u16());
    assert_eq!(f.cursor, Some(85));
}

#[test]
fn terminal_flush_shows_active_screen() {
    let mut t = Terminal::default();
    t.write_str("hi");
    t.handle_key(Key::Tab);
    assert_eq!(t.flush().cells[0], Entry::new(b' ').to_u16());
    for _ in 0..4 {
        t.handle_key(Key::Tab);
    }
    assert_eq!(t.flush().cells[0], Entry::new(b'h').to_u16());
    assert_eq!(t.flush().cursor, Some(2));
}

#[test]
fn scancodes_decode_to_keys() {
    assert_eq!(scancode_to_key(0x1E), Some(Key::Char(b'a')));
    assert_eq!(scancode_to_key(0x02), Some(Key::Char(b'1')));
    assert_eq!(scancode_to_key(0x39), Some(Key::Char(b' ')));
    assert_eq!(scancode_to_key(0x2B), Some(Key::Char(b'\\')));
    assert_eq!(scancode_to_key(14), Some(Key::Backspace));
    assert_eq!(scancode_to_key(15), Some(Key::Tab));
    assert_eq!(scancode_to_key(28), Some(Key::Enter));
    assert_eq!(scancode_to_key(72), Some(Key::ArrowUp));
    assert_eq!(scancode_to_key(75), Some(Key::ArrowLeft));
    assert_eq!(scancode_to_key(77), Some(Key::ArrowRight));
    assert_eq!(scancode_to_key(80), Some(Key::ArrowDown));
    assert_eq!(scancode_to_key(0x9E), None);
    assert_eq!(scancode_to_key(0), None);
}

#[test]
fn status_bit_means_byte_waiting() {
    assert!(buffer_full(0x1D));
    assert!(!buffer_full(0x1C));
}

#[test]
fn entry_count_grows_past_buffer_size() {
    let mut s = Screen::default();
    for _ in 0..BUFFER_SIZE - 1 {
        s.write(b'x');
    }
    assert_eq!(s.cursor, BUFFER_SIZE - 1);
    assert_eq!(s.last_entry_index, BUFFER_SIZE - 1);
    s.handle_key(Key::ArrowLeft);
    s.write(b'y');
    assert_eq!(s.cursor, BUFFER_SIZE - 1);
    assert_eq!(s.last_entry_index, BUFFER_SIZE);
    s.handle_key(Key::ArrowLeft);
    s.handle_key(Key::Char(b'z'));
    assert_eq!(s.last_entry_index, BUFFER_SIZE + 1);
    assert_eq!(calculate_view_start_index(&s), 0);
}
