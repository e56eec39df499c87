use textmode::ps2::Key;
use textmode::vga::buffer::{Buffer, BUFFER_CELLS, NEWLINE};
use textmode::vga::color::Color;
use textmode::vga::cursor::{LOCATION_REG_HIGH, LOCATION_REG_LOW, REG_END, REG_START};
use textmode::vga::{Direction, Vga, VGA_BUFFER_SIZE, VGA_HEIGHT, VGA_WIDTH};

fn low(v: &Vga, i: u16) -> u8 {
    (v.buffer().at(i).unwrap() & 0xFF) as u8
}

fn check_new_vga() {
    let v = Vga::new();

    assert_eq!(v.x(), 0, "Vga::x should be initialized to 0");
    assert_eq!(v.y(), 0, "Vga::x should be initialized to 0");

    let expected_color = Color::Black.to_background() | Color::White.to_foreground();
    assert_eq!(
        v.color(),
        expected_color,
        "Vga::color should be initialized to Color::Black.to_background() | Color::White.to_foreground()"
    );
}

#[test]
fn terminal_test_new_vga() {
    check_new_vga();
}

#[test]
fn vga_test_new_vga() {
    check_new_vga();
}

#[test]
fn mod_test_new_vga() {
    check_new_vga();
}

fn check_line_wrap() {
    let mut v = Vga::new();

    for _ in 0..VGA_WIDTH {
        v.inc_cursor();
    }

    assert_eq!(v.x(), 0, "Vga::x should wrap around when reaching 64");

    v.clear_screen();
}

#[test]
fn terminal_test_line_wrap() {
    check_line_wrap();
}

#[test]
fn vga_test_line_wrap() {
    check_line_wrap();
}

#[test]
fn mod_test_line_wrap() {
    check_line_wrap();
}

fn check_backspace_empty_previous_line() {
    let mut v = Vga::new();

    v.new_line();
    v.delete_char();

    assert_eq!(v.y(), 0, "Vga::y should decrease by 1 when deleting a character at the beginning of a line");
    assert_eq!(v.x(), 0, "Vga::x should return to the beginning of the previous line when it is empty");

    v.clear_screen();
}

#[test]
fn terminal_test_backspace_line_start_empty_previous_line() {
    check_backspace_empty_previous_line();
}

#[test]
fn vga_test_backspace_line_start_empty_previous_line() {
    check_backspace_empty_previous_line();
}

#[test]
fn mod_test_backspace_line_start_empty_previous_line() {
    check_backspace_empty_previous_line();
}

fn check_backspace_previous_line_with_content() {
    let mut v = Vga::new();

    v.write_u8_arr(b"Hello, World");
    v.new_line();
    v.delete_char();

    assert_eq!(v.y(), 0, "Vga::y should decrease by 1 when deleting a character at the beginning of a line");
    assert_eq!(
        v.x(),
        12,
        "Vga::x should return to the last written non-null character of the previous line when deleting a line"
    );

    v.clear_screen();
}

#[test]
fn terminal_test_backspace_line_start_previous_line_with_content() {
    check_backspace_previous_line_with_content();
}

#[test]
fn vga_test_backspace_line_start_previous_line_with_content() {
    check_backspace_previous_line_with_content();
}

#[test]
fn mod_test_backspace_line_start_previous_line_with_content() {
    check_backspace_previous_line_with_content();
}

fn check_hello_world() {
    let mut v = Vga::new();

    v.write_u8_arr(b"Hello, World");
    let buf = &v.frame()[0..12];

    let mut written_content: [u8; 12] = [0u8; 12];

    for (idx, &entry) in buf.iter().enumerate() {
        written_content[idx] = (entry & 0x00FF) as u8;
    }

    assert_eq!(&written_content, b"Hello, World", "Content has not been written to VGA_BUFFER_ADDR");

    v.clear_screen();
}

#[test]
fn terminal_test_hello_world() {
    check_hello_world();
}

#[test]
fn vga_test_hello_world() {
    check_hello_world();
}

#[test]
fn mod_test_hello_world() {
    check_hello_world();
}

#[test]
fn test_newline_on_first_line() {
    let mut v = Vga::new();

    v.write_u8_arr(b"Hello, World");
    v.new_line();

    assert_eq!(
        (v.buffer().at(0).unwrap() & 0xFF) as u8,
        b'H',
        "First character of the previous line should not be deleted when pressing enter"
    );

    v.clear_screen();
}

#[test]
fn test_2_newlines_on_first_line() {
    let mut v = Vga::new();

    v.write_u8_arr(b"Hello, World");
    v.new_line();
    v.new_line();

    assert_eq!(
        (v.buffer().at(0).unwrap() & 0xFF) as u8,
        b'H',
        "First charactqer of the previous line should not be deleted when pressing enter"
    );

    v.clear_screen();
}

#[test]
fn test_block_length_first_line() {
    let mut v = Vga::new();

    v.write_u8_arr(b"Hello, World");

    assert_eq!(
        v.buffer().block_length(0, v.y() + v.line_offset()),
        12,
        "First character of the previous line should not be deleted when pressing enter"
    );

    v.clear_screen();
}

#[test]
fn test_newline_underflow() {
    let mut v = Vga::new();

    v.write_u8_arr(b"Hello, World");

    v.new_line();

    let block_length = v.buffer().block_length(0, v.y() + v.line_offset());
    let x = block_length % VGA_WIDTH as u16;
    let y = v.y() as u16 + v.line_offset() as u16;

    assert_eq!(x, 0, "Vga::x should equal to zero here");
    assert_eq!(y, 1, "Vga::x should equal to one here");
}

#[test]
fn hello_world_fills_first_cells() {
    let mut v = Vga::new();
    v.write_u8_arr(b"Hello, World");
    for (i, &b) in b"Hello, World".iter().enumerate() {
        assert_eq!(low(&v, i as u16), b);
    }
    assert_eq!((v.x(), v.y()), (12, 0));
}

#[test]
fn new_line_after_hello_world_marks_cell_twelve() {
    let mut v = Vga::new();
    v.write_u8_arr(b"Hello, World");
    v.new_line();
    assert_eq!((v.x(), v.y()), (0, 1));
    assert_eq!(low(&v, 12), NEWLINE);
    assert_eq!(low(&v, 0), b'H');
}

#[test]
fn delete_after_new_line_returns_to_text_end() {
    let mut v = Vga::new();
    v.write_u8_arr(b"Hello, World");
    v.new_line();
    v.delete_char();
    assert_eq!((v.x(), v.y()), (12, 0));
}

#[test]
fn eighty_characters_wrap_to_next_row() {
    let mut v = Vga::new();
    let line = [b'a'; 80];
    v.write_u8_arr(&line);
    assert_eq!((v.x(), v.y()), (0, 1));
    for i in 0..80u16 {
        assert_ne!(low(&v, i), NEWLINE);
        assert_eq!(low(&v, i), b'a');
    }
}

#[test]
fn write_short_string_at_origin_reads_back() {
    let mut v = Vga::new();
    let s: Vec<u8> = (1..80u8).map(|i| b'!' + (i % 90)).collect();
    v.write_u8_arr(&s);
    for (i, &b) in s.iter().enumerate() {
        assert_eq!(low(&v, i as u16), b);
    }
    assert_eq!(v.x() as usize, s.len());
    assert_eq!(v.y(), 0);
}

#[test]
fn full_row_from_second_row_wraps_without_line_break() {
    let mut v = Vga::new();
    v.new_line();
    let line = [b'z'; 80];
    v.write_u8_arr(&line);
    assert_eq!((v.x(), v.y()), (0, 2));
    for i in 80..160u16 {
        assert_eq!(low(&v, i), b'z');
    }
}

#[test]
fn new_line_marks_end_of_text_not_cursor() {
    let mut v = Vga::new();
    v.write_u8_arr(b"abcdef");
    v.move_cursor(Direction::Left);
    v.move_cursor(Direction::Left);
    v.move_cursor(Direction::Left);
    assert_eq!(v.x(), 3);
    v.new_line();
    assert_eq!(low(&v, 6), NEWLINE);
    assert_eq!(&(0..6).map(|i| low(&v, i)).collect::<Vec<u8>>(), b"abcdef");
    assert_eq!((v.x(), v.y()), (0, 1));
}

#[test]
fn two_new_lines_keep_text() {
    let mut v = Vga::new();
    v.write_u8_arr(b"xy");
    v.new_line();
    v.new_line();
    assert_eq!(low(&v, 0), b'x');
    assert_eq!(low(&v, 1), b'y');
    assert_eq!(low(&v, 2), NEWLINE);
    assert_eq!(low(&v, 80), NEWLINE);
    assert_eq!((v.x(), v.y()), (0, 2));
}

#[test]
fn delete_at_line_start_goes_after_previous_text() {
    let mut v = Vga::new();
    v.write_u8_arr(b"abc");
    v.new_line();
    v.write_u8_arr(b"de");
    v.new_line();
    v.delete_char();
    assert_eq!((v.x(), v.y()), (2, 1));
    assert_eq!(low(&v, 82), 0);
}

#[test]
fn delete_after_full_row_lands_on_last_column() {
    let mut v = Vga::new();
    v.write_u8_arr(&[b'q'; 80]);
    assert_eq!((v.x(), v.y()), (0, 1));
    v.delete_char();
    assert_eq!((v.x(), v.y()), (79, 0));
    assert_eq!(low(&v, 79), 0);
    assert_eq!(low(&v, 78), b'q');
}

#[test]
fn delete_in_middle_of_row_steps_back() {
    let mut v = Vga::new();
    v.write_u8_arr(b"abc");
    v.delete_char();
    assert_eq!(v.x(), 2);
    assert_eq!(low(&v, 2), 0);
    assert_eq!(low(&v, 1), b'b');
}

#[test]
fn block_length_is_zero_on_empty_and_line_break() {
    let mut v = Vga::new();
    assert_eq!(v.buffer().block_length(0, 0), 0);
    v.write_u8_arr(b"hi");
    v.new_line();
    assert_eq!(v.buffer().block_length(2, 0), 0);
    assert_eq!(v.buffer().block_length(0, 0), 2);
    assert_eq!(v.buffer().block_length(1, 0), 1);
    assert_eq!(v.buffer().block_length(0, 200), 0);
}

#[test]
fn insertion_shifts_rest_of_block() {
    let mut v = Vga::new();
    v.write_u8_arr(b"ac");
    v.move_cursor(Direction::Left);
    v.write_char(b'b');
    assert_eq!(&(0..3).map(|i| low(&v, i)).collect::<Vec<u8>>(), b"abc");
    assert_eq!(v.x(), 2);
}

#[test]
fn insertion_wraps_into_next_row() {
    let mut v = Vga::new();
    v.write_u8_arr(&[b'k'; 79]);
    v.write_char(b'e');
    assert_eq!((v.x(), v.y()), (0, 1));
    v.move_cursor(Direction::Up);
    v.move_cursor(Direction::Right);
    assert_eq!((v.x(), v.y()), (79, 0));
    v.move_cursor(Direction::Left);
    v.write_char(b'n');
    assert_eq!(low(&v, 78), b'n');
    assert_eq!(low(&v, 79), b'k');
    assert_eq!(low(&v, 80), b'e');
    assert_eq!((v.x(), v.y()), (79, 0));
}

#[test]
fn move_cursor_right_jumps_to_end_of_block() {
    let mut v = Vga::new();
    v.write_u8_arr(b"hello");
    for _ in 0..5 {
        v.move_cursor(Direction::Left);
    }
    assert_eq!(v.x(), 0);
    v.move_cursor(Direction::Left);
    assert_eq!(v.x(), 0);
    v.move_cursor(Direction::Right);
    assert_eq!(v.x(), 5);
    v.move_cursor(Direction::Up);
    assert_eq!(v.y(), 0);
    for _ in 0..30 {
        v.move_cursor(Direction::Down);
    }
    assert_eq!(v.y(), VGA_HEIGHT - 1);
}

#[test]
fn corner_write_is_dropped() {
    let mut v = Vga::new();
    for _ in 0..24 {
        v.new_line();
    }
    assert_eq!(v.y(), 24);
    v.write_u8_arr(&[b'w'; 79]);
    assert_eq!((v.x(), v.y()), (79, 24));
    v.write_char(b'!');
    assert_eq!((v.x(), v.y()), (79, 24));
    assert_eq!(low(&v, 24 * 80 + 79), 0);
}

#[test]
fn new_line_on_bottom_row_scrolls() {
    let mut v = Vga::new();
    v.write_u8_arr(b"top");
    for _ in 0..25 {
        v.new_line();
    }
    assert_eq!(v.y(), 24);
    assert_eq!(v.line_offset(), 1);
    assert_eq!(low(&v, 0), b't');
    assert_eq!(v.frame().len(), VGA_BUFFER_SIZE as usize);
    assert_eq!((v.frame()[0] & 0xFF) as u8, NEWLINE);
}

#[test]
fn new_line_refused_when_buffer_is_full() {
    let mut v = Vga::new();
    for _ in 0..200 {
        v.new_line();
    }
    assert_eq!(v.y(), 24);
    assert_eq!(v.line_offset(), 75);
    v.write_char(b'a');
    let x = v.x();
    v.new_line();
    assert_eq!((v.x(), v.y(), v.line_offset()), (x, 24, 75));
}

#[test]
fn delete_at_top_row_scrolls_back() {
    let mut v = Vga::new();
    v.write_u8_arr(b"first");
    for _ in 0..25 {
        v.new_line();
    }
    assert_eq!(v.line_offset(), 1);
    for _ in 0..24 {
        v.move_cursor(Direction::Up);
    }
    assert_eq!((v.x(), v.y()), (0, 0));
    v.delete_char();
    assert_eq!(v.line_offset(), 0);
    assert_eq!((v.x(), v.y()), (5, 0));
}

#[test]
fn clear_screen_empties_visible_cells() {
    let mut v = Vga::new();
    v.write_u8_arr(b"some text");
    v.clear_screen();
    for i in 0..VGA_BUFFER_SIZE {
        assert_eq!(low(&v, i), 0);
        assert_eq!(v.frame()[i as usize] & 0xFF, 0);
    }
    assert_eq!(v.x(), 9);
}

#[test]
fn colors_apply_to_later_writes() {
    let mut v = Vga::new();
    v.write_char(b'a');
    v.set_foreground_color(Color::Red);
    v.set_background_color(Color::Blue);
    assert_eq!(v.color(), 0x14);
    v.write_char(b'b');
    assert_eq!(v.buffer().at(0), Some(0x0F61));
    assert_eq!(v.buffer().at(1), Some(0x1462));
    v.set_foreground_color(Color::LightGreen);
    assert_eq!(v.color(), 0x1A);
}

#[test]
fn cursor_registers_follow_cursor() {
    let mut v = Vga::new();
    assert_eq!(v.cursor().shape_writes(), vec![(REG_START, 0x0D), (REG_END, 0x0F)]);
    v.write_u8_arr(b"ab");
    assert_eq!(v.cursor().position_writes(), vec![(LOCATION_REG_LOW, 2), (LOCATION_REG_HIGH, 0)]);
    for _ in 0..4 {
        v.new_line();
    }
    assert_eq!(v.cursor().position_writes(), vec![(LOCATION_REG_LOW, 64), (LOCATION_REG_HIGH, 1)]);
}

#[test]
fn buffer_write_past_end_is_dropped() {
    let mut b = Buffer::new();
    assert_eq!(b.len() as usize, BUFFER_CELLS);
    b.write(99, 79, 0x0741);
    assert_eq!(b.at(7999), Some(0x0741));
    b.write(99, 80, 0x0742);
    assert_eq!(b.at(8000), None);
    b.write(1, 2, 0x0743);
    assert_eq!(b.at(82), Some(0x0743));
    let w = b.slice(1);
    assert_eq!(w.len(), VGA_BUFFER_SIZE as usize);
    assert_eq!(w[2], 0x0743);
}

#[test]
fn color_nibbles() {
    assert_eq!(Color::White.to_foreground(), 15);
    assert_eq!(Color::Cyan.to_background(), 0x30);
    assert_eq!(Color::Black.to_background(), 0);
}

#[test]
fn keys_map_to_editing_operations() {
    let mut v = Vga::new();
    v.handle_key(Key::Char(b'o'));
    v.handle_key(Key::Char(b'k'));
    assert_eq!(v.x(), 2);
    v.handle_key(Key::Backspace);
    assert_eq!(v.x(), 1);
    assert_eq!(low(&v, 1), 0);
    v.handle_key(Key::Enter);
    assert_eq!((v.x(), v.y()), (0, 1));
    assert_eq!(low(&v, 1), NEWLINE);
    v.handle_key(Key::ArrowUp);
    v.handle_key(Key::ArrowRight);
    assert_eq!((v.x(), v.y()), (1, 0));
    v.handle_key(Key::ArrowLeft);
    v.handle_key(Key::ArrowDown);
    assert_eq!((v.x(), v.y()), (0, 1));
    v.handle_key(Key::Tab);
    assert_eq!((v.x(), v.y()), (0, 1));
    assert_eq!(low(&v, 0), b'o');
}
