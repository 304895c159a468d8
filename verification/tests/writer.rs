//! Behavior of the character-cell writer model: colors, glyphs, control
//! bytes, wrapping, scrolling and clearing.

use yarhos::vga_buffer::{Color, ColorCode, ControlCharMode, Writer, BUFFER_HEIGHT, BUFFER_WIDTH};

#[test]
fn color_code_packs_nibbles() {
    let c = ColorCode::new(Color::LightCyan, Color::Black);
    assert_eq!(c.value(), 0x0B);
    let d = ColorCode::new(Color::Red, Color::White);
    assert_eq!(d.value(), 0xF4);
    let e = ColorCode::new(Color::Black, Color::Black);
    assert_eq!(e.value(), 0x00);
}

#[test]
fn color_code_set_foreground_keeps_background() {
    let mut c = ColorCode::new(Color::LightGreen, Color::DarkGray);
    assert_eq!(c.value(), 0x8A);
    c.set_foreground(Color::Red);
    assert_eq!(c.value(), 0x84);
    c.set_foreground(Color::White);
    assert_eq!(c.value(), 0x8F);
}

#[test]
fn color_code_set_background_keeps_foreground() {
    let mut c = ColorCode::new(Color::Yellow, Color::Black);
    assert_eq!(c.value(), 0x0E);
    c.set_background(Color::Blue);
    assert_eq!(c.value(), 0x1E);
    c.set_background(Color::White);
    assert_eq!(c.value(), 0xFE);
}

#[test]
fn fresh_writer_is_blank_light_gray_on_black() {
    let w = Writer::new();
    assert_eq!(w.row_position(), 0);
    assert_eq!(w.column_position(), 0);
    for row in 0..BUFFER_HEIGHT {
        for col in 0..BUFFER_WIDTH {
            let ch = w.char_at(row, col);
            assert_eq!(ch.code_point, b' ');
            assert_eq!(ch.color_code.value(), 0x07);
        }
    }
}

#[test]
fn write_byte_places_glyph_and_advances() {
    let mut w = Writer::new();
    w.write_byte(b'A');
    assert_eq!(w.char_at(0, 0).code_point, b'A');
    assert_eq!(w.row_position(), 0);
    assert_eq!(w.column_position(), 1);
}

#[test]
fn written_glyph_carries_active_colors() {
    let mut w = Writer::new();
    w.set_color(Color::Pink, Color::Black);
    w.write_byte(b'x');
    assert_eq!(w.char_at(0, 0).color_code.value(), 0x0D);
    w.set_fg_color(Color::Red);
    w.set_bg_color(Color::White);
    w.write_byte(b'y');
    assert_eq!(w.char_at(0, 1).color_code.value(), 0xF4);
}

#[test]
fn control_mode_interprets_tab_return_newline() {
    let mut w = Writer::new();
    w.set_control_mode(ControlCharMode::Control);
    w.write_string("A\tB\rC\nD");
    // A at (0,0); tab prints one space; B at (0,2); carriage return moves to
    // the left edge, so C overwrites A; line feed advances; D at (1,0).
    assert_eq!(w.char_at(0, 0).code_point, b'C');
    assert_eq!(w.char_at(0, 1).code_point, b' ');
    assert_eq!(w.char_at(0, 2).code_point, b'B');
    assert_eq!(w.char_at(1, 0).code_point, b'D');
    assert_eq!(w.row_position(), 1);
    assert_eq!(w.column_position(), 1);
}

#[test]
fn glyph_mode_prints_control_bytes_as_glyphs() {
    let mut w = Writer::new();
    w.set_control_mode(ControlCharMode::Glyph);
    w.write_string("A\tB\rC\nD");
    assert_eq!(w.char_at(0, 0).code_point, b'A');
    assert_eq!(w.char_at(0, 1).code_point, 9);
    assert_eq!(w.char_at(0, 2).code_point, b'B');
    assert_eq!(w.char_at(0, 3).code_point, 13);
    assert_eq!(w.char_at(0, 4).code_point, b'C');
    assert_eq!(w.char_at(0, 5).code_point, 10);
    assert_eq!(w.char_at(0, 6).code_point, b'D');
    assert_eq!(w.row_position(), 0);
    assert_eq!(w.column_position(), 7);
}

#[test]
fn long_line_wraps_at_buffer_width() {
    let mut w = Writer::new();
    for _ in 0..(BUFFER_WIDTH + 1) {
        w.write_byte(b'X');
    }
    assert_eq!(w.char_at(0, BUFFER_WIDTH - 1).code_point, b'X');
    assert_eq!(w.char_at(1, 0).code_point, b'X');
    assert_eq!(w.row_position(), 1);
    assert_eq!(w.column_position(), 1);
}

#[test]
fn overflowing_last_row_scrolls() {
    let mut w = Writer::new();
    for _ in 0..(BUFFER_HEIGHT - 1) {
        w.write_line("hello");
    }
    assert_eq!(w.row_position(), BUFFER_HEIGHT - 1);
    // The next full line lands on the last row and scrolls everything up.
    w.write_line("world");
    assert_eq!(w.row_position(), BUFFER_HEIGHT - 1);
    assert_eq!(w.column_position(), 0);
    assert_eq!(w.char_at(0, 0).code_point, b'h');
    assert_eq!(w.char_at(BUFFER_HEIGHT - 2, 0).code_point, b'w');
    assert_eq!(w.char_at(BUFFER_HEIGHT - 2, 4).code_point, b'd');
    // The freed last row is blank.
    for col in 0..BUFFER_WIDTH {
        assert_eq!(w.char_at(BUFFER_HEIGHT - 1, col).code_point, b' ');
    }
}

#[test]
fn scrolling_discards_the_top_row() {
    let mut w = Writer::new();
    w.write_line("first");
    for _ in 0..(BUFFER_HEIGHT - 1) {
        w.write_line("later");
    }
    // "first" has been pushed off the top.
    assert_eq!(w.char_at(0, 0).code_point, b'l');
}

#[test]
fn clear_blanks_screen_with_background_and_resets_cursor() {
    let mut w = Writer::new();
    w.write_string("some text");
    w.set_color(Color::Pink, Color::Blue);
    w.clear();
    assert_eq!(w.row_position(), 0);
    assert_eq!(w.column_position(), 0);
    for row in 0..BUFFER_HEIGHT {
        for col in 0..BUFFER_WIDTH {
            let ch = w.char_at(row, col);
            assert_eq!(ch.code_point, b' ');
            assert_eq!(ch.color_code.value(), 0x1D);
        }
    }
}

#[test]
fn character_set_block_covers_all_code_points() {
    let mut w = Writer::new();
    w.print_character_set();
    for i in 0..16usize {
        for j in 0..16usize {
            assert_eq!(w.char_at(i, j).code_point, (i * 16 + j) as u8);
        }
    }
    assert_eq!(w.row_position(), 16);
    assert_eq!(w.column_position(), 0);
    // The glyphs include the control bytes themselves.
    assert_eq!(w.char_at(0, 10).code_point, 10);
}

#[test]
fn character_set_starts_on_a_fresh_line_and_restores_mode() {
    let mut w = Writer::new();
    w.write_string("ab");
    w.print_character_set();
    // The block begins below the partially filled line.
    assert_eq!(w.char_at(1, 0).code_point, 0);
    assert_eq!(w.char_at(16, 15).code_point, 255);
    // Control mode was saved and restored: a line feed acts again.
    w.write_string("x\ny");
    assert_eq!(w.char_at(17, 0).code_point, b'x');
    assert_eq!(w.char_at(18, 0).code_point, b'y');
}

#[test]
fn write_line_places_full_text_on_one_row() {
    let s = "The quick brown foz jumps over the lazy dog.";
    assert!(s.len() <= BUFFER_WIDTH);
    let mut w = Writer::new();
    w.clear();
    w.write_line(s);
    for (i, b) in s.bytes().enumerate() {
        assert_eq!(w.char_at(0, i).code_point, b);
    }
    assert_eq!(w.row_position(), 1);
    assert_eq!(w.column_position(), 0);
}

#[test]
fn many_lines_keep_working() {
    let mut w = Writer::new();
    for _ in 0..200 {
        w.write_line("test output");
    }
    assert_eq!(w.row_position(), BUFFER_HEIGHT - 1);
    assert_eq!(w.char_at(BUFFER_HEIGHT - 2, 0).code_point, b't');
}

#[test]
fn character_set_scrolls_when_started_near_the_bottom() {
    let mut w = Writer::new();
    for _ in 0..(BUFFER_HEIGHT - 1) {
        w.write_line("");
    }
    assert_eq!(w.row_position(), BUFFER_HEIGHT - 1);
    w.print_character_set();
    // Each block row was printed on the last row and then scrolled up once
    // per following row, so block row k comes to rest at row 8 + k.
    for i in 0..16usize {
        for j in 0..16usize {
            assert_eq!(w.char_at(8 + i, j).code_point, (i * 16 + j) as u8);
        }
    }
    assert_eq!(w.row_position(), BUFFER_HEIGHT - 1);
    assert_eq!(w.column_position(), 0);
    for col in 0..BUFFER_WIDTH {
        assert_eq!(w.char_at(BUFFER_HEIGHT - 1, col).code_point, b' ');
    }
}
