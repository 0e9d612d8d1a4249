use rust_os::vga_buffer::{Color, ColorCode, Writer, BUFFER_HEIGHT, BUFFER_WIDTH};

fn writer() -> Writer {
    Writer::new(ColorCode::new(Color::White, Color::Black))
}

fn row_text(w: &Writer, row: usize, len: usize) -> Vec<u8> {
    (0..len).map(|c| w.char_at(row, c).ascii_character).collect()
}

#[test]
fn color_code_packs_background_high() {
    assert_eq!(ColorCode::new(Color::White, Color::Black).value(), 0x0f);
    assert_eq!(ColorCode::new(Color::Green, Color::Cyan).value(), 0x32);
    assert_eq!(ColorCode::new(Color::Yellow, Color::Blue).value(), 0x1e);
}

#[test]
fn println_output_lands_on_second_last_row() {
    let mut w = writer();
    let output = "Check if this string is in the vga_buffer.";
    w.write_string("\n");
    w.write_string(output);
    w.write_string("\n");
    for (i, c) in output.chars().enumerate() {
        assert_eq!(w.char_at(BUFFER_HEIGHT - 2, i).ascii_character as char, c);
        assert_eq!(w.char_at(BUFFER_HEIGHT - 2, i).color_code, ColorCode::new(Color::White, Color::Black));
    }
    assert_eq!(w.column_position(), 0);
    assert_eq!(w.char_at(BUFFER_HEIGHT - 1, 0).ascii_character, b' ');
}

#[test]
fn println_many_keeps_last_line() {
    let mut w = writer();
    for _ in 0..200 {
        w.write_string("Testing println many.\n");
    }
    let line = b"Testing println many.";
    for row in 0..BUFFER_HEIGHT - 1 {
        assert_eq!(row_text(&w, row, line.len()), line.to_vec());
    }
}

#[test]
fn bytes_outside_printable_ascii_are_replaced() {
    let mut w = writer();
    w.write_string("a\u{e9}\tb");
    assert_eq!(row_text(&w, BUFFER_HEIGHT - 1, 5), vec![b'a', 0xfe, 0xfe, 0xfe, b'b']);
    assert_eq!(w.column_position(), 5);
}

#[test]
fn full_row_wraps_to_a_new_line() {
    let mut w = writer();
    let long: String = std::iter::repeat('x').take(BUFFER_WIDTH).collect();
    w.write_string(&long);
    assert_eq!(w.column_position(), BUFFER_WIDTH);
    w.write_string("y");
    assert_eq!(w.column_position(), 1);
    assert_eq!(row_text(&w, BUFFER_HEIGHT - 2, BUFFER_WIDTH), vec![b'x'; BUFFER_WIDTH]);
    assert_eq!(w.char_at(BUFFER_HEIGHT - 1, 0).ascii_character, b'y');
    assert_eq!(w.char_at(BUFFER_HEIGHT - 1, 1).ascii_character, b' ');
}

#[test]
fn empty_string_changes_nothing() {
    let mut w = writer();
    w.write_string("");
    assert_eq!(w.column_position(), 0);
    assert_eq!(w.char_at(0, 0).ascii_character, b' ');
}
