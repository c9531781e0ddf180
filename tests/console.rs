use vga_console::color::Color;
use vga_console::console::VgaState;
use vga_console::print::{println_error, println_warn, vga_print};
use vga_console::surface::{Surface, CELLS, COLS, ROWS};
use vga_console::text::text_write;
use vga_console::writer::Console;

fn write(st: &mut VgaState, bytes: &[u8]) {
    st.write_bytes(&bytes.to_vec());
}

fn row_text(st: &VgaState, row: usize) -> Vec<u8> {
    (0..COLS).map(|c| st.text_at(row * COLS + c)).collect()
}

fn assert_surface_matches(st: &VgaState) {
    for i in 0..CELLS {
        assert_eq!(st.surface().read_cell(i), (st.text_at(i), st.color_at(i)));
    }
}

#[test]
fn new_console_is_blank() {
    let st = VgaState::new();
    assert_eq!((st.row(), st.col()), (0, 0));
    assert_eq!(st.active_color(), 0x0f);
    for i in 0..CELLS {
        assert_eq!(st.text_at(i), 0x20);
        assert_eq!(st.color_at(i), 0x00);
    }
    assert_surface_matches(&st);
}

#[test]
fn short_line_lands_in_row_and_surface() {
    let mut st = VgaState::new();
    st.set_color(0x1e);
    write(&mut st, b"Hello, world");
    assert_eq!((st.row(), st.col()), (0, 12));
    for (i, &b) in b"Hello, world".iter().enumerate() {
        assert_eq!(st.text_at(i), b);
        assert_eq!(st.color_at(i), 0x1e);
        assert_eq!(st.surface().read_cell(i), (b, 0x1e));
    }
    assert_eq!(st.text_at(12), 0x20);
    assert_eq!(st.surface().read_cell(12), (0x20, 0x00));
    assert_surface_matches(&st);
}

#[test]
fn short_line_from_later_row() {
    let mut st = VgaState::new();
    write(&mut st, b"\n\n\nxyz");
    assert_eq!((st.row(), st.col()), (3, 3));
    assert_eq!(st.text_at(3 * COLS), b'x');
    assert_eq!(st.text_at(3 * COLS + 2), b'z');
    assert_eq!(st.surface().read_cell(3 * COLS + 1), (b'y', 0x0f));
}

#[test]
fn full_row_wraps_to_next_row() {
    let mut st = VgaState::new();
    write(&mut st, &[b'x'; 80]);
    assert_eq!((st.row(), st.col()), (1, 0));
    assert_eq!(row_text(&st, 0), vec![b'x'; 80]);
    assert_eq!(row_text(&st, 1), vec![0x20; 80]);
    assert_surface_matches(&st);
}

#[test]
fn full_last_row_scrolls() {
    let mut st = VgaState::new();
    write(&mut st, &[b'\n'; 24]);
    assert_eq!(st.row(), ROWS - 1);
    write(&mut st, &[b'q'; 80]);
    assert_eq!((st.row(), st.col()), (ROWS - 1, 0));
    assert_eq!(row_text(&st, ROWS - 2), vec![b'q'; 80]);
    assert_eq!(row_text(&st, ROWS - 1), vec![0x20; 80]);
    assert_eq!(st.color_at((ROWS - 1) * COLS), 0x00);
    assert_surface_matches(&st);
}

#[test]
fn line_feeds_shift_rows_up() {
    let mut st = VgaState::new();
    for r in 0..ROWS {
        write(&mut st, &[b'a' + r as u8]);
        if r + 1 < ROWS {
            write(&mut st, b"\n");
        }
    }
    assert_eq!((st.row(), st.col()), (24, 1));
    write(&mut st, b"\n\n\n");
    assert_eq!((st.row(), st.col()), (24, 0));
    for r in 0..ROWS - 3 {
        assert_eq!(st.text_at(r * COLS), b'a' + (r + 3) as u8);
    }
    for r in ROWS - 3..ROWS {
        assert_eq!(row_text(&st, r), vec![0x20; 80]);
    }
    assert_surface_matches(&st);
}

#[test]
fn many_line_feeds_leave_blank_screen() {
    let mut st = VgaState::new();
    write(&mut st, b"A");
    write(&mut st, &[b'\n'; 26]);
    assert_eq!((st.row(), st.col()), (ROWS - 1, 0));
    for i in 0..CELLS {
        assert_eq!(st.text_at(i), 0x20);
        assert_eq!(st.color_at(i), 0x00);
    }
    assert_surface_matches(&st);
}

#[test]
fn clear_blanks_everything() {
    let mut st = VgaState::new();
    st.set_color(0x4e);
    write(&mut st, b"some text\nmore text\tand a tab");
    st.clear_buffer();
    assert_eq!((st.row(), st.col()), (0, 0));
    assert_eq!(st.active_color(), 0x4e);
    for i in 0..CELLS {
        assert_eq!(st.text_at(i), 0x20);
        assert_eq!(st.color_at(i), 0x00);
        assert_eq!(st.surface().read_cell(i), (0x20, 0x00));
    }
}

#[test]
fn render_all_round_trip() {
    let mut s = Surface::new();
    let text: Vec<u8> = (0..CELLS).map(|i| (i % 95) as u8 + 0x20).collect();
    let color: Vec<u8> = (0..CELLS).map(|i| (i % 256) as u8).collect();
    s.render_all(&text, &color);
    for i in 0..CELLS {
        assert_eq!(s.read_cell(i), (text[i], color[i]));
    }
    assert_eq!(s.as_bytes()[0], text[0]);
    assert_eq!(s.as_bytes()[1], color[0]);
    assert_eq!(s.as_bytes().len(), 2 * CELLS);
}

#[test]
fn render_cell_writes_one_pair() {
    let mut s = Surface::new();
    s.render_cell(5, b'k', 0x3c);
    assert_eq!(s.as_bytes()[10], b'k');
    assert_eq!(s.as_bytes()[11], 0x3c);
    assert_eq!(s.read_cell(4), (0, 0));
    assert_eq!(s.read_cell(6), (0, 0));
}

#[test]
fn ab_newline_c() {
    let mut st = VgaState::new();
    write(&mut st, b"AB\nC");
    let mut row0 = vec![0x20u8; 80];
    row0[0] = b'A';
    row0[1] = b'B';
    assert_eq!(row_text(&st, 0), row0);
    let mut row1 = vec![0x20u8; 80];
    row1[0] = b'C';
    assert_eq!(row_text(&st, 1), row1);
    assert_eq!((st.row(), st.col()), (1, 1));
    assert_surface_matches(&st);
}

#[test]
fn rows_of_line_feeds_evict_first_byte() {
    let mut st = VgaState::new();
    for r in 0..ROWS {
        write(&mut st, &[b'a' + r as u8, b'\n']);
    }
    assert_eq!((st.row(), st.col()), (ROWS - 1, 0));
    assert_ne!(st.text_at(0), b'a');
    assert_eq!(st.text_at(0), b'b');
    assert_eq!(st.text_at((ROWS - 2) * COLS), b'a' + 24);
    assert_eq!(row_text(&st, ROWS - 1), vec![0x20; 80]);
}

#[test]
fn tab_past_last_column_wraps() {
    let mut st = VgaState::new();
    write(&mut st, &[b'x'; 78]);
    assert_eq!((st.row(), st.col()), (0, 78));
    write(&mut st, b"\t");
    assert_eq!((st.row(), st.col()), (1, 0));
    write(&mut st, b"Z");
    assert_eq!(st.text_at(COLS), b'Z');
    assert_eq!(st.text_at(78), 0x20);
    assert_eq!((st.row(), st.col()), (1, 1));
}

#[test]
fn tab_moves_four_columns() {
    let mut st = VgaState::new();
    write(&mut st, b"\tA");
    assert_eq!(st.text_at(4), b'A');
    assert_eq!(st.text_at(0), 0x20);
    assert_eq!((st.row(), st.col()), (0, 5));
}

#[test]
fn tab_on_last_row_end_scrolls() {
    let mut st = VgaState::new();
    write(&mut st, &[b'\n'; 24]);
    write(&mut st, b"top");
    write(&mut st, &[b'y'; 74]);
    write(&mut st, b"\t");
    assert_eq!((st.row(), st.col()), (ROWS - 1, 0));
    assert_eq!(st.text_at((ROWS - 2) * COLS), b't');
    assert_eq!(row_text(&st, ROWS - 1), vec![0x20; 80]);
}

#[test]
fn carriage_return_blanks_top_row_and_homes() {
    let mut st = VgaState::new();
    write(&mut st, b"first\nsecond\r");
    assert_eq!((st.row(), st.col()), (0, 0));
    assert_eq!(row_text(&st, 0), vec![0x20; 80]);
    assert_eq!(st.text_at(COLS), b's');
    write(&mut st, b"X");
    assert_eq!(st.text_at(0), b'X');
    assert_surface_matches(&st);
}

#[test]
fn other_bytes_are_ignored() {
    let mut st = VgaState::new();
    write(&mut st, &[0x07, 0x00, 0x1b, 0x7f, 0x80, 0xff, b'a', 0x08]);
    assert_eq!((st.row(), st.col()), (0, 1));
    assert_eq!(st.text_at(0), b'a');
    assert_eq!(st.text_at(1), 0x20);
}

#[test]
fn consume_one_byte() {
    let mut st = VgaState::new();
    st.consume(b'~');
    st.consume(b' ');
    assert_eq!(st.text_at(0), b'~');
    assert_eq!(st.text_at(1), b' ');
    assert_eq!((st.row(), st.col()), (0, 2));
}

#[test]
fn make_color_packs_nibbles() {
    assert_eq!(Color::make_color(Color::BLUE, Color::GREEN), 0x21);
    assert_eq!(Color::make_color(Color::WHITE, Color::BLACK), 0x0f);
    assert_eq!(Color::make_color(0x1f, 0x12), 0x2f);
    assert_eq!(Color::make_color(0xab, 0xcd), 0xdb);
}

#[test]
fn color_presets() {
    assert_eq!(Color::error(), 0x04);
    assert_eq!(Color::warning(), 0x0e);
    assert_eq!(Color::text_write(), 0x0f);
    assert_eq!(Color::YELLOW, 0xe);
    assert_eq!(Color::LIGHT_MAGENTA, 0xd);
}

#[test]
fn print_presets_set_attribute() {
    let mut st = VgaState::new();
    println_warn(&mut st, &b"w".to_vec());
    println_error(&mut st, &b"e".to_vec());
    vga_console::print::println(&mut st, &b"n".to_vec());
    vga_print(&mut st, &b"c".to_vec(), 0x5a);
    assert_eq!(st.color_at(0), 0x0e);
    assert_eq!(st.color_at(1), 0x04);
    assert_eq!(st.color_at(2), 0x0f);
    assert_eq!(st.color_at(3), 0x5a);
    assert_eq!(st.active_color(), 0x5a);
    assert_eq!(st.surface().read_cell(1), (b'e', 0x04));
}

#[test]
fn locked_console_prints() {
    let c = Console::new();
    assert_eq!(c.cursor(), (0, 0));
    c.println(&b"\nTick: 1".to_vec());
    assert_eq!(c.cursor(), (1, 7));
    c.println_warn(&b"\n\tWarn".to_vec());
    assert_eq!(c.cursor(), (2, 8));
    c.println_error(&b"\r".to_vec());
    assert_eq!(c.cursor(), (0, 0));
    c.print(&vec![b'x'; 80], 0x0f);
    assert_eq!(c.cursor(), (1, 0));
}

#[test]
fn greeting_in_four_colours() {
    let mut s = Surface::new();
    text_write(&mut s);
    assert_eq!(s.read_cell(0), (b'H', 0x0f));
    assert_eq!(s.read_cell(6), (b' ', 0x0f));
    assert_eq!(s.read_cell(7), (b'H', 0x04));
    assert_eq!(s.read_cell(13), (b' ', 0x0e));
    assert_eq!(s.read_cell(20), (b' ', 0x21));
    assert_eq!(s.read_cell(26), (b'!', 0x21));
    assert_eq!(s.read_cell(27), (0, 0));
}
