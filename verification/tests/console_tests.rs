use kernel_core::console::{Console, CONSOLE_COLUMNS, CONSOLE_ROWS};
use kernel_core::graphics::PixelColor;

fn console() -> Console {
    Console::new(PixelColor::new(255, 255, 255), PixelColor::new(45, 118, 237))
}

fn row_string(c: &Console, row: usize) -> String {
    let mut s = String::new();
    for col in 0..CONSOLE_COLUMNS {
        let b = c.char_at(row, col);
        if b == 0 {
            break;
        }
        s.push(b as char);
    }
    s
}

#[test]
fn plain_text_fills_the_row_and_advances_the_cursor() {
    let mut c = console();
    c.put_string("Welcome!");
    assert_eq!(row_string(&c, 0), "Welcome!");
    assert_eq!(c.cursor_row(), 0);
    assert_eq!(c.cursor_column(), 8);
    // the stored row stays NUL-terminated
    assert_eq!(c.char_at(0, 8), 0);
}

#[test]
fn newline_moves_the_cursor_down() {
    let mut c = console();
    c.put_string("one\ntwo\n");
    assert_eq!(row_string(&c, 0), "one");
    assert_eq!(row_string(&c, 1), "two");
    assert_eq!(c.cursor_row(), 2);
    assert_eq!(c.cursor_column(), 0);
}

#[test]
fn a_long_line_wraps_at_the_last_usable_column() {
    let mut c = console();
    let long = "x".repeat(CONSOLE_COLUMNS + 5);
    c.put_string(&long);
    // the first row holds the first 79 characters, the rest wrapped
    assert_eq!(row_string(&c, 0), "x".repeat(CONSOLE_COLUMNS - 1));
    assert_eq!(row_string(&c, 1), "x".repeat(6));
    assert_eq!(c.cursor_row(), 1);
    assert_eq!(c.cursor_column(), 6);
}

#[test]
fn writing_past_the_bottom_row_scrolls() {
    let mut c = console();
    for i in 0..CONSOLE_ROWS {
        c.put_string(&format!("line{}\n", i));
    }
    // the newline of the last row scrolled everything up one line
    assert_eq!(row_string(&c, 0), "line1");
    assert_eq!(row_string(&c, CONSOLE_ROWS - 2), format!("line{}", CONSOLE_ROWS - 1));
    assert_eq!(row_string(&c, CONSOLE_ROWS - 1), "");
    assert_eq!(c.cursor_row(), CONSOLE_ROWS - 1);
    assert_eq!(c.cursor_column(), 0);
}

#[test]
fn a_nul_cuts_the_string_short() {
    let mut c = console();
    c.put_string("ab\0cd");
    assert_eq!(row_string(&c, 0), "ab");
    assert_eq!(c.cursor_column(), 2);
}

#[test]
fn a_fresh_console_is_blank() {
    let c = Console::new(PixelColor::new(1, 1, 1), PixelColor::new(2, 2, 2));
    assert_eq!(c.cursor_row(), 0);
    assert_eq!(c.cursor_column(), 0);
    for col in 0..=CONSOLE_COLUMNS {
        assert_eq!(c.char_at(0, col), 0);
    }
}

#[test]
fn wrapping_happens_exactly_at_column_seventy_nine() {
    let mut c = Console::new(PixelColor::new(1, 1, 1), PixelColor::new(2, 2, 2));
    let fill = "y".repeat(CONSOLE_COLUMNS - 1);
    c.put_string(&fill);
    assert_eq!(c.cursor_row(), 0);
    assert_eq!(c.cursor_column(), CONSOLE_COLUMNS - 1);
    // the next character no longer fits the line and wraps
    c.put_string("z");
    assert_eq!(c.cursor_row(), 1);
    assert_eq!(c.cursor_column(), 1);
    assert_eq!(c.char_at(1, 0), b'z');
    // the wrapped-from row kept its text
    assert_eq!(c.char_at(0, CONSOLE_COLUMNS - 2), b'y');
}
