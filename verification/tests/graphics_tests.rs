use kernel_core::font::{write_ascii, write_bytes, write_string, Font};
use kernel_core::graphics::{
    draw_rectangle, fill_rectangle, FrameBuffer, PixelColor, PixelFormat, Vector2D,
};
use kernel_core::mouse::{draw_mouse_cursor, erase_mouse_cursor, MouseCursor};

fn buffer() -> FrameBuffer {
    FrameBuffer::new(64, 60, 50, PixelFormat::PixelRGBResv8BitPerColor)
}

/// A font whose glyph for every character in 0..256 is: row `dy` has the
/// leftmost pixel set when `dy` is even, plus a full last row.
fn test_font() -> Font {
    let mut data = Vec::new();
    for _c in 0..256 {
        for dy in 0..16 {
            if dy == 15 {
                data.push(0xff);
            } else if dy % 2 == 0 {
                data.push(0x80);
            } else {
                data.push(0x00);
            }
        }
    }
    Font::new(data)
}

#[test]
fn write_paints_one_pixel_in_the_right_order() {
    let mut fb = buffer();
    fb.write(3, 2, &PixelColor::new(10, 20, 30));
    assert_eq!(fb.pixel(3, 2), [10, 20, 30, 0]);
    // the neighbours stay blank
    assert_eq!(fb.pixel(2, 2), [0, 0, 0, 0]);
    assert_eq!(fb.pixel(4, 2), [0, 0, 0, 0]);
    assert_eq!(fb.pixel(3, 1), [0, 0, 0, 0]);

    let mut bgr = FrameBuffer::new(8, 8, 8, PixelFormat::PixelBGRResv8BitPerColor);
    bgr.write(0, 0, &PixelColor::new(10, 20, 30));
    assert_eq!(bgr.pixel(0, 0), [30, 20, 10, 0]);
}

#[test]
fn fill_rectangle_covers_exactly_the_rectangle() {
    let mut fb = buffer();
    let c = PixelColor::new(1, 2, 3);
    fill_rectangle(&mut fb, &Vector2D::new(5, 4), &Vector2D::new(3, 2), &c);
    for x in 0..10u32 {
        for y in 0..8u32 {
            let inside = (5..8).contains(&x) && (4..6).contains(&y);
            let expected = if inside { [1, 2, 3, 0] } else { [0, 0, 0, 0] };
            assert_eq!(fb.pixel(x, y), expected, "pixel ({}, {})", x, y);
        }
    }
}

#[test]
fn draw_rectangle_paints_only_the_border() {
    let mut fb = buffer();
    let c = PixelColor::new(9, 9, 9);
    draw_rectangle(&mut fb, &Vector2D::new(2, 2), &Vector2D::new(4, 3), &c);
    for x in 0..8u32 {
        for y in 0..7u32 {
            let on_border = ((2..6).contains(&x) && (y == 2 || y == 4))
                || ((2..5).contains(&y) && (x == 2 || x == 5));
            let expected = if on_border { [9, 9, 9, 0] } else { [0, 0, 0, 0] };
            assert_eq!(fb.pixel(x, y), expected, "pixel ({}, {})", x, y);
        }
    }
}

#[test]
fn write_ascii_stamps_the_glyph_bits() {
    let mut fb = buffer();
    let font = test_font();
    let c = PixelColor::new(7, 7, 7);
    write_ascii(&mut fb, 8, 16, 'A', &c, &font);
    // leftmost column: set on even rows (and row 15)
    for dy in 0..16u32 {
        let set = dy % 2 == 0 || dy == 15;
        let expected = if set { [7, 7, 7, 0] } else { [0, 0, 0, 0] };
        assert_eq!(fb.pixel(8, 16 + dy), expected, "row {}", dy);
    }
    // last row fully set, rows above it only in column 0
    assert_eq!(fb.pixel(15, 16 + 15), [7, 7, 7, 0]);
    assert_eq!(fb.pixel(15, 16 + 14), [0, 0, 0, 0]);
    // outside the glyph box nothing changed
    assert_eq!(fb.pixel(7, 16), [0, 0, 0, 0]);
    assert_eq!(fb.pixel(16, 16), [0, 0, 0, 0]);
}

#[test]
fn absent_glyphs_paint_nothing() {
    let mut fb = buffer();
    let font = test_font();
    let c = PixelColor::new(7, 7, 7);
    // the test font covers 256 glyphs; a higher code point is skipped
    write_ascii(&mut fb, 0, 0, '\u{3042}', &c, &font);
    for x in 0..8u32 {
        for y in 0..16u32 {
            assert_eq!(fb.pixel(x, y), [0, 0, 0, 0]);
        }
    }
}

#[test]
fn write_string_advances_eight_pixels_per_character() {
    let mut fb = buffer();
    let font = test_font();
    let c = PixelColor::new(5, 5, 5);
    write_string(&mut fb, 4, 8, "ok", &c, &font);
    // each glyph's bottom row is full: both boxes show it
    for dx in 0..8u32 {
        assert_eq!(fb.pixel(4 + dx, 8 + 15), [5, 5, 5, 0]);
        assert_eq!(fb.pixel(12 + dx, 8 + 15), [5, 5, 5, 0]);
    }
    // past the second box nothing changed
    assert_eq!(fb.pixel(20, 8 + 15), [0, 0, 0, 0]);
}

/// A font whose glyph for character `c` has `c`'s own bits as its top row:
/// what got drawn tells which character it was.
fn code_font() -> Font {
    let mut data = Vec::new();
    for c in 0..256 {
        data.push(c as u8);
        for _dy in 1..16 {
            data.push(0x00);
        }
    }
    Font::new(data)
}

#[test]
fn write_bytes_decodes_utf8_and_falls_back() {
    let mut fb = buffer();
    let font = code_font();
    let c = PixelColor::new(5, 5, 5);
    // 'h' is 0x68: bit 6 set, so column 1 of the top row is painted
    write_bytes(&mut fb, 0, 0, b"h", &c, &font);
    assert_eq!(fb.pixel(1, 0), [5, 5, 5, 0]);
    assert_eq!(fb.pixel(0, 0), [0, 0, 0, 0]);

    // invalid UTF-8 draws the "?\n" fallback: '?' is 0x3f, bit 6 clear and
    // bit 5 set, so column 1 stays blank and column 2 is painted
    let mut fb2 = buffer();
    write_bytes(&mut fb2, 0, 0, &[0xff, 0xfe], &c, &font);
    assert_eq!(fb2.pixel(1, 0), [0, 0, 0, 0]);
    assert_eq!(fb2.pixel(2, 0), [5, 5, 5, 0]);
}

#[test]
fn mouse_cursor_draws_moves_and_erases() {
    let mut fb = buffer();
    // hotspot pixel is outline (black on white background after erase test)
    let bg = PixelColor::new(45, 118, 237);
    fill_rectangle(
        &mut fb,
        &Vector2D::new(0, 0),
        &Vector2D::new(60, 50),
        &bg,
    );
    let mut cursor = MouseCursor::new(&mut fb, bg, Vector2D::new(10, 5));
    // outline pixel at the hotspot is black, fill pixel inside is white
    assert_eq!(fb.pixel(10, 5), [0, 0, 0, 0]);
    assert_eq!(fb.pixel(11, 5 + 2), [255, 255, 255, 0]);
    // a transparent shape pixel keeps the background
    assert_eq!(fb.pixel(10 + 14, 5), [45, 118, 237, 0]);

    cursor.move_relative(&mut fb, &Vector2D::new(5, 3));
    // the old hotspot is background again, the new one is black
    assert_eq!(fb.pixel(10, 5), [45, 118, 237, 0]);
    assert_eq!(fb.pixel(15, 8), [0, 0, 0, 0]);

    erase_mouse_cursor(&mut fb, &Vector2D::new(15, 8), &bg);
    assert_eq!(fb.pixel(15, 8), [45, 118, 237, 0]);
    draw_mouse_cursor(&mut fb, &Vector2D::new(15, 8));
    assert_eq!(fb.pixel(15, 8), [0, 0, 0, 0]);
}
