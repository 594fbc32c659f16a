//! The mouse cursor: its 15x24 two-colour shape, the painters that stamp and
//! erase it, and the cursor state that tracks its position.

use vstd::prelude::*;

use crate::graphics::{
    spec_painted_pixel, spec_same_config, FrameBuffer, PixelColor, Vector2D,
};

verus! {

/// Width of the cursor shape in pixels.
pub const MOUSE_CURSOR_WIDTH: u32 = 15;

/// Height of the cursor shape in pixels.
pub const MOUSE_CURSOR_HEIGHT: u32 = 24;

/// The cursor's black outline, one 15-bit row mask per shape row, the most
/// significant of the 15 bits the leftmost pixel.
pub open spec fn spec_cursor_edge_mask(dy: int) -> u16 {
    if dy == 0 {
        0x4000
    } else if dy == 1 {
        0x6000
    } else if dy == 2 {
        0x5000
    } else if dy == 3 {
        0x4800
    } else if dy == 4 {
        0x4400
    } else if dy == 5 {
        0x4200
    } else if dy == 6 {
        0x4100
    } else if dy == 7 {
        0x4080
    } else if dy == 8 {
        0x4040
    } else if dy == 9 {
        0x4020
    } else if dy == 10 {
        0x4010
    } else if dy == 11 {
        0x4008
    } else if dy == 12 {
        0x4004
    } else if dy == 13 {
        0x4002
    } else if dy == 14 {
        0x40ff
    } else if dy == 15 {
        0x4080
    } else if dy == 16 {
        0x4340
    } else if dy == 17 {
        0x4540
    } else if dy == 18 {
        0x48a0
    } else if dy == 19 {
        0x50a0
    } else if dy == 20 {
        0x6050
    } else if dy == 21 {
        0x4050
    } else if dy == 22 {
        0x0028
    } else {
        0x0038
    }
}

/// The cursor's white filling, one 15-bit row mask per shape row.
pub open spec fn spec_cursor_fill_mask(dy: int) -> u16 {
    if dy == 2 {
        0x2000
    } else if dy == 3 {
        0x3000
    } else if dy == 4 {
        0x3800
    } else if dy == 5 {
        0x3c00
    } else if dy == 6 {
        0x3e00
    } else if dy == 7 {
        0x3f00
    } else if dy == 8 {
        0x3f80
    } else if dy == 9 {
        0x3fc0
    } else if dy == 10 {
        0x3fe0
    } else if dy == 11 {
        0x3ff0
    } else if dy == 12 {
        0x3ff8
    } else if dy == 13 {
        0x3ffc
    } else if dy == 14 {
        0x3f00
    } else if dy == 15 {
        0x3f00
    } else if dy == 16 {
        0x3c80
    } else if dy == 17 {
        0x3880
    } else if dy == 18 {
        0x3040
    } else if dy == 19 {
        0x2040
    } else if dy == 20 {
        0x0020
    } else if dy == 21 {
        0x0020
    } else if dy == 22 {
        0x0010
    } else {
        0x0000
    }
}

fn cursor_edge_mask(dy: u32) -> (r: u16)
    requires
        dy < MOUSE_CURSOR_HEIGHT,
    ensures
        r == spec_cursor_edge_mask(dy as int),
{
    match dy {
        0 => 0x4000,
        1 => 0x6000,
        2 => 0x5000,
        3 => 0x4800,
        4 => 0x4400,
        5 => 0x4200,
        6 => 0x4100,
        7 => 0x4080,
        8 => 0x4040,
        9 => 0x4020,
        10 => 0x4010,
        11 => 0x4008,
        12 => 0x4004,
        13 => 0x4002,
        14 => 0x40ff,
        15 => 0x4080,
        16 => 0x4340,
        17 => 0x4540,
        18 => 0x48a0,
        19 => 0x50a0,
        20 => 0x6050,
        21 => 0x4050,
        22 => 0x0028,
        _ => 0x0038,
    }
}

fn cursor_fill_mask(dy: u32) -> (r: u16)
    requires
        dy < MOUSE_CURSOR_HEIGHT,
    ensures
        r == spec_cursor_fill_mask(dy as int),
{
    match dy {
        2 => 0x2000,
        3 => 0x3000,
        4 => 0x3800,
        5 => 0x3c00,
        6 => 0x3e00,
        7 => 0x3f00,
        8 => 0x3f80,
        9 => 0x3fc0,
        10 => 0x3fe0,
        11 => 0x3ff0,
        12 => 0x3ff8,
        13 => 0x3ffc,
        14 => 0x3f00,
        15 => 0x3f00,
        16 => 0x3c80,
        17 => 0x3880,
        18 => 0x3040,
        19 => 0x2040,
        20 => 0x0020,
        21 => 0x0020,
        22 => 0x0010,
        _ => 0x0000,
    }
}

/// Whether the shape's outline covers column `dx` of row `dy`.
pub open spec fn spec_cursor_edge_at(dy: int, dx: int) -> bool {
    (spec_cursor_edge_mask(dy) >> ((14 - dx) as u16)) & 1 == 1
}

/// Whether the shape's filling covers column `dx` of row `dy`.
pub open spec fn spec_cursor_fill_at(dy: int, dx: int) -> bool {
    (spec_cursor_fill_mask(dy) >> ((14 - dx) as u16)) & 1 == 1
}

/// What stamping the cursor with its hotspot at (`x`, `y`) leaves behind:
/// outline pixels black, filling pixels white, everything else untouched.
pub open spec fn spec_cursor_drawn(nfb: FrameBuffer, ofb: FrameBuffer, x: int, y: int) -> bool {
    &&& spec_same_config(nfb, ofb)
    &&& (forall|px: int, py: int|
        0 <= px < ofb.spec_pixels_per_scan_line() && 0 <= py < ofb.spec_vertical_resolution() && !(
        x <= px < x + MOUSE_CURSOR_WIDTH && y <= py < y + MOUSE_CURSOR_HEIGHT)
            ==> #[trigger] nfb.spec_pixel(px, py) == ofb.spec_pixel(px, py))
    &&& (forall|px: int, py: int|
        x <= px < x + MOUSE_CURSOR_WIDTH && y <= py < y + MOUSE_CURSOR_HEIGHT
            ==> #[trigger] nfb.spec_pixel(px, py) == (if spec_cursor_edge_at(py - y, px - x) {
            spec_painted_pixel(
                ofb.spec_pixel(px, py),
                ofb.spec_pixel_format(),
                PixelColor { r: 0, g: 0, b: 0 },
            )
        } else if spec_cursor_fill_at(py - y, px - x) {
            spec_painted_pixel(
                ofb.spec_pixel(px, py),
                ofb.spec_pixel_format(),
                PixelColor { r: 255, g: 255, b: 255 },
            )
        } else {
            ofb.spec_pixel(px, py)
        }))
}

/// What erasing the cursor at (`x`, `y`) leaves behind: every shape pixel
/// (outline or filling) takes the erase colour, everything else is
/// untouched.
pub open spec fn spec_cursor_erased(
    nfb: FrameBuffer,
    ofb: FrameBuffer,
    x: int,
    y: int,
    erase_color: PixelColor,
) -> bool {
    &&& spec_same_config(nfb, ofb)
    &&& (forall|px: int, py: int|
        0 <= px < ofb.spec_pixels_per_scan_line() && 0 <= py < ofb.spec_vertical_resolution() && !(
        x <= px < x + MOUSE_CURSOR_WIDTH && y <= py < y + MOUSE_CURSOR_HEIGHT)
            ==> #[trigger] nfb.spec_pixel(px, py) == ofb.spec_pixel(px, py))
    &&& (forall|px: int, py: int|
        x <= px < x + MOUSE_CURSOR_WIDTH && y <= py < y + MOUSE_CURSOR_HEIGHT
            ==> #[trigger] nfb.spec_pixel(px, py) == (if spec_cursor_edge_at(py - y, px - x)
            || spec_cursor_fill_at(py - y, px - x) {
            spec_painted_pixel(ofb.spec_pixel(px, py), ofb.spec_pixel_format(), erase_color)
        } else {
            ofb.spec_pixel(px, py)
        }))
}

/// The cursor shape fits the buffer with its hotspot at (`x`, `y`).
pub open spec fn spec_cursor_in_bounds(fb: FrameBuffer, x: int, y: int) -> bool {
    &&& 0 <= x && x + MOUSE_CURSOR_WIDTH <= fb.spec_horizontal_resolution()
    &&& 0 <= y && y + MOUSE_CURSOR_HEIGHT <= fb.spec_vertical_resolution()
}

/// Stamps the cursor shape: outline pixels black, filling pixels white,
/// transparent pixels untouched.
pub fn draw_mouse_cursor(fb: &mut FrameBuffer, position: &Vector2D<i32>)
    requires
        old(fb).wf(),
        spec_cursor_in_bounds(*old(fb), position.x as int, position.y as int),
    ensures
        final(fb).wf(),
        spec_cursor_drawn(*final(fb), *old(fb), position.x as int, position.y as int),
{
    let x = position.x as u32;
    let y = position.y as u32;
    let black = PixelColor { r: 0, g: 0, b: 0 };
    let white = PixelColor { r: 255, g: 255, b: 255 };
    let mut dy: u32 = 0;
    while dy < MOUSE_CURSOR_HEIGHT
        invariant
            fb.wf(),
            spec_same_config(*fb, *old(fb)),
            dy <= MOUSE_CURSOR_HEIGHT,
            x == position.x as int,
            y == position.y as int,
            black == (PixelColor { r: 0, g: 0, b: 0 }),
            white == (PixelColor { r: 255, g: 255, b: 255 }),
            x + MOUSE_CURSOR_WIDTH <= fb.spec_horizontal_resolution(),
            y + MOUSE_CURSOR_HEIGHT <= fb.spec_vertical_resolution(),
            forall|px: int, py: int|
                0 <= px < fb.spec_pixels_per_scan_line() && 0 <= py
                    < fb.spec_vertical_resolution() && !(x <= px < x + MOUSE_CURSOR_WIDTH && y
                    <= py < y + dy) ==> #[trigger] fb.spec_pixel(px, py) == old(fb).spec_pixel(
                    px,
                    py,
                ),
            forall|px: int, py: int|
                x <= px < x + MOUSE_CURSOR_WIDTH && y <= py < y + dy
                    ==> #[trigger] fb.spec_pixel(px, py) == (if spec_cursor_edge_at(
                    py - y,
                    px - x,
                ) {
                    spec_painted_pixel(
                        old(fb).spec_pixel(px, py),
                        old(fb).spec_pixel_format(),
                        black,
                    )
                } else if spec_cursor_fill_at(py - y, px - x) {
                    spec_painted_pixel(
                        old(fb).spec_pixel(px, py),
                        old(fb).spec_pixel_format(),
                        white,
                    )
                } else {
                    old(fb).spec_pixel(px, py)
                }),
        decreases MOUSE_CURSOR_HEIGHT - dy,
    {
        let edge = cursor_edge_mask(dy);
        let fill = cursor_fill_mask(dy);
        let mut dx: u32 = 0;
        while dx < MOUSE_CURSOR_WIDTH
            invariant
                fb.wf(),
                spec_same_config(*fb, *old(fb)),
                dy < MOUSE_CURSOR_HEIGHT,
                dx <= MOUSE_CURSOR_WIDTH,
                x == position.x as int,
                y == position.y as int,
                black == (PixelColor { r: 0, g: 0, b: 0 }),
                white == (PixelColor { r: 255, g: 255, b: 255 }),
                edge == spec_cursor_edge_mask(dy as int),
                fill == spec_cursor_fill_mask(dy as int),
                x + MOUSE_CURSOR_WIDTH <= fb.spec_horizontal_resolution(),
                y + MOUSE_CURSOR_HEIGHT <= fb.spec_vertical_resolution(),
                forall|px: int, py: int|
                    0 <= px < fb.spec_pixels_per_scan_line() && 0 <= py
                        < fb.spec_vertical_resolution() && !(x <= px < x + MOUSE_CURSOR_WIDTH && y
                        <= py < y + dy) && !(py == y + dy && x <= px < x + dx)
                        ==> #[trigger] fb.spec_pixel(px, py) == old(fb).spec_pixel(px, py),
                forall|px: int, py: int|
                    (x <= px < x + MOUSE_CURSOR_WIDTH && y <= py < y + dy) || (py == y + dy && x
                        <= px < x + dx) ==> #[trigger] fb.spec_pixel(px, py) == (if
                    spec_cursor_edge_at(py - y, px - x) {
                        spec_painted_pixel(
                            old(fb).spec_pixel(px, py),
                            old(fb).spec_pixel_format(),
                            black,
                        )
                    } else if spec_cursor_fill_at(py - y, px - x) {
                        spec_painted_pixel(
                            old(fb).spec_pixel(px, py),
                            old(fb).spec_pixel_format(),
                            white,
                        )
                    } else {
                        old(fb).spec_pixel(px, py)
                    }),
            decreases MOUSE_CURSOR_WIDTH - dx,
        {
            if (edge >> ((14 - dx) as u16)) & 1 == 1 {
                fb.write(x + dx, y + dy, &black);
            } else if (fill >> ((14 - dx) as u16)) & 1 == 1 {
                fb.write(x + dx, y + dy, &white);
            }
            dx = dx + 1;
        }
        dy = dy + 1;
    }
}

/// Paints every shape pixel with the erase colour, taking the cursor off the
/// screen.
pub fn erase_mouse_cursor(fb: &mut FrameBuffer, position: &Vector2D<i32>, erase_color: &PixelColor)
    requires
        old(fb).wf(),
        spec_cursor_in_bounds(*old(fb), position.x as int, position.y as int),
    ensures
        final(fb).wf(),
        spec_cursor_erased(
            *final(fb),
            *old(fb),
            position.x as int,
            position.y as int,
            *erase_color,
        ),
{
    let x = position.x as u32;
    let y = position.y as u32;
    let mut dy: u32 = 0;
    while dy < MOUSE_CURSOR_HEIGHT
        invariant
            fb.wf(),
            spec_same_config(*fb, *old(fb)),
            dy <= MOUSE_CURSOR_HEIGHT,
            x == position.x as int,
            y == position.y as int,
            x + MOUSE_CURSOR_WIDTH <= fb.spec_horizontal_resolution(),
            y + MOUSE_CURSOR_HEIGHT <= fb.spec_vertical_resolution(),
            forall|px: int, py: int|
                0 <= px < fb.spec_pixels_per_scan_line() && 0 <= py
                    < fb.spec_vertical_resolution() && !(x <= px < x + MOUSE_CURSOR_WIDTH && y
                    <= py < y + dy) ==> #[trigger] fb.spec_pixel(px, py) == old(fb).spec_pixel(
                    px,
                    py,
                ),
            forall|px: int, py: int|
                x <= px < x + MOUSE_CURSOR_WIDTH && y <= py < y + dy
                    ==> #[trigger] fb.spec_pixel(px, py) == (if spec_cursor_edge_at(py - y, px - x)
                    || spec_cursor_fill_at(py - y, px - x) {
                    spec_painted_pixel(
                        old(fb).spec_pixel(px, py),
                        old(fb).spec_pixel_format(),
                        *erase_color,
                    )
                } else {
                    old(fb).spec_pixel(px, py)
                }),
        decreases MOUSE_CURSOR_HEIGHT - dy,
    {
        let edge = cursor_edge_mask(dy);
        let fill = cursor_fill_mask(dy);
        let mut dx: u32 = 0;
        while dx < MOUSE_CURSOR_WIDTH
            invariant
                fb.wf(),
                spec_same_config(*fb, *old(fb)),
                dy < MOUSE_CURSOR_HEIGHT,
                dx <= MOUSE_CURSOR_WIDTH,
                x == position.x as int,
                y == position.y as int,
                edge == spec_cursor_edge_mask(dy as int),
                fill == spec_cursor_fill_mask(dy as int),
                x + MOUSE_CURSOR_WIDTH <= fb.spec_horizontal_resolution(),
                y + MOUSE_CURSOR_HEIGHT <= fb.spec_vertical_resolution(),
                forall|px: int, py: int|
                    0 <= px < fb.spec_pixels_per_scan_line() && 0 <= py
                        < fb.spec_vertical_resolution() && !(x <= px < x + MOUSE_CURSOR_WIDTH && y
                        <= py < y + dy) && !(py == y + dy && x <= px < x + dx)
                        ==> #[trigger] fb.spec_pixel(px, py) == old(fb).spec_pixel(px, py),
                forall|px: int, py: int|
                    (x <= px < x + MOUSE_CURSOR_WIDTH && y <= py < y + dy) || (py == y + dy && x
                        <= px < x + dx) ==> #[trigger] fb.spec_pixel(px, py) == (if
                    spec_cursor_edge_at(py - y, px - x) || spec_cursor_fill_at(py - y, px - x) {
                        spec_painted_pixel(
                            old(fb).spec_pixel(px, py),
                            old(fb).spec_pixel_format(),
                            *erase_color,
                        )
                    } else {
                        old(fb).spec_pixel(px, py)
                    }),
            decreases MOUSE_CURSOR_WIDTH - dx,
        {
            if ((edge >> ((14 - dx) as u16)) & 1 == 1) || ((fill >> ((14 - dx) as u16)) & 1 == 1) {
                fb.write(x + dx, y + dy, erase_color);
            }
            dx = dx + 1;
        }
        dy = dy + 1;
    }
}

/// The mouse cursor: its position and the colour that covers it when it
/// moves away.
pub struct MouseCursor {
    erase_color: PixelColor,
    position: Vector2D<i32>,
}

impl MouseCursor {
    /// The position, as contracts see it.
    pub closed spec fn spec_position(&self) -> Vector2D<i32> {
        self.position
    }

    /// The erase colour, as contracts see it.
    pub closed spec fn spec_erase_color(&self) -> PixelColor {
        self.erase_color
    }

    /// A cursor at `position`, stamped onto the buffer.
    pub fn new(fb: &mut FrameBuffer, erase_color: PixelColor, position: Vector2D<i32>) -> (r:
        MouseCursor)
        requires
            old(fb).wf(),
            spec_cursor_in_bounds(*old(fb), position.x as int, position.y as int),
        ensures
            final(fb).wf(),
            r.spec_position() == position,
            r.spec_erase_color() == erase_color,
            spec_cursor_drawn(*final(fb), *old(fb), position.x as int, position.y as int),
    {
        let cursor = MouseCursor { erase_color, position };
        draw_mouse_cursor(fb, &cursor.position);
        cursor
    }

    /// Moves the cursor by a displacement: erases it where it was, stamps it
    /// where it lands.
    pub fn move_relative(&mut self, fb: &mut FrameBuffer, displacement: &Vector2D<i32>)
        requires
            old(fb).wf(),
            spec_cursor_in_bounds(
                *old(fb),
                old(self).spec_position().x as int,
                old(self).spec_position().y as int,
            ),
            i32::MIN <= old(self).spec_position().x + displacement.x <= i32::MAX,
            i32::MIN <= old(self).spec_position().y + displacement.y <= i32::MAX,
            spec_cursor_in_bounds(
                *old(fb),
                old(self).spec_position().x + displacement.x,
                old(self).spec_position().y + displacement.y,
            ),
        ensures
            final(fb).wf(),
            final(self).spec_erase_color() == old(self).spec_erase_color(),
            final(self).spec_position().x == old(self).spec_position().x + displacement.x,
            final(self).spec_position().y == old(self).spec_position().y + displacement.y,
            exists|mid: FrameBuffer|
                #![auto]
                spec_cursor_erased(
                    mid,
                    *old(fb),
                    old(self).spec_position().x as int,
                    old(self).spec_position().y as int,
                    old(self).spec_erase_color(),
                ) && spec_cursor_drawn(
                    *final(fb),
                    mid,
                    final(self).spec_position().x as int,
                    final(self).spec_position().y as int,
                ),
    {
        erase_mouse_cursor(fb, &self.position, &self.erase_color);
        let ghost mid = *fb;
        self.position = self.position.plus(displacement);
        draw_mouse_cursor(fb, &self.position);
        proof {
            assert(spec_cursor_erased(
                mid,
                *old(fb),
                old(self).spec_position().x as int,
                old(self).spec_position().y as int,
                old(self).spec_erase_color(),
            ));
        }
    }

    /// Repaints the cursor where it stands.
    pub fn refresh(&mut self, fb: &mut FrameBuffer)
        requires
            old(fb).wf(),
            spec_cursor_in_bounds(
                *old(fb),
                old(self).spec_position().x as int,
                old(self).spec_position().y as int,
            ),
        ensures
            final(fb).wf(),
            final(self).spec_position() == old(self).spec_position(),
            final(self).spec_erase_color() == old(self).spec_erase_color(),
            exists|mid: FrameBuffer|
                #![auto]
                spec_cursor_erased(
                    mid,
                    *old(fb),
                    old(self).spec_position().x as int,
                    old(self).spec_position().y as int,
                    old(self).spec_erase_color(),
                ) && spec_cursor_drawn(
                    *final(fb),
                    mid,
                    old(self).spec_position().x as int,
                    old(self).spec_position().y as int,
                ),
    {
        erase_mouse_cursor(fb, &self.position, &self.erase_color);
        draw_mouse_cursor(fb, &self.position);
    }
}

} // verus!
