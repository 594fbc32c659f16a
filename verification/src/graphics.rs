//! Graphics value types: colours, 2-D vectors, and the pixel formats a frame
//! buffer can come in. Pixel rasterisation itself belongs to the unverified
//! rendering layer around this library.

use vstd::prelude::*;

verus! {

/// An RGB colour.
#[derive(Debug, Clone, Copy, PartialEq, Eq, Structural)]
pub struct PixelColor {
    pub r: u8,
    pub g: u8,
    pub b: u8,
}

impl PixelColor {
    pub fn new(r: u8, g: u8, b: u8) -> (c: PixelColor)
        ensures
            c == (PixelColor { r, g, b }),
    {
        PixelColor { r, g, b }
    }
}

/// A two-dimensional vector.
#[derive(Debug, Clone, Copy, PartialEq, Eq, Structural)]
pub struct Vector2D<T> {
    pub x: T,
    pub y: T,
}

impl<T> Vector2D<T> {
    pub fn new(x: T, y: T) -> (r: Vector2D<T>)
        ensures
            r == (Vector2D { x, y }),
    {
        Vector2D { x, y }
    }
}

impl Vector2D<i32> {
    /// Component-wise sum; the components must not overflow.
    pub fn plus(&self, other: &Vector2D<i32>) -> (r: Vector2D<i32>)
        requires
            i32::MIN <= self.x + other.x <= i32::MAX,
            i32::MIN <= self.y + other.y <= i32::MAX,
        ensures
            r.x == self.x + other.x,
            r.y == self.y + other.y,
    {
        Vector2D { x: self.x + other.x, y: self.y + other.y }
    }
}

/// The byte orders a frame buffer's pixels can come in.
#[derive(Debug, Clone, Copy, PartialEq, Eq, Structural)]
pub enum PixelFormat {
    PixelRGBResv8BitPerColor,
    PixelBGRResv8BitPerColor,
}

/// The first three bytes of a pixel in the given format; the fourth byte is
/// reserved and never written.
pub open spec fn spec_pixel_bytes(format: PixelFormat, c: PixelColor) -> (u8, u8, u8) {
    match format {
        PixelFormat::PixelRGBResv8BitPerColor => (c.r, c.g, c.b),
        PixelFormat::PixelBGRResv8BitPerColor => (c.b, c.g, c.r),
    }
}

/// Two buffers agree on geometry and pixel format.
pub open spec fn spec_same_config(a: FrameBuffer, b: FrameBuffer) -> bool {
    &&& a.spec_pixels_per_scan_line() == b.spec_pixels_per_scan_line()
    &&& a.spec_horizontal_resolution() == b.spec_horizontal_resolution()
    &&& a.spec_vertical_resolution() == b.spec_vertical_resolution()
    &&& a.spec_pixel_format() == b.spec_pixel_format()
}

/// A pixel slot after painting: the colour's three bytes in the buffer's
/// byte order, the old reserved byte kept.
pub open spec fn spec_painted_pixel(old_pixel: Seq<u8>, format: PixelFormat, c: PixelColor) -> Seq<
    u8,
> {
    seq![
        spec_pixel_bytes(format, c).0,
        spec_pixel_bytes(format, c).1,
        spec_pixel_bytes(format, c).2,
        old_pixel[3],
    ]
}

/// A frame buffer held as owned pixel memory: four bytes per pixel,
/// `pixels_per_scan_line` pixels per row of memory of which the leftmost
/// `horizontal_resolution` are visible. The unverified boot layer blits this
/// memory to (or maps it over) the hardware frame buffer.
pub struct FrameBuffer {
    data: Vec<u8>,
    pixels_per_scan_line: u32,
    horizontal_resolution: u32,
    vertical_resolution: u32,
    pixel_format: PixelFormat,
}

impl FrameBuffer {
    /// The pixel memory, as contracts see it.
    pub closed spec fn spec_data(&self) -> Seq<u8> {
        self.data@
    }

    pub closed spec fn spec_pixels_per_scan_line(&self) -> u32 {
        self.pixels_per_scan_line
    }

    pub closed spec fn spec_horizontal_resolution(&self) -> u32 {
        self.horizontal_resolution
    }

    pub closed spec fn spec_vertical_resolution(&self) -> u32 {
        self.vertical_resolution
    }

    pub closed spec fn spec_pixel_format(&self) -> PixelFormat {
        self.pixel_format
    }

    /// The memory is exactly four bytes per pixel slot and every visible
    /// pixel lies on its scan line.
    pub open spec fn wf(&self) -> bool {
        &&& self.spec_data().len() == 4 * (self.spec_pixels_per_scan_line() as int) * (
        self.spec_vertical_resolution() as int)
        &&& self.spec_horizontal_resolution() <= self.spec_pixels_per_scan_line()
    }

    /// Index of the first byte of pixel (`x`, `y`).
    pub open spec fn spec_pixel_index(&self, x: int, y: int) -> int {
        4 * ((self.spec_pixels_per_scan_line() as int) * y + x)
    }

    /// The first byte of every pixel in bounds lies within the memory, with
    /// room for the full four-byte slot.
    pub proof fn lemma_pixel_index_in_bounds(&self, x: int, y: int)
        requires
            self.wf(),
            0 <= x < self.spec_pixels_per_scan_line(),
            0 <= y < self.spec_vertical_resolution(),
        ensures
            0 <= (self.spec_pixels_per_scan_line() as int) * y,
            0 <= self.spec_pixel_index(x, y),
            self.spec_pixel_index(x, y) + 4 <= self.spec_data().len(),
    {
        let ppsl = self.spec_pixels_per_scan_line() as int;
        let vres = self.spec_vertical_resolution() as int;
        assert(0 <= ppsl * y && ppsl * y + x < ppsl * vres && 0 <= ppsl * y + x && 4 * (ppsl * y
            + x) + 4 <= 4 * (ppsl * vres) && 4 * (ppsl * vres) == 4 * ppsl * vres)
            by (nonlinear_arith)
            requires
                0 <= x < ppsl,
                0 <= y < vres,
        ;
    }

    /// A buffer of blank (all-zero) pixel memory.
    pub fn new(
        pixels_per_scan_line: u32,
        horizontal_resolution: u32,
        vertical_resolution: u32,
        pixel_format: PixelFormat,
    ) -> (r: FrameBuffer)
        requires
            horizontal_resolution <= pixels_per_scan_line,
            4 * (pixels_per_scan_line as int) * (vertical_resolution as int) <= usize::MAX,
        ensures
            r.wf(),
            r.spec_pixels_per_scan_line() == pixels_per_scan_line,
            r.spec_horizontal_resolution() == horizontal_resolution,
            r.spec_vertical_resolution() == vertical_resolution,
            r.spec_pixel_format() == pixel_format,
            r.spec_data() == Seq::new(
                (4 * (pixels_per_scan_line as int) * (vertical_resolution as int)) as nat,
                |i: int| 0u8,
            ),
    {
        proof {
            let p = pixels_per_scan_line as int;
            let v = vertical_resolution as int;
            assert(0 <= p * v && 4 * (p * v) == 4 * p * v) by (nonlinear_arith)
                requires
                    0 <= p && 0 <= v,
            ;
        }
        let len: usize = 4 * ((pixels_per_scan_line as usize) * (vertical_resolution as usize));
        let mut data: Vec<u8> = Vec::new();
        let mut i: usize = 0;
        while i < len
            invariant
                i <= len,
                data@.len() == i,
                forall|k: int| 0 <= k < i ==> data@[k] == 0u8,
            decreases len - i,
        {
            data.push(0);
            i = i + 1;
        }
        let r = FrameBuffer {
            data,
            pixels_per_scan_line,
            horizontal_resolution,
            vertical_resolution,
            pixel_format,
        };
        proof {
            assert(r.spec_data() =~= Seq::new(
                (4 * (pixels_per_scan_line as int) * (vertical_resolution as int)) as nat,
                |i: int| 0u8,
            ));
        }
        r
    }

    /// The four bytes of one pixel slot.
    pub open spec fn spec_pixel(&self, x: int, y: int) -> Seq<u8> {
        self.spec_data().subrange(self.spec_pixel_index(x, y), self.spec_pixel_index(x, y) + 4)
    }

    /// Everything but configuration and the one pixel (`x`, `y`) is as in
    /// `o`; that pixel holds the colour's bytes and its old reserved byte.
    pub open spec fn spec_written(&self, o: FrameBuffer, x: int, y: int, c: PixelColor) -> bool {
        &&& spec_same_config(*self, o)
        &&& self.spec_data() == o.spec_data().update(
            o.spec_pixel_index(x, y),
            spec_pixel_bytes(o.spec_pixel_format(), c).0,
        ).update(o.spec_pixel_index(x, y) + 1, spec_pixel_bytes(o.spec_pixel_format(), c).1).update(
            o.spec_pixel_index(x, y) + 2,
            spec_pixel_bytes(o.spec_pixel_format(), c).2,
        )
    }

    /// Writing a pixel is local: the written slot takes the colour and keeps
    /// its reserved byte, and every other pixel slot is untouched.
    proof fn lemma_pixel_write_frame(o: FrameBuffer, n: FrameBuffer, x: int, y: int, c: PixelColor)
        requires
            o.wf(),
            0 <= x < o.spec_pixels_per_scan_line(),
            0 <= y < o.spec_vertical_resolution(),
            n.spec_written(o, x, y, c),
        ensures
            n.wf(),
            n.spec_pixel(x, y) == spec_painted_pixel(
                o.spec_pixel(x, y),
                o.spec_pixel_format(),
                c,
            ),
            forall|px: int, py: int|
                0 <= px < o.spec_pixels_per_scan_line() && 0 <= py
                    < o.spec_vertical_resolution() && (px != x || py != y)
                    ==> #[trigger] n.spec_pixel(px, py) == o.spec_pixel(px, py),
    {
        o.lemma_pixel_index_in_bounds(x, y);
        let ppsl = o.spec_pixels_per_scan_line() as int;
        let i = o.spec_pixel_index(x, y);
        assert(n.spec_pixel(x, y) =~= spec_painted_pixel(
            o.spec_pixel(x, y),
            o.spec_pixel_format(),
            c,
        ));
        assert forall|px: int, py: int|
            0 <= px < o.spec_pixels_per_scan_line() && 0 <= py < o.spec_vertical_resolution() && (px
                != x || py != y) implies #[trigger] n.spec_pixel(px, py) == o.spec_pixel(
            px,
            py,
        ) by {
            o.lemma_pixel_index_in_bounds(px, py);
            let j = o.spec_pixel_index(px, py);
            assert(ppsl * py + px != ppsl * y + x) by (nonlinear_arith)
                requires
                    0 <= px < ppsl,
                    0 <= x < ppsl,
                    0 <= py,
                    0 <= y,
                    px != x || py != y,
            ;
            assert(j + 4 <= i || j >= i + 4);
            assert(n.spec_pixel(px, py) =~= o.spec_pixel(px, py));
        }
    }

    /// Paints one pixel: its slot takes the colour's bytes in the buffer's
    /// byte order and keeps its reserved byte; every other pixel slot is
    /// untouched.
    pub fn write(&mut self, x: u32, y: u32, c: &PixelColor)
        requires
            old(self).wf(),
            x < old(self).spec_horizontal_resolution(),
            y < old(self).spec_vertical_resolution(),
        ensures
            final(self).wf(),
            spec_same_config(*final(self), *old(self)),
            final(self).spec_pixel(x as int, y as int) == spec_painted_pixel(
                old(self).spec_pixel(x as int, y as int),
                old(self).spec_pixel_format(),
                *c,
            ),
            forall|px: int, py: int|
                0 <= px < old(self).spec_pixels_per_scan_line() && 0 <= py < old(
                    self,
                ).spec_vertical_resolution() && (px != x || py != y)
                    ==> #[trigger] final(self).spec_pixel(px, py) == old(self).spec_pixel(px, py),
    {
        let data_len = self.data.len();
        proof {
            self.lemma_pixel_index_in_bounds(x as int, y as int);
            let t = (self.spec_pixels_per_scan_line() as int) * (y as int);
            assert(0 <= t && 4 * (t + x) + 4 <= data_len);
            assert(t + x <= usize::MAX);
        }
        let index: usize = 4 * ((self.pixels_per_scan_line as usize) * (y as usize) + (x as usize));
        let (b0, b1, b2) = match self.pixel_format {
            PixelFormat::PixelRGBResv8BitPerColor => (c.r, c.g, c.b),
            PixelFormat::PixelBGRResv8BitPerColor => (c.b, c.g, c.r),
        };
        self.data.set(index, b0);
        self.data.set(index + 1, b1);
        self.data.set(index + 2, b2);
        proof {
            FrameBuffer::lemma_pixel_write_frame(*old(self), *self, x as int, y as int, *c);
        }
    }

    /// Reads one pixel slot back, reserved byte included.
    pub fn pixel(&self, x: u32, y: u32) -> (r: [u8; 4])
        requires
            self.wf(),
            x < self.spec_pixels_per_scan_line(),
            y < self.spec_vertical_resolution(),
        ensures
            r@ == self.spec_pixel(x as int, y as int),
    {
        let data_len = self.data.len();
        proof {
            self.lemma_pixel_index_in_bounds(x as int, y as int);
            let t = (self.spec_pixels_per_scan_line() as int) * (y as int);
            assert(0 <= t && 4 * (t + x) + 4 <= data_len);
            assert(t + x <= usize::MAX);
        }
        let index: usize = 4 * ((self.pixels_per_scan_line as usize) * (y as usize) + (x as usize));
        let r = [self.data[index], self.data[index + 1], self.data[index + 2], self.data[index + 3]];
        proof {
            assert(r@ =~= self.spec_pixel(x as int, y as int));
        }
        r
    }

    /// The visible width.
    pub fn horizontal_resolution(&self) -> (r: u32)
        ensures
            r == self.spec_horizontal_resolution(),
    {
        self.horizontal_resolution
    }

    /// The visible height.
    pub fn vertical_resolution(&self) -> (r: u32)
        ensures
            r == self.spec_vertical_resolution(),
    {
        self.vertical_resolution
    }

    /// Pixels per row of memory.
    pub fn pixels_per_scan_line(&self) -> (r: u32)
        ensures
            r == self.spec_pixels_per_scan_line(),
    {
        self.pixels_per_scan_line
    }

    /// The pixel byte order.
    pub fn pixel_format(&self) -> (r: PixelFormat)
        ensures
            r == self.spec_pixel_format(),
    {
        self.pixel_format
    }
}

/// Membership in the axis-aligned rectangle at (`x0`, `y0`) of size
/// (`sx`, `sy`).
pub open spec fn spec_in_rect(x0: int, y0: int, sx: int, sy: int, px: int, py: int) -> bool {
    x0 <= px < x0 + sx && y0 <= py < y0 + sy
}

/// Paints every pixel of a rectangle; everything outside it is untouched.
pub fn fill_rectangle(fb: &mut FrameBuffer, pos: &Vector2D<i32>, size: &Vector2D<i32>, c: &PixelColor)
    requires
        old(fb).wf(),
        0 <= pos.x,
        0 <= pos.y,
        0 <= size.x,
        0 <= size.y,
        pos.x + size.x <= old(fb).spec_horizontal_resolution(),
        pos.y + size.y <= old(fb).spec_vertical_resolution(),
    ensures
        final(fb).wf(),
        spec_same_config(*final(fb), *old(fb)),
        forall|px: int, py: int|
            0 <= px < old(fb).spec_pixels_per_scan_line() && 0 <= py < old(
                fb,
            ).spec_vertical_resolution() ==> #[trigger] final(fb).spec_pixel(px, py) == (if
            spec_in_rect(pos.x as int, pos.y as int, size.x as int, size.y as int, px, py) {
                spec_painted_pixel(old(fb).spec_pixel(px, py), old(fb).spec_pixel_format(), *c)
            } else {
                old(fb).spec_pixel(px, py)
            }),
{
    let x0 = pos.x as u32;
    let y0 = pos.y as u32;
    let sx = size.x as u32;
    let sy = size.y as u32;
    let mut dy: u32 = 0;
    while dy < sy
        invariant
            fb.wf(),
            spec_same_config(*fb, *old(fb)),
            dy <= sy,
            x0 == pos.x as int,
            y0 == pos.y as int,
            sx == size.x as int,
            sy == size.y as int,
            x0 + sx <= fb.spec_horizontal_resolution(),
            y0 + sy <= fb.spec_vertical_resolution(),
            forall|px: int, py: int|
                0 <= px < fb.spec_pixels_per_scan_line() && 0 <= py
                    < fb.spec_vertical_resolution() ==> #[trigger] fb.spec_pixel(px, py) == (if (x0
                    <= px < x0 + sx && y0 <= py < y0 + dy) {
                    spec_painted_pixel(old(fb).spec_pixel(px, py), old(fb).spec_pixel_format(), *c)
                } else {
                    old(fb).spec_pixel(px, py)
                }),
        decreases sy - dy,
    {
        let mut dx: u32 = 0;
        while dx < sx
            invariant
                fb.wf(),
                spec_same_config(*fb, *old(fb)),
                dx <= sx,
                dy < sy,
                x0 == pos.x as int,
                y0 == pos.y as int,
                sx == size.x as int,
                sy == size.y as int,
                x0 + sx <= fb.spec_horizontal_resolution(),
                y0 + sy <= fb.spec_vertical_resolution(),
                forall|px: int, py: int|
                    0 <= px < fb.spec_pixels_per_scan_line() && 0 <= py
                        < fb.spec_vertical_resolution() ==> #[trigger] fb.spec_pixel(px, py) == (
                    if (x0 <= px < x0 + sx && y0 <= py < y0 + dy) || (py == y0 + dy && x0 <= px < x0
                        + dx) {
                        spec_painted_pixel(
                            old(fb).spec_pixel(px, py),
                            old(fb).spec_pixel_format(),
                            *c,
                        )
                    } else {
                        old(fb).spec_pixel(px, py)
                    }),
            decreases sx - dx,
        {
            fb.write(x0 + dx, y0 + dy, c);
            dx = dx + 1;
        }
        dy = dy + 1;
    }
}

/// Membership in the one-pixel border of the rectangle at (`x0`, `y0`) of
/// size (`sx`, `sy`): its top and bottom rows and its left and right
/// columns.
pub open spec fn spec_on_rect_border(
    x0: int,
    y0: int,
    sx: int,
    sy: int,
    px: int,
    py: int,
) -> bool {
    (x0 <= px < x0 + sx && (py == y0 || py == y0 + sy - 1)) || (y0 <= py < y0 + sy && (px == x0
        || px == x0 + sx - 1))
}

/// Paints the one-pixel border of a rectangle; everything else is untouched.
pub fn draw_rectangle(fb: &mut FrameBuffer, pos: &Vector2D<i32>, size: &Vector2D<i32>, c: &PixelColor)
    requires
        old(fb).wf(),
        0 <= pos.x,
        0 <= pos.y,
        1 <= size.x,
        1 <= size.y,
        pos.x + size.x <= old(fb).spec_horizontal_resolution(),
        pos.y + size.y <= old(fb).spec_vertical_resolution(),
    ensures
        final(fb).wf(),
        spec_same_config(*final(fb), *old(fb)),
        forall|px: int, py: int|
            0 <= px < old(fb).spec_pixels_per_scan_line() && 0 <= py < old(
                fb,
            ).spec_vertical_resolution() ==> #[trigger] final(fb).spec_pixel(px, py) == (if
            spec_on_rect_border(pos.x as int, pos.y as int, size.x as int, size.y as int, px, py) {
                spec_painted_pixel(old(fb).spec_pixel(px, py), old(fb).spec_pixel_format(), *c)
            } else {
                old(fb).spec_pixel(px, py)
            }),
{
    let x0 = pos.x as u32;
    let y0 = pos.y as u32;
    let sx = size.x as u32;
    let sy = size.y as u32;
    let mut dx: u32 = 0;
    while dx < sx
        invariant
            fb.wf(),
            spec_same_config(*fb, *old(fb)),
            dx <= sx,
            x0 == pos.x as int,
            y0 == pos.y as int,
            sx == size.x as int,
            sy == size.y as int,
            1 <= sx,
            1 <= sy,
            x0 + sx <= fb.spec_horizontal_resolution(),
            y0 + sy <= fb.spec_vertical_resolution(),
            forall|px: int, py: int|
                0 <= px < fb.spec_pixels_per_scan_line() && 0 <= py
                    < fb.spec_vertical_resolution() ==> #[trigger] fb.spec_pixel(px, py) == (if x0
                    <= px < x0 + dx && (py == y0 || py == y0 + sy - 1) {
                    spec_painted_pixel(old(fb).spec_pixel(px, py), old(fb).spec_pixel_format(), *c)
                } else {
                    old(fb).spec_pixel(px, py)
                }),
        decreases sx - dx,
    {
        fb.write(x0 + dx, y0, c);
        fb.write(x0 + dx, y0 + sy - 1, c);
        dx = dx + 1;
    }
    let mut dy: u32 = 1;
    while dy + 1 < sy
        invariant
            fb.wf(),
            spec_same_config(*fb, *old(fb)),
            1 <= dy <= sy,
            x0 == pos.x as int,
            y0 == pos.y as int,
            sx == size.x as int,
            sy == size.y as int,
            1 <= sx,
            1 <= sy,
            x0 + sx <= fb.spec_horizontal_resolution(),
            y0 + sy <= fb.spec_vertical_resolution(),
            forall|px: int, py: int|
                0 <= px < fb.spec_pixels_per_scan_line() && 0 <= py
                    < fb.spec_vertical_resolution() ==> #[trigger] fb.spec_pixel(px, py) == (if (x0
                    <= px < x0 + sx && (py == y0 || py == y0 + sy - 1)) || ((px == x0 || px == x0
                    + sx - 1) && y0 + 1 <= py < y0 + dy) {
                    spec_painted_pixel(old(fb).spec_pixel(px, py), old(fb).spec_pixel_format(), *c)
                } else {
                    old(fb).spec_pixel(px, py)
                }),
        decreases sy - dy,
    {
        fb.write(x0, y0 + dy, c);
        fb.write(x0 + sx - 1, y0 + dy, c);
        dy = dy + 1;
    }
}

} // verus!
