//! Glyph rasterisation: an 8x16 bitmap font held as owned bytes, and the
//! writers that stamp characters and strings into a frame buffer. The font
//! bytes themselves come from whoever embeds them; this module only indexes
//! them.

use vstd::prelude::*;

use crate::graphics::{
    spec_painted_pixel, spec_same_config, FrameBuffer, PixelColor,
};

verus! {

/// A bitmap font: sixteen bytes per glyph, one byte per pixel row, the most
/// significant bit the leftmost pixel. Glyph `c` starts at byte `16 * c`.
pub struct Font {
    data: Vec<u8>,
}

impl Font {
    /// The font bytes, as contracts see them.
    pub closed spec fn spec_data(&self) -> Seq<u8> {
        self.data@
    }

    /// The bytes hold whole glyphs only.
    pub open spec fn wf(&self) -> bool {
        self.spec_data().len() % 16 == 0
    }

    /// Whether the font covers character `c`.
    pub open spec fn spec_has_glyph(&self, c: char) -> bool {
        16 * (c as int) < self.spec_data().len()
    }

    pub fn new(data: Vec<u8>) -> (r: Font)
        requires
            data@.len() % 16 == 0,
        ensures
            r.wf(),
            r.spec_data() == data@,
    {
        Font { data }
    }

    /// Whether the font covers character `c`.
    pub fn has_glyph(&self, c: char) -> (r: bool)
        ensures
            r == self.spec_has_glyph(c),
    {
        let code = c as usize;
        16 * code < self.data.len()
    }

    /// Pixel row `dy` of the glyph of `c`.
    pub fn glyph_byte(&self, c: char, dy: usize) -> (r: u8)
        requires
            self.wf(),
            self.spec_has_glyph(c),
            dy < 16,
        ensures
            r == self.spec_data()[16 * (c as int) + dy],
    {
        proof {
            let n = self.spec_data().len() as int;
            let ci = c as int;
            assert(16 * ci + 16 <= n) by (nonlinear_arith)
                requires
                    n % 16 == 0,
                    16 * ci < n,
                    0 <= ci,
            ;
        }
        self.data[16 * (c as usize) + dy]
    }
}

/// Whether the glyph of `c` has the pixel at column `dx` of row `dy` set:
/// bit `7 - dx` of the row's byte.
pub open spec fn spec_glyph_bit(font: Font, c: char, dy: int, dx: int) -> bool {
    (font.spec_data()[16 * (c as int) + dy] >> ((7 - dx) as u8)) & 1 == 1
}

/// What stamping one character at (`x`, `y`) leaves behind: pixels outside
/// the 8x16 glyph box are untouched; inside it, pixels under set glyph bits
/// take the colour and the rest are untouched; a character the font does not
/// cover paints nothing.
pub open spec fn spec_ascii_written(
    nfb: FrameBuffer,
    ofb: FrameBuffer,
    x: int,
    y: int,
    c: char,
    color: PixelColor,
    font: Font,
) -> bool {
    &&& spec_same_config(nfb, ofb)
    &&& (forall|px: int, py: int|
        0 <= px < ofb.spec_pixels_per_scan_line() && 0 <= py < ofb.spec_vertical_resolution() && !(
        x <= px < x + 8 && y <= py < y + 16) ==> #[trigger] nfb.spec_pixel(px, py)
            == ofb.spec_pixel(px, py))
    &&& (font.spec_has_glyph(c) ==> (forall|px: int, py: int|
        x <= px < x + 8 && y <= py < y + 16 ==> #[trigger] nfb.spec_pixel(px, py) == (if
        spec_glyph_bit(font, c, py - y, px - x) {
            spec_painted_pixel(ofb.spec_pixel(px, py), ofb.spec_pixel_format(), color)
        } else {
            ofb.spec_pixel(px, py)
        })))
    &&& (!font.spec_has_glyph(c) ==> (forall|px: int, py: int|
        x <= px < x + 8 && y <= py < y + 16 ==> #[trigger] nfb.spec_pixel(px, py)
            == ofb.spec_pixel(px, py)))
}

/// Stamps one character's glyph with its top-left corner at (`x`, `y`):
/// pixels under set glyph bits take the colour, everything else stays. A
/// character the font does not cover is skipped.
pub fn write_ascii(fb: &mut FrameBuffer, x: u32, y: u32, c: char, color: &PixelColor, font: &Font)
    requires
        old(fb).wf(),
        font.wf(),
        x + 8 <= old(fb).spec_horizontal_resolution(),
        y + 16 <= old(fb).spec_vertical_resolution(),
    ensures
        final(fb).wf(),
        spec_ascii_written(*final(fb), *old(fb), x as int, y as int, c, *color, *font),
{
    if !font.has_glyph(c) {
        return ;
    }
    let mut dy: u32 = 0;
    while dy < 16
        invariant
            fb.wf(),
            spec_same_config(*fb, *old(fb)),
            font.wf(),
            font.spec_has_glyph(c),
            dy <= 16,
            x + 8 <= fb.spec_horizontal_resolution(),
            y + 16 <= fb.spec_vertical_resolution(),
            forall|px: int, py: int|
                0 <= px < fb.spec_pixels_per_scan_line() && 0 <= py
                    < fb.spec_vertical_resolution() && !(x <= px < x + 8 && y <= py < y + dy)
                    ==> #[trigger] fb.spec_pixel(px, py) == old(fb).spec_pixel(px, py),
            forall|px: int, py: int|
                x <= px < x + 8 && y <= py < y + dy ==> #[trigger] fb.spec_pixel(px, py) == (if
                spec_glyph_bit(*font, c, py - y, px - x) {
                    spec_painted_pixel(
                        old(fb).spec_pixel(px, py),
                        old(fb).spec_pixel_format(),
                        *color,
                    )
                } else {
                    old(fb).spec_pixel(px, py)
                }),
        decreases 16 - dy,
    {
        let row = font.glyph_byte(c, dy as usize);
        let mut dx: u32 = 0;
        while dx < 8
            invariant
                fb.wf(),
                spec_same_config(*fb, *old(fb)),
                font.wf(),
                font.spec_has_glyph(c),
                dy < 16,
                dx <= 8,
                row == font.spec_data()[16 * (c as int) + dy],
                x + 8 <= fb.spec_horizontal_resolution(),
                y + 16 <= fb.spec_vertical_resolution(),
                forall|px: int, py: int|
                    0 <= px < fb.spec_pixels_per_scan_line() && 0 <= py
                        < fb.spec_vertical_resolution() && !(x <= px < x + 8 && y <= py < y + dy)
                        && !(py == y + dy && x <= px < x + dx) ==> #[trigger] fb.spec_pixel(px, py)
                        == old(fb).spec_pixel(px, py),
                forall|px: int, py: int|
                    x <= px < x + 8 && y <= py < y + dy ==> #[trigger] fb.spec_pixel(px, py) == (
                    if spec_glyph_bit(*font, c, py - y, px - x) {
                        spec_painted_pixel(
                            old(fb).spec_pixel(px, py),
                            old(fb).spec_pixel_format(),
                            *color,
                        )
                    } else {
                        old(fb).spec_pixel(px, py)
                    }),
                forall|px: int, py: int|
                    py == y + dy && x <= px < x + dx ==> #[trigger] fb.spec_pixel(px, py) == (if
                    spec_glyph_bit(*font, c, py - y, px - x) {
                        spec_painted_pixel(
                            old(fb).spec_pixel(px, py),
                            old(fb).spec_pixel_format(),
                            *color,
                        )
                    } else {
                        old(fb).spec_pixel(px, py)
                    }),
            decreases 8 - dx,
        {
            if (row >> ((7 - dx) as u8)) & 1 == 1 {
                fb.write(x + dx, y + dy, color);
            }
            dx = dx + 1;
        }
        dy = dy + 1;
    }
}

/// What stamping a string starting at (`x`, `y`) leaves behind: character
/// `i`'s glyph box sits at `x + 8 * i`; pixels outside the whole strip are
/// untouched; inside a box, pixels follow the glyph's bits, and characters
/// the font does not cover paint nothing.
pub open spec fn spec_string_written(
    nfb: FrameBuffer,
    ofb: FrameBuffer,
    x: int,
    y: int,
    s: Seq<char>,
    color: PixelColor,
    font: Font,
) -> bool {
    &&& spec_same_config(nfb, ofb)
    &&& (forall|px: int, py: int|
        0 <= px < ofb.spec_pixels_per_scan_line() && 0 <= py < ofb.spec_vertical_resolution() && !(
        x <= px < x + 8 * s.len() && y <= py < y + 16) ==> #[trigger] nfb.spec_pixel(px, py)
            == ofb.spec_pixel(px, py))
    &&& (forall|i: int, px: int, py: int|
        #![trigger nfb.spec_pixel(px, py), s[i]]
        0 <= i < s.len() && font.spec_has_glyph(s[i]) && x + 8 * i <= px < x + 8 * i + 8 && y <= py
            < y + 16 ==> nfb.spec_pixel(px, py) == (if spec_glyph_bit(
            font,
            s[i],
            py - y,
            px - (x + 8 * i),
        ) {
            spec_painted_pixel(ofb.spec_pixel(px, py), ofb.spec_pixel_format(), color)
        } else {
            ofb.spec_pixel(px, py)
        }))
    &&& (forall|i: int, px: int, py: int|
        #![trigger nfb.spec_pixel(px, py), s[i]]
        0 <= i < s.len() && !font.spec_has_glyph(s[i]) && x + 8 * i <= px < x + 8 * i + 8 && y <= py
            < y + 16 ==> nfb.spec_pixel(px, py) == ofb.spec_pixel(px, py))
}

/// Stamps a string left to right, one 8-pixel-wide glyph box per character.
pub fn write_string(fb: &mut FrameBuffer, x: u32, y: u32, s: &str, color: &PixelColor, font: &Font)
    requires
        old(fb).wf(),
        font.wf(),
        x + 8 * s@.len() <= old(fb).spec_horizontal_resolution(),
        y + 16 <= old(fb).spec_vertical_resolution(),
    ensures
        final(fb).wf(),
        spec_string_written(*final(fb), *old(fb), x as int, y as int, s@, *color, *font),
{
    let n = s.unicode_len();
    let mut i: usize = 0;
    while i < n
        invariant
            fb.wf(),
            spec_same_config(*fb, *old(fb)),
            font.wf(),
            i <= n,
            n == s@.len(),
            x + 8 * n <= fb.spec_horizontal_resolution(),
            y + 16 <= fb.spec_vertical_resolution(),
            forall|px: int, py: int|
                0 <= px < fb.spec_pixels_per_scan_line() && 0 <= py
                    < fb.spec_vertical_resolution() && !(x <= px < x + 8 * i && y <= py < y + 16)
                    ==> #[trigger] fb.spec_pixel(px, py) == old(fb).spec_pixel(px, py),
            forall|j: int, px: int, py: int|
                #![trigger fb.spec_pixel(px, py), s@[j]]
                0 <= j < i && font.spec_has_glyph(s@[j]) && x + 8 * j <= px < x + 8 * j + 8 && y
                    <= py < y + 16 ==> fb.spec_pixel(px, py) == (if spec_glyph_bit(
                    *font,
                    s@[j],
                    py - y,
                    px - (x + 8 * j),
                ) {
                    spec_painted_pixel(
                        old(fb).spec_pixel(px, py),
                        old(fb).spec_pixel_format(),
                        *color,
                    )
                } else {
                    old(fb).spec_pixel(px, py)
                }),
            forall|j: int, px: int, py: int|
                #![trigger fb.spec_pixel(px, py), s@[j]]
                0 <= j < i && !font.spec_has_glyph(s@[j]) && x + 8 * j <= px < x + 8 * j + 8 && y
                    <= py < y + 16 ==> fb.spec_pixel(px, py) == old(fb).spec_pixel(px, py),
        decreases n - i,
    {
        let c = s.get_char(i);
        write_ascii(fb, x + 8 * (i as u32), y, c, color, font);
        i = i + 1;
    }
}

/// What `core::str::from_utf8` decodes a byte sequence to, if anything.
pub uninterp spec fn utf8_chars(bytes: Seq<u8>) -> Option<Seq<char>>;

/// Relies on core::str::from_utf8: it succeeds exactly on valid UTF-8, a
/// string view of the same bytes, so the decoded text never has more
/// characters than there were bytes; and UTF-8 extends ASCII, so all-ASCII
/// input decodes byte for byte to the characters with those code points.
#[verifier::external_body]
fn bytes_to_str<'a>(bytes: &'a [u8]) -> (r: Option<&'a str>)
    ensures
        match r {
            Some(s) => utf8_chars(bytes@) == Some(s@) && s@.len() <= bytes@.len() && ((forall|
                i: int,
            | 0 <= i < bytes@.len() ==> bytes@[i] < 0x80) ==> (s@.len() == bytes@.len() && (forall|
                i: int,
            | 0 <= i < bytes@.len() ==> (s@[i] as u32) == (bytes@[i] as u32)))),
            None => utf8_chars(bytes@) is None && (exists|i: int|
                0 <= i < bytes@.len() && bytes@[i] >= 0x80),
        },
{
    core::str::from_utf8(bytes).ok()
}

/// Stamps the text a byte slice holds: its UTF-8 decoding, or `"?\n"` where
/// the bytes are not valid UTF-8.
pub fn write_bytes(fb: &mut FrameBuffer, x: u32, y: u32, bytes: &[u8], color: &PixelColor, font: &Font)
    requires
        old(fb).wf(),
        font.wf(),
        x + 8 * bytes@.len() <= old(fb).spec_horizontal_resolution(),
        x + 16 <= old(fb).spec_horizontal_resolution(),
        y + 16 <= old(fb).spec_vertical_resolution(),
    ensures
        final(fb).wf(),
        match utf8_chars(bytes@) {
            Some(s) => spec_string_written(
                *final(fb),
                *old(fb),
                x as int,
                y as int,
                s,
                *color,
                *font,
            ),
            None => spec_string_written(
                *final(fb),
                *old(fb),
                x as int,
                y as int,
                seq!['?', '\n'],
                *color,
                *font,
            ),
        },
{
    match bytes_to_str(bytes) {
        Some(s) => write_string(fb, x, y, s, color, font),
        None => {
            let fallback = "?\n";
            proof {
                reveal_strlit("?\n");
                assert(fallback@ =~= seq!['?', '\n']);
            }
            write_string(fb, x, y, fallback, color, font);
        },
    }
}

} // verus!
