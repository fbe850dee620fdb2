use vstd::prelude::*;

use crate::color::{hue_column, shade_rgb, shade_table, value_row};
use crate::machine::NewComputer;
use crate::word::FromUsize;

verus! {

/// Number of pixels on the 128 by 128 display.
pub const DISPLAY_PIXELS: usize = 0x4000;

/// First address of the window that `flip_vram_vertically` writes.
pub open spec fn flip_base() -> int {
    0x3ff_ffff - 0x4000
}

/// Address of the display word that lands at address `t` of the flip window:
/// row `r` of the window takes row `127 - r` of the display, column for column.
pub open spec fn flip_source(vram_offset: int, t: int) -> int {
    let k = t - flip_base();
    vram_offset + k % 128 + (127 - k / 128) * 128
}

/// Memory after a vertical flip of the display image into the flip window.
pub open spec fn flipped(memory: Seq<usize>, vram_offset: int) -> Seq<usize> {
    Seq::new(
        memory.len(),
        |t: int|
            if flip_base() <= t < flip_base() + 0x4000 {
                memory[flip_source(vram_offset, t)]
            } else {
                memory[t]
            },
    )
}

/// Byte `k` (0 = most significant) of a word in big-endian order.
pub open spec fn be_byte(w: usize, k: int) -> int {
    ((w >> ((usize::BITS - 8 * (k + 1)) as usize)) & 0xff) as int
}

/// Grey level that monochrome drawing derives from a display word.
pub open spec fn grey_level(w: usize) -> u8 {
    ((be_byte(w, 1) + be_byte(w, 2) + be_byte(w, 3) / 3) % 256) as u8
}

/// One filled square of a drawn frame.
pub struct PixelFill {
    pub color: (u8, u8, u8),
    pub x: i32,
    pub y: i32,
    pub width: u32,
    pub height: u32,
}

/// Screen offset of the `k`-th row or column of squares of side `scale`.
pub open spec fn square_offset(k: int, scale: usize) -> i32 {
    (10 + ((k * scale) as i32)) as i32
}

/// The grey level of a display word, computed as `grey_level` says.
fn grey_level_of(w: usize) -> (g: u8)
    ensures
        g == grey_level(w),
{
    let v1: usize = w >> (usize::BITS - 16);
    let v2: usize = w >> (usize::BITS - 24);
    let v3: usize = w >> (usize::BITS - 32);
    let b1: usize = v1 & 0xff;
    let b2: usize = v2 & 0xff;
    let b3: usize = v3 & 0xff;
    assert(b1 <= 0xff && b2 <= 0xff && b3 <= 0xff) by (bit_vector)
        requires
            b1 == v1 & 0xff,
            b2 == v2 & 0xff,
            b3 == v3 & 0xff,
    ;
    let sum: u16 = b1 as u16 + b2 as u16 + b3 as u16 / 3;
    assert(sum as u8 == sum % 256) by (bit_vector);
    sum as u8
}

impl NewComputer {
    /// Drawing display pixel `pixel` stays in memory, in the colour table
    /// and in the range of screen coordinates.
    pub open spec fn pixel_fits(self, pixel: int, use_color: bool) -> bool {
        let column = pixel % 128;
        let row = pixel / 128;
        let scale = self.display_scale_by;
        &&& self.vram_offset + pixel < self.memory.len()
        &&& use_color ==> self.can_show(self.memory@[self.vram_offset + pixel])
        &&& column * scale <= usize::MAX
        &&& row * scale <= usize::MAX
        &&& 10 + ((column * scale) as i32) <= i32::MAX
        &&& 10 + ((row * scale) as i32) <= i32::MAX
    }

    /// Every pixel of the display can be drawn.
    pub open spec fn frame_fits(self, use_color: bool) -> bool {
        forall|p: int| 0 <= p < 0x4000 ==> #[trigger] self.pixel_fits(p, use_color)
    }

    /// The square that drawing puts on screen for display pixel `pixel`: coloured
    /// through the colour table, or in grey from the shade map; at column `pixel % 128`,
    /// row `pixel / 128`, with side `display_scale_by` (its low 32 bits).
    pub open spec fn expected_fill(self, pixel: int, use_color: bool) -> PixelFill {
        let w = self.memory@[self.vram_offset + pixel];
        PixelFill {
            color: if use_color {
                self.shown_color(w)
            } else {
                shade_rgb(shade_table()[value_row(grey_level(w)) * 16 + hue_column(300)])
            },
            x: square_offset(pixel % 128, self.display_scale_by),
            y: square_offset(pixel / 128, self.display_scale_by),
            width: (self.display_scale_by as int % 0x1_0000_0000) as u32,
            height: (self.display_scale_by as int % 0x1_0000_0000) as u32,
        }
    }

    /// The square to fill for display pixel `pixel`.
    pub fn pixel_fill(&mut self, pixel: usize, use_color: bool) -> (fill: PixelFill)
        requires
            pixel < 0x4000,
            old(self).pixel_fits(pixel as int, use_color),
        ensures
            *final(self) == *old(self),
            fill == old(self).expected_fill(pixel as int, use_color),
    {
        let word = self.memory[self.vram_offset + pixel];
        let color = if use_color {
            self.get_vram_pixel(pixel)
        } else {
            let grey = grey_level_of(word);
            self.get_palette_nearest_color(300, grey)
        };
        let column: usize = pixel & 0x007f;
        let row: usize = (pixel & 0xff80) >> 7;
        assert(pixel & 0x007f == pixel % 128) by (bit_vector);
        assert((pixel & 0xff80) >> 7 == pixel / 128) by (bit_vector)
            requires
                pixel < 0x4000,
        ;
        let scale = self.display_scale_by;
        let x: i32 = 10 + ((column * scale) as i32);
        let y: i32 = 10 + ((row * scale) as i32);
        let side: u32 = <u32 as FromUsize>::from_usize(scale)[0];
        PixelFill { color, x, y, width: side, height: side }
    }

    /// The squares to fill, pixel by pixel, to draw the whole display.
    pub fn frame_fills(&mut self, use_color: bool) -> (fills: Vec<PixelFill>)
        requires
            old(self).frame_fits(use_color),
        ensures
            *final(self) == *old(self),
            fills@.len() == 0x4000,
            forall|p: int|
                0 <= p < 0x4000 ==> #[trigger] fills@[p] == old(self).expected_fill(p, use_color),
    {
        let ghost start = *self;
        let mut fills: Vec<PixelFill> = Vec::new();
        let mut pixel: usize = 0;
        while pixel < DISPLAY_PIXELS
            invariant
                pixel <= 0x4000,
                *self == start,
                start.frame_fits(use_color),
                fills@.len() == pixel,
                forall|p: int|
                    0 <= p < pixel ==> #[trigger] fills@[p] == start.expected_fill(p, use_color),
            decreases 0x4000 - pixel,
        {
            assert(start.pixel_fits(pixel as int, use_color));
            let fill = self.pixel_fill(pixel, use_color);
            fills.push(fill);
            pixel = pixel + 1;
        }
        fills
    }

    /// Whether `frame_fills` can draw the display with these settings.
    pub fn frame_fits_now(&self, use_color: bool) -> (fits: bool)
        ensures
            fits == self.frame_fits(use_color),
    {
        let mut pixel: usize = 0;
        while pixel < DISPLAY_PIXELS
            invariant
                pixel <= 0x4000,
                forall|p: int| 0 <= p < pixel ==> #[trigger] self.pixel_fits(p, use_color),
            decreases 0x4000 - pixel,
        {
            if !self.pixel_fits_now(pixel, use_color) {
                return false;
            }
            pixel = pixel + 1;
        }
        true
    }

    fn pixel_fits_now(&self, pixel: usize, use_color: bool) -> (fits: bool)
        requires
            pixel < 0x4000,
        ensures
            fits == self.pixel_fits(pixel as int, use_color),
    {
        if self.vram_offset >= self.memory.len() || pixel >= self.memory.len() - self.vram_offset {
            return false;
        }
        if use_color {
            let hex = self.memory[self.vram_offset + pixel];
            if hex <= 0xffffff && hex >= self.colormap_table.len() {
                return false;
            }
        }
        let scale = self.display_scale_by;
        let column = pixel % 128;
        let row = pixel / 128;
        match (column.checked_mul(scale), row.checked_mul(scale)) {
            (Some(x), Some(y)) => (x as i32) <= i32::MAX - 10 && (y as i32) <= i32::MAX - 10,
            _ => false,
        }
    }
}

impl NewComputer {
    /// Copies the display image, upside down, into the 0x4000 words below address 0x3ffffff.
    pub fn flip_vram_vertically(&mut self)
        requires
            old(self).display_size >= 0x4000,
            old(self).vram_offset + old(self).display_size <= old(self).memory@.len(),
            old(self).memory@.len() >= 0x3ff_ffff,
        ensures
            final(self).memory@ == flipped(old(self).memory@, old(self).vram_offset as int),
            final(self).program_position == old(self).program_position,
            final(self).buffer@ == old(self).buffer@,
            final(self).same_layout(*old(self)),
    {
        let ghost memory0 = self.memory@;
        let mut vram_copy: Vec<usize> = Vec::new();
        let mut pixel: usize = 0;
        while pixel < self.display_size
            invariant
                pixel <= self.display_size,
                self.vram_offset + self.display_size <= self.memory.len(),
                vram_copy@.len() == pixel,
                forall|i: int|
                    0 <= i < pixel ==> #[trigger] vram_copy@[i] == self.memory@[self.vram_offset
                        + i],
            decreases self.display_size - pixel,
        {
            vram_copy.push(self.memory[self.vram_offset + pixel]);
            pixel = pixel + 1;
        }
        let mut y: usize = 1;
        while y < 129
            invariant
                1 <= y <= 129,
                vram_copy@.len() >= 0x4000,
                self.memory@.len() == memory0.len(),
                memory0.len() >= 0x3ff_ffff,
                forall|i: int|
                    0 <= i < 0x4000 ==> #[trigger] vram_copy@[i] == memory0[self.vram_offset + i],
                forall|t: int|
                    0x3ff_ffff - (y - 1) * 128 <= t < 0x3ff_ffff ==> #[trigger] self.memory@[t]
                        == memory0[flip_source(self.vram_offset as int, t)],
                forall|t: int|
                    0 <= t < memory0.len() && !(0x3ff_ffff - (y - 1) * 128 <= t < 0x3ff_ffff)
                        ==> #[trigger] self.memory@[t] == memory0[t],
                self.program_position == old(self).program_position,
                self.buffer@ == old(self).buffer@,
                self.same_layout(*old(self)),
            decreases 129 - y,
        {
            let mut x: usize = 0;
            while x < 128
                invariant
                    1 <= y < 129,
                    x <= 128,
                    vram_copy@.len() >= 0x4000,
                    self.memory@.len() == memory0.len(),
                    memory0.len() >= 0x3ff_ffff,
                    forall|i: int|
                        0 <= i < 0x4000 ==> #[trigger] vram_copy@[i] == memory0[self.vram_offset
                            + i],
                    forall|t: int|
                        0x3ff_ffff - (y - 1) * 128 <= t < 0x3ff_ffff ==> #[trigger] self.memory@[t]
                            == memory0[flip_source(self.vram_offset as int, t)],
                    forall|t: int|
                        0x3ff_ffff - y * 128 <= t < 0x3ff_ffff - y * 128 + x ==> #[trigger] self.memory@[t]
                            == memory0[flip_source(self.vram_offset as int, t)],
                    forall|t: int|
                        0 <= t < memory0.len() && !(0x3ff_ffff - y * 128 <= t < 0x3ff_ffff - y * 128
                            + x) && !(0x3ff_ffff - (y - 1) * 128 <= t < 0x3ff_ffff)
                            ==> #[trigger] self.memory@[t] == memory0[t],
                    self.program_position == old(self).program_position,
                    self.buffer@ == old(self).buffer@,
                    self.same_layout(*old(self)),
                decreases 128 - x,
            {
                let target: usize = 0x3ff_ffff - (y * 128) + x;
                proof {
                    let k = target - flip_base();
                    assert(k == (128 - y) * 128 + x);
                    vstd::arithmetic::div_mod::lemma_fundamental_div_mod_converse(
                        k,
                        128,
                        (128 - y) as int,
                        x as int,
                    );
                    assert(flip_source(self.vram_offset as int, target as int) == self.vram_offset
                        + x + (y - 1) * 128);
                }
                self.memory[target] = vram_copy[x + ((y - 1) * 128)];
                x = x + 1;
            }
            y = y + 1;
        }
        assert(self.memory@ =~= flipped(memory0, self.vram_offset as int));
    }
}

} // verus!
