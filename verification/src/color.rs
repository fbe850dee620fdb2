use vstd::prelude::*;

use crate::machine::NewComputer;

verus! {

/// The 32 colours (0xRRGGBB) that the display can show.
pub open spec fn palette() -> Seq<int> {
    seq![
        0x3a2658, 0x403287, 0x563341, 0x4d43bd, 0x75443d, 0x943f65, 0x3a588c, 0x8c3f89,
        0xa7484c, 0x4e6365, 0x70614e, 0x5e7257, 0x9762f6, 0x548a5c, 0x7f72f9, 0xf071a7,
        0xe174f2, 0xf77782, 0x52aaa5, 0x86a656, 0xf78369, 0xb394fc, 0x74aff0, 0xf688e6,
        0x57c764, 0x80b8d2, 0x52d196, 0xe4b15d, 0xefb6fd, 0x60eaec, 0x70f253, 0xcee14b,
    ]
}

/// Bits 16..23 of a colour word.
pub open spec fn red(c: int) -> int {
    (c / 0x10000) % 0x100
}

/// Bits 8..15 of a colour word.
pub open spec fn green(c: int) -> int {
    (c / 0x100) % 0x100
}

/// Bits 0..7 of a colour word.
pub open spec fn blue(c: int) -> int {
    c % 0x100
}

pub open spec fn abs_diff(x: int, y: int) -> int {
    if x < y {
        y - x
    } else {
        x - y
    }
}

/// Manhattan distance between two colours in RGB space.
pub open spec fn color_distance(c: int, d: int) -> int {
    abs_diff(red(c), red(d)) + abs_diff(green(c), green(d)) + abs_diff(blue(c), blue(d))
}

/// Distance from `color` to palette entry `i`.
pub open spec fn palette_distance(color: int, i: int) -> int {
    color_distance(color, palette()[i])
}

/// Index of the first palette entry, among the first `n`, at the least distance from `color`.
pub open spec fn nearest_among(color: int, n: nat) -> int
    decreases n,
{
    if n <= 1 {
        0
    } else {
        let best = nearest_among(color, (n - 1) as nat);
        if palette_distance(color, n - 1) < palette_distance(color, best) {
            n - 1
        } else {
            best
        }
    }
}

/// Index of the palette colour nearest to `color` (the first one on a tie).
pub open spec fn nearest_index(color: int) -> int {
    nearest_among(color, 32)
}

/// The red, green and blue bytes of a colour word.
pub open spec fn channels(c: usize) -> (u8, u8, u8) {
    (red(c as int) as u8, green(c as int) as u8, blue(c as int) as u8)
}

/// `nearest_among(color, n)` is the first minimum among the first `n` entries.
pub proof fn lemma_nearest_among(color: int, n: nat)
    requires
        1 <= n <= 32,
    ensures
        0 <= nearest_among(color, n) < n,
        forall|j: int|
            0 <= j < n ==> palette_distance(color, nearest_among(color, n))
                <= #[trigger] palette_distance(color, j),
        forall|j: int|
            0 <= j < nearest_among(color, n) ==> palette_distance(color, nearest_among(color, n))
                < #[trigger] palette_distance(color, j),
    decreases n,
{
    if n > 1 {
        lemma_nearest_among(color, (n - 1) as nat);
    }
}

/// The palette colour with index `i`.
pub fn palette_color(i: usize) -> (c: usize)
    requires
        i < 32,
    ensures
        c == palette()[i as int],
{
    let colors: [usize; 32] = [
        0x3a2658, 0x403287, 0x563341, 0x4d43bd, 0x75443d, 0x943f65, 0x3a588c, 0x8c3f89,
        0xa7484c, 0x4e6365, 0x70614e, 0x5e7257, 0x9762f6, 0x548a5c, 0x7f72f9, 0xf071a7,
        0xe174f2, 0xf77782, 0x52aaa5, 0x86a656, 0xf78369, 0xb394fc, 0x74aff0, 0xf688e6,
        0x57c764, 0x80b8d2, 0x52d196, 0xe4b15d, 0xefb6fd, 0x60eaec, 0x70f253, 0xcee14b,
    ];
    assert(colors@ =~= palette().map_values(|x: int| x as usize));
    colors[i]
}

/// Splits a colour word into its red, green and blue bytes.
pub fn split_channels(color: usize) -> (rgb: (u8, u8, u8))
    ensures
        rgb == channels(color),
{
    assert((color & 0xff0000) >> 16 == (color / 0x10000) % 0x100) by (bit_vector);
    assert((color & 0x00ff00) >> 8 == (color / 0x100) % 0x100) by (bit_vector);
    assert(color & 0x0000ff == color % 0x100) by (bit_vector);
    (((color & 0xff0000) >> 16) as u8, ((color & 0x00ff00) >> 8) as u8, (color & 0x0000ff) as u8)
}

fn channel_delta(x: usize, y: usize) -> (d: usize)
    ensures
        d == abs_diff(x as int, y as int),
{
    if x < y {
        y - x
    } else {
        x - y
    }
}

/// Index of the palette colour nearest to `color` in RGB distance; the first one on a tie.
pub fn nearest_palette_index(color: usize) -> (idx: usize)
    requires
        color <= 0xffffff,
    ensures
        idx == nearest_index(color as int),
{
    let (r, g, b) = split_channels(color);
    let mut least_index: usize = 0;
    let mut least_delta: usize = 0x300;
    let mut palette_index: usize = 0;
    while palette_index < 32
        invariant
            palette_index <= 32,
            channels(color) == (r, g, b),
            palette_index == 0 ==> least_index == 0 && least_delta == 0x300,
            palette_index > 0 ==> least_index == nearest_among(color as int, palette_index as nat)
                && least_delta == palette_distance(color as int, least_index as int),
        decreases 32 - palette_index,
    {
        let (pr, pg, pb) = split_channels(palette_color(palette_index));
        let delta = channel_delta(r as usize, pr as usize) + channel_delta(g as usize, pg as usize)
            + channel_delta(b as usize, pb as usize);
        assert(delta == palette_distance(color as int, palette_index as int));
        if delta < least_delta {
            least_index = palette_index;
            least_delta = delta;
        }
        palette_index = palette_index + 1;
    }
    least_index
}

/// The grey-scale shade map: 16 rows by value, 16 columns by hue, each entry 0xRGB.
pub open spec fn shade_table() -> Seq<int> {
    seq![
        0x534, 0x534, 0x765, 0x675, 0x675, 0x675, 0x675, 0x566, 0x426, 0x426, 0x426, 0x426, 0x426, 0x426, 0x534, 0x534,
        0x744, 0x744, 0x765, 0x596, 0x596, 0x596, 0x596, 0x566, 0x469, 0x426, 0x438, 0x438, 0x426, 0x426, 0x534, 0x744,
        0xa55, 0x744, 0x8a5, 0x8a5, 0x596, 0x596, 0x596, 0x596, 0x469, 0x438, 0x438, 0x438, 0x438, 0x949, 0x946, 0xa55,
        0xa55, 0x744, 0x8a5, 0x8a5, 0x5c6, 0x5c6, 0x596, 0x5ba, 0x469, 0x438, 0x54c, 0x54c, 0x438, 0x949, 0x946, 0xa55,
        0xa55, 0xeb6, 0x8a5, 0x8a5, 0x5c6, 0x5c6, 0x5c6, 0x5ba, 0x469, 0x438, 0x54c, 0x54c, 0x54c, 0x949, 0x946, 0xa55,
        0xa55, 0xeb6, 0xde5, 0x8a5, 0x5c6, 0x5c6, 0x5c6, 0x5ba, 0x469, 0x438, 0x54c, 0x54c, 0x54c, 0x949, 0x946, 0xa55,
        0xf87, 0xeb6, 0xde5, 0x5c6, 0x5c6, 0x5c6, 0x5c6, 0x5ba, 0x469, 0x54c, 0x54c, 0x54c, 0x96f, 0x949, 0x946, 0xa55,
        0xf87, 0xeb6, 0xde5, 0xde5, 0x7f5, 0x7f5, 0x5c6, 0x5ba, 0x7bf, 0x54c, 0x54c, 0x54c, 0x96f, 0xe7f, 0xf7a, 0xa55,
        0xf87, 0xeb6, 0xde5, 0x7f5, 0x7f5, 0x7f5, 0x5c6, 0x5d9, 0x7bf, 0x54c, 0x54c, 0x54c, 0x96f, 0xe7f, 0xf7a, 0xa55,
        0xf87, 0xeb6, 0xde5, 0x7f5, 0x7f5, 0x7f5, 0x5c6, 0x5d9, 0x7bf, 0x54c, 0x54c, 0x96f, 0x96f, 0xe7f, 0xf7a, 0xf87,
        0xf87, 0xeb6, 0xde5, 0x7f5, 0x7f5, 0x7f5, 0x5c6, 0x5d9, 0x7bf, 0x54c, 0x54c, 0x96f, 0x96f, 0xe7f, 0xf7a, 0xf87,
        0xf87, 0xeb6, 0xde5, 0x7f5, 0x7f5, 0x7f5, 0x5c6, 0x5d9, 0x7bf, 0x54c, 0x96f, 0x96f, 0x96f, 0xe7f, 0xf7a, 0xf87,
        0xf87, 0xeb6, 0xde5, 0x7f5, 0x7f5, 0x7f5, 0x7f5, 0x5d9, 0x7bf, 0x54c, 0x96f, 0x96f, 0x96f, 0xe7f, 0xf7a, 0xf87,
        0xf87, 0xeb6, 0xde5, 0x7f5, 0x7f5, 0x7f5, 0x7f5, 0x5d9, 0x7bf, 0x54c, 0x96f, 0x96f, 0x96f, 0xe7f, 0xf7a, 0xf87,
        0xf87, 0xeb6, 0xde5, 0x7f5, 0x7f5, 0x7f5, 0x7f5, 0x6ff, 0x7bf, 0x87f, 0x96f, 0x96f, 0x96f, 0xe7f, 0xf7a, 0xf87,
        0xf87, 0xeb6, 0xde5, 0x7f5, 0x7f5, 0x7f5, 0x7f5, 0x6ff, 0x7bf, 0x87f, 0x96f, 0x96f, 0x96f, 0xe7f, 0xf7a, 0xf87,
    ]
}

/// Column of the shade map for a hue.
pub open spec fn hue_column(hue: u16) -> int {
    ((hue as int * 10 / 14) % 256) / 16
}

/// Row of the shade map for a value byte.
pub open spec fn value_row(value: u8) -> int {
    value as int / 16
}

/// A 0xRGB shade widened to three bytes: each nibble becomes the high half of its byte.
pub open spec fn shade_rgb(e: int) -> (u8, u8, u8) {
    ((((e / 0x100) % 16) * 16) as u8, (((e / 0x10) % 16) * 16) as u8, ((e % 16) * 16) as u8)
}

/// Entry `i` of the shade map, rows laid end to end.
fn shade_entry(i: usize) -> (e: u16)
    requires
        i < 256,
    ensures
        e == shade_table()[i as int],
{
    let table: [u16; 256] = [
        0x534, 0x534, 0x765, 0x675, 0x675, 0x675, 0x675, 0x566, 0x426, 0x426, 0x426, 0x426, 0x426, 0x426, 0x534, 0x534,
        0x744, 0x744, 0x765, 0x596, 0x596, 0x596, 0x596, 0x566, 0x469, 0x426, 0x438, 0x438, 0x426, 0x426, 0x534, 0x744,
        0xa55, 0x744, 0x8a5, 0x8a5, 0x596, 0x596, 0x596, 0x596, 0x469, 0x438, 0x438, 0x438, 0x438, 0x949, 0x946, 0xa55,
        0xa55, 0x744, 0x8a5, 0x8a5, 0x5c6, 0x5c6, 0x596, 0x5ba, 0x469, 0x438, 0x54c, 0x54c, 0x438, 0x949, 0x946, 0xa55,
        0xa55, 0xeb6, 0x8a5, 0x8a5, 0x5c6, 0x5c6, 0x5c6, 0x5ba, 0x469, 0x438, 0x54c, 0x54c, 0x54c, 0x949, 0x946, 0xa55,
        0xa55, 0xeb6, 0xde5, 0x8a5, 0x5c6, 0x5c6, 0x5c6, 0x5ba, 0x469, 0x438, 0x54c, 0x54c, 0x54c, 0x949, 0x946, 0xa55,
        0xf87, 0xeb6, 0xde5, 0x5c6, 0x5c6, 0x5c6, 0x5c6, 0x5ba, 0x469, 0x54c, 0x54c, 0x54c, 0x96f, 0x949, 0x946, 0xa55,
        0xf87, 0xeb6, 0xde5, 0xde5, 0x7f5, 0x7f5, 0x5c6, 0x5ba, 0x7bf, 0x54c, 0x54c, 0x54c, 0x96f, 0xe7f, 0xf7a, 0xa55,
        0xf87, 0xeb6, 0xde5, 0x7f5, 0x7f5, 0x7f5, 0x5c6, 0x5d9, 0x7bf, 0x54c, 0x54c, 0x54c, 0x96f, 0xe7f, 0xf7a, 0xa55,
        0xf87, 0xeb6, 0xde5, 0x7f5, 0x7f5, 0x7f5, 0x5c6, 0x5d9, 0x7bf, 0x54c, 0x54c, 0x96f, 0x96f, 0xe7f, 0xf7a, 0xf87,
        0xf87, 0xeb6, 0xde5, 0x7f5, 0x7f5, 0x7f5, 0x5c6, 0x5d9, 0x7bf, 0x54c, 0x54c, 0x96f, 0x96f, 0xe7f, 0xf7a, 0xf87,
        0xf87, 0xeb6, 0xde5, 0x7f5, 0x7f5, 0x7f5, 0x5c6, 0x5d9, 0x7bf, 0x54c, 0x96f, 0x96f, 0x96f, 0xe7f, 0xf7a, 0xf87,
        0xf87, 0xeb6, 0xde5, 0x7f5, 0x7f5, 0x7f5, 0x7f5, 0x5d9, 0x7bf, 0x54c, 0x96f, 0x96f, 0x96f, 0xe7f, 0xf7a, 0xf87,
        0xf87, 0xeb6, 0xde5, 0x7f5, 0x7f5, 0x7f5, 0x7f5, 0x5d9, 0x7bf, 0x54c, 0x96f, 0x96f, 0x96f, 0xe7f, 0xf7a, 0xf87,
        0xf87, 0xeb6, 0xde5, 0x7f5, 0x7f5, 0x7f5, 0x7f5, 0x6ff, 0x7bf, 0x87f, 0x96f, 0x96f, 0x96f, 0xe7f, 0xf7a, 0xf87,
        0xf87, 0xeb6, 0xde5, 0x7f5, 0x7f5, 0x7f5, 0x7f5, 0x6ff, 0x7bf, 0x87f, 0x96f, 0x96f, 0x96f, 0xe7f, 0xf7a, 0xf87,
    ];
    assert(table@ =~= shade_table().map_values(|x: int| x as u16));
    table[i]
}

/// The colour table after colour correction: every 24-bit colour maps to its
/// nearest palette colour; entries past 0xffffff stay as they were.
pub open spec fn corrected_table(table: Seq<usize>) -> Seq<usize> {
    Seq::new(
        table.len(),
        |c: int|
            if c <= 0xffffff {
                palette()[nearest_index(c)] as usize
            } else {
                table[c]
            },
    )
}

impl NewComputer {
    /// `hex` can be looked up in the colour table.
    pub open spec fn can_show(self, hex: usize) -> bool {
        hex <= 0xffffff ==> hex < self.colormap_table@.len()
    }

    /// The bytes that the colour table gives for `hex`; black past 24 bits.
    pub open spec fn shown_color(self, hex: usize) -> (u8, u8, u8) {
        if hex <= 0xffffff {
            channels(self.colormap_table@[hex as int])
        } else {
            (0, 0, 0)
        }
    }

    /// Memory address of display pixel `pixel` (saturating).
    pub open spec fn vram_address(self, pixel: usize) -> int {
        if pixel + self.vram_offset > usize::MAX {
            usize::MAX as int
        } else {
            pixel + self.vram_offset
        }
    }

    /// Fills the colour table: each 24-bit colour gets the palette colour nearest to it.
    pub fn calculate_color_corrections(&mut self)
        requires
            old(self).colormap_table@.len() > 0xffffff,
        ensures
            final(self).colormap_table@ == corrected_table(old(self).colormap_table@),
            final(self).memory@ == old(self).memory@,
            final(self).program_position == old(self).program_position,
            final(self).buffer@ == old(self).buffer@,
            final(self).display_size == old(self).display_size,
            final(self).vram_offset == old(self).vram_offset,
            final(self).display_scale_by == old(self).display_scale_by,
            final(self).input_offset == old(self).input_offset,
            final(self).character_table_offset == old(self).character_table_offset,
    {
        let ghost table0 = self.colormap_table@;
        let mut color: usize = 0;
        while color <= 0xffffff
            invariant
                color <= 0x1000000,
                self.colormap_table@.len() == table0.len(),
                table0.len() > 0xffffff,
                forall|c: int|
                    0 <= c < color ==> #[trigger] self.colormap_table@[c]
                        == corrected_table(table0)[c],
                forall|c: int|
                    color <= c < table0.len() ==> #[trigger] self.colormap_table@[c] == table0[c],
                self.memory@ == old(self).memory@,
                self.program_position == old(self).program_position,
                self.buffer@ == old(self).buffer@,
                self.display_size == old(self).display_size,
                self.vram_offset == old(self).vram_offset,
                self.display_scale_by == old(self).display_scale_by,
                self.input_offset == old(self).input_offset,
                self.character_table_offset == old(self).character_table_offset,
            decreases 0x1000000 - color,
        {
            let nearest = nearest_palette_index(color);
            proof {
                lemma_nearest_among(color as int, 32);
            }
            self.colormap_table[color] = palette_color(nearest);
            color = color + 1;
        }
        assert(self.colormap_table@ =~= corrected_table(table0));
    }

    /// The red, green and blue bytes that the colour table gives for `hex`;
    /// black for values past 24 bits.
    pub fn get_nearest_color(&mut self, hex: usize) -> (rgb: (u8, u8, u8))
        requires
            old(self).can_show(hex),
        ensures
            *final(self) == *old(self),
            rgb == old(self).shown_color(hex),
    {
        if hex <= 0x00ffffff {
            let color = self.colormap_table[hex];
            split_channels(color)
        } else {
            (0, 0, 0)
        }
    }

    /// The colour shown for display pixel `pixel`: the word at `vram_offset + pixel`
    /// (saturating) looked up in the colour table.
    pub fn get_vram_pixel(&mut self, pixel: usize) -> (rgb: (u8, u8, u8))
        requires
            old(self).vram_address(pixel) < old(self).memory@.len(),
            old(self).can_show(old(self).memory@[old(self).vram_address(pixel)]),
        ensures
            *final(self) == *old(self),
            rgb == old(self).shown_color(old(self).memory@[old(self).vram_address(pixel)]),
    {
        let address = pixel.saturating_add(self.vram_offset);
        let hex = self.memory[address];
        self.get_nearest_color(hex)
    }

    /// The shade-map colour for a hue (0..=6553) and a value byte.
    pub fn get_palette_nearest_color(&mut self, hue: u16, value: u8) -> (rgb: (u8, u8, u8))
        requires
            hue * 10 <= u16::MAX,
        ensures
            *final(self) == *old(self),
            rgb == shade_rgb(shade_table()[value_row(value) * 16 + hue_column(hue)]),
    {
        let scaled: u16 = hue * 10 / 14;
        let truncated: u8 = scaled as u8;
        let corrected_hue: u8 = truncated >> 4;
        let corrected_value: u8 = (value & 0xf0) >> 0x4;
        proof {
            assert(scaled as u8 == scaled % 256) by (bit_vector);
            assert(truncated >> 4 == truncated / 16) by (bit_vector);
            assert((value & 0xf0) >> 0x4 == value / 16) by (bit_vector);
        }
        let entry = shade_entry(corrected_value as usize * 16 + corrected_hue as usize);
        proof {
            assert(((entry & 0x0f00) >> 4) as u8 == ((entry / 0x100) % 16) * 16) by (bit_vector);
            assert((entry & 0x00f0) as u8 == ((entry / 0x10) % 16) * 16) by (bit_vector);
            assert(((entry & 0x000f) << 4) as u8 == (entry % 16) * 16) by (bit_vector);
        }
        (((entry & 0x0f00) >> 4) as u8, (entry & 0x00f0) as u8, ((entry & 0x000f) << 4) as u8)
    }
}

} // verus!
