use vstd::prelude::*;

use crate::display::be_byte;
use crate::machine::NewComputer;

verus! {

/// Last address of main memory that the display region reaches.
pub open spec fn last_address() -> int {
    0x3ff_ffff
}

/// Checkerboard colour for the word `k` places into the display.
pub open spec fn checker_color(k: int) -> usize {
    if (k + k / 128) % 2 == 0 {
        0xffffff
    } else {
        0
    }
}

/// Memory with the words from `vram_offset` up to `last_address()` replaced by `f(k)`,
/// `k` the distance from `vram_offset`.
pub open spec fn display_filled(
    memory: Seq<usize>,
    vram_offset: int,
    f: spec_fn(int) -> usize,
) -> Seq<usize> {
    Seq::new(
        memory.len(),
        |i: int|
            if vram_offset <= i <= last_address() {
                f(i - vram_offset)
            } else {
                memory[i]
            },
    )
}

spec fn fill_value(plain: bool, color: usize, k: int) -> usize {
    if plain {
        color
    } else {
        checker_color(k)
    }
}

/// Offset of the pixel data in a bitmap file: the little-endian 32-bit word at byte 10.
pub open spec fn image_start(image: Seq<u8>) -> int {
    image[10] as int + image[11] as int * 0x100 + image[12] as int * 0x1_0000 + image[13] as int
        * 0x100_0000
}

/// Number of 4-byte pixels between the pixel data offset and the end of the file.
pub open spec fn image_word_count(image: Seq<u8>) -> int {
    if image.len() > image_start(image) {
        (image.len() - image_start(image)) / 4
    } else {
        0
    }
}

/// Display word for a pixel stored as three bytes: they become big-endian bytes 1, 2, 3.
pub open spec fn pixel_word(b0: u8, b1: u8, b2: u8) -> usize {
    ((b0 as usize) << ((usize::BITS - 16) as usize)) | ((b1 as usize) << ((usize::BITS
        - 24) as usize)) | ((b2 as usize) << ((usize::BITS - 32) as usize))
}

/// Display word for pixel `k` of a bitmap file.
pub open spec fn image_pixel(image: Seq<u8>, k: int) -> usize {
    let at = image_start(image) + 4 * k;
    pixel_word(image[at], image[at + 1], image[at + 2])
}

/// Bit `29 - i` of a glyph: row `i / 5`, column `i % 5` of its 5 by 6 picture.
pub open spec fn glyph_bit(glyph: usize, i: int) -> bool {
    (glyph >> ((29 - i) as usize)) & 1 == 1
}

/// Memory offset of glyph cell `i` from the glyph's top-left corner.
pub open spec fn glyph_cell(i: int) -> int {
    i % 5 + (i / 5) * 128
}

/// The bytes of a word in big-endian order.
pub open spec fn word_bytes(w: usize) -> Seq<u8> {
    Seq::new((usize::BITS / 8) as nat, |k: int| be_byte(w, k) as u8)
}

/// The words laid end to end, each in big-endian byte order.
pub open spec fn dump(words: Seq<usize>) -> Seq<u8>
    decreases words.len(),
{
    if words.len() == 0 {
        Seq::empty()
    } else {
        dump(words.drop_last()) + word_bytes(words.last())
    }
}

/// The words of `words` as bytes, each in big-endian order.
pub fn dump_words(words: &Vec<usize>) -> (bytes: Vec<u8>)
    ensures
        bytes@ == dump(words@),
{
    let mut bytes: Vec<u8> = Vec::new();
    let mut i: usize = 0;
    while i < words.len()
        invariant
            i <= words@.len(),
            bytes@ == dump(words@.take(i as int)),
        decreases words@.len() - i,
    {
        let w = words[i];
        let ghost before = bytes@;
        let mut k: u32 = 0;
        while k < usize::BITS / 8
            invariant
                k <= usize::BITS / 8,
                usize::BITS == 32 || usize::BITS == 64,
                bytes@ == before + word_bytes(w).take(k as int),
            decreases usize::BITS / 8 - k,
        {
            let shift: u32 = usize::BITS - 8 * (k + 1);
            let b: usize = (w >> shift) & 0xff;
            assert(b <= 0xff) by (bit_vector)
                requires
                    b == (w >> shift) & 0xff,
            ;
            bytes.push(b as u8);
            assert(word_bytes(w).take(k + 1) =~= word_bytes(w).take(k as int).push(b as u8));
            k = k + 1;
        }
        assert(word_bytes(w).take((usize::BITS / 8) as int) =~= word_bytes(w));
        assert(words@.take(i + 1).drop_last() =~= words@.take(i as int));
        i = i + 1;
    }
    assert(words@.take(words@.len() as int) =~= words@);
    bytes
}

/// Pixel data offset of a bitmap file.
pub fn boot_image_start(image: &[u8]) -> (start: usize)
    requires
        image@.len() >= 14,
    ensures
        start == image_start(image@),
{
    image[10] as usize + image[11] as usize * 0x100 + image[12] as usize * 0x1_0000
        + image[13] as usize * 0x100_0000
}

/// Number of display words that a bitmap file fills.
pub fn boot_image_word_count(image: &[u8]) -> (count: usize)
    requires
        image@.len() >= 14,
    ensures
        count == image_word_count(image@),
{
    let start = boot_image_start(image);
    if image.len() > start {
        (image.len() - start) / 4
    } else {
        0
    }
}

impl NewComputer {
    /// Paints a checkerboard of white and black words from `vram_offset` to the end
    /// of the display region.
    pub fn fill_checkerboard(&mut self)
        requires
            old(self).vram_offset <= last_address() ==> old(self).memory@.len() > last_address(),
        ensures
            final(self).memory@ == display_filled(
                old(self).memory@,
                old(self).vram_offset as int,
                |k: int| checker_color(k),
            ),
            final(self).program_position == old(self).program_position,
            final(self).buffer@ == old(self).buffer@,
            final(self).same_layout(*old(self)),
    {
        self.fill_display_with(false, 0);
    }

    /// Sets every word from `vram_offset` to the end of the display region to `color`.
    pub fn fill_display(&mut self, color: usize)
        requires
            old(self).vram_offset <= last_address() ==> old(self).memory@.len() > last_address(),
        ensures
            final(self).memory@ == display_filled(
                old(self).memory@,
                old(self).vram_offset as int,
                |k: int| color,
            ),
            final(self).program_position == old(self).program_position,
            final(self).buffer@ == old(self).buffer@,
            final(self).same_layout(*old(self)),
    {
        self.fill_display_with(true, color);
    }

    fn fill_display_with(&mut self, plain: bool, color: usize)
        requires
            old(self).vram_offset <= last_address() ==> old(self).memory@.len() > last_address(),
        ensures
            final(self).memory@ == display_filled(
                old(self).memory@,
                old(self).vram_offset as int,
                |k: int| fill_value(plain, color, k),
            ),
            final(self).program_position == old(self).program_position,
            final(self).buffer@ == old(self).buffer@,
            final(self).same_layout(*old(self)),
    {
        let ghost memory0 = self.memory@;
        let mut pixel: usize = self.vram_offset;
        while pixel <= 0x3ff_ffff
            invariant
                self.vram_offset <= pixel,
                self.vram_offset <= last_address() ==> pixel <= last_address() + 1,
                self.vram_offset > last_address() ==> pixel == self.vram_offset,
                self.vram_offset <= last_address() ==> memory0.len() > last_address(),
                self.memory@.len() == memory0.len(),
                forall|i: int|
                    0 <= i < memory0.len() ==> #[trigger] self.memory@[i] == if self.vram_offset
                        <= i < pixel {
                        fill_value(plain, color, i - self.vram_offset)
                    } else {
                        memory0[i]
                    },
                self.program_position == old(self).program_position,
                self.buffer@ == old(self).buffer@,
                self.same_layout(*old(self)),
                memory0 == old(self).memory@,
            decreases 0x400_0000 - pixel,
        {
            let k: usize = pixel - self.vram_offset;
            let value: usize = if plain {
                color
            } else if (k + k / 128) % 2 == 0 {
                0xffffff
            } else {
                0
            };
            assert(value == fill_value(plain, color, k as int));
            self.memory[pixel] = value;
            pixel = pixel + 1;
        }
        assert(self.memory@ =~= display_filled(
            memory0,
            self.vram_offset as int,
            |k: int| fill_value(plain, color, k),
        ));
    }

    /// Copies the pixels of a bitmap file into the display, one word per pixel,
    /// starting at `vram_offset`.
    pub fn load_boot_image(&mut self, image: &[u8])
        requires
            image@.len() >= 14,
            old(self).vram_offset + image_word_count(image@) <= old(self).memory.len(),
        ensures
            final(self).memory@ == Seq::new(
                old(self).memory@.len(),
                |i: int|
                    if old(self).vram_offset <= i < old(self).vram_offset + image_word_count(
                        image@,
                    ) {
                        image_pixel(image@, i - old(self).vram_offset)
                    } else {
                        old(self).memory@[i]
                    },
            ),
            final(self).program_position == old(self).program_position,
            final(self).buffer@ == old(self).buffer@,
            final(self).same_layout(*old(self)),
    {
        let ghost memory0 = self.memory@;
        let start = boot_image_start(image);
        let count = boot_image_word_count(image);
        assert(count * 4 + start <= image.len() || count == 0);
        let mut byte: usize = 0;
        while byte < count
            invariant
                byte <= count,
                count == image_word_count(image@),
                start == image_start(image@),
                count == 0 || count * 4 + start <= image.len(),
                image@.len() >= 14,
                self.vram_offset + count <= self.memory.len(),
                self.memory@.len() == memory0.len(),
                forall|i: int|
                    0 <= i < memory0.len() ==> #[trigger] self.memory@[i] == if self.vram_offset
                        <= i < self.vram_offset + byte {
                        image_pixel(image@, i - self.vram_offset)
                    } else {
                        memory0[i]
                    },
                self.program_position == old(self).program_position,
                self.buffer@ == old(self).buffer@,
                self.same_layout(*old(self)),
                memory0 == old(self).memory@,
            decreases count - byte,
        {
            let at: usize = start + byte * 4;
            let word: usize = ((image[at] as usize) << (usize::BITS - 16)) | ((image[at + 1] as usize)
                << (usize::BITS - 24)) | ((image[at + 2] as usize) << (usize::BITS - 32));
            self.memory[self.vram_offset + byte] = word;
            byte = byte + 1;
        }
    }

    /// Draws a glyph (30 bits, 5 columns by 6 rows, first row in the highest bits)
    /// in white with its top-left corner at address `at`; unset bits leave memory alone.
    pub fn draw_glyph(&mut self, glyph: usize, at: usize)
        requires
            forall|i: int|
                0 <= i < 30 && #[trigger] glyph_bit(glyph, i) ==> at + glyph_cell(i)
                    < old(self).memory.len(),
        ensures
            final(self).memory@.len() == old(self).memory@.len(),
            forall|i: int|
                0 <= i < 30 && #[trigger] glyph_bit(glyph, i) ==> final(self).memory@[at
                    + glyph_cell(i)] == 0x00ffffff,
            forall|j: int|
                0 <= j < old(self).memory@.len() && !(exists|i: int|
                    0 <= i < 30 && #[trigger] glyph_bit(glyph, i) && j == at + glyph_cell(i))
                    ==> final(self).memory@[j] == old(self).memory@[j],
            final(self).program_position == old(self).program_position,
            final(self).buffer@ == old(self).buffer@,
            final(self).same_layout(*old(self)),
    {
        let ghost memory0 = self.memory@;
        let mut mask: usize = 0x8000_0000 >> 2;
        assert(0x8000_0000usize >> 2 == 0x2000_0000usize >> 0usize) by (bit_vector);
        let mut x: usize = 0;
        let mut y: usize = 0;
        let mut iteration: usize = 0;
        while iteration < 30
            invariant
                iteration <= 30,
                x == iteration % 5,
                y == iteration / 5,
                mask == 0x2000_0000usize >> iteration,
                forall|i: int|
                    0 <= i < 30 && #[trigger] glyph_bit(glyph, i) ==> at + glyph_cell(i)
                        < self.memory.len(),
                self.memory@.len() == memory0.len(),
                forall|i: int|
                    0 <= i < iteration && #[trigger] glyph_bit(glyph, i) ==> self.memory@[at
                        + glyph_cell(i)] == 0x00ffffff,
                forall|j: int|
                    0 <= j < memory0.len() && !(exists|i: int|
                        0 <= i < iteration && #[trigger] glyph_bit(glyph, i) && j == at
                            + glyph_cell(i)) ==> self.memory@[j] == memory0[j],
                self.program_position == old(self).program_position,
                self.buffer@ == old(self).buffer@,
                self.same_layout(*old(self)),
                memory0 == old(self).memory@,
            decreases 30 - iteration,
        {
            let bit = glyph & mask;
            assert((bit > 0) == ((glyph >> ((29 - iteration) as usize)) & 1 == 1)) by (bit_vector)
                requires
                    bit == glyph & mask,
                    mask == 0x2000_0000usize >> iteration,
                    iteration < 30,
            ;
            assert(mask >> 1 == 0x2000_0000usize >> (iteration + 1)) by (bit_vector)
                requires
                    mask == 0x2000_0000usize >> iteration,
                    iteration < 30,
            ;
            mask = mask >> 1;
            if bit > 0 {
                assert(glyph_bit(glyph, iteration as int));
                assert(glyph_cell(iteration as int) == x + y * 128);
                self.memory[at + x + (y * 128)] = 0x00ffffff;
            }
            proof {
                assert forall|j: int|
                    0 <= j < memory0.len() && !(exists|i: int|
                        0 <= i < iteration + 1 && #[trigger] glyph_bit(glyph, i) && j == at
                            + glyph_cell(i)) implies self.memory@[j] == memory0[j] by {
                    if bit > 0 {
                        assert(j != at + glyph_cell(iteration as int));
                    }
                    assert(!(exists|i: int|
                        0 <= i < iteration && #[trigger] glyph_bit(glyph, i) && j == at
                            + glyph_cell(i)));
                }
            }
            y = (iteration + 1) / 5;
            x = x + 1;
            if x == 5 {
                x = 0;
            }
            iteration = iteration + 1;
        }
    }
}

} // verus!
