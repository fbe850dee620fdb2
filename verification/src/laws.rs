use vstd::prelude::*;
use vstd::arithmetic::power2::pow2;

use crate::color::{
    abs_diff, blue, channels, color_distance, corrected_table, green, lemma_nearest_among, nearest_index,
    palette, palette_distance, red, shade_rgb, hue_column, value_row,
};
use crate::display::{be_byte, flip_base, flipped, grey_level};
use crate::setup::{checker_color, dump, glyph_bit, glyph_cell, pixel_word, word_bytes};
use crate::machine::{compute, flag, opcode, true_word, word_add, NewComputer};

verus! {

/// An instruction never changes the size of memory or the number of buffers.
pub proof fn law_step_keeps_sizes(m: NewComputer)
    requires
        m.can_step(),
    ensures
        m.next_memory().len() == m.memory@.len(),
        m.next_buffer().len() == m.buffer@.len(),
{
}

/// Only `place` writes memory; jumps save the program counter in buffer 3; every
/// other instruction moves the program counter on by one word.
pub proof fn law_instruction_effects(m: NewComputer)
    requires
        m.can_step(),
    ensures
        opcode(m.current_word()) != 5 ==> m.next_memory() == m.memory@,
        1 <= opcode(m.current_word()) <= 3 ==> m.next_buffer()[3] == m.program_position,
        !(1 <= opcode(m.current_word()) <= 3) ==> m.next_program_position() == word_add(
            m.program_position,
            1,
        ),
        opcode(m.current_word()) == 0 ==> m.next_buffer() == m.buffer@ && m.next_memory()
            == m.memory@,
{
}

/// "Greater than" on `(x, y)` and "less than" on `(y, x)` give the same word, and
/// that word is always one of the two flag values.
pub proof fn law_comparisons_are_flags(x: usize, y: usize)
    ensures
        compute(6, x, y) == compute(7, y, x),
        compute(6, x, y) == true_word() || compute(6, x, y) == 0,
        compute(6, x, y) == flag(x > y),
{
}

/// `nor` gives the complement of `or`.
pub proof fn law_nor_is_not_or(x: usize, y: usize)
    ensures
        compute(11, x, y) == !compute(9, x, y),
{
}

/// Subtracting what was added gives back the first operand, and the other way round.
pub proof fn law_sub_undoes_add(x: usize, y: usize)
    ensures
        compute(13, compute(12, x, y), y) == x,
        compute(12, compute(13, x, y), y) == x,
{
}

/// The nearest palette index is in range, no palette colour is nearer, and every
/// earlier palette colour is strictly farther.
pub proof fn law_nearest_is_first_minimum(color: int)
    ensures
        0 <= nearest_index(color) < 32,
        forall|j: int|
            0 <= j < 32 ==> palette_distance(color, nearest_index(color))
                <= #[trigger] palette_distance(color, j),
        forall|j: int|
            0 <= j < nearest_index(color) ==> palette_distance(color, nearest_index(color))
                < #[trigger] palette_distance(color, j),
{
    lemma_nearest_among(color, 32);
}

/// Every palette colour is its own nearest palette colour.
pub proof fn law_palette_colors_are_fixed(i: int)
    requires
        0 <= i < 32,
    ensures
        nearest_index(palette()[i]) == i,
{
    let c = palette()[i];
    let n = nearest_index(c);
    lemma_nearest_among(c, 32);
    assert(palette_distance(c, i) == 0);
    assert(palette_distance(c, n) == 0);
    law_channels_recompose(c);
    law_channels_recompose(palette()[n]);
    assert(palette()[n] == c);
    assert(n == i);
}

/// Once the colour table is corrected, looking up a 24-bit colour shows the bytes
/// of its nearest palette colour, and a palette colour shows as itself.
pub proof fn law_corrected_lookup(m: NewComputer, table: Seq<usize>, hex: usize)
    requires
        table.len() > 0xffffff,
        m.colormap_table@ == corrected_table(table),
        hex <= 0xffffff,
    ensures
        m.shown_color(hex) == channels(palette()[nearest_index(hex as int)] as usize),
        (exists|i: int| 0 <= i < 32 && palette()[i] == hex) ==> m.shown_color(hex) == channels(hex),
{
    if exists|i: int| 0 <= i < 32 && palette()[i] == hex {
        let i = choose|i: int| 0 <= i < 32 && palette()[i] == hex;
        law_palette_colors_are_fixed(i);
    }
}

/// The three bytes of a 24-bit colour put back together give the colour.
pub proof fn law_channels_recompose(c: int)
    requires
        0 <= c <= 0xffffff,
    ensures
        red(c) * 0x10000 + green(c) * 0x100 + blue(c) == c,
        color_distance(c, c) == 0,
{
}

/// Each byte of a shade-map colour has a zero low nibble.
pub proof fn law_shades_are_coarse(e: int)
    requires
        0 <= e <= 0xfff,
    ensures
        shade_rgb(e).0 % 16 == 0,
        shade_rgb(e).1 % 16 == 0,
        shade_rgb(e).2 % 16 == 0,
{
}

/// The flip mirrors rows: column `x` of window row `r` holds column `x` of display row
/// `127 - r`, and nothing outside the window moves.
pub proof fn law_flip_mirrors_rows(memory: Seq<usize>, vram_offset: int, r: int, x: int, t: int)
    requires
        0 <= r < 128,
        0 <= x < 128,
        0 <= t < memory.len(),
        flip_base() + 0x4000 <= memory.len(),
        0 <= vram_offset,
        vram_offset + 0x4000 <= memory.len(),
    ensures
        flipped(memory, vram_offset)[flip_base() + r * 128 + x] == memory[vram_offset + (127
            - r) * 128 + x],
        !(flip_base() <= t < flip_base() + 0x4000) ==> flipped(memory, vram_offset)[t]
            == memory[t],
{
    let k = r * 128 + x;
    vstd::arithmetic::div_mod::lemma_fundamental_div_mod_converse(k, 128, r, x);
}


/// The memory operand of an instruction word is its low 26 bits (`w & 0x3ffffff`,
/// that is `w % 2^26`): `jump` goes there, `take` reads that word into buffer a, and
/// `place` writes that word and no other.
pub proof fn law_address_is_low_26_bits(m: NewComputer)
    requires
        m.program_position < m.memory@.len(),
    ensures
        ({
            let w = m.current_word();
            let address = w as int % 0x400_0000;
            let op = (w as int / 0x1000_0000) % 16;
            let a = (w as int / 0x400_0000) % 4;
            &&& address == (w & 0x3ff_ffff) as int
            &&& op == 1 ==> m.next_program_position() == address
            &&& op == 2 && m.buffer@.update(3, m.program_position)[a] == 0xffff_ffff
                ==> m.next_program_position() == address
            &&& op == 4 ==> m.next_buffer()[a] == m.memory@[address]
            &&& op == 5 ==> m.next_memory() == m.memory@.update(
                address,
                m.memory@[m.buffer@[a] as int % 0x200_0000],
            )
        }),
{
    let w = m.current_word();
    assert(w & 0x3ff_ffff == w % 0x400_0000) by (bit_vector);
}

/// Shifting right by `s = y mod 2^32` divides by `2^s` (so never grows the value);
/// shifting left multiplies by `2^s` when the product fits; a distance of at least
/// the word size gives zero either way.
pub proof fn law_shifts_scale_by_powers_of_two(x: usize, y: usize)
    ensures
        compute(15, x, y) <= x,
        y as int % 0x1_0000_0000 < usize::BITS ==> compute(15, x, y) == x as int / pow2(
            (y as int % 0x1_0000_0000) as nat,
        ) as int,
        y as int % 0x1_0000_0000 < usize::BITS && x * pow2((y as int % 0x1_0000_0000) as nat)
            <= usize::MAX ==> compute(14, x, y) == x * pow2((y as int % 0x1_0000_0000) as nat),
        y as int % 0x1_0000_0000 >= usize::BITS ==> compute(14, x, y) == 0 && compute(15, x, y)
            == 0,
{
    let s = y as int % 0x1_0000_0000;
    if s < usize::BITS {
        let su = s as usize;
        vstd::bits::lemma_usize_shr_is_div(x, su);
        vstd::arithmetic::power2::lemma_pow2_pos(su as nat);
        vstd::arithmetic::div_mod::lemma_div_is_ordered_by_denominator(
            x as int,
            1,
            pow2(su as nat) as int,
        );
        if x * pow2(su as nat) <= usize::MAX {
            vstd::bits::lemma_usize_shl_is_mul(x, su);
        }
    }
}

/// Monochrome drawing takes its grey level from the big-endian bytes 1, 2 and 3 of a
/// display word: byte 1 plus byte 2 plus a third of byte 3, modulo 256.
pub proof fn law_grey_level_bytes(w: usize)
    ensures
        usize::BITS == 64 ==> grey_level(w) as int == ((w as int / 0x1_0000_0000_0000) % 256 + (
        w as int / 0x100_0000_0000) % 256 + ((w as int / 0x1_0000_0000) % 256) / 3) % 256,
        usize::BITS == 32 ==> grey_level(w) as int == ((w as int / 0x1_0000) % 256 + (w as int
            / 0x100) % 256 + (w as int % 256) / 3) % 256,
{
    vstd::arithmetic::power2::lemma2_to64();
    vstd::arithmetic::power2::lemma2_to64_rest();
    let s1 = (usize::BITS - 16) as usize;
    let s2 = (usize::BITS - 24) as usize;
    let s3 = (usize::BITS - 32) as usize;
    vstd::bits::lemma_usize_shr_is_div(w, s1);
    vstd::bits::lemma_usize_shr_is_div(w, s2);
    vstd::bits::lemma_usize_shr_is_div(w, s3);
    let v1 = w >> s1;
    let v2 = w >> s2;
    let v3 = w >> s3;
    assert(v1 & 0xff == v1 % 256 && v2 & 0xff == v2 % 256 && v3 & 0xff == v3 % 256)
        by (bit_vector);
    assert(be_byte(w, 1) == v1 % 256);
    assert(be_byte(w, 2) == v2 % 256);
    assert(be_byte(w, 3) == v3 % 256);
    if usize::BITS == 64 {
        assert(s1 == 48 && s2 == 40 && s3 == 32);
        assert(v1 == w as int / 0x1_0000_0000_0000);
        assert(v2 == w as int / 0x100_0000_0000);
        assert(v3 == w as int / 0x1_0000_0000);
    }
}

/// Glyph bit `29 - (5 r + c)` (the mask `0x2000_0000 >> (5 r + c)`) belongs to row `r`,
/// column `c` of the 5 by 6 picture, which sits `c + 128 r` words from its corner;
/// different bits land on different cells.
pub proof fn law_glyph_layout(glyph: usize, r: int, c: int, i: int, j: int)
    requires
        0 <= r < 6,
        0 <= c < 5,
        0 <= i < 30,
        0 <= j < 30,
    ensures
        glyph_cell(5 * r + c) == c + 128 * r,
        glyph_bit(glyph, 5 * r + c) <==> (glyph & (0x2000_0000usize >> ((5 * r + c) as usize)))
            != 0,
        i != j ==> glyph_cell(i) != glyph_cell(j),
{
    let k: usize = (5 * r + c) as usize;
    let sh: usize = (29 - k) as usize;
    assert(((glyph >> sh) & 1 == 1) <==> ((glyph & (0x2000_0000usize >> k)) != 0))
        by (bit_vector)
        requires
            k < 30,
            sh + k == 29,
    ;
}

/// The boot checkerboard: display word `k` is white exactly when its column `k % 128`
/// plus its row `k / 128` is even, so neighbours across and down always differ.
pub proof fn law_checkerboard(k: int)
    requires
        0 <= k < 0x4000,
    ensures
        checker_color(k) == (if (k % 128 + k / 128) % 2 == 0 {
            0xffffffusize
        } else {
            0usize
        }),
        k % 128 < 127 ==> checker_color(k) != checker_color(k + 1),
        k + 128 < 0x4000 ==> checker_color(k) != checker_color(k + 128),
{
    let q = k / 128;
    let r = k % 128;
    vstd::arithmetic::div_mod::lemma_fundamental_div_mod(k, 128);
    assert(k == 128 * q + r);
    assert((k + q) % 2 == (r + q) % 2) by {
        vstd::arithmetic::div_mod::lemma_mod_multiples_vanish(64 * q, r + q, 2);
        assert(k + q == 2 * (64 * q) + (r + q));
    }
    if r < 127 {
        vstd::arithmetic::div_mod::lemma_fundamental_div_mod_converse(k + 1, 128, q, r + 1);
        assert((k + 1 + q) % 2 == (r + 1 + q) % 2) by {
            vstd::arithmetic::div_mod::lemma_mod_multiples_vanish(64 * q, r + 1 + q, 2);
        }
    }
    vstd::arithmetic::div_mod::lemma_fundamental_div_mod_converse(k + 128, 128, q + 1, r);
    assert((k + 128 + q + 1) % 2 == (r + q + 1) % 2) by {
        vstd::arithmetic::div_mod::lemma_mod_multiples_vanish(64 * q + 64, r + q + 1, 2);
    }
}

/// The four fields of an instruction word, read with masks: opcode `w >> 28`, buffer
/// operands a, b, c in bits 26..27, 24..25, 22..23. Each instruction's effect, in those
/// fields: jumps save the program counter in buffer 3 first; `jump if` jumps when
/// buffer a then holds 0xffffffff and otherwise stays put; `jump to a` goes where
/// buffer a points; compute instructions write buffer c from buffers a and b; every
/// instruction other than the jumps moves to the next word.
pub proof fn law_instruction_semantics(m: NewComputer)
    requires
        m.program_position < m.memory@.len(),
        m.memory@.len() <= usize::MAX,
    ensures
        ({
            let w = m.current_word();
            let op = ((w >> 28usize) & 0xf) as int;
            let a = ((w >> 26usize) & 3) as int;
            let b = ((w >> 24usize) & 3) as int;
            let c = ((w >> 22usize) & 3) as int;
            let pc = m.program_position;
            let saved = m.buffer@.update(3, pc);
            &&& op == opcode(w)
            &&& 1 <= op <= 3 ==> m.next_buffer() == saved && m.next_memory() == m.memory@
            &&& op == 2 && saved[a] != 0xffff_ffff ==> m.next_program_position() == pc
            &&& op == 3 ==> m.next_program_position() == saved[a]
            &&& (op == 0 || op >= 4) ==> m.next_program_position() == pc + 1
            &&& op == 0 ==> m.next_buffer() == m.buffer@ && m.next_memory() == m.memory@
            &&& op == 4 ==> m.next_buffer() == m.buffer@.update(
                a,
                m.memory@[(w & 0x3ff_ffff) as int],
            ) && m.next_memory() == m.memory@
            &&& op == 5 ==> m.next_buffer() == m.buffer@
            &&& op >= 6 ==> m.next_buffer() == m.buffer@.update(
                c,
                compute(op, m.buffer@[a], m.buffer@[b]),
            ) && m.next_memory() == m.memory@
        }),
{
    let w = m.current_word();
    assert((w >> 28usize) & 0xf == (w / 0x1000_0000) % 16) by (bit_vector);
    assert((w >> 26usize) & 3 == (w / 0x400_0000) % 4) by (bit_vector);
    assert((w >> 24usize) & 3 == (w / 0x100_0000) % 4) by (bit_vector);
    assert((w >> 22usize) & 3 == (w / 0x40_0000) % 4) by (bit_vector);
    assert(w & 0x3ff_ffff == w % 0x400_0000) by (bit_vector);
}

/// The compute instructions in terms of their operands: bitwise and, or, xor and
/// nor; addition and subtraction modulo `2^BITS`.
pub proof fn law_compute_operations(x: usize, y: usize)
    ensures
        compute(8, x, y) == x & y,
        compute(9, x, y) == x | y,
        compute(10, x, y) == x ^ y,
        compute(11, x, y) == !(x | y),
        compute(12, x, y) as int == (x + y) % (usize::MAX + 1),
        compute(13, x, y) as int == (x - y) % (usize::MAX + 1),
{
    let m = usize::MAX + 1;
    if x + y > usize::MAX {
        vstd::arithmetic::div_mod::lemma_fundamental_div_mod_converse(x + y, m, 1, x + y - m);
    } else {
        vstd::arithmetic::div_mod::lemma_fundamental_div_mod_converse(x + y, m, 0, x + y);
    }
    if x < y {
        vstd::arithmetic::div_mod::lemma_fundamental_div_mod_converse(x - y, m, -1, x - y + m);
    } else {
        vstd::arithmetic::div_mod::lemma_fundamental_div_mod_converse(x - y, m, 0, x - y);
    }
}

/// The shade map is indexed by the high nibble of the value (`(v & 0xf0) >> 4`) and by
/// `(hue * 10 / 14)` cut to a byte, high nibble; both indices are below 16.
pub proof fn law_shade_indices(hue: u16, value: u8)
    requires
        hue * 10 <= u16::MAX,
    ensures
        value_row(value) == ((value & 0xf0) >> 4u8) as int,
        hue_column(hue) == ((((hue * 10 / 14) as u16) & 0xff) >> 4u16) as int,
        0 <= value_row(value) < 16,
        0 <= hue_column(hue) < 16,
{
    let h: u16 = (hue * 10 / 14) as u16;
    assert((value & 0xf0) >> 4u8 == value / 16) by (bit_vector);
    assert((h & 0xff) >> 4u16 == (h % 256) / 16) by (bit_vector);
}

/// A display square sits `10 + column * scale`, `10 + row * scale` from the corner of
/// the screen and is `scale` wide and high, so neighbouring squares touch.
pub proof fn law_frame_grid(m: NewComputer, p: int, use_color: bool)
    requires
        0 <= p < 0x4000,
        127 * m.display_scale_by + 10 <= i32::MAX,
    ensures
        m.expected_fill(p, use_color).x == 10 + (p % 128) * m.display_scale_by,
        m.expected_fill(p, use_color).y == 10 + (p / 128) * m.display_scale_by,
        m.expected_fill(p, use_color).width == m.display_scale_by,
        m.expected_fill(p, use_color).height == m.display_scale_by,
        p % 128 < 127 ==> m.expected_fill(p + 1, use_color).x == m.expected_fill(p, use_color).x
            + m.display_scale_by,
        p + 128 < 0x4000 ==> m.expected_fill(p + 128, use_color).y == m.expected_fill(
            p,
            use_color,
        ).y + m.display_scale_by,
{
    let s = m.display_scale_by as int;
    let col = p % 128;
    let row = p / 128;
    assert(0 <= col * s <= 127 * s) by (nonlinear_arith)
        requires
            0 <= col < 128,
            0 <= s,
    ;
    assert(0 <= row * s <= 127 * s) by (nonlinear_arith)
        requires
            0 <= row < 128,
            0 <= s,
    ;
    if p % 128 < 127 {
        assert((p + 1) % 128 == col + 1 && (p + 1) / 128 == row);
        assert((col + 1) * s == col * s + s) by (nonlinear_arith);
        assert(0 <= (col + 1) * s <= 127 * s) by (nonlinear_arith)
            requires
                0 <= col + 1 < 128,
                0 <= s,
        ;
    }
    if p + 128 < 0x4000 {
        assert((p + 128) % 128 == col && (p + 128) / 128 == row + 1);
        assert((row + 1) * s == row * s + s) by (nonlinear_arith);
        assert(0 <= (row + 1) * s <= 127 * s) by (nonlinear_arith)
            requires
                0 <= row + 1 < 128,
                0 <= s,
        ;
    }
}

/// A bitmap pixel's three bytes become big-endian bytes 1, 2, 3 of its display word,
/// and monochrome drawing reads them back: its grey level is `b0 + b1 + b2 / 3` mod 256.
pub proof fn law_boot_pixel_grey(b0: u8, b1: u8, b2: u8)
    ensures
        usize::BITS == 64 ==> pixel_word(b0, b1, b2) as int == b0 * 0x1_0000_0000_0000 + b1
            * 0x100_0000_0000 + b2 * 0x1_0000_0000,
        grey_level(pixel_word(b0, b1, b2)) as int == (b0 + b1 + b2 / 3) % 256,
{
    let w = pixel_word(b0, b1, b2);
    let s1 = (usize::BITS - 16) as usize;
    let s2 = (usize::BITS - 24) as usize;
    let s3 = (usize::BITS - 32) as usize;
    let x0 = b0 as usize;
    let x1 = b1 as usize;
    let x2 = b2 as usize;
    assert(x0 < 256 && x1 < 256 && x2 < 256);
    assert(usize::BITS == 32 || usize::BITS == 64);
    assert(((((x0 << s1) | (x1 << s2) | (x2 << s3)) >> s1) & 0xff) == x0
        && ((((x0 << s1) | (x1 << s2) | (x2 << s3)) >> s2) & 0xff) == x1
        && ((((x0 << s1) | (x1 << s2) | (x2 << s3)) >> s3) & 0xff) == x2) by (bit_vector)
        requires
            x0 < 256,
            x1 < 256,
            x2 < 256,
            usize::BITS == 32 || usize::BITS == 64,
            s1 + 16 == usize::BITS,
            s2 + 24 == usize::BITS,
            s3 + 32 == usize::BITS,
    ;
    if usize::BITS == 64 {
        assert(s1 == 48 && s2 == 40 && s3 == 32);
        assert(((x0 << 48usize) | (x1 << 40usize) | (x2 << 32usize)) == x0 * 0x1_0000_0000_0000
            + x1 * 0x100_0000_0000 + x2 * 0x1_0000_0000) by (bit_vector)
            requires
                x0 < 256,
                x1 < 256,
                x2 < 256,
                usize::BITS == 64,
        ;
    }
}

/// A memory dump has one group of `BITS / 8` bytes per word, in word order, and byte
/// `k` of a group is the word divided by `2^(BITS - 8 (k + 1))`, modulo 256: the most
/// significant byte first.
pub proof fn law_dump_layout(words: Seq<usize>, i: int, k: int)
    requires
        0 <= i < words.len(),
        0 <= k < usize::BITS / 8,
    ensures
        dump(words).len() == words.len() * (usize::BITS / 8) as int,
        dump(words)[i * (usize::BITS / 8) + k] as int == (words[i] as int / pow2(
            (usize::BITS - 8 * (k + 1)) as nat,
        ) as int) % 256,
    decreases words.len(),
{
    let wb = (usize::BITS / 8) as int;
    let n = words.len() as int;
    lemma_dump_len(words);
    if i < n - 1 {
        law_dump_layout(words.drop_last(), i, k);
        assert(i * wb + k < (n - 1) * wb) by (nonlinear_arith)
            requires
                0 <= i < n - 1,
                0 <= k < wb,
        ;
        lemma_dump_len(words.drop_last());
    } else {
        lemma_dump_len(words.drop_last());
        assert(i * wb + k - (n - 1) * wb == k) by (nonlinear_arith)
            requires
                i == n - 1,
        ;
        let w = words[i];
        let sh = (usize::BITS - 8 * (k + 1)) as usize;
        vstd::bits::lemma_usize_shr_is_div(w, sh);
        let v = w >> sh;
        assert(v & 0xff == v % 256) by (bit_vector);
        assert(words.last() == w);
        assert(word_bytes(w)[k] == be_byte(w, k) as u8);
    }
}

proof fn lemma_dump_len(words: Seq<usize>)
    ensures
        dump(words).len() == words.len() * (usize::BITS / 8) as int,
    decreases words.len(),
{
    if words.len() > 0 {
        lemma_dump_len(words.drop_last());
        let wb = (usize::BITS / 8) as int;
        let n = words.len() as int;
        assert((n - 1) * wb + wb == n * wb) by (nonlinear_arith);
    }
}

/// Colour distance adds the absolute differences of the red (bits 16..23), green
/// (bits 8..15) and blue (bits 0..7) bytes; it is symmetric and zero from a colour to itself.
pub proof fn law_color_distance(c: int, d: int)
    requires
        0 <= c,
        0 <= d,
    ensures
        color_distance(c, d) == abs_diff((c / 0x10000) % 256, (d / 0x10000) % 256) + abs_diff(
            (c / 0x100) % 256,
            (d / 0x100) % 256,
        ) + abs_diff(c % 256, d % 256),
        color_distance(c, d) == color_distance(d, c),
        color_distance(c, c) == 0,
        0 <= color_distance(c, d) <= 3 * 255,
{
}

/// A colour-table lookup shows the red, green and blue bytes of the table entry for a
/// 24-bit value and black for anything larger; a display pixel is looked up at
/// `vram_offset + pixel` when that does not overflow.
pub proof fn law_lookup_bytes(m: NewComputer, hex: usize, pixel: usize)
    ensures
        hex <= 0xffffff ==> m.shown_color(hex) == (
            ((m.colormap_table@[hex as int] as int / 0x10000) % 256) as u8,
            ((m.colormap_table@[hex as int] as int / 0x100) % 256) as u8,
            (m.colormap_table@[hex as int] as int % 256) as u8,
        ),
        hex > 0xffffff ==> m.shown_color(hex) == (0u8, 0u8, 0u8),
        pixel + m.vram_offset <= usize::MAX ==> m.vram_address(pixel) == pixel + m.vram_offset,
{
}

} // verus!
