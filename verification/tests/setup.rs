use x4c::machine::NewComputer;
use x4c::setup::{boot_image_start, boot_image_word_count, dump_words};

fn computer(memory: Vec<usize>, vram_offset: usize) -> NewComputer {
    NewComputer {
        memory,
        program_position: 0,
        buffer: [0; 4],
        colormap_table: vec![0; 0x100],
        display_size: 128 * 128,
        vram_offset,
        display_scale_by: 6,
        input_offset: 0,
        character_table_offset: 0,
    }
}

#[test]
fn dump_words_big_endian() {
    let bytes = dump_words(&vec![0x0102_0304usize, 0xa0]);
    let w = (usize::BITS / 8) as usize;
    assert_eq!(bytes.len(), 2 * w);
    assert_eq!(&bytes[w - 4..w], &[1, 2, 3, 4]);
    assert_eq!(bytes[2 * w - 1], 0xa0);
    assert_eq!(bytes[w], 0);
}

#[test]
fn boot_image_header() {
    let mut image = vec![0u8; 24];
    image[10] = 16;
    assert_eq!(boot_image_start(&image), 16);
    assert_eq!(boot_image_word_count(&image), 2);
    image[11] = 1;
    assert_eq!(boot_image_start(&image), 0x110);
    assert_eq!(boot_image_word_count(&image), 0);
}

#[test]
fn boot_image_loads_pixels() {
    let mut image = vec![0u8; 24];
    image[10] = 16;
    image[16] = 0x11;
    image[17] = 0x22;
    image[18] = 0x33;
    image[19] = 0x99;
    image[20] = 0x44;
    let mut c = computer(vec![7usize; 6], 2);
    c.load_boot_image(&image);
    let b = usize::BITS as usize;
    let first = (0x11usize << (b - 16)) | (0x22usize << (b - 24)) | (0x33usize << (b - 32));
    assert_eq!(c.memory, vec![7, 7, first, 0x44usize << (b - 16), 7, 7]);
}

#[test]
fn checkerboard_and_fill() {
    let vram = 0x03ff_c000usize;
    let mut c = computer(vec![5usize; 0x0400_0000], vram);
    c.fill_checkerboard();
    assert_eq!(c.memory[vram], 0xffffff);
    assert_eq!(c.memory[vram + 1], 0);
    assert_eq!(c.memory[vram + 128], 0);
    assert_eq!(c.memory[vram + 129], 0xffffff);
    // k = 0x3fff: 16383 + 127 is even
    assert_eq!(c.memory[0x03ff_ffff], 0xffffff);
    assert_eq!(c.memory[vram - 1], 5);
    c.fill_display(0x303030);
    assert_eq!(c.memory[vram], 0x303030);
    assert_eq!(c.memory[0x03ff_ffff], 0x303030);
    assert_eq!(c.memory[vram - 1], 5);
}

#[test]
fn fill_past_display_region_does_nothing() {
    let mut c = computer(vec![5usize; 4], 0x0400_0000);
    c.fill_checkerboard();
    assert_eq!(c.memory, vec![5usize; 4]);
}

#[test]
fn glyph_sets_white_cells() {
    let mut c = computer(vec![0usize; 1000], 0);
    // top-left and bottom-right cells of the 5 by 6 picture
    c.draw_glyph((1 << 29) | 1, 10);
    assert_eq!(c.memory[10], 0xffffff);
    assert_eq!(c.memory[10 + 4 + 5 * 128], 0xffffff);
    assert_eq!(c.memory.iter().filter(|w| **w != 0).count(), 2);
}

#[test]
fn glyph_dot() {
    let mut c = computer(vec![0usize; 1000], 0);
    // '.': bit 2 is set -> row 5, column 2
    c.draw_glyph(0b000000000000000000000000000100, 129);
    assert_eq!(c.memory[129 + 2 + 5 * 128], 0xffffff);
    assert_eq!(c.memory.iter().filter(|w| **w != 0).count(), 1);
}

#[test]
fn can_step_checks_memory() {
    let mut c = computer(vec![0x4000_0005usize, 0, 0], 0);
    assert!(!c.can_step_now());
    c.memory[0] = 0x4000_0002;
    assert!(c.can_step_now());
    c.program_position = 3;
    assert!(!c.can_step_now());
}
