use x4c::machine::NewComputer;

fn computer(memory: Vec<usize>, vram_offset: usize) -> NewComputer {
    NewComputer {
        memory,
        program_position: 0,
        buffer: [0; 4],
        colormap_table: vec![0; 0x100],
        display_size: 128 * 128,
        vram_offset,
        display_scale_by: 6,
        input_offset: 0,
        character_table_offset: 0,
    }
}

#[test]
fn flip_mirrors_rows_into_window() {
    let vram = 0x03ff_c000usize;
    let mut memory = vec![0usize; 0x0400_0000];
    for i in 0..0x4000 {
        memory[vram + i] = i + 1;
    }
    let mut c = computer(memory, vram);
    c.flip_vram_vertically();
    let base = 0x03ff_ffff - 0x4000;
    // window row 0 holds display row 127
    assert_eq!(c.memory[base], 127 * 128 + 1);
    assert_eq!(c.memory[base + 5], 127 * 128 + 6);
    // window row 127 holds display row 0
    assert_eq!(c.memory[base + 127 * 128], 1);
    assert_eq!(c.memory[base + 127 * 128 + 127], 128);
    // the last word is outside the window and keeps its value
    assert_eq!(c.memory[0x03ff_ffff], 0x4000);
    assert_eq!(c.memory[base - 1], 0);
    assert_eq!(c.memory.len(), 0x0400_0000);
}

#[test]
fn frame_fills_grey() {
    let mut memory = vec![0usize; 0x4000];
    memory[129] = 0;
    let mut c = computer(memory, 0);
    assert!(c.frame_fits_now(false));
    let fills = c.frame_fills(false);
    assert_eq!(fills.len(), 0x4000);
    let f = &fills[129];
    assert_eq!((f.x, f.y, f.width, f.height), (16, 16, 6, 6));
    assert_eq!(f.color, (0x40, 0x20, 0x60));
    let last = &fills[0x3fff];
    assert_eq!((last.x, last.y), (10 + 127 * 6, 10 + 127 * 6));
}

#[test]
fn frame_fills_color() {
    let mut memory = vec![0usize; 0x4000];
    memory[3] = 0x11;
    let mut c = computer(memory, 0);
    c.colormap_table[0x11] = 0x0a0b0c;
    assert!(c.frame_fits_now(true));
    let fills = c.frame_fills(true);
    assert_eq!(fills[3].color, (0x0a, 0x0b, 0x0c));
    assert_eq!((fills[3].x, fills[3].y), (28, 10));
    assert_eq!(fills[0].color, (0, 0, 0));
}

#[test]
fn frame_does_not_fit_past_memory_or_table() {
    let c = computer(vec![0usize; 0x3fff], 0);
    assert!(!c.frame_fits_now(false));
    let mut memory = vec![0usize; 0x4000];
    memory[5] = 0x200;
    let c = computer(memory, 0);
    assert!(c.frame_fits_now(false));
    assert!(!c.frame_fits_now(true));
}

#[test]
fn grey_frame_uses_high_bytes() {
    let mut memory = vec![0usize; 0x4000];
    // bytes 1, 2, 3 in big-endian order of the word
    let shift = usize::BITS as usize - 32;
    memory[0] = (0x30usize << (shift + 16)) | (0x30usize << (shift + 8)) | (0x30usize << shift);
    let mut c = computer(memory, 0);
    let fills = c.frame_fills(false);
    // 0x30 + 0x30 + 0x10 = 0x70 -> row 7, column 13: 0xe7f
    assert_eq!(fills[0].color, (0xe0, 0x70, 0xf0));
}
