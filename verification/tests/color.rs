use x4c::color::{nearest_palette_index, palette_color, split_channels};
use x4c::machine::NewComputer;

fn computer(memory: Vec<usize>, colormap_table: Vec<usize>) -> NewComputer {
    NewComputer {
        memory,
        program_position: 0,
        buffer: [0; 4],
        colormap_table,
        display_size: 128 * 128,
        vram_offset: 2,
        display_scale_by: 6,
        input_offset: 0,
        character_table_offset: 0,
    }
}

#[test]
fn nearest_palette_index_examples() {
    assert_eq!(nearest_palette_index(0x000000), 0);
    assert_eq!(nearest_palette_index(0xffffff), 28);
    assert_eq!(nearest_palette_index(0xff0000), 8);
    assert_eq!(nearest_palette_index(0x00ff00), 30);
    assert_eq!(nearest_palette_index(0x0000ff), 3);
    assert_eq!(nearest_palette_index(0x808080), 7);
    assert_eq!(nearest_palette_index(0x3a2659), 0);
}

#[test]
fn palette_colors_are_their_own_nearest() {
    for i in 0..32 {
        assert_eq!(nearest_palette_index(palette_color(i)), i);
    }
    assert_eq!(palette_color(0), 0x3a2658);
    assert_eq!(palette_color(31), 0xcee14b);
}

#[test]
fn split_channels_example() {
    assert_eq!(split_channels(0x12_3456), (0x12, 0x34, 0x56));
    assert_eq!(split_channels(0xab12_3456), (0x12, 0x34, 0x56));
}

#[test]
fn nearest_color_looks_up_table() {
    let mut table = vec![0usize; 0x100];
    table[0x42] = 0x9762f6;
    let mut c = computer(vec![0; 4], table);
    assert_eq!(c.get_nearest_color(0x42), (0x97, 0x62, 0xf6));
    assert_eq!(c.get_nearest_color(0x1000000), (0, 0, 0));
    assert_eq!(c.get_nearest_color(0), (0, 0, 0));
}

#[test]
fn vram_pixel_goes_through_table() {
    let mut table = vec![0usize; 0x100];
    table[0x7] = 0x548a5c;
    let mut c = computer(vec![0, 0, 0, 0x7, 0], table);
    assert_eq!(c.get_vram_pixel(1), (0x54, 0x8a, 0x5c));
    assert_eq!(c.get_vram_pixel(0), (0, 0, 0));
}

#[test]
fn vram_pixel_adds_offset() {
    let mut c = computer(vec![0, 3], vec![0, 0, 0, 0x010203]);
    c.vram_offset = 1;
    assert_eq!(c.get_vram_pixel(0), (1, 2, 3));
}

#[test]
fn palette_nearest_color_examples() {
    let mut c = computer(vec![0; 4], vec![0; 4]);
    // hue 300 -> column 13; value 0 -> row 0: 0x426
    assert_eq!(c.get_palette_nearest_color(300, 0), (0x40, 0x20, 0x60));
    // hue 0 -> column 0; value 0xff -> row 15: 0xf87
    assert_eq!(c.get_palette_nearest_color(0, 0xff), (0xf0, 0x80, 0x70));
    // hue 6553 -> 4680 -> truncated 72 -> column 4; value 0x40 -> row 4: 0x5c6
    assert_eq!(c.get_palette_nearest_color(6553, 0x40), (0x50, 0xc0, 0x60));
}

#[test]
fn corrected_table_shows_nearest_palette_colors() {
    let mut c = computer(vec![0; 4], vec![0; 0x100_0000]);
    c.calculate_color_corrections();
    assert_eq!(c.get_nearest_color(0xff0000), (0xa7, 0x48, 0x4c));
    assert_eq!(c.get_nearest_color(0xffffff), (0xef, 0xb6, 0xfd));
    assert_eq!(c.get_nearest_color(0x548a5c), (0x54, 0x8a, 0x5c));
    assert_eq!(c.colormap_table[0], 0x3a2658);
}
