use x4c::machine::NewComputer;
use x4c::word::FromUsize;

fn computer(program: &[usize], memory_size: usize) -> NewComputer {
    let mut memory = vec![0usize; memory_size];
    for (i, w) in program.iter().enumerate() {
        memory[i] = *w;
    }
    NewComputer {
        memory,
        program_position: 0,
        buffer: [0; 4],
        colormap_table: vec![0; 16],
        display_size: 128 * 128,
        vram_offset: 0,
        display_scale_by: 6,
        input_offset: 0,
        character_table_offset: 0,
    }
}

#[test]
fn noop_advances_program_position() {
    let mut c = computer(&[0x0000_0000], 8);
    c.process_instruction();
    assert_eq!(c.program_position, 1);
    assert_eq!(c.buffer, [0, 0, 0, 0]);
}

#[test]
fn jump_saves_return_address() {
    let mut c = computer(&[0x0, 0x1000_0005], 8);
    c.program_position = 1;
    c.process_instruction();
    assert_eq!(c.program_position, 5);
    assert_eq!(c.buffer[3], 1);
}

#[test]
fn conditional_jump_taken_when_buffer_is_true() {
    // a = 1 (bits 26..27)
    let mut c = computer(&[0x2400_0006], 8);
    c.buffer[1] = 0xffff_ffff;
    c.process_instruction();
    assert_eq!(c.program_position, 6);
    assert_eq!(c.buffer[3], 0);
}

#[test]
fn conditional_jump_not_taken_stays() {
    let mut c = computer(&[0x2400_0006], 8);
    c.buffer[1] = 5;
    c.process_instruction();
    assert_eq!(c.program_position, 0);
    assert_eq!(c.buffer[3], 0);
}

#[test]
fn jump_to_pointer() {
    // a = 2
    let mut c = computer(&[0x0, 0x0, 0x3800_0000], 8);
    c.program_position = 2;
    c.buffer[2] = 7;
    c.process_instruction();
    assert_eq!(c.program_position, 7);
    assert_eq!(c.buffer[3], 2);
}

#[test]
fn jump_to_pointer_through_buffer_three_stays() {
    // a = 3: buffer 3 already holds the saved program position
    let mut c = computer(&[0x0, 0x3c00_0000], 8);
    c.program_position = 1;
    c.buffer[3] = 6;
    c.process_instruction();
    assert_eq!(c.program_position, 1);
}

#[test]
fn take_loads_buffer() {
    // a = 2, address 5
    let mut c = computer(&[0x4800_0005, 0, 0, 0, 0, 0x1234], 8);
    c.process_instruction();
    assert_eq!(c.buffer, [0, 0, 0x1234, 0]);
    assert_eq!(c.program_position, 1);
}

#[test]
fn place_copies_memory() {
    // a = 1, address 6; buffer 1 points at word 4 (high bits masked off)
    let mut c = computer(&[0x5400_0006, 0, 0, 0, 0x77, 0, 0], 8);
    c.buffer[1] = 0x0200_0004;
    c.process_instruction();
    assert_eq!(c.memory[6], 0x77);
    assert_eq!(c.memory[4], 0x77);
    assert_eq!(c.program_position, 1);
}

// compute word: op | a << 26 | b << 24 | c << 22, with a = 0, b = 1, c = 2
fn compute_word(op: usize) -> usize {
    (op << 28) | (0 << 26) | (1 << 24) | (2 << 22)
}

fn run_compute(op: usize, x: usize, y: usize) -> usize {
    let mut c = computer(&[compute_word(op)], 4);
    c.buffer[0] = x;
    c.buffer[1] = y;
    c.process_instruction();
    assert_eq!(c.program_position, 1);
    assert_eq!(c.buffer[0], x);
    assert_eq!(c.buffer[1], y);
    c.buffer[2]
}

#[test]
fn greater_than_sets_flag() {
    assert_eq!(run_compute(0x6, 5, 3), 0xffff_ffff);
    assert_eq!(run_compute(0x6, 3, 5), 0);
    assert_eq!(run_compute(0x6, 3, 3), 0);
}

#[test]
fn less_than_sets_flag() {
    assert_eq!(run_compute(0x7, 3, 5), 0xffff_ffff);
    assert_eq!(run_compute(0x7, 5, 3), 0);
}

#[test]
fn logic_operations() {
    assert_eq!(run_compute(0x8, 0b1100, 0b1010), 0b1000);
    assert_eq!(run_compute(0x9, 0b1100, 0b1010), 0b1110);
    assert_eq!(run_compute(0xa, 0b1100, 0b1010), 0b0110);
    assert_eq!(run_compute(0xb, 0b1100, 0b1010), !0b1110usize);
}

#[test]
fn add_and_sub_wrap() {
    assert_eq!(run_compute(0xc, 2, 3), 5);
    assert_eq!(run_compute(0xc, usize::MAX, 2), 1);
    assert_eq!(run_compute(0xd, 5, 3), 2);
    assert_eq!(run_compute(0xd, 0, 1), usize::MAX);
    let s = run_compute(0xc, 123_456, usize::MAX - 7);
    assert_eq!(run_compute(0xd, s, usize::MAX - 7), 123_456);
}

#[test]
fn shifts() {
    assert_eq!(run_compute(0xe, 1, 4), 16);
    assert_eq!(run_compute(0xf, 0x100, 4), 0x10);
    assert_eq!(run_compute(0xe, 1, usize::BITS as usize), 0);
    assert_eq!(run_compute(0xf, usize::MAX, usize::BITS as usize), 0);
    // only the low 32 bits of the distance count
    if usize::BITS == 64 {
        assert_eq!(run_compute(0xe, 1, (1usize << 40) | 3), 8);
    }
}

#[test]
fn from_usize_splits_halves() {
    assert_eq!(<u32 as FromUsize>::from_usize(0x1234_5678), [0x1234_5678, 0]);
    if usize::BITS == 64 {
        let n: u64 = 0x0000_0009_8765_4321;
        assert_eq!(<u32 as FromUsize>::from_usize(n as usize), [0x8765_4321, 9]);
    }
}

#[test]
fn small_program_runs() {
    // take buffer0 <- mem[10]; take buffer1 <- mem[11]; add buffer2 = b0 + b1; jump to 0
    let program = [0x4000_000a, 0x4400_000b, compute_word(0xc), 0x1000_0000];
    let mut c = computer(&program, 16);
    c.memory[10] = 40;
    c.memory[11] = 2;
    for _ in 0..4 {
        c.process_instruction();
    }
    assert_eq!(c.buffer[2], 42);
    assert_eq!(c.program_position, 0);
    assert_eq!(c.buffer[3], 3);
    assert_eq!(c.memory.len(), 16);
}
