use vstd::prelude::*;

use crate::word::FromUsize;

verus! {

/// The X4C machine: main memory, program counter, four compute registers
/// ("buffers"), the colour lookup table and the display layout.
pub struct NewComputer {
    pub memory: Vec<usize>,
    pub program_position: usize,
    pub buffer: [usize; 4],
    pub colormap_table: Vec<usize>,
    pub display_size: usize,
    pub vram_offset: usize,
    pub display_scale_by: usize,
    pub input_offset: usize,
    pub character_table_offset: usize,
}

/// Word value that the machine uses for "true".
pub open spec fn true_word() -> usize {
    0xffff_ffff
}

/// Comparison result as a machine word.
pub open spec fn flag(b: bool) -> usize {
    if b {
        true_word()
    } else {
        0
    }
}

/// Bits 28..31 of an instruction word: the opcode.
pub open spec fn opcode(w: usize) -> int {
    (w as int / 0x1000_0000) % 16
}

/// Bits 0..25 of an instruction word: a main-memory address.
pub open spec fn address_field(w: usize) -> int {
    w as int % 0x400_0000
}

/// Bits 26..27 of an instruction word: the first buffer operand.
pub open spec fn buffer_field_a(w: usize) -> int {
    (w as int / 0x400_0000) % 4
}

/// Bits 24..25 of an instruction word: the second buffer operand.
pub open spec fn buffer_field_b(w: usize) -> int {
    (w as int / 0x100_0000) % 4
}

/// Bits 22..23 of an instruction word: the destination buffer.
pub open spec fn buffer_field_c(w: usize) -> int {
    (w as int / 0x40_0000) % 4
}

/// The low 25 bits of a buffer, used as the source address of `place`.
pub open spec fn place_source(x: usize) -> int {
    x as int % 0x200_0000
}

/// `x + y` modulo the word size.
pub open spec fn word_add(x: usize, y: usize) -> usize {
    if x + y > usize::MAX {
        (x + y - (usize::MAX + 1)) as usize
    } else {
        (x + y) as usize
    }
}

/// `x - y` modulo the word size.
pub open spec fn word_sub(x: usize, y: usize) -> usize {
    if x < y {
        (x - y + (usize::MAX + 1)) as usize
    } else {
        (x - y) as usize
    }
}

/// Shift distance taken from a buffer: its low 32 bits.
pub open spec fn shift_amount(y: usize) -> int {
    y as int % 0x1_0000_0000
}

/// `x` shifted left by `shift_amount(y)`; zero once the distance reaches the word size.
pub open spec fn word_shl(x: usize, y: usize) -> usize {
    if shift_amount(y) < usize::BITS {
        x << (shift_amount(y) as usize)
    } else {
        0
    }
}

/// `x` shifted right by `shift_amount(y)`; zero once the distance reaches the word size.
pub open spec fn word_shr(x: usize, y: usize) -> usize {
    if shift_amount(y) < usize::BITS {
        x >> (shift_amount(y) as usize)
    } else {
        0
    }
}

/// What the compute instructions (opcodes 6 to 15) write into the destination buffer.
pub open spec fn compute(op: int, x: usize, y: usize) -> usize {
    if op == 6 {
        flag(x > y)
    } else if op == 7 {
        flag(x < y)
    } else if op == 8 {
        x & y
    } else if op == 9 {
        x | y
    } else if op == 10 {
        x ^ y
    } else if op == 11 {
        !(x | y)
    } else if op == 12 {
        word_add(x, y)
    } else if op == 13 {
        word_sub(x, y)
    } else if op == 14 {
        word_shl(x, y)
    } else {
        word_shr(x, y)
    }
}

impl NewComputer {
    /// The instruction word under the program counter.
    pub open spec fn current_word(self) -> usize {
        self.memory@[self.program_position as int]
    }

    /// The machine can execute its next instruction without leaving memory.
    pub open spec fn can_step(self) -> bool {
        let w = self.current_word();
        let op = opcode(w);
        let a = buffer_field_a(w);
        &&& self.program_position < self.memory@.len()
        &&& op == 4 ==> address_field(w) < self.memory@.len()
        &&& op == 5 ==> address_field(w) < self.memory@.len() && place_source(self.buffer@[a])
            < self.memory@.len()
    }

    /// Program counter after the next instruction.
    pub open spec fn next_program_position(self) -> usize {
        let w = self.current_word();
        let op = opcode(w);
        let a = buffer_field_a(w);
        let pc = self.program_position;
        if op == 1 {
            address_field(w) as usize
        } else if op == 2 {
            if self.buffer@.update(3, pc)[a] == true_word() {
                address_field(w) as usize
            } else {
                pc
            }
        } else if op == 3 {
            self.buffer@.update(3, pc)[a]
        } else {
            word_add(pc, 1)
        }
    }

    /// Buffers after the next instruction.
    pub open spec fn next_buffer(self) -> Seq<usize> {
        let w = self.current_word();
        let op = opcode(w);
        let a = buffer_field_a(w);
        let b = buffer_field_b(w);
        let c = buffer_field_c(w);
        if op == 1 || op == 2 || op == 3 {
            self.buffer@.update(3, self.program_position)
        } else if op == 4 {
            self.buffer@.update(a, self.memory@[address_field(w)])
        } else if op >= 6 {
            self.buffer@.update(c, compute(op, self.buffer@[a], self.buffer@[b]))
        } else {
            self.buffer@
        }
    }

    /// Main memory after the next instruction.
    pub open spec fn next_memory(self) -> Seq<usize> {
        let w = self.current_word();
        let a = buffer_field_a(w);
        if opcode(w) == 5 {
            self.memory@.update(
                address_field(w),
                self.memory@[place_source(self.buffer@[a])],
            )
        } else {
            self.memory@
        }
    }

    /// `self` and `other` have the same colour table and display layout.
    pub open spec fn same_layout(self, other: Self) -> bool {
        &&& self.colormap_table@ == other.colormap_table@
        &&& self.display_size == other.display_size
        &&& self.vram_offset == other.vram_offset
        &&& self.display_scale_by == other.display_scale_by
        &&& self.input_offset == other.input_offset
        &&& self.character_table_offset == other.character_table_offset
    }

    /// Whether `process_instruction` can run on the current state.
    pub fn can_step_now(&self) -> (ok: bool)
        ensures
            ok == self.can_step(),
    {
        if self.program_position >= self.memory.len() {
            return false;
        }
        let read = self.memory[self.program_position];
        let instruction: usize = (read & 0xf000_0000) >> 28;
        let memory_address: usize = read & 0x03ff_ffff;
        let a: usize = (read & 0x0c00_0000) >> 26;
        proof {
            assert((read & 0xf000_0000) >> 28 == (read / 0x1000_0000) % 16) by (bit_vector);
            assert(read & 0x03ff_ffff == read % 0x400_0000) by (bit_vector);
            assert((read & 0x0c00_0000) >> 26 == (read / 0x400_0000) % 4) by (bit_vector);
        }
        if instruction == 4 {
            memory_address < self.memory.len()
        } else if instruction == 5 {
            let x: usize = self.buffer[a];
            assert(x & 0x01ff_ffff == x % 0x200_0000) by (bit_vector);
            memory_address < self.memory.len() && (x & 0x01ff_ffff) < self.memory.len()
        } else {
            true
        }
    }

    /// Executes the instruction under the program counter.
    ///
    /// An instruction word holds the opcode in bits 28..31, the buffer operands
    /// a, b, c in bits 26..27, 24..25 and 22..23, and a main-memory address in bits 0..25.
    /// Jumps (1, 2, 3) save the program counter in buffer 3; `nor` (11) writes
    /// `!(a | b)`; shifts by a distance of at least the word size give zero.
    pub fn process_instruction(&mut self)
        requires
            old(self).can_step(),
        ensures
            final(self).program_position == old(self).next_program_position(),
            final(self).buffer@ == old(self).next_buffer(),
            final(self).memory@ == old(self).next_memory(),
            final(self).same_layout(*old(self)),
    {
        let read = self.memory[self.program_position];
        assert((read & 0xf000_0000) >> 28 == (read / 0x1000_0000) % 16) by (bit_vector);
        let instruction: u8 = ((read & 0xf000_0000) >> 28) as u8;
        let memory_address: usize = read & 0x03ff_ffff;
        let a: usize = (read & 0x0c00_0000) >> 26;
        let b: usize = (read & 0x0300_0000) >> 24;
        let c: usize = (read & 0x00c0_0000) >> 22;
        proof {
            assert(read & 0x03ff_ffff == read % 0x400_0000) by (bit_vector);
            assert((read & 0x0c00_0000) >> 26 == (read / 0x400_0000) % 4) by (bit_vector);
            assert((read & 0x0300_0000) >> 24 == (read / 0x100_0000) % 4) by (bit_vector);
            assert((read & 0x00c0_0000) >> 22 == (read / 0x40_0000) % 4) by (bit_vector);
        }
        if instruction == 0x1 {
            self.buffer[3] = self.program_position;
            self.program_position = memory_address;
        } else if instruction == 0x2 {
            self.buffer[3] = self.program_position;
            if self.buffer[a] == 0xffff_ffff {
                self.program_position = memory_address;
            }
        } else if instruction == 0x3 {
            self.buffer[3] = self.program_position;
            self.program_position = self.buffer[a];
        } else if instruction == 0x4 {
            self.buffer[a] = self.memory[memory_address];
            self.program_position = self.program_position.wrapping_add(1);
        } else if instruction == 0x5 {
            let source: usize = self.buffer[a] & 0x01ff_ffff;
            let x: usize = self.buffer[a];
            assert(x & 0x01ff_ffff == x % 0x200_0000) by (bit_vector);
            self.memory[memory_address] = self.memory[source];
            self.program_position = self.program_position.wrapping_add(1);
        } else if instruction >= 0x6 {
            let value = compute_word(instruction, self.buffer[a], self.buffer[b]);
            self.buffer[c] = value;
            self.program_position = self.program_position.wrapping_add(1);
        } else {
            self.program_position = self.program_position.wrapping_add(1);
        }
    }
}

/// The value that compute opcode `op` (6 to 15) produces from buffers `x` and `y`.
fn compute_word(op: u8, x: usize, y: usize) -> (r: usize)
    requires
        6 <= op < 16,
    ensures
        r == compute(op as int, x, y),
{
    if op == 0x6 {
        if x > y {
            0xffff_ffff
        } else {
            0
        }
    } else if op == 0x7 {
        if x < y {
            0xffff_ffff
        } else {
            0
        }
    } else if op == 0x8 {
        x & y
    } else if op == 0x9 {
        x | y
    } else if op == 0xa {
        x ^ y
    } else if op == 0xb {
        !(x | y)
    } else if op == 0xc {
        x.wrapping_add(y)
    } else if op == 0xd {
        x.wrapping_sub(y)
    } else {
        let amount: u32 = <u32 as FromUsize>::from_usize(y)[0];
        if amount < usize::BITS {
            if op == 0xe {
                x << amount
            } else {
                x >> amount
            }
        } else {
            0
        }
    }
}

} // verus!
