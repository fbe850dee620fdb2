# x4c

A verified model of the X4C fantasy computer: 4-bit opcodes, four compute buffers
addressed by 2-bit fields, 26-bit main-memory addresses and a 128 by 128 display
whose words go through a 24-bit colour table built from a 32-colour palette.

    bits 28..31  opcode
    bits 26..27  buffer a
    bits 24..25  buffer b
    bits 22..23  buffer c
    bits  0..25  memory address

    0 noop   1 jump   2 jump if a is true   3 jump to a   4 take   5 place
    6 a > b  7 a < b  8 and  9 or  a xor  b nor  c add  d sub  e shl  f shr

`src/` is the library, verified with Verus; `app/` opens the SDL window, reads
`boot.bmp`, runs the machine and writes memory dumps.
