use vstd::prelude::*;

verus! {

/// Splits a machine word into 32-bit halves.
pub trait FromUsize {
    /// Returns `[low, high]`: the low 32 bits of `number` and the 32 bits above them
    /// (zero where `usize` has only 32 bits).
    fn from_usize(number: usize) -> (halves: [u32; 2])
        ensures
            halves[0] == number as int % 0x1_0000_0000,
            halves[1] == number as int / 0x1_0000_0000,
    ;
}

impl FromUsize for u32 {
    fn from_usize(number: usize) -> (halves: [u32; 2]) {
        let wide: u64 = number as u64;
        let low: u32 = (wide & 0xffff_ffff) as u32;
        let high: u32 = (wide >> 32u64) as u32;
        assert(wide & 0xffff_ffff == wide % 0x1_0000_0000) by (bit_vector);
        assert(wide >> 32u64 == wide / 0x1_0000_0000) by (bit_vector);
        [low, high]
    }
}

} // verus!
