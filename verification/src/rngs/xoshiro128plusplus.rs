//! The xoshiro128++ generator: 128 bits of state, 32-bit words, the `++`
//! scrambler.
use vstd::prelude::*;

use crate::rngs::{rotl32, rotl32_exec, wadd32, Rng32};

verus! {

/// xoshiro128++: four 32-bit state words; each step emits
/// `rotl(s0 + s3, 7) + s0` (wrapping) and applies the xorshift update with
/// intermediate shift 9 and final rotation 11.
///
/// The state words are public: the state array is the whole identity of a
/// generator, supplied by the seeder and advanced in place by `gen`.
pub struct Xoshiro128PlusPlus {
    pub s0: u32,
    pub s1: u32,
    pub s2: u32,
    pub s3: u32,
}

impl Xoshiro128PlusPlus {
    /// Seed from an ordered 4-word state array.
    ///
    /// The all-zero array is a fixed point of the recurrence and is refused:
    /// supplying a non-zero seed is the seeder's contract.
    pub fn new(state: [u32; 4]) -> (r: Self)
        requires
            !(state[0] == 0 && state[1] == 0 && state[2] == 0 && state[3] == 0),
        ensures
            r.s0 == state[0],
            r.s1 == state[1],
            r.s2 == state[2],
            r.s3 == state[3],
    {
        Xoshiro128PlusPlus { s0: state[0], s1: state[1], s2: state[2], s3: state[3] }
    }
}

/// The all-zero state is a fixed point of the recurrence: a generator
/// seeded with it would emit `0` forever, which is why `new` refuses it.
pub proof fn lemma_zero_state_fixed_128pp() {
    let z = Xoshiro128PlusPlus { s0: 0, s1: 0, s2: 0, s3: 0 };
    assert(0u32 << 9u32 == 0u32 && 0u32 ^ 0u32 == 0u32 && (0u32 << 11u32) | (0u32 >> 21u32)
        == 0u32 && (0u32 << 7u32) | (0u32 >> 25u32) == 0u32) by (bit_vector);
    assert(z.spec_step() == z);
    assert(z.spec_output() == 0);
}

impl Rng32 for Xoshiro128PlusPlus {
    open spec fn spec_output(&self) -> u32 {
        wadd32(rotl32(wadd32(self.s0, self.s3), 7), self.s0)
    }

    open spec fn spec_step(&self) -> Self {
        let t = self.s1 << 9u32;
        let s2 = self.s2 ^ self.s0;
        let s3 = self.s3 ^ self.s1;
        let s1 = self.s1 ^ s2;
        let s0 = self.s0 ^ s3;
        Xoshiro128PlusPlus { s0, s1, s2: s2 ^ t, s3: rotl32(s3, 11) }
    }

    fn gen(&mut self) -> (r: u32) {
        let result = rotl32_exec(self.s0.wrapping_add(self.s3), 7).wrapping_add(self.s0);

        let t = self.s1 << 9u32;
        self.s2 = self.s2 ^ self.s0;
        self.s3 = self.s3 ^ self.s1;
        self.s1 = self.s1 ^ self.s2;
        self.s0 = self.s0 ^ self.s3;
        self.s2 = self.s2 ^ t;
        self.s3 = rotl32_exec(self.s3, 11);

        result
    }
}

} // verus!
