//! The xoshiro256+ generator: 256 bits of state, 64-bit words, the `+`
//! scrambler.
use vstd::prelude::*;

use crate::rngs::{rotl64, rotl64_exec, wadd64, Rng};

verus! {

/// xoshiro256+: four 64-bit state words; each step emits `s0 + s3`
/// (wrapping) and applies the xorshift update with intermediate shift 17
/// and final rotation 45.
///
/// The state words are public: the state array is the whole identity of a
/// generator, supplied by the seeder and advanced in place by `gen`.
pub struct Xoshiro256Plus {
    pub s0: u64,
    pub s1: u64,
    pub s2: u64,
    pub s3: u64,
}

impl Xoshiro256Plus {
    /// Seed from an ordered 4-word state array.
    ///
    /// The all-zero array is a fixed point of the recurrence and is refused:
    /// supplying a non-zero seed is the seeder's contract.
    pub fn new(state: [u64; 4]) -> (r: Self)
        requires
            !(state[0] == 0 && state[1] == 0 && state[2] == 0 && state[3] == 0),
        ensures
            r.s0 == state[0],
            r.s1 == state[1],
            r.s2 == state[2],
            r.s3 == state[3],
    {
        Xoshiro256Plus { s0: state[0], s1: state[1], s2: state[2], s3: state[3] }
    }
}

/// The all-zero state is a fixed point of the recurrence: a generator
/// seeded with it would emit `0` forever, which is why `new` refuses it.
pub proof fn lemma_zero_state_fixed_256p() {
    let z = Xoshiro256Plus { s0: 0, s1: 0, s2: 0, s3: 0 };
    assert(0u64 << 17u64 == 0u64 && 0u64 ^ 0u64 == 0u64 && (0u64 << 45u64) | (0u64 >> 19u64)
        == 0u64) by (bit_vector);
    assert(z.spec_step() == z);
    assert(z.spec_output() == 0);
}

impl Rng for Xoshiro256Plus {
    open spec fn spec_output(&self) -> u64 {
        wadd64(self.s0, self.s3)
    }

    open spec fn spec_step(&self) -> Self {
        let t = self.s1 << 17u64;
        let s2 = self.s2 ^ self.s0;
        let s3 = self.s3 ^ self.s1;
        let s1 = self.s1 ^ s2;
        let s0 = self.s0 ^ s3;
        Xoshiro256Plus { s0, s1, s2: s2 ^ t, s3: rotl64(s3, 45) }
    }

    fn gen(&mut self) -> (r: u64) {
        let result = self.s0.wrapping_add(self.s3);

        let t = self.s1 << 17u64;
        self.s2 = self.s2 ^ self.s0;
        self.s3 = self.s3 ^ self.s1;
        self.s1 = self.s1 ^ self.s2;
        self.s0 = self.s0 ^ self.s3;
        self.s2 = self.s2 ^ t;
        self.s3 = rotl64_exec(self.s3, 45);

        result
    }
}

} // verus!
