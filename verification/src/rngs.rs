//! The bit generators: the `Rng` capability and the xoshiro family.
use vstd::prelude::*;

use crate::distributions::Distribution;

pub mod xoshiro128plus;
pub mod xoshiro128plusplus;
pub mod xoshiro256plus;
pub mod xoshiro256plusplus;

pub use xoshiro128plus::Xoshiro128Plus;
pub use xoshiro128plusplus::Xoshiro128PlusPlus;
pub use xoshiro256plus::Xoshiro256Plus;
pub use xoshiro256plusplus::Xoshiro256PlusPlus;

verus! {

/// Word addition modulo `2^64`, the wrap-around addition the scramblers use.
pub open spec fn wadd64(a: u64, b: u64) -> u64 {
    if a + b > u64::MAX {
        (a + b - 0x1_0000_0000_0000_0000) as u64
    } else {
        (a + b) as u64
    }
}

/// Left rotation of a 64-bit word by `k` places, `0 < k < 64`.
pub open spec fn rotl64(x: u64, k: u64) -> u64
    recommends
        0 < k < 64,
{
    (x << k) | (x >> (64 - k) as u64)
}

/// Word addition modulo `2^32`, for the 32-bit variants.
pub open spec fn wadd32(a: u32, b: u32) -> u32 {
    if a + b > u32::MAX {
        (a + b - 0x1_0000_0000) as u32
    } else {
        (a + b) as u32
    }
}

/// Left rotation of a 32-bit word by `k` places, `0 < k < 32`.
pub open spec fn rotl32(x: u32, k: u32) -> u32
    recommends
        0 < k < 32,
{
    (x << k) | (x >> (32 - k) as u32)
}

/// Left rotation of a 64-bit word, matching `rotl64`.
pub(crate) fn rotl64_exec(x: u64, k: u64) -> (r: u64)
    requires
        0 < k < 64,
    ensures
        r == rotl64(x, k),
{
    (x << k) | (x >> (64 - k))
}

/// Left rotation of a 32-bit word, matching `rotl32`.
pub(crate) fn rotl32_exec(x: u32, k: u32) -> (r: u32)
    requires
        0 < k < 32,
    ensures
        r == rotl32(x, k),
{
    (x << k) | (x >> (32 - k))
}

/// A deterministic bit generator: one raw 64-bit word per step.
///
/// The two spec functions are the generator's mathematical model: the word
/// the next step emits and the state it leaves behind, both functions of the
/// current state alone. `gen` is pinned to them exactly, which is the
/// determinism guarantee: equal states produce equal words and equal
/// successor states, so a fixed seed fixes the whole output sequence.
pub trait Rng: Sized {
    /// The raw word the next `gen` call returns.
    spec fn spec_output(&self) -> u64;

    /// The state the next `gen` call leaves behind.
    spec fn spec_step(&self) -> Self;

    /// Produce one raw word and advance the state.
    fn gen(&mut self) -> (r: u64)
        ensures
            r == old(self).spec_output(),
            *final(self) == old(self).spec_step(),
    ;

    /// Draw one value of the given distribution, advancing this generator.
    fn sample<D, T>(&mut self, distribution: &D) -> (value: T) where D: Distribution<Self, T>
        requires
            distribution.sample_req(*old(self)),
        ensures
            distribution.sample_ens(*old(self), *final(self), value),
    {
        distribution.sample(self)
    }
}

/// A deterministic bit generator of 32-bit words, the narrow backend of the
/// family. The distributions of this crate consume 64-bit words, so a
/// generator that only implements this capability cannot feed them: the
/// word width a sampler needs is part of its bound.
pub trait Rng32: Sized {
    /// The raw word the next `gen` call returns.
    spec fn spec_output(&self) -> u32;

    /// The state the next `gen` call leaves behind.
    spec fn spec_step(&self) -> Self;

    /// Produce one raw word and advance the state.
    fn gen(&mut self) -> (r: u32)
        ensures
            r == old(self).spec_output(),
            *final(self) == old(self).spec_step(),
    ;

    /// Draw one value of the given distribution, advancing this generator.
    fn sample<D, T>(&mut self, distribution: &D) -> (value: T) where D: Distribution<Self, T>
        requires
            distribution.sample_req(*old(self)),
        ensures
            distribution.sample_ens(*old(self), *final(self), value),
    {
        distribution.sample(self)
    }
}

/// A degenerate generator that emits the same word forever.
///
/// It is a stub, not a pseudorandom source: it drives a sampler with one
/// known raw word, which is how a sampler's word-to-value reduction is
/// pinned down in a test.
pub struct ConstRng {
    pub word: u64,
}

impl Rng for ConstRng {
    open spec fn spec_output(&self) -> u64 {
        self.word
    }

    open spec fn spec_step(&self) -> Self {
        ConstRng { word: self.word }
    }

    fn gen(&mut self) -> (r: u64) {
        self.word
    }
}

/// The 32-bit counterpart of `ConstRng`: the same word forever.
pub struct ConstRng32 {
    pub word: u32,
}

impl Rng32 for ConstRng32 {
    open spec fn spec_output(&self) -> u32 {
        self.word
    }

    open spec fn spec_step(&self) -> Self {
        ConstRng32 { word: self.word }
    }

    fn gen(&mut self) -> (r: u32) {
        self.word
    }
}

/// The generator state after `n` steps from `r`.
pub open spec fn state_after<R: Rng>(r: R, n: nat) -> R
    decreases n,
{
    if n == 0 {
        r
    } else {
        state_after(r, (n - 1) as nat).spec_step()
    }
}

/// The `i`-th raw word (counting from 0) of the sequence the generator
/// emits from state `r`.
pub open spec fn word_at<R: Rng>(r: R, i: nat) -> u64 {
    state_after(r, i).spec_output()
}

/// Stepping `n + 1` times is stepping `n` times, then once more.
pub proof fn lemma_state_after_succ<R: Rng>(r: R, n: nat)
    ensures
        state_after(r, n + 1) == state_after(r, n).spec_step(),
{
}

/// The generator state after `n` steps from `r`, for 32-bit generators.
pub open spec fn state_after32<R: Rng32>(r: R, n: nat) -> R
    decreases n,
{
    if n == 0 {
        r
    } else {
        state_after32(r, (n - 1) as nat).spec_step()
    }
}

/// The `i`-th raw word (counting from 0) of the sequence a 32-bit
/// generator emits from state `r`.
pub open spec fn word_at32<R: Rng32>(r: R, i: nat) -> u32 {
    state_after32(r, i).spec_output()
}

/// Stepping `n + 1` times is stepping `n` times, then once more.
pub proof fn lemma_state_after32_succ<R: Rng32>(r: R, n: nat)
    ensures
        state_after32(r, n + 1) == state_after32(r, n).spec_step(),
{
}

} // verus!
