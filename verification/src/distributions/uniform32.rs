//! The 32-bit instantiation of the uniform engine: the same unbiased
//! bounded-integer reduction and the same three endpoint variants, over
//! 32-bit raw words.
//!
//! Here the unit-interval samples are numerators over `2^24` (the precision
//! of an IEEE single's mantissa), taken from the top 24 bits of one raw
//! word, and the widening product of the bounded-integer sampler is 64 bits
//! wide.
use vstd::prelude::*;

use vstd::arithmetic::div_mod::{lemma_mod_bound, lemma_multiply_divide_lt};
use vstd::arithmetic::mul::lemma_mul_upper_bound;

use crate::distributions::Distribution;
use crate::rngs::{state_after32, word_at32, Rng32};

verus! {

/// The denominator of the 32-bit fixed-point unit samples: `2^24`.
pub const UNIT_DENOMINATOR_32: u32 = 0x100_0000;

/// The low 32 bits of the double-width product `x * range`.
pub open spec fn lemire32_low(x: u32, range: u32) -> u32 {
    ((x * range) % 0x1_0000_0000) as u32
}

/// The high 32 bits of the double-width product `x * range`.
pub open spec fn lemire32_high(x: u32, range: u32) -> u32 {
    ((x * range) / 0x1_0000_0000) as u32
}

/// The rejection threshold `(2^32 - range) mod range`: low product words
/// below it would make some results one draw more likely than others, so
/// such draws are rejected and taken again.
pub open spec fn lemire32_threshold(range: u32) -> u32
    recommends
        range > 0,
{
    ((0x1_0000_0000 - range) % (range as int)) as u32
}

/// Whether the raw word `x` is kept (not rejected) when reducing to `range`.
pub open spec fn lemire32_accepts(x: u32, range: u32) -> bool {
    lemire32_low(x, range) >= lemire32_threshold(range)
}

/// Some word of the stream out of `rng` is accepted for `range`: the
/// hypothesis under which the rejection loop terminates.
pub open spec fn eventually_accepts32<R: Rng32>(rng: R, range: u32) -> bool {
    exists|k: nat| lemire32_accepts(#[trigger] word_at32(rng, k), range)
}

/// One complete run of the 32-bit bounded-integer sampler, drawing exactly
/// `n` words from initial generator state `rng0`: every word before the
/// last is rejected, the last is accepted, the value is `start` plus the
/// high product word of the accepted draw, and `rng1` is the generator
/// state left behind.
pub open spec fn lemire32_run<R: Rng32>(
    rng0: R,
    start: u32,
    range: u32,
    rng1: R,
    value: u32,
    n: nat,
) -> bool {
    &&& n >= 1
    &&& forall|i: nat| i < n - 1 ==> !lemire32_accepts(#[trigger] word_at32(rng0, i), range)
    &&& lemire32_accepts(word_at32(rng0, (n - 1) as nat), range)
    &&& value == start + lemire32_high(word_at32(rng0, (n - 1) as nat), range)
    &&& rng1 == state_after32(rng0, n)
}

/// The threshold is a remainder of a division by `range`, so it is below
/// `range`; in particular a draw whose low product word reaches `range` is
/// always accepted.
pub proof fn lemma_threshold32_lt_range(range: u32)
    requires
        range > 0,
    ensures
        lemire32_threshold(range) < range,
{
    lemma_mod_bound(0x1_0000_0000 - range, range as int);
}

/// The high word of `x * range` is below `range`, for any raw word `x`.
pub proof fn lemma_high32_lt_range(x: u32, range: u32)
    requires
        range > 0,
    ensures
        lemire32_high(x, range) < range,
{
    assert(x * range < 0x1_0000_0000 * range) by (nonlinear_arith)
        requires
            x < 0x1_0000_0000,
            range > 0,
    ;
    lemma_multiply_divide_lt(x * range, 0x1_0000_0000, range as int);
}

/// Determinism of the 32-bit bounded-integer sampler: from one generator
/// state and one distribution there is only one run.
pub proof fn lemma_lemire32_run_unique<R: Rng32>(
    rng0: R,
    start: u32,
    range: u32,
    rng1: R,
    rng2: R,
    v1: u32,
    v2: u32,
    n1: nat,
    n2: nat,
)
    requires
        lemire32_run(rng0, start, range, rng1, v1, n1),
        lemire32_run(rng0, start, range, rng2, v2, n2),
    ensures
        n1 == n2,
        v1 == v2,
        rng1 == rng2,
{
    if n1 < n2 {
        assert(!lemire32_accepts(word_at32(rng0, (n1 - 1) as nat), range));
    }
    if n2 < n1 {
        assert(!lemire32_accepts(word_at32(rng0, (n2 - 1) as nat), range));
    }
}

/// Determinism of 32-bit bounded-integer sampling at the contract level:
/// one generator state admits exactly one value and one final state.
pub proof fn lemma_uniform32_sample_deterministic<R: Rng32>(
    u: Uniform32,
    rng0: R,
    rng1: R,
    rng2: R,
    v1: u32,
    v2: u32,
)
    requires
        u.sample_ens(rng0, rng1, v1),
        u.sample_ens(rng0, rng2, v2),
    ensures
        v1 == v2,
        rng1 == rng2,
{
    let n1 = choose|n: nat| lemire32_run(rng0, u.spec_start(), u.spec_range(), rng1, v1, n);
    let n2 = choose|n: nat| lemire32_run(rng0, u.spec_start(), u.spec_range(), rng2, v2, n);
    lemma_lemire32_run_unique(rng0, u.spec_start(), u.spec_range(), rng1, rng2, v1, v2, n1, n2);
}

/// Uniform distribution over the integers in `[start, start + range)`,
/// `range > 0`, fed by 32-bit raw words.
pub struct Uniform32 {
    start: u32,
    range: u32,
}

impl Uniform32 {
    /// The lower (included) endpoint.
    pub closed spec fn spec_start(&self) -> u32 {
        self.start
    }

    /// The width `end - start` of the sampled interval.
    pub closed spec fn spec_range(&self) -> u32 {
        self.range
    }

    /// A well-formed distribution: a non-empty interval whose upper
    /// endpoint fits in a word.
    pub open spec fn wf(&self) -> bool {
        &&& self.spec_range() > 0
        &&& self.spec_start() + self.spec_range() <= u32::MAX
    }

    /// Build the uniform distribution over `[start, end)`.
    ///
    /// The interval must be non-empty: the sampler has no meaning for an
    /// empty one, so `start < end` is required rather than checked.
    pub fn new(start: u32, end: u32) -> (r: Self)
        requires
            start < end,
        ensures
            r.spec_start() == start,
            r.spec_range() == end - start,
            r.wf(),
    {
        Uniform32 { start, range: end - start }
    }
}

impl<R: Rng32> Distribution<R, u32> for Uniform32 {
    /// The distribution must be well formed, and the word stream must
    /// eventually contain an accepted draw.
    open spec fn sample_req(&self, rng: R) -> bool {
        &&& self.wf()
        &&& eventually_accepts32(rng, self.spec_range())
    }

    /// Exactly one run of the sampler happened: the first accepted word of
    /// the stream decides the value, and the generator has advanced past
    /// precisely the words the run consumed. The value lies in
    /// `[start, start + range)`.
    open spec fn sample_ens(&self, rng0: R, rng1: R, value: u32) -> bool {
        &&& exists|n: nat|
            lemire32_run(rng0, self.spec_start(), self.spec_range(), rng1, value, n)
        &&& self.spec_start() <= value < self.spec_start() + self.spec_range()
    }

    fn sample(&self, rng: &mut R) -> (value: u32) {
        let ghost rng0 = *rng;
        proof {
            assert(eventually_accepts32(rng0, self.spec_range()));
        }
        let ghost nacc = choose|k: nat|
            lemire32_accepts(#[trigger] word_at32(rng0, k), self.spec_range());

        let x = rng.gen();
        proof {
            lemma_mul_upper_bound(x as int, u32::MAX as int, self.range as int, u32::MAX as int);
        }
        let mut m: u64 = (x as u64) * (self.range as u64);
        let mut l: u32 = #[verifier::truncate] (m as u32);
        let ghost mut n: nat = 1;

        proof {
            assert(m as u32 == m % 0x1_0000_0000) by (bit_vector);
            assert(m == word_at32(rng0, (n - 1) as nat) * self.spec_range());
            assert(l == lemire32_low(word_at32(rng0, (n - 1) as nat), self.spec_range()));
            assert(*rng == state_after32(rng0, n));
        }

        if l < self.range {
            let t = (u32::MAX - self.range + 1) % self.range;

            while l < t
                invariant
                    self.wf(),
                    n >= 1,
                    t == lemire32_threshold(self.spec_range()),
                    lemire32_accepts(word_at32(rng0, nacc), self.spec_range()),
                    m == word_at32(rng0, (n - 1) as nat) * self.spec_range(),
                    l == lemire32_low(word_at32(rng0, (n - 1) as nat), self.spec_range()),
                    forall|i: nat|
                        i < n - 1 ==> !lemire32_accepts(
                            #[trigger] word_at32(rng0, i),
                            self.spec_range(),
                        ),
                    *rng == state_after32(rng0, n),
                decreases nacc + 1 - n,
            {
                proof {
                    lemma_threshold32_lt_range(self.spec_range());
                    assert(!lemire32_accepts(word_at32(rng0, (n - 1) as nat), self.spec_range()));
                    assert(nacc >= n);
                    crate::rngs::lemma_state_after32_succ(rng0, n);
                }
                let x = rng.gen();
                proof {
                    lemma_mul_upper_bound(
                        x as int,
                        u32::MAX as int,
                        self.range as int,
                        u32::MAX as int,
                    );
                }
                m = (x as u64) * (self.range as u64);
                l = #[verifier::truncate] (m as u32);
                proof {
                    assert(m as u32 == m % 0x1_0000_0000) by (bit_vector);
                    n = n + 1;
                }
            }
        } else {
            proof {
                lemma_threshold32_lt_range(self.spec_range());
            }
        }

        let h = #[verifier::truncate] ((m >> 32) as u32);

        proof {
            assert((m >> 32) as u32 == m / 0x1_0000_0000) by (bit_vector);
            lemma_threshold32_lt_range(self.spec_range());
            lemma_high32_lt_range(word_at32(rng0, (n - 1) as nat), self.spec_range());
        }

        let value = self.start + h;

        proof {
            assert(lemire32_run(rng0, self.spec_start(), self.spec_range(), *rng, value, n));
        }

        value
    }
}

/// The 32-bit canonical closed-open unit sampler: values `v / 2^24` with
/// `0 <= v < 2^24`, each equally likely.
pub struct StandardUniformClosedOpen32 {}

impl<R: Rng32> Distribution<R, u32> for StandardUniformClosedOpen32 {
    open spec fn sample_req(&self, rng: R) -> bool {
        true
    }

    /// The sample is the top 24 bits of one raw word: it can be `0`, and it
    /// stays strictly below `2^24`, so the scaled value can be `0.0` and is
    /// never `1.0`.
    open spec fn sample_ens(&self, rng0: R, rng1: R, value: u32) -> bool {
        &&& value == rng0.spec_output() >> 8u32
        &&& value < UNIT_DENOMINATOR_32
        &&& rng1 == rng0.spec_step()
    }

    fn sample(&self, rng: &mut R) -> (value: u32) {
        let x = rng.gen();
        proof {
            assert(x >> 8u32 < 0x100_0000u32) by (bit_vector);
        }
        x >> 8
    }
}

/// The 32-bit canonical open-closed unit sampler: values `v / 2^24` with
/// `1 <= v <= 2^24`, each equally likely.
pub struct StandardUniformOpenClosed32 {}

impl<R: Rng32> Distribution<R, u32> for StandardUniformOpenClosed32 {
    open spec fn sample_req(&self, rng: R) -> bool {
        true
    }

    /// The sample is the top 24 bits of one raw word plus one: it is never
    /// `0` and never exceeds `2^24`, so the scaled value is never `0.0` and
    /// can be `1.0`.
    open spec fn sample_ens(&self, rng0: R, rng1: R, value: u32) -> bool {
        &&& value == (rng0.spec_output() >> 8u32) + 1
        &&& 1 <= value <= UNIT_DENOMINATOR_32
        &&& rng1 == rng0.spec_step()
    }

    fn sample(&self, rng: &mut R) -> (value: u32) {
        let x = rng.gen();
        proof {
            assert(x >> 8u32 < 0x100_0000u32) by (bit_vector);
        }
        (x >> 8) + 1
    }
}

/// The 32-bit canonical open-open unit sampler: odd values `v / 2^24` with
/// `0 < v < 2^24`, each equally likely.
pub struct StandardUniformOpenOpen32 {}

impl<R: Rng32> Distribution<R, u32> for StandardUniformOpenOpen32 {
    open spec fn sample_req(&self, rng: R) -> bool {
        true
    }

    /// The sample is the top 24 bits of one raw word with the lowest bit
    /// forced on: an odd numerator is never `0`, and it stays strictly
    /// below `2^24`, so the scaled value avoids both `0.0` and `1.0`.
    open spec fn sample_ens(&self, rng0: R, rng1: R, value: u32) -> bool {
        &&& value == (rng0.spec_output() >> 8u32) | 1u32
        &&& value % 2 == 1
        &&& 0 < value < UNIT_DENOMINATOR_32
        &&& rng1 == rng0.spec_step()
    }

    fn sample(&self, rng: &mut R) -> (value: u32) {
        let x = rng.gen();
        proof {
            assert(((x >> 8u32) | 1u32) % 2u32 == 1u32 && 0u32 < ((x >> 8u32) | 1u32)
                < 0x100_0000u32) by (bit_vector);
        }
        (x >> 8) | 1
    }
}

} // verus!
