//! Uniform sampling: the unbiased bounded-integer sampler and the canonical
//! unit-interval samplers in their three endpoint variants.
//!
//! The unit-interval samplers work in exact fixed point: a sample is the
//! numerator of a dyadic rational with denominator `2^53` (the precision of
//! an IEEE double's mantissa), taken from the top 53 bits of one raw word.
//! Scaling the numerator by `2^-53` is exact, so every endpoint property is
//! already decided at the word level, where it is proved here.
use vstd::prelude::*;

use vstd::arithmetic::div_mod::{lemma_mod_bound, lemma_multiply_divide_lt};
use vstd::arithmetic::mul::lemma_mul_upper_bound;

use crate::distributions::Distribution;
use crate::rngs::{state_after, word_at, Rng};

verus! {

/// The denominator of the fixed-point unit-interval samples: `2^53`.
pub const UNIT_DENOMINATOR: u64 = 0x20_0000_0000_0000;

/// The low 64 bits of the double-width product `x * range`.
pub open spec fn lemire_low(x: u64, range: u64) -> u64 {
    ((x * range) % 0x1_0000_0000_0000_0000) as u64
}

/// The high 64 bits of the double-width product `x * range`.
pub open spec fn lemire_high(x: u64, range: u64) -> u64 {
    ((x * range) / 0x1_0000_0000_0000_0000) as u64
}

/// The rejection threshold `(2^64 - range) mod range`: low product words
/// below it would make some results one draw more likely than others, so
/// such draws are rejected and taken again.
pub open spec fn lemire_threshold(range: u64) -> u64
    recommends
        range > 0,
{
    ((0x1_0000_0000_0000_0000 - range) % (range as int)) as u64
}

/// Whether the raw word `x` is kept (not rejected) when reducing to `range`.
pub open spec fn lemire_accepts(x: u64, range: u64) -> bool {
    lemire_low(x, range) >= lemire_threshold(range)
}

/// Some word of the stream out of `rng` is accepted for `range`: the
/// hypothesis under which the rejection loop terminates.
pub open spec fn eventually_accepts<R: Rng>(rng: R, range: u64) -> bool {
    exists|k: nat| lemire_accepts(#[trigger] word_at(rng, k), range)
}

/// One complete run of the bounded-integer sampler, drawing exactly `n`
/// words from initial generator state `rng0`: every word before the last is
/// rejected, the last is accepted, the value is `start` plus the high
/// product word of the accepted draw, and `rng1` is the generator state
/// left behind. For fixed `rng0`, `start` and `range` there is at most one
/// such run (`lemma_lemire_run_unique`).
pub open spec fn lemire_run<R: Rng>(
    rng0: R,
    start: u64,
    range: u64,
    rng1: R,
    value: u64,
    n: nat,
) -> bool {
    &&& n >= 1
    &&& forall|i: nat| i < n - 1 ==> !lemire_accepts(#[trigger] word_at(rng0, i), range)
    &&& lemire_accepts(word_at(rng0, (n - 1) as nat), range)
    &&& value == start + lemire_high(word_at(rng0, (n - 1) as nat), range)
    &&& rng1 == state_after(rng0, n)
}

/// The threshold is a remainder of a division by `range`, so it is below
/// `range`; in particular a draw whose low product word reaches `range` is
/// always accepted.
pub proof fn lemma_threshold_lt_range(range: u64)
    requires
        range > 0,
    ensures
        lemire_threshold(range) < range,
{
    lemma_mod_bound(0x1_0000_0000_0000_0000 - range, range as int);
}

/// The high word of `x * range` is below `range`, for any raw word `x`.
pub proof fn lemma_high_lt_range(x: u64, range: u64)
    requires
        range > 0,
    ensures
        lemire_high(x, range) < range,
{
    assert(x * range < 0x1_0000_0000_0000_0000 * range) by (nonlinear_arith)
        requires
            x < 0x1_0000_0000_0000_0000,
            range > 0,
    ;
    lemma_multiply_divide_lt(x * range, 0x1_0000_0000_0000_0000, range as int);
}

/// Determinism of the bounded-integer sampler: from one generator state and
/// one distribution there is only one run — the draw count, the value and
/// the final generator state are all pinned.
pub proof fn lemma_lemire_run_unique<R: Rng>(
    rng0: R,
    start: u64,
    range: u64,
    rng1: R,
    rng2: R,
    v1: u64,
    v2: u64,
    n1: nat,
    n2: nat,
)
    requires
        lemire_run(rng0, start, range, rng1, v1, n1),
        lemire_run(rng0, start, range, rng2, v2, n2),
    ensures
        n1 == n2,
        v1 == v2,
        rng1 == rng2,
{
    if n1 < n2 {
        assert(!lemire_accepts(word_at(rng0, (n1 - 1) as nat), range));
    }
    if n2 < n1 {
        assert(!lemire_accepts(word_at(rng0, (n2 - 1) as nat), range));
    }
}

/// Determinism of bounded-integer sampling: from one generator state and
/// one distribution, the sampler's contract admits exactly one value and
/// one final generator state, so a fixed seed and a fixed call sequence
/// reproduce the same outputs bit for bit.
pub proof fn lemma_uniform_sample_deterministic<R: Rng>(
    u: Uniform,
    rng0: R,
    rng1: R,
    rng2: R,
    v1: u64,
    v2: u64,
)
    requires
        u.sample_ens(rng0, rng1, v1),
        u.sample_ens(rng0, rng2, v2),
    ensures
        v1 == v2,
        rng1 == rng2,
{
    let n1 = choose|n: nat| lemire_run(rng0, u.spec_start(), u.spec_range(), rng1, v1, n);
    let n2 = choose|n: nat| lemire_run(rng0, u.spec_start(), u.spec_range(), rng2, v2, n);
    lemma_lemire_run_unique(rng0, u.spec_start(), u.spec_range(), rng1, rng2, v1, v2, n1, n2);
}

/// Uniform distribution over the integers in `[start, start + range)`,
/// `range > 0`, reduced from raw words by widening multiplication with a
/// bounded rejection step, so that each of the `range` results is exactly
/// as likely as every other.
pub struct Uniform {
    start: u64,
    range: u64,
}

impl Uniform {
    /// The lower (included) endpoint.
    pub closed spec fn spec_start(&self) -> u64 {
        self.start
    }

    /// The width `end - start` of the sampled interval.
    pub closed spec fn spec_range(&self) -> u64 {
        self.range
    }

    /// A well-formed distribution: a non-empty interval whose upper
    /// endpoint fits in a word.
    pub open spec fn wf(&self) -> bool {
        &&& self.spec_range() > 0
        &&& self.spec_start() + self.spec_range() <= u64::MAX
    }

    /// Build the uniform distribution over `[start, end)`.
    ///
    /// The interval must be non-empty: the sampler has no meaning for an
    /// empty one, so `start < end` is required rather than checked.
    pub fn new(start: u64, end: u64) -> (r: Self)
        requires
            start < end,
        ensures
            r.spec_start() == start,
            r.spec_range() == end - start,
            r.wf(),
    {
        Uniform { start, range: end - start }
    }
}

impl<R: Rng> Distribution<R, u64> for Uniform {
    /// The distribution must be well formed, and the word stream must
    /// eventually contain an accepted draw — true of all but a vanishing
    /// fraction of states of any sound generator, but not of every `Rng`
    /// (a generator stuck on one rejected word would never finish).
    open spec fn sample_req(&self, rng: R) -> bool {
        &&& self.wf()
        &&& eventually_accepts(rng, self.spec_range())
    }

    /// Exactly one run of the sampler happened: the first accepted word of
    /// the stream decides the value, and the generator has advanced past
    /// precisely the words the run consumed. The value lies in
    /// `[start, start + range)`.
    open spec fn sample_ens(&self, rng0: R, rng1: R, value: u64) -> bool {
        &&& exists|n: nat|
            lemire_run(rng0, self.spec_start(), self.spec_range(), rng1, value, n)
        &&& self.spec_start() <= value < self.spec_start() + self.spec_range()
    }

    fn sample(&self, rng: &mut R) -> (value: u64) {
        let ghost rng0 = *rng;
        proof {
            assert(eventually_accepts(rng0, self.spec_range()));
        }
        let ghost nacc = choose|k: nat|
            lemire_accepts(#[trigger] word_at(rng0, k), self.spec_range());

        let x = rng.gen();
        proof {
            lemma_mul_upper_bound(x as int, u64::MAX as int, self.range as int, u64::MAX as int);
        }
        let mut m: u128 = (x as u128) * (self.range as u128);
        let mut l: u64 = #[verifier::truncate] (m as u64);
        let ghost mut n: nat = 1;

        proof {
            assert(m as u64 == m % 0x1_0000_0000_0000_0000) by (bit_vector);
            assert(m == word_at(rng0, (n - 1) as nat) * self.spec_range());
            assert(l == lemire_low(word_at(rng0, (n - 1) as nat), self.spec_range()));
            assert(*rng == state_after(rng0, n));
        }

        if l < self.range {
            let t = (u64::MAX - self.range + 1) % self.range;

            while l < t
                invariant
                    self.wf(),
                    n >= 1,
                    t == lemire_threshold(self.spec_range()),
                    lemire_accepts(word_at(rng0, nacc), self.spec_range()),
                    m == word_at(rng0, (n - 1) as nat) * self.spec_range(),
                    l == lemire_low(word_at(rng0, (n - 1) as nat), self.spec_range()),
                    forall|i: nat|
                        i < n - 1 ==> !lemire_accepts(
                            #[trigger] word_at(rng0, i),
                            self.spec_range(),
                        ),
                    *rng == state_after(rng0, n),
                decreases nacc + 1 - n,
            {
                proof {
                    lemma_threshold_lt_range(self.spec_range());
                    assert(!lemire_accepts(word_at(rng0, (n - 1) as nat), self.spec_range()));
                    assert(nacc >= n);
                    crate::rngs::lemma_state_after_succ(rng0, n);
                }
                let x = rng.gen();
                proof {
                    lemma_mul_upper_bound(
                        x as int,
                        u64::MAX as int,
                        self.range as int,
                        u64::MAX as int,
                    );
                }
                m = (x as u128) * (self.range as u128);
                l = #[verifier::truncate] (m as u64);
                proof {
                    assert(m as u64 == m % 0x1_0000_0000_0000_0000) by (bit_vector);
                    n = n + 1;
                }
            }
        } else {
            proof {
                lemma_threshold_lt_range(self.spec_range());
            }
        }

        let h = #[verifier::truncate] ((m >> 64) as u64);

        proof {
            assert((m >> 64) as u64 == m / 0x1_0000_0000_0000_0000) by (bit_vector);
            lemma_threshold_lt_range(self.spec_range());
            lemma_high_lt_range(word_at(rng0, (n - 1) as nat), self.spec_range());
        }

        let value = self.start + h;

        proof {
            assert(lemire_run(rng0, self.spec_start(), self.spec_range(), *rng, value, n));
        }

        value
    }
}

/// The canonical closed-open unit sampler: values `v / 2^53` with
/// `0 <= v < 2^53`, each equally likely.
pub struct StandardUniformClosedOpen {}

impl<R: Rng> Distribution<R, u64> for StandardUniformClosedOpen {
    open spec fn sample_req(&self, rng: R) -> bool {
        true
    }

    /// The sample is the top 53 bits of one raw word: it can be `0`, and it
    /// stays strictly below `2^53`, so the scaled value can be `0.0` and is
    /// never `1.0`.
    open spec fn sample_ens(&self, rng0: R, rng1: R, value: u64) -> bool {
        &&& value == rng0.spec_output() >> 11u64
        &&& value < UNIT_DENOMINATOR
        &&& rng1 == rng0.spec_step()
    }

    fn sample(&self, rng: &mut R) -> (value: u64) {
        let x = rng.gen();
        proof {
            assert(x >> 11u64 < 0x20_0000_0000_0000u64) by (bit_vector);
        }
        x >> 11
    }
}

/// The canonical open-closed unit sampler: values `v / 2^53` with
/// `1 <= v <= 2^53`, each equally likely.
pub struct StandardUniformOpenClosed {}

impl<R: Rng> Distribution<R, u64> for StandardUniformOpenClosed {
    open spec fn sample_req(&self, rng: R) -> bool {
        true
    }

    /// The sample is the top 53 bits of one raw word plus one: it is never
    /// `0` and never exceeds `2^53`, so the scaled value is never `0.0` and
    /// can be `1.0`.
    open spec fn sample_ens(&self, rng0: R, rng1: R, value: u64) -> bool {
        &&& value == (rng0.spec_output() >> 11u64) + 1
        &&& 1 <= value <= UNIT_DENOMINATOR
        &&& rng1 == rng0.spec_step()
    }

    fn sample(&self, rng: &mut R) -> (value: u64) {
        let x = rng.gen();
        proof {
            assert(x >> 11u64 < 0x20_0000_0000_0000u64) by (bit_vector);
        }
        (x >> 11) + 1
    }
}

/// The canonical open-open unit sampler: odd values `v / 2^53` with
/// `0 < v < 2^53`, each equally likely.
pub struct StandardUniformOpenOpen {}

impl<R: Rng> Distribution<R, u64> for StandardUniformOpenOpen {
    open spec fn sample_req(&self, rng: R) -> bool {
        true
    }

    /// The sample is the top 53 bits of one raw word with the lowest bit
    /// forced on: an odd numerator is never `0`, and it stays strictly
    /// below `2^53`, so the scaled value avoids both `0.0` and `1.0`.
    open spec fn sample_ens(&self, rng0: R, rng1: R, value: u64) -> bool {
        &&& value == (rng0.spec_output() >> 11u64) | 1u64
        &&& value % 2 == 1
        &&& 0 < value < UNIT_DENOMINATOR
        &&& rng1 == rng0.spec_step()
    }

    fn sample(&self, rng: &mut R) -> (value: u64) {
        let x = rng.gen();
        proof {
            assert(((x >> 11u64) | 1u64) % 2u64 == 1u64 && 0u64 < ((x >> 11u64) | 1u64)
                < 0x20_0000_0000_0000u64) by (bit_vector);
        }
        (x >> 11) | 1
    }
}

} // verus!
