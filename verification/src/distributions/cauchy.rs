//! The Cauchy sampler's word-level half: the open-open unit-interval draw
//! that the tangent transform consumes.
use vstd::prelude::*;

use crate::distributions::uniform::{StandardUniformOpenOpen, UNIT_DENOMINATOR};
use crate::distributions::Distribution;
use crate::rngs::Rng;

verus! {

/// One tangent-transform input in exact fixed point: the numerator `v` of
/// the open-open unit draw `p = v / 2^53`.
///
/// The transform returns the standard Cauchy variate
/// `tan(pi * (p - 1/2))`; both `p == 0` and `p == 1` are poles of it, and
/// the open-open draw excludes both — `v` is odd, so it is never `0` and
/// never `2^53`. That exclusion is decided here, at the word level. The
/// transform itself is floating point and stands outside the verified core.
pub struct StandardCauchy {}

impl<R: Rng> Distribution<R, u64> for StandardCauchy {
    open spec fn sample_req(&self, rng: R) -> bool {
        true
    }

    /// One word is drawn and reduced to the open-open numerator: odd,
    /// strictly between `0` and `2^53`.
    open spec fn sample_ens(&self, rng0: R, rng1: R, value: u64) -> bool {
        &&& value == (rng0.spec_output() >> 11u64) | 1u64
        &&& value % 2 == 1
        &&& 0 < value < UNIT_DENOMINATOR
        &&& rng1 == rng0.spec_step()
    }

    fn sample(&self, rng: &mut R) -> (value: u64) {
        rng.sample(&StandardUniformOpenOpen {  })
    }
}

} // verus!
