//! The Gaussian sampler's word-level half: the pair of unit-interval
//! draws that the Box-Muller transform consumes.
use vstd::prelude::*;

use crate::distributions::uniform::{
    StandardUniformClosedOpen, StandardUniformOpenClosed, UNIT_DENOMINATOR,
};
use crate::distributions::Distribution;
use crate::rngs::Rng;

verus! {

/// One Box-Muller input pair in exact fixed point: numerators `(v1, v2)`
/// of the two unit-interval draws, each over the denominator `2^53`.
///
/// The transform takes `u1 = v1 / 2^53` from the open-closed variant and
/// `u2 = v2 / 2^53` from the closed-open variant, and returns the pair of
/// standard-normal variates `(sqrt(-2 ln u1) * cos(2 pi u2),
/// sqrt(-2 ln u1) * sin(2 pi u2))`. Because `v1 >= 1`, `u1` is never `0`
/// and the logarithm is always finite; that exclusion is decided here, at
/// the word level. The transform itself is floating point and stands
/// outside the verified core.
pub struct StandardNormal {}

impl<R: Rng> Distribution<R, (u64, u64)> for StandardNormal {
    open spec fn sample_req(&self, rng: R) -> bool {
        true
    }

    /// Two words are drawn: the first gives the open-closed numerator
    /// (never `0`, so the logarithm's argument is never `0`), the second
    /// the closed-open numerator for the angle.
    open spec fn sample_ens(&self, rng0: R, rng1: R, value: (u64, u64)) -> bool {
        &&& value.0 == (rng0.spec_output() >> 11u64) + 1
        &&& 1 <= value.0 <= UNIT_DENOMINATOR
        &&& value.1 == rng0.spec_step().spec_output() >> 11u64
        &&& value.1 < UNIT_DENOMINATOR
        &&& rng1 == rng0.spec_step().spec_step()
    }

    fn sample(&self, rng: &mut R) -> (value: (u64, u64)) {
        let u1 = rng.sample(&StandardUniformOpenClosed {  });
        let u2 = rng.sample(&StandardUniformClosedOpen {  });

        (u1, u2)
    }
}

} // verus!
