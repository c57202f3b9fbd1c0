//! The distribution samplers: the `Distribution` capability, uniform
//! sampling over bounded integers and over the unit interval, and the
//! word-level groundwork for the Gaussian and Cauchy transforms.
use vstd::prelude::*;

pub mod cauchy;
pub mod normal;
pub mod uniform;
pub mod uniform32;

pub use cauchy::StandardCauchy;
pub use normal::StandardNormal;
pub use uniform::{
    StandardUniformClosedOpen, StandardUniformOpenClosed, StandardUniformOpenOpen, Uniform,
};
pub use uniform32::{
    StandardUniformClosedOpen32, StandardUniformOpenClosed32, StandardUniformOpenOpen32, Uniform32,
};

verus! {

/// A distribution: given a generator of type `R`, produce one value of type
/// `T`. A distribution is polymorphic over both the generator backend and
/// the value it emits; each implementation is generic over every `R` with
/// the generator capability of the word width its algorithm consumes
/// (`Rng` for 64-bit words, `Rng32` for 32-bit), so a sampler can never be
/// fed by a generator of the wrong width.
///
/// Each implementation states its own contract through the two spec
/// functions: `sample_req` is what must hold of the distribution and of the
/// generator state before the call, and `sample_ens` relates the sampled
/// value and the generator state after the call to the state before it.
pub trait Distribution<R, T> {
    /// Precondition of `sample` on distribution parameters and generator state.
    spec fn sample_req(&self, rng: R) -> bool;

    /// How the sampled value and the new generator state relate to the old one.
    spec fn sample_ens(&self, rng0: R, rng1: R, value: T) -> bool;

    /// Draw one value, advancing the generator.
    fn sample(&self, rng: &mut R) -> (value: T)
        requires
            self.sample_req(*old(rng)),
        ensures
            self.sample_ens(*old(rng), *final(rng), value),
    ;
}

} // verus!
