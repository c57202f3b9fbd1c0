//! Pseudorandom number generation: seedable xoshiro bit generators in two
//! state widths (128 and 256 bits) and two scramblers (`+` and `++`), and
//! distribution samplers built on top of them — uniform over bounded
//! integers and over the unit interval in both word widths, with the
//! word-level groundwork for Gaussian and Cauchy sampling.
//!
//! A generator is a small state machine: `gen` returns one raw word and
//! advances the state, both exactly pinned by the generator's spec
//! functions, so a fixed seed yields one fixed output sequence.
pub mod distributions;
pub mod rngs;
