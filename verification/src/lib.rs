//! A seedable generator of adversarial numeric test inputs.
//!
//! Uniform random sampling almost never produces the values that break
//! numeric code: NaNs with unusual payloads, subnormals, signed zero,
//! infinities, type extremes. This crate deliberately skews sampling
//! toward such edge cases, while staying cheap and reproducible.
//!
//! The random bits come from the `fastrand` crate; the value synthesis on
//! top of them is verified. Floating-point results are handed out as their
//! IEEE-754 bit patterns (`u32` for the 32-bit width, `u64` for the 64-bit
//! width), with the category of each pattern stated in the contract;
//! callers obtain the float itself with `f32::from_bits`/`f64::from_bits`.
//!
//! The distributions are deliberately skewed and not statistically
//! meaningful, and the generator is not cryptographically secure: it is
//! meant for producing test and fuzz inputs only.

use vstd::prelude::*;

pub mod float_bits;
pub mod floats;
pub mod ints;
pub mod rng;
pub mod special_values;

pub use floats::is_signaling_nan_f32;
pub use floats::is_signaling_nan_f64;

verus! {

/// A weird data generator: a deterministic, seedable source of edge-case
/// numeric values, wrapping one `fastrand::Rng` as its stream of uniform
/// random bits.
#[derive(Clone)]
pub struct Wdg {
    pub rng: fastrand::Rng,
}

impl Wdg {
    /// The abstract state of the wrapped random stream. Every operation's
    /// result and successor state are functions of it, so two generators
    /// with equal states produce equal output sequences.
    pub open spec fn state(self) -> u64 {
        rng::rng_state(self.rng)
    }

    /// Deterministic construction: the seed becomes the state, so two
    /// generators built from the same seed produce identical output
    /// sequences for identical operation sequences.
    #[must_use]
    pub fn with_seed(seed: u64) -> (r: Self)
        ensures
            r.state() == seed,
    {
        Wdg { rng: rng::rng_with_seed(seed) }
    }

    /// Derives a new generator whose future output is reproducibly derived
    /// from this one's current state, advancing this one's own state as a
    /// side effect (so forking twice in a row yields two different
    /// children).
    #[must_use]
    pub fn fork(&mut self) -> (child: Self)
        ensures
            child.state() == rng::fork_child(old(self).state()),
            final(self).state() == rng::fork_next(old(self).state()),
            final(self).state() != old(self).state(),
    {
        Wdg { rng: rng::rng_fork(&mut self.rng) }
    }

    /// Re-seeds in place, discarding the prior state: afterwards the
    /// generator is equivalent to a fresh [`Wdg::with_seed`] of the same
    /// seed.
    pub fn seed(&mut self, seed: u64)
        ensures
            final(self).state() == seed,
    {
        rng::rng_seed(&mut self.rng, seed);
    }

    /// Returns the current state, which, fed back into
    /// [`Wdg::with_seed`], reproduces the generator's current trajectory;
    /// the generator itself is left unchanged.
    pub fn get_seed(&mut self) -> (v: u64)
        ensures
            v == old(self).state(),
            *final(self) == *old(self),
    {
        rng::rng_get_seed(&self.rng)
    }
}

} // verus!
