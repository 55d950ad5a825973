//! A small deterministic pseudo-random generator.
//!
//! The selectors take their randomness as an explicit argument, so any
//! source will do; this generator (the splitmix64 step function) is the one
//! the surrounding program and the tests inject. Seeding it pins the whole
//! draw sequence, which makes sampling reproducible.

use vstd::prelude::*;

verus! {

/// The additive constant of the splitmix64 state advance.
pub const GOLDEN_GAMMA: u64 = 0x9E3779B97F4A7C15;

/// The splitmix64 state advance: one step of the underlying counter.
pub open spec fn spec_advance(state: u64) -> u64 {
    state.wrapping_add(GOLDEN_GAMMA)
}

/// The splitmix64 output mix applied to a counter value.
pub open spec fn spec_mix(z0: u64) -> u64 {
    let z1 = (z0 ^ (z0 >> 30)).wrapping_mul(0xBF58476D1CE4E5B9);
    let z2 = (z1 ^ (z1 >> 27)).wrapping_mul(0x94D049BB133111EB);
    z2 ^ (z2 >> 31)
}

/// The 128-bit value drawn by two consecutive 64-bit draws from `state`.
pub open spec fn spec_draw128(state: u64) -> int {
    spec_mix(spec_advance(state)) * 0x10000000000000000 + spec_mix(
        spec_advance(spec_advance(state)),
    )
}

/// A seedable splitmix64 generator.
#[derive(Clone, Copy, PartialEq, Eq, Structural, Debug)]
pub struct SplitMix64 {
    pub state: u64,
}

impl SplitMix64 {
    /// Creates a generator whose draw sequence is fully determined by `seed`.
    pub fn new(seed: u64) -> (rng: Self)
        ensures
            rng.state == seed,
    {
        Self { state: seed }
    }

    /// Draws the next 64-bit value.
    pub fn next_u64(&mut self) -> (r: u64)
        ensures
            final(self).state == spec_advance(old(self).state),
            r == spec_mix(final(self).state),
    {
        self.state = self.state.wrapping_add(GOLDEN_GAMMA);
        let z0 = self.state;
        let z1 = (z0 ^ (z0 >> 30)).wrapping_mul(0xBF58476D1CE4E5B9);
        let z2 = (z1 ^ (z1 >> 27)).wrapping_mul(0x94D049BB133111EB);
        z2 ^ (z2 >> 31)
    }

    /// Draws a value below `n` by reducing a 128-bit draw modulo `n`.
    ///
    /// The reduction is slightly biased for `n` that do not divide `2^128`,
    /// by at most one part in `2^128 / n`; for the totals the selectors use
    /// that bias is negligible.
    pub fn next_below(&mut self, n: u128) -> (r: u128)
        requires
            n > 0,
        ensures
            r < n,
            r == spec_draw128(old(self).state) % (n as int),
            final(self).state == spec_advance(spec_advance(old(self).state)),
    {
        let hi = self.next_u64();
        let lo = self.next_u64();
        let draw: u128 = (hi as u128) * 0x10000000000000000u128 + lo as u128;
        draw % n
    }
}

} // verus!
