//! A small deterministic pseudo-random number generator.
//!
//! Resampling only needs a stream of indices below the sample length; the
//! statistical quality of a 64-bit mixing generator is ample for that, and a
//! self-contained generator keeps index generation fully verified.

use vstd::prelude::*;

verus! {

/// A splitmix-style pseudo-random generator: a 64-bit counter advanced by a
/// large odd constant, whose output is the counter passed through an
/// avalanche mixing function.
pub struct Prng {
    pub state: u64,
}

impl Prng {
    /// Creates a generator whose stream is determined by `seed`.
    pub fn new(seed: u64) -> (r: Prng)
        ensures
            r.state == seed,
    {
        Prng { state: seed }
    }

    /// Returns the next 64-bit value of the stream.
    pub fn next_u64(&mut self) -> u64 {
        self.state = self.state.wrapping_add(0x9E3779B97F4A7C15);
        let mut z: u64 = self.state;
        z = (z ^ (z >> 30)).wrapping_mul(0xBF58476D1CE4E5B9);
        z = (z ^ (z >> 27)).wrapping_mul(0x94D049BB133111EB);
        z ^ (z >> 31)
    }

    /// Returns an index below `bound`.
    pub fn below(&mut self, bound: usize) -> (r: usize)
        requires
            bound > 0,
        ensures
            r < bound,
    {
        let x: u64 = self.next_u64();
        let r: u64 = x % (bound as u64);
        r as usize
    }
}

} // verus!
