//! A restartable generator of bootstrap resamples.

use vstd::prelude::*;
use crate::rng::Prng;
use crate::sample::Sample;

verus! {

/// Holds when `r` is a resample of `src`: it has the same length, and every
/// one of its elements is one of `src`'s elements.
pub open spec fn is_resample_of<T>(r: Seq<T>, src: Seq<T>) -> bool {
    &&& r.len() == src.len()
    &&& forall|i: int| 0 <= i < r.len() ==> src.contains(r[i])
}

/// A generator of resamples of one source sample.
///
/// `next` redraws the contents of `current` in place: each position receives
/// an element of the source picked by a pseudo-random index. The buffer is
/// reused across calls, so a produced resample is only meaningful until the
/// next call to `next`.
pub struct Resamples<T> {
    pub source: Sample<T>,
    pub rng: Prng,
    pub current: Sample<T>,
}

impl<T: Copy> Resamples<T> {
    /// Creates a generator over `sample` whose draws are determined by `seed`.
    pub fn new(sample: &Sample<T>, seed: u64) -> (r: Resamples<T>)
        ensures
            r.source@ == sample@,
            r.current@.len() == 0,
    {
        Resamples {
            source: sample.duplicate(),
            rng: Prng::new(seed),
            current: Sample { values: Vec::new() },
        }
    }

    /// Draws the next resample into `current`: `source.len()` elements, each
    /// picked independently (with replacement) from the source sample.
    pub fn next(&mut self)
        requires
            old(self).source@.len() > 0,
        ensures
            final(self).source@ == old(self).source@,
            is_resample_of(final(self).current@, old(self).source@),
    {
        let n: usize = self.source.values.len();
        self.current.values.clear();
        let mut i: usize = 0;
        while i < n
            invariant
                self.source@ == old(self).source@,
                n == self.source@.len(),
                n > 0,
                i <= n,
                self.current@.len() == i,
                forall|k: int| 0 <= k < i ==> self.source@.contains(self.current@[k]),
            decreases n - i,
        {
            let j: usize = self.rng.below(n);
            let v: T = self.source.values[j];
            proof {
                assert(self.source@.contains(self.source@[j as int]));
            }
            self.current.values.push(v);
            i += 1;
        }
    }
}

} // verus!
