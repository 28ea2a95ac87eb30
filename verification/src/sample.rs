//! An immutable, ordered collection of observations.

use vstd::prelude::*;

verus! {

/// A sample: an ordered sequence of observations of a `Copy` element type.
///
/// The element type is generic so that the resampling engine, which never
/// inspects the observations themselves, can be verified once for every
/// numeric type a caller may use.
pub struct Sample<T> {
    pub values: Vec<T>,
}

impl<T> View for Sample<T> {
    type V = Seq<T>;

    open spec fn view(&self) -> Seq<T> {
        self.values@
    }
}

impl<T: Copy> Sample<T> {
    /// Wraps an owned sequence of observations.
    pub fn new(values: Vec<T>) -> (r: Sample<T>)
        ensures
            r@ == values@,
    {
        Sample { values }
    }

    /// The number of observations.
    pub fn len(&self) -> (r: usize)
        ensures
            r == self@.len(),
    {
        self.values.len()
    }

    /// The observation at position `i`.
    pub fn get(&self, i: usize) -> (r: T)
        requires
            i < self@.len(),
        ensures
            r == self@[i as int],
    {
        self.values[i]
    }

    /// An owned copy of this sample.
    pub fn duplicate(&self) -> (r: Sample<T>)
        ensures
            r@ == self@,
    {
        let mut values: Vec<T> = Vec::new();
        let mut i: usize = 0;
        while i < self.values.len()
            invariant
                i <= self@.len(),
                values@ == self@.subrange(0, i as int),
            decreases self@.len() - i,
        {
            values.push(self.values[i]);
            i += 1;
        }
        proof {
            assert(values@ =~= self@);
        }
        Sample { values }
    }
}

} // verus!
