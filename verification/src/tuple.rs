//! Field-aligned accumulation of tuple-valued statistics.
//!
//! A statistic evaluates to a fixed number of numeric fields (its arity).
//! The builder keeps one growable sequence per field; pushing one evaluation
//! appends each field's value to its own sequence, so the values at one index
//! across all sequences always come from the same evaluation.

use vstd::prelude::*;

verus! {

/// The field-wise concatenation of two collections of field sequences:
/// the model of what `TupledDistributionsBuilder::extend` does.
pub open spec fn merged<T>(d1: Seq<Seq<T>>, d2: Seq<Seq<T>>) -> Seq<Seq<T>> {
    Seq::new(d1.len(), |f: int| d1[f] + d2[f])
}

/// Merging builders is associative with respect to the final concatenated
/// order: merging builder 0 with builder 1 and then builder 2 gives the
/// same field sequences as merging builder 0 with the merge of builders 1
/// and 2, as long as each builder's internal order is preserved.
pub proof fn lemma_merge_associative<T>(d0: Seq<Seq<T>>, d1: Seq<Seq<T>>, d2: Seq<Seq<T>>)
    requires
        d0.len() == d1.len(),
        d1.len() == d2.len(),
    ensures
        merged(merged(d0, d1), d2) == merged(d0, merged(d1, d2)),
{
    assert(merged(merged(d0, d1), d2) =~~= merged(d0, merged(d1, d2)));
}

/// The finalized distributions: one completed ordered sequence per field.
pub struct TupledDistributions<T> {
    pub fields: Vec<Vec<T>>,
}

impl<T> View for TupledDistributions<T> {
    type V = Seq<Seq<T>>;

    open spec fn view(&self) -> Seq<Seq<T>> {
        self.fields@.map_values(|v: Vec<T>| v@)
    }
}

/// An accumulator of statistic evaluations: one growable sequence per field.
pub struct TupledDistributionsBuilder<T> {
    pub fields: Vec<Vec<T>>,
}

impl<T> View for TupledDistributionsBuilder<T> {
    type V = Seq<Seq<T>>;

    open spec fn view(&self) -> Seq<Seq<T>> {
        self.fields@.map_values(|v: Vec<T>| v@)
    }
}

impl<T: Copy> TupledDistributionsBuilder<T> {
    /// The number of fields accumulated.
    pub open spec fn arity(self) -> nat {
        self@.len()
    }

    /// The number of evaluations pushed so far (all field sequences grow in
    /// lockstep, so this is their common length).
    pub open spec fn count(self) -> nat {
        if self@.len() == 0 {
            0
        } else {
            self@[0].len()
        }
    }

    /// All field sequences have the same length: values at one index across
    /// the fields came from the same evaluation.
    pub open spec fn aligned(self) -> bool {
        forall|f: int| 0 <= f < self@.len() ==> (#[trigger] self@[f]).len() == self.count()
    }

    /// Creates a builder of `arity` empty sequences, each with room for
    /// `capacity` values.
    pub fn new(arity: usize, capacity: usize) -> (r: TupledDistributionsBuilder<T>)
        ensures
            r@.len() == arity,
            r.aligned(),
            r.count() == 0,
            forall|f: int| 0 <= f < arity ==> r@[f].len() == 0,
    {
        let mut fields: Vec<Vec<T>> = Vec::new();
        let mut f: usize = 0;
        while f < arity
            invariant
                f <= arity,
                fields@.len() == f,
                forall|k: int| 0 <= k < f ==> fields@[k]@.len() == 0,
            decreases arity - f,
        {
            fields.push(Vec::with_capacity(capacity));
            f += 1;
        }
        TupledDistributionsBuilder { fields }
    }

    /// Appends one evaluation: `value` holds one number per field, and each
    /// is pushed onto its field's sequence.
    pub fn push(&mut self, value: &Vec<T>)
        requires
            old(self).aligned(),
            value@.len() == old(self)@.len(),
        ensures
            final(self)@.len() == old(self)@.len(),
            final(self).aligned(),
            old(self)@.len() > 0 ==> final(self).count() == old(self).count() + 1,
            forall|f: int| 0 <= f < final(self)@.len()
                ==> final(self)@[f] == old(self)@[f].push(value@[f]),
    {
        let arity: usize = self.fields.len();
        let mut f: usize = 0;
        while f < arity
            invariant
                f <= arity,
                arity == self.fields@.len(),
                value@.len() == arity,
                forall|k: int| 0 <= k < f
                    ==> self.fields@[k]@ == old(self).fields@[k]@.push(value@[k]),
                forall|k: int| f <= k < arity ==> self.fields@[k]@ == old(self).fields@[k]@,
            decreases arity - f,
        {
            let mut field: Vec<T> = self.fields.remove(f);
            field.push(value[f]);
            self.fields.insert(f, field);
            f += 1;
        }
        proof {
            assert(forall|k: int| 0 <= k < self@.len()
                ==> self@[k] =~= old(self)@[k].push(value@[k]));
        }
    }

    /// Drains `other`, appending each of its field sequences to this
    /// builder's corresponding sequence, preserving relative order.
    pub fn extend(&mut self, other: &mut TupledDistributionsBuilder<T>)
        requires
            old(self).aligned(),
            old(other).aligned(),
            old(other)@.len() == old(self)@.len(),
        ensures
            final(self)@.len() == old(self)@.len(),
            final(self).aligned(),
            old(self)@.len() > 0 ==> final(self).count() == old(self).count() + old(other).count(),
            forall|f: int| 0 <= f < final(self)@.len()
                ==> final(self)@[f] == old(self)@[f] + old(other)@[f],
            final(self)@ == merged(old(self)@, old(other)@),
            final(other)@.len() == old(other)@.len(),
            final(other).aligned(),
            final(other).count() == 0,
    {
        let arity: usize = self.fields.len();
        let mut f: usize = 0;
        while f < arity
            invariant
                f <= arity,
                arity == self.fields@.len(),
                arity == other.fields@.len(),
                forall|k: int| 0 <= k < f
                    ==> self.fields@[k]@ == old(self).fields@[k]@ + old(other).fields@[k]@,
                forall|k: int| f <= k < arity ==> self.fields@[k]@ == old(self).fields@[k]@,
                forall|k: int| 0 <= k < f ==> other.fields@[k]@.len() == 0,
                forall|k: int| f <= k < arity ==> other.fields@[k]@ == old(other).fields@[k]@,
            decreases arity - f,
        {
            let mut mine: Vec<T> = self.fields.remove(f);
            let mut theirs: Vec<T> = other.fields.remove(f);
            mine.append(&mut theirs);
            self.fields.insert(f, mine);
            other.fields.insert(f, theirs);
            f += 1;
        }
        proof {
            assert(forall|k: int| 0 <= k < self@.len()
                ==> self@[k] =~= old(self)@[k] + old(other)@[k]);
            assert(self@ =~= merged(old(self)@, old(other)@));
        }
    }

    /// Consumes the builder and returns the finalized distributions.
    pub fn complete(self) -> (r: TupledDistributions<T>)
        ensures
            r@ == self@,
    {
        TupledDistributions { fields: self.fields }
    }
}

} // verus!
