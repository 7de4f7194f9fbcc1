//! An ordered sequence that always holds at least one element.
//!
//! The nested grouping structures of the admission-requirement records are
//! built on this container: every clause holds at least one alternative and
//! the clause list itself is never empty, so `last` is total and `pop`
//! refuses to shrink the sequence below one element.

use vstd::prelude::*;

verus! {

/// Reported by [`NonEmptyVector::pop`] when the vector already holds a
/// single element and may not shrink further.
#[derive(Debug, Clone, Copy, PartialEq, Eq)]
pub struct AsSmallAsPossible;

impl AsSmallAsPossible {
    /// A human-readable description of the condition.
    pub fn message(&self) -> (r: String)
        ensures
            r@ == "NonEmptyVector only has 1 element"@,
    {
        String::from_str("NonEmptyVector only has 1 element")
    }
}

/// A vector that holds at least one element at all times.
#[derive(Debug, Clone, PartialEq)]
pub struct NonEmptyVector<T>(pub Vec<T>);

impl<T> View for NonEmptyVector<T> {
    type V = Seq<T>;

    open spec fn view(&self) -> Seq<T> {
        self.0@
    }
}

impl<T: DeepView> DeepView for NonEmptyVector<T> {
    type V = Seq<T::V>;

    open spec fn deep_view(&self) -> Seq<T::V> {
        self.0.deep_view()
    }
}

impl<T> NonEmptyVector<T> {
    /// The container's invariant: it never holds fewer than one element.
    pub open spec fn wf(&self) -> bool {
        self@.len() >= 1
    }

    /// A sequence holding exactly the seed element.
    pub fn new(elem: T) -> (r: Self)
        ensures
            r@ == seq![elem],
            r.wf(),
    {
        let mut v: Vec<T> = Vec::new();
        v.push(elem);
        proof {
            assert(v@ =~= seq![elem]);
        }
        NonEmptyVector(v)
    }

    /// Append `value`; always succeeds.
    pub fn push(&mut self, value: T)
        ensures
            final(self)@ == old(self)@.push(value),
            final(self).wf(),
    {
        self.0.push(value);
    }

    /// The final element; total thanks to the invariant.
    pub fn last(&self) -> (r: &T)
        requires
            self.wf(),
        ensures
            *r == self@.last(),
    {
        let i = self.0.len() - 1;
        &self.0[i]
    }

    /// A mutable reference to the final element; total thanks to the
    /// invariant.
    pub fn last_mut(&mut self) -> (r: &mut T)
        requires
            old(self).wf(),
        ensures
            *r == old(self)@.last(),
            final(self)@ == old(self)@.update(old(self)@.len() - 1, *final(r)),
            final(self).wf(),
    {
        let i = self.0.len() - 1;
        &mut self.0[i]
    }

    /// Remove and return the final element, unless that would leave the
    /// vector empty: with a single element left the call fails and the
    /// vector is unchanged.
    pub fn pop(&mut self) -> (r: Result<T, AsSmallAsPossible>)
        requires
            old(self).wf(),
        ensures
            old(self)@.len() == 1 ==> r is Err && final(self)@ == old(self)@,
            old(self)@.len() > 1 ==> r is Ok && r == Ok::<T, AsSmallAsPossible>(
                old(self)@.last(),
            ) && final(self)@ == old(self)@.drop_last(),
            final(self).wf(),
    {
        if self.0.len() == 1 {
            return Err(AsSmallAsPossible);
        }
        let elem = self.0.pop().unwrap();
        Ok(elem)
    }

    /// How many elements the vector holds; at least one.
    pub fn len(&self) -> (r: usize)
        ensures
            r == self@.len(),
    {
        self.0.len()
    }

    /// The element at position `i`.
    pub fn get(&self, i: usize) -> (r: &T)
        requires
            i < self@.len(),
        ensures
            *r == self@[i as int],
    {
        &self.0[i]
    }

    /// Give up the invariant and hand the elements over as a plain vector.
    pub fn into_vec(self) -> (r: Vec<T>)
        ensures
            r@ == self@,
    {
        self.0
    }
}

} // verus!
