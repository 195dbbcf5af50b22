//! The growable typed array: the generic counterpart of the byte buffer.
//!
//! A [`ConstVec`] keeps its initialized elements in push order and tracks
//! a logical element capacity that grows to the next power of two exactly
//! as the byte buffer's does.  The elements are held in an owned vector,
//! which also settles the two storage concerns the type inherits: a
//! zero-sized element type occupies no backing allocation, and on an
//! ordinary (non-frozen) drop every initialized element is destructed in
//! index order when the holder is dropped.  Freezing via
//! [`ConstVec::leak`] instead cuts the capacity down to the exact element
//! count and surrenders the elements, so the buffer itself never destructs
//! them.

use vstd::prelude::*;

use crate::CAP_LIMIT;
use crate::const_string::{next_power_of_two, next_pow2, lemma_next_pow2_bounds};

verus! {

/// The growable typed array.  Its view is the sequence of its elements.
pub struct ConstVec<T> {
    elems: Vec<T>,
    cap: usize,
}

impl<T> View for ConstVec<T> {
    type V = Seq<T>;

    closed spec fn view(&self) -> Seq<T> {
        self.elems@
    }
}

impl<T> ConstVec<T> {
    /// The tracked element capacity.
    pub closed spec fn spec_cap(&self) -> usize {
        self.cap
    }

    /// The element count never exceeds the tracked capacity, which stays
    /// within the capacity bound.
    pub closed spec fn wf(&self) -> bool {
        &&& self@.len() <= self.cap
        &&& self.cap <= CAP_LIMIT
    }

    /// An empty array with the default capacity of sixteen elements.
    pub fn new() -> (r: ConstVec<T>)
        ensures
            r.wf(),
            r@ =~= Seq::<T>::empty(),
            r.spec_cap() == 16,
    {
        ConstVec { elems: Vec::new(), cap: 16 }
    }

    /// Ensures the array can take `additional` more elements after the
    /// current ones.  The target capacity is the next power of two at or
    /// above `len + additional`; if the tracked capacity already reaches
    /// it, nothing changes.  The elements are unaffected.
    pub fn reserve(&mut self, additional: usize)
        requires
            old(self).wf(),
            old(self)@.len() + additional <= CAP_LIMIT,
        ensures
            final(self).wf(),
            final(self)@ == old(self)@,
            final(self).spec_cap() == if old(self).spec_cap() >= next_power_of_two(
                (old(self)@.len() + additional) as nat,
            ) {
                old(self).spec_cap()
            } else {
                next_power_of_two((old(self)@.len() + additional) as nat) as usize
            },
            final(self).spec_cap() >= old(self)@.len() + additional,
    {
        proof {
            lemma_next_pow2_bounds((old(self)@.len() + additional) as nat);
        }
        let next_cap = next_pow2(self.elems.len() + additional);
        if self.cap >= next_cap {
            return ;
        }
        self.elems.reserve(next_cap - self.elems.len());
        self.cap = next_cap;
    }

    /// Appends one element at the end.
    pub fn push(&mut self, item: T)
        requires
            old(self).wf(),
            old(self)@.len() + 1 <= CAP_LIMIT,
        ensures
            final(self).wf(),
            final(self)@ == old(self)@.push(item),
    {
        self.reserve(1);
        self.elems.push(item);
    }

    /// The number of initialized elements.
    pub fn len(&self) -> (r: usize)
        ensures
            r == self@.len(),
    {
        self.elems.len()
    }

    /// Freezes the array: the tracked capacity is cut down to exactly the
    /// element count and the elements are surrendered in push order.  The
    /// array is consumed, so it never destructs the surrendered elements.
    pub fn leak(self) -> (r: Vec<T>)
        requires
            self.wf(),
        ensures
            r@ == self@,
            r@.len() == self@.len(),
    {
        let mut this = self;
        this.shrink_to_size();
        let ConstVec { elems, cap: _ } = this;
        elems
    }

    /// Shrinks the tracked capacity to exactly the element count.
    fn shrink_to_size(&mut self)
        requires
            old(self).wf(),
        ensures
            final(self).wf(),
            final(self)@ == old(self)@,
            final(self).spec_cap() == old(self)@.len(),
    {
        self.cap = self.elems.len();
    }
}

impl<T> Default for ConstVec<T> {
    /// The same empty array as [`ConstVec::new`].
    fn default() -> (r: ConstVec<T>)
        ensures
            r.wf(),
            r@ =~= Seq::<T>::empty(),
            r.spec_cap() == 16,
    {
        ConstVec::new()
    }
}

} // verus!
