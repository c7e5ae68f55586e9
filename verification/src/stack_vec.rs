//! A vector of fixed capacity backed by storage handed in at construction.
//!
//! The backing storage sets the capacity once and for all; `push` fails
//! rather than grow, so the container never allocates after construction.
//! The view of a `StackVec` is the sequence of its live elements, and every
//! operation keeps the live count within the capacity.

use vstd::prelude::*;

verus! {

/// A vector with a fixed capacity, holding its live elements in order.
pub struct StackVec<T> {
    storage: Vec<T>,
    cap: usize,
}

impl<T> View for StackVec<T> {
    type V = Seq<T>;

    closed spec fn view(&self) -> Seq<T> {
        self.storage@
    }
}

impl<T> StackVec<T> {
    /// The fixed capacity set at construction.
    pub closed spec fn spec_capacity(self) -> usize {
        self.cap
    }

    /// The live elements never outgrow the capacity.
    pub open spec fn wf(self) -> bool {
        self@.len() <= self.spec_capacity()
    }

    /// Constructs a new, empty `StackVec` whose capacity is the length of
    /// `storage`.
    pub fn new(storage: Vec<T>) -> (r: StackVec<T>)
        ensures
            r.wf(),
            r@ == Seq::<T>::empty(),
            r.spec_capacity() == storage.len(),
    {
        let cap = storage.len();
        let mut storage = storage;
        storage.clear();
        StackVec { storage, cap }
    }

    /// Constructs a `StackVec` whose capacity is the length of `storage`,
    /// with the first `len` elements of `storage` already live. A `len`
    /// beyond the storage would be a fatal construction mistake and is
    /// excluded.
    pub fn with_len(storage: Vec<T>, len: usize) -> (r: StackVec<T>)
        requires
            len <= storage.len(),
        ensures
            r.wf(),
            r@ == storage@.subrange(0, len as int),
            r.spec_capacity() == storage.len(),
    {
        let cap = storage.len();
        let mut storage = storage;
        storage.truncate(len);
        StackVec { storage, cap }
    }

    /// Returns the number of elements this vector can hold.
    pub fn capacity(&self) -> (r: usize)
        ensures
            r == self.spec_capacity(),
    {
        self.cap
    }

    /// Shortens the vector, keeping the first `len` elements; a `len` at or
    /// beyond the live count leaves it unchanged.
    pub fn truncate(&mut self, len: usize)
        ensures
            final(self)@ == if len < old(self)@.len() {
                old(self)@.subrange(0, len as int)
            } else {
                old(self)@
            },
            final(self).spec_capacity() == old(self).spec_capacity(),
    {
        if len < self.storage.len() {
            self.storage.truncate(len);
        }
        proof {
            if !(len < old(self)@.len()) {
                assert(self@ =~= old(self)@);
            }
        }
    }

    /// Extracts the live elements, consuming `self`.
    pub fn into_slice(self) -> (r: Vec<T>)
        ensures
            r@ == self@,
    {
        self.storage
    }

    /// Extracts a slice holding the live elements.
    pub fn as_slice(&self) -> (r: &[T])
        ensures
            r@ == self@,
    {
        self.storage.as_slice()
    }

    /// Extracts a mutable slice holding the live elements.
    pub fn as_mut_slice(&mut self) -> (r: &mut [T])
        ensures
            r@ == old(self)@,
            final(self)@ == final(r)@,
            final(self).spec_capacity() == old(self).spec_capacity(),
    {
        self.storage.as_mut_slice()
    }

    /// Returns the element at position `i`.
    pub fn get(&self, i: usize) -> (r: &T)
        requires
            i < self@.len(),
        ensures
            *r == self@[i as int],
    {
        &self.storage[i]
    }

    /// Returns the number of live elements.
    pub fn len(&self) -> (r: usize)
        ensures
            r == self@.len(),
    {
        self.storage.len()
    }

    /// Returns true if the vector holds no elements.
    pub fn is_empty(&self) -> (r: bool)
        ensures
            r == (self@.len() == 0),
    {
        self.storage.is_empty()
    }

    /// Returns true if the vector is at capacity.
    pub fn is_full(&self) -> (r: bool)
        ensures
            r == (self@.len() == self.spec_capacity()),
    {
        self.storage.len() == self.cap
    }

    /// Appends `value` if the vector is not full; a full vector is left
    /// unchanged and the push fails.
    pub fn push(&mut self, value: T) -> (r: Result<(), ()>)
        requires
            old(self).wf(),
        ensures
            final(self).wf(),
            final(self).spec_capacity() == old(self).spec_capacity(),
            old(self)@.len() < old(self).spec_capacity() ==> r is Ok
                && final(self)@ == old(self)@.push(value),
            old(self)@.len() == old(self).spec_capacity() ==> r is Err
                && final(self)@ == old(self)@,
    {
        if self.is_full() {
            return Err(());
        }
        self.storage.push(value);
        Ok(())
    }

    /// Removes and returns the last element, or `None` when the vector is
    /// empty.
    pub fn pop(&mut self) -> (r: Option<T>)
        ensures
            final(self).spec_capacity() == old(self).spec_capacity(),
            old(self)@.len() == 0 ==> r is None && final(self)@ == old(self)@,
            old(self)@.len() > 0 ==> r == Some(old(self)@.last())
                && final(self)@ == old(self)@.drop_last(),
    {
        if self.storage.is_empty() {
            return None;
        }
        self.storage.pop()
    }

    /// Consumes the vector into an iterator over its live elements.
    pub fn into_iter(self) -> (r: StackVecIntoIter<T>)
        ensures
            r.remaining() == self@,
    {
        StackVecIntoIter { items: self.storage }
    }
}

/// An iterator that consumes a `StackVec`, yielding the live elements in
/// order.
pub struct StackVecIntoIter<T> {
    items: Vec<T>,
}

impl<T> StackVecIntoIter<T> {
    /// The elements not yet yielded, in order.
    pub closed spec fn remaining(self) -> Seq<T> {
        self.items@
    }

    /// Yields the next element, or `None` once every element was yielded.
    pub fn next(&mut self) -> (r: Option<T>)
        ensures
            old(self).remaining().len() == 0 ==> r is None
                && final(self).remaining() == old(self).remaining(),
            old(self).remaining().len() > 0 ==> r == Some(old(self).remaining()[0])
                && final(self).remaining() == old(self).remaining().drop_first(),
    {
        if self.items.is_empty() {
            return None;
        }
        let v = self.items.remove(0);
        proof {
            assert(self.remaining() =~= old(self).remaining().drop_first());
        }
        Some(v)
    }
}

} // verus!
