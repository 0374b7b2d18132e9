use vstd::prelude::*;

verus! {

use crate::construct::TryFromIterator;

/// Any sequence of `T` with a size known once it is built: a fixed-size
/// array or a vector.
///
/// Generic code written against this trait reads, writes, copies and
/// consumes the elements through the operations below, each stated over
/// `contents`. Length and emptiness are derived from the slice view.
pub trait Array<T>: TryFromIterator<T> {
    /// The elements as a shared slice.
    fn as_slice(&self) -> (r: &[T])
        ensures
            r@ == self.contents(),
    ;

    /// The elements as a mutable slice; writes through it change `self`.
    fn as_mut_slice(&mut self) -> (r: &mut [T])
        ensures
            r@ == old(self).contents(),
            final(r)@ == final(self).contents(),
    ;

    /// The element at position `i`.
    fn at(&self, i: usize) -> (r: &T)
        requires
            i < self.contents().len(),
        ensures
            *r == self.contents()[i as int],
    ;

    /// Replaces the element at position `i` with `value`.
    fn set_at(&mut self, i: usize, value: T)
        requires
            i < old(self).contents().len(),
        ensures
            final(self).contents() == old(self).contents().update(i as int, value),
    ;

    /// Gives up the container and hands its elements out in order.
    fn into_vec(self) -> (r: Vec<T>)
        ensures
            r@ == self.contents(),
    ;

    /// An independent copy: each element is a clone of the one at the same
    /// position.
    fn duplicate(&self) -> (r: Self) where T: Clone
        ensures
            r.contents().len() == self.contents().len(),
            forall|i: int|
                0 <= i < self.contents().len() ==> cloned::<T>(self.contents()[i], r.contents()[i]),
    ;

    /// The number of elements, read off the slice view.
    fn len(&self) -> (r: usize)
        ensures
            r == self.contents().len(),
    {
        self.as_slice().len()
    }

    /// Whether there are no elements.
    fn is_empty(&self) -> (r: bool)
        ensures
            r == (self.contents().len() == 0),
    {
        self.len() == 0
    }
}

/// Moves the array's elements into a new vector.
///
/// Relies on std's `From<[T; N]> for Vec<T>`: the vector holds the array's
/// elements in the same order.
#[verifier::external_body]
fn array_into_vec<T, const N: usize>(a: [T; N]) -> (r: Vec<T>)
    ensures
        r@ == a@,
{
    Vec::from(a)
}

impl<T, const N: usize> Array<T> for [T; N] {
    fn as_slice(&self) -> (r: &[T]) {
        self.as_slice()
    }

    fn as_mut_slice(&mut self) -> (r: &mut [T]) {
        self
    }

    fn at(&self, i: usize) -> (r: &T) {
        &self[i]
    }

    fn set_at(&mut self, i: usize, value: T) {
        self[i] = value;
    }

    fn into_vec(self) -> (r: Vec<T>) {
        array_into_vec(self)
    }

    fn duplicate(&self) -> (r: Self) where T: Clone {
        self.clone()
    }
}

impl<T> Array<T> for Vec<T> {
    fn as_slice(&self) -> (r: &[T]) {
        self.as_slice()
    }

    fn as_mut_slice(&mut self) -> (r: &mut [T]) {
        self.as_mut_slice()
    }

    fn at(&self, i: usize) -> (r: &T) {
        &self[i]
    }

    fn set_at(&mut self, i: usize, value: T) {
        self[i] = value;
    }

    fn into_vec(self) -> (r: Vec<T>) {
        self
    }

    fn duplicate(&self) -> (r: Self) where T: Clone {
        self.clone()
    }
}

} // verus!
