use vstd::prelude::*;

verus! {

use vstd::std_specs::iter::IteratorSpec;

/// The iterator ran out before the container was full.
#[derive(Debug, Clone, Copy, PartialEq, Eq, Structural)]
pub struct NotEnoughItems;

/// What building a `C` from an iterator whose remaining items are `src`
/// yields: the contents of the built container, or `None` when building
/// fails.
pub open spec fn built_from<A, C: TryFromIterator<A>>(src: Seq<A>) -> Option<Seq<A>> {
    if C::accepts(src.len()) {
        Some(src.take(C::pulls(src.len()) as int))
    } else {
        None
    }
}

/// A container that can be built from the items of an iterator, or that
/// reports why it could not be.
///
/// `contents` is what a built container holds. Building from an iterator
/// with `len` items left pulls `pulls(len)` of them, and succeeds exactly
/// when `accepts(len)`; the container then holds the pulled items in order.
pub trait TryFromIterator<A>: Sized {
    type Error: std::fmt::Debug;

    spec fn contents(&self) -> Seq<A>;

    spec fn accepts(len: nat) -> bool;

    spec fn pulls(len: nat) -> nat;

    fn try_from_iter<I: Iterator<Item = A>>(iter: &mut I) -> (r: Result<Self, Self::Error>)
        requires
            (*old(iter)).obeys_prophetic_iter_laws(),
            (*old(iter)).decrease() is Some,
        ensures
            (*final(iter)).obeys_prophetic_iter_laws(),
            (*final(iter)).decrease() is Some,
            Self::pulls((*old(iter)).remaining().len()) <= (*old(iter)).remaining().len(),
            (*final(iter)).remaining() == (*old(iter)).remaining().skip(
                Self::pulls((*old(iter)).remaining().len()) as int,
            ),
            r is Ok <==> Self::accepts((*old(iter)).remaining().len()),
            r is Ok ==> r->Ok_0.contents() == (*old(iter)).remaining().take(
                Self::pulls((*old(iter)).remaining().len()) as int,
            ),
    ;
}

/// Moves the vector's elements into an array.
///
/// Relies on std's `TryFrom<Vec<T>> for [T; N]`: it succeeds exactly when the
/// vector holds `N` elements, keeping their order, and otherwise hands the
/// vector back unchanged.
#[verifier::external_body]
fn vec_into_array<T, const N: usize>(v: Vec<T>) -> (r: Result<[T; N], Vec<T>>)
    ensures
        match r {
            Ok(a) => v@.len() == N && a@ == v@,
            Err(w) => v@.len() != N && w@ == v@,
        },
{
    <[T; N]>::try_from(v)
}

/// Pulls exactly `N` items from `iter` into an array, or `None` when the
/// iterator ends first.
///
/// The pulled prefix lives in a vector whose length is the count of items
/// written so far; if the iterator ends early that vector is dropped, which
/// drops exactly those items. Nothing past the `N`-th item is pulled.
fn try_from_iter<T, I: Iterator<Item = T>, const N: usize>(iter: &mut I) -> (r: Option<[T; N]>)
    requires
        (*old(iter)).obeys_prophetic_iter_laws(),
    ensures
        (*final(iter)).obeys_prophetic_iter_laws(),
        (*final(iter)).decrease() is Some <==> (*old(iter)).decrease() is Some,
        r is Some <==> (*old(iter)).remaining().len() >= N,
        r is Some ==> r->Some_0@ == (*old(iter)).remaining().take(N as int),
        (*old(iter)).remaining().len() >= N ==> (*final(iter)).remaining() == (*old(
            iter,
        )).remaining().skip(N as int),
        (*old(iter)).remaining().len() < N ==> (*final(iter)).remaining().len() == 0,
{
    let ghost src = (*iter).remaining();
    let mut written: Vec<T> = Vec::new();
    let mut k: usize = 0;
    while k < N
        invariant
            (*iter).obeys_prophetic_iter_laws(),
            (*iter).decrease() is Some <==> (*old(iter)).decrease() is Some,
            src == (*old(iter)).remaining(),
            k <= N,
            k <= src.len(),
            written@ == src.take(k as int),
            (*iter).remaining() == src.skip(k as int),
        decreases N - k,
    {
        match iter.next() {
            Some(item) => {
                written.push(item);
                k = k + 1;
                assert(written@ =~= src.take(k as int));
                assert((*iter).remaining() =~= src.skip(k as int));
            },
            None => {
                return None;
            },
        }
    }
    match vec_into_array::<T, N>(written) {
        Ok(a) => Some(a),
        Err(_) => {
            assert(false);
            None
        },
    }
}

impl<T, const N: usize> TryFromIterator<T> for [T; N] {
    type Error = NotEnoughItems;

    open spec fn contents(&self) -> Seq<T> {
        self@
    }

    open spec fn accepts(len: nat) -> bool {
        len >= N
    }

    open spec fn pulls(len: nat) -> nat {
        if len < N {
            len
        } else {
            N as nat
        }
    }

    /// Fails with `NotEnoughItems` when fewer than `N` items are left;
    /// never pulls more than `N` items, and none at all when `N` is zero.
    fn try_from_iter<I: Iterator<Item = T>>(iter: &mut I) -> (r: Result<Self, Self::Error>)
        ensures
            (*old(iter)).remaining().len() >= N ==> (r matches Ok(a) && a@
                == (*old(iter)).remaining().take(N as int)),
            (*old(iter)).remaining().len() < N ==> r matches Err(NotEnoughItems),
            N == 0 ==> (*final(iter)).remaining() == (*old(iter)).remaining(),
    {
        match try_from_iter::<T, I, N>(iter) {
            Some(a) => Ok(a),
            None => Err(NotEnoughItems),
        }
    }
}

impl<T> TryFromIterator<T> for Vec<T> {
    type Error = std::convert::Infallible;

    open spec fn contents(&self) -> Seq<T> {
        self@
    }

    open spec fn accepts(len: nat) -> bool {
        true
    }

    open spec fn pulls(len: nat) -> nat {
        len
    }

    /// Never fails: pulls every item, in order, and leaves the iterator
    /// empty.
    fn try_from_iter<I: Iterator<Item = T>>(iter: &mut I) -> (r: Result<Self, Self::Error>)
        ensures
            (r matches Ok(v) && v@ == (*old(iter)).remaining()),
            (*final(iter)).remaining().len() == 0,
    {
        let ghost src = (*iter).remaining();
        let mut items: Vec<T> = Vec::new();
        loop
            invariant
                (*iter).obeys_prophetic_iter_laws(),
                (*iter).decrease() is Some,
                src == (*old(iter)).remaining(),
                items@ + (*iter).remaining() == src,
            ensures
                items@ == src,
                (*iter).remaining().len() == 0,
            decreases (*iter).decrease()->0,
        {
            let ghost before = (*iter).remaining();
            match iter.next() {
                Some(item) => {
                    items.push(item);
                    assert(items@ + (*iter).remaining() =~= src) by {
                        assert(before =~= seq![item] + before.drop_first());
                    }
                },
                None => {
                    assert(items@ =~= items@ + (*iter).remaining());
                    break;
                },
            }
        }
        assert(items@ =~= src.take(src.len() as int));
        assert((*iter).remaining() =~= src.skip(src.len() as int));
        Ok(items)
    }
}

} // verus!
