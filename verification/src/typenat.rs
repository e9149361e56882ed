//! Type-level natural numbers used to parameterize the array types.
//!
//! The numbers provided are `N0`, `N1`, `N2`, ... `N32`. Each one knows its
//! value and names the `usize` array that has exactly that many slots, so
//! that shapes and strides of an array of that rank live inline, and an index
//! checked once against `value()` is known to be in range.

pub mod laws;
pub mod numerals;

use core::fmt::Debug;
use core::marker::PhantomData;
use vstd::prelude::*;

verus! {

/// The largest number that has a type.
pub const MAX_VALUE: usize = 32;

/// Indexing into a container of `usize` values whose length is fixed.
///
/// The container is modelled by `contents()`, the sequence of the values it
/// holds. All four accessors ask for an index below the length: the two plain
/// ones would stop the program on any other index, the two `unchecked` ones
/// are for callers that have the bound from elsewhere (a loop up to
/// `Nat::value()`), and here both kinds are held to it before the program
/// runs.
pub trait USIndex {
    /// The values held, in order.
    spec fn contents(&self) -> Seq<usize>;

    /// Take a `usize` index, and yield a reference to the `usize` stored
    /// there.
    fn us_index(&self, index: usize) -> (r: &usize)
        requires
            index < self.contents().len(),
        ensures
            *r == self.contents()[index as int],
    ;

    /// Take a `usize` index, and yield a mutable reference to the `usize`
    /// stored there. Whatever is written through it is the only change to the
    /// container.
    fn us_index_mut(&mut self, index: usize) -> (r: &mut usize)
        requires
            index < old(self).contents().len(),
        ensures
            *r == old(self).contents()[index as int],
            final(self).contents() == old(self).contents().update(index as int, *final(r)),
    ;

    /// Same as `us_index`, for an index that the caller has already bounded.
    fn us_index_unchecked(&self, index: usize) -> (r: &usize)
        requires
            index < self.contents().len(),
        ensures
            *r == self.contents()[index as int],
    ;

    /// Same as `us_index_mut`, for an index that the caller has already
    /// bounded.
    fn us_index_unchecked_mut(&mut self, index: usize) -> (r: &mut usize)
        requires
            index < old(self).contents().len(),
        ensures
            *r == old(self).contents()[index as int],
            final(self).contents() == old(self).contents().update(index as int, *final(r)),
    ;
}

impl<const N: usize> USIndex for [usize; N] {
    open spec fn contents(&self) -> Seq<usize> {
        self@
    }

    #[inline]
    fn us_index(&self, index: usize) -> (r: &usize)
        ensures
            *r == self@[index as int],
    {
        &self[index]
    }

    #[inline]
    fn us_index_mut(&mut self, index: usize) -> (r: &mut usize)
        ensures
            *r == old(self)@[index as int],
            final(self)@ == old(self)@.update(index as int, *final(r)),
    {
        &mut self[index]
    }

    #[inline]
    fn us_index_unchecked(&self, index: usize) -> (r: &usize)
        ensures
            *r == self@[index as int],
    {
        &self[index]
    }

    #[inline]
    fn us_index_unchecked_mut(&mut self, index: usize) -> (r: &mut usize)
        ensures
            *r == old(self)@[index as int],
            final(self)@ == old(self)@.update(index as int, *final(r)),
    {
        &mut self[index]
    }
}

/// Trait for type-level natural numbers.
///
/// The main use of this trait is to associate a type-level natural number
/// with a value and with an index array of that length.
///
/// Code that loops up to `value()` and indexes an `IxArray` relies on the
/// array having exactly that many slots. An implementation owes the proof of
/// it, in `lemma_ix_array_len`, and of the bound on the value, in
/// `lemma_value_bound`.
pub trait Nat {
    /// A `usize` array of the correct length (e.g. `[usize; 0]` for `N0`).
    type IxArray: Copy + Debug + USIndex;

    /// The value that corresponds to this number.
    spec fn spec_value() -> nat;

    /// The value that corresponds to this number.
    fn value() -> (v: usize)
        ensures
            v == Self::spec_value(),
    ;

    /// Every index array of this number has exactly `spec_value()` slots.
    proof fn lemma_ix_array_len(a: Self::IxArray)
        ensures
            a.contents().len() == Self::spec_value(),
    ;

    /// No number with a type is above `MAX_VALUE`.
    proof fn lemma_value_bound()
        ensures
            Self::spec_value() <= MAX_VALUE,
    ;
}

/// Trait for type-level positive numbers.
///
/// The `Suc` type below allows one to increment by one. This trait has the
/// predecessor type as an associated type, i.e. it is used to decrement by
/// one.
pub trait PosNat: Nat {
    /// Predecessor of the Self type, e.g. `N0` is `<N1 as PosNat>::Pre`.
    type Pre: Nat;

    /// The predecessor stands for one less than `Self`.
    proof fn lemma_pre_value()
        ensures
            <Self::Pre as Nat>::spec_value() + 1 == Self::spec_value(),
    ;
}

/// Type-level natural number representing `0`.
#[derive(Clone, Copy, Debug)]
pub struct N0;

/// Type representing the successor of the wrapped type, e.g. `N1` is
/// `Suc<N0>`.
#[derive(Debug)]
pub struct Suc<T: Nat>(pub PhantomData<T>);

impl<T: Nat> Clone for Suc<T> {
    fn clone(&self) -> (c: Self)
        ensures
            c == *self,
    {
        *self
    }
}

impl<T: Nat> Copy for Suc<T> {
}

impl Nat for N0 {
    type IxArray = [usize; 0];

    open spec fn spec_value() -> nat {
        0
    }

    #[inline]
    fn value() -> (v: usize)
        ensures
            v == 0,
    {
        0
    }

    proof fn lemma_ix_array_len(a: Self::IxArray) {
    }

    proof fn lemma_value_bound() {
    }
}

} // verus!
