//! What holds of the numbers and their index arrays as a family: how
//! successor and predecessor move the value, and what the accessors of an
//! index array agree on.

use crate::typenat::{Nat, PosNat, Suc, USIndex, MAX_VALUE};
use vstd::prelude::*;

verus! {

/// The predecessor of a positive number stands for one less, and a positive
/// number is at least one.
pub proof fn lemma_predecessor_value<P: PosNat>()
    ensures
        P::spec_value() >= 1,
        <P::Pre as Nat>::spec_value() == P::spec_value() - 1,
{
    P::lemma_pre_value();
}

/// The successor of a number stands for one more, and only a number below
/// `MAX_VALUE` has a successor.
pub proof fn lemma_successor_value<T: Nat>() where Suc<T>: PosNat<Pre = T>
    ensures
        T::spec_value() < MAX_VALUE,
        <Suc<T> as Nat>::spec_value() == T::spec_value() + 1,
{
    <Suc<T> as PosNat>::lemma_pre_value();
    <Suc<T> as Nat>::lemma_value_bound();
}

/// Going down from a positive number and up again gives a number with the
/// value started from.
pub proof fn lemma_predecessor_then_successor<P: PosNat>() where
    Suc<P::Pre>: PosNat<Pre = P::Pre>,
    ensures
        <Suc<P::Pre> as Nat>::spec_value() == P::spec_value(),
{
    P::lemma_pre_value();
    <Suc<P::Pre> as PosNat>::lemma_pre_value();
}

/// Going up from a number and down again gives a number with the value
/// started from.
pub proof fn lemma_successor_then_predecessor<T: Nat>() where Suc<T>: PosNat<Pre = T>
    ensures
        <<Suc<T> as PosNat>::Pre as Nat>::spec_value() == T::spec_value(),
        <<Suc<T> as PosNat>::Pre as Nat>::spec_value() == <Suc<T> as Nat>::spec_value() - 1,
{
    <Suc<T> as PosNat>::lemma_pre_value();
}

/// A `usize` array holds as many values as its type says, and `contents()`
/// is its view.
pub proof fn lemma_array_contents<const N: usize>(a: [usize; N])
    ensures
        a.contents().len() == N,
        a.contents() == a@,
{
}

/// An index is in range for an index array of a number exactly when it is
/// below the number's value.
pub proof fn lemma_index_in_range<T: Nat>(a: T::IxArray, index: usize)
    ensures
        index < a.contents().len() <==> index < T::spec_value(),
{
    T::lemma_ix_array_len(a);
}

/// An index array of a number with value zero has no index in range: no call
/// of an accessor on it can be made.
pub proof fn lemma_zero_has_no_index<T: Nat>(a: T::IxArray, index: usize)
    requires
        T::spec_value() == 0,
    ensures
        !(index < a.contents().len()),
{
    T::lemma_ix_array_len(a);
}

/// At an index in range, `us_index` and `us_index_unchecked` give the same
/// value: the one stored there.
pub proof fn lemma_checked_matches_unchecked<A: USIndex>(
    a: &A,
    index: usize,
    checked: &usize,
    unchecked: &usize,
)
    requires
        index < a.contents().len(),
        call_ensures(A::us_index, (a, index), checked),
        call_ensures(A::us_index_unchecked, (a, index), unchecked),
    ensures
        *checked == a.contents()[index as int],
        *checked == *unchecked,
{
}

/// After `written` went in at `index`, through the reference that
/// `us_index_mut` or `us_index_unchecked_mut` gave, either reading accessor
/// gives `written` back at `index`, and the length and the other slots are
/// as before.
pub proof fn lemma_read_after_write<A: USIndex>(
    before: &A,
    after: &A,
    index: usize,
    written: usize,
    read: &usize,
)
    requires
        index < before.contents().len(),
        after.contents() == before.contents().update(index as int, written),
        call_ensures(A::us_index, (after, index), read) || call_ensures(
            A::us_index_unchecked,
            (after, index),
            read,
        ),
    ensures
        *read == written,
        after.contents().len() == before.contents().len(),
        forall|j: int|
            0 <= j < before.contents().len() && j != index ==> after.contents()[j]
                == before.contents()[j],
{
}

} // verus!
