//! Rank numerals for multidimensional arrays.
//!
//! The arrays that this crate is for have their dimension specified by a type
//! with the `PosNat` trait, which is one of `N1`, `N2`, ..., `N32`. Such a
//! type gives the rank as a value and names the inline `usize` array in which
//! a shape or the strides of an array of that rank are kept.

pub mod typenat;

pub use typenat::laws::{
    lemma_array_contents, lemma_checked_matches_unchecked, lemma_index_in_range, lemma_predecessor_then_successor,
    lemma_predecessor_value, lemma_read_after_write, lemma_successor_then_predecessor,
    lemma_successor_value, lemma_zero_has_no_index,
};
pub use typenat::numerals::{
    N1, N10, N11, N12, N13, N14, N15, N16, N17, N18, N19, N2, N20, N21, N22, N23, N24, N25, N26,
    N27, N28, N29, N3, N30, N31, N32, N4, N5, N6, N7, N8, N9,
};
pub use typenat::{Nat, PosNat, Suc, USIndex, MAX_VALUE, N0};
