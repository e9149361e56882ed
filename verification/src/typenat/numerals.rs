//! The numbers `N1` to `N32`: each is the successor of the one before it, with
//! its value, its index array and its predecessor.

use crate::typenat::{Nat, PosNat, Suc, N0};
use vstd::prelude::*;

verus! {

/// Type-level natural number representing `1`.
pub type N1 = Suc<N0>;

impl Nat for N1 {
    type IxArray = [usize; 1];

    open spec fn spec_value() -> nat {
        1
    }

    #[inline]
    fn value() -> (v: usize)
        ensures
            v == 1,
    {
        1
    }

    proof fn lemma_ix_array_len(a: Self::IxArray) {
    }

    proof fn lemma_value_bound() {
    }
}

impl PosNat for N1 {
    type Pre = N0;

    proof fn lemma_pre_value() {
    }
}

/// Type-level natural number representing `2`.
pub type N2 = Suc<N1>;

impl Nat for N2 {
    type IxArray = [usize; 2];

    open spec fn spec_value() -> nat {
        2
    }

    #[inline]
    fn value() -> (v: usize)
        ensures
            v == 2,
    {
        2
    }

    proof fn lemma_ix_array_len(a: Self::IxArray) {
    }

    proof fn lemma_value_bound() {
    }
}

impl PosNat for N2 {
    type Pre = N1;

    proof fn lemma_pre_value() {
    }
}

/// Type-level natural number representing `3`.
pub type N3 = Suc<N2>;

impl Nat for N3 {
    type IxArray = [usize; 3];

    open spec fn spec_value() -> nat {
        3
    }

    #[inline]
    fn value() -> (v: usize)
        ensures
            v == 3,
    {
        3
    }

    proof fn lemma_ix_array_len(a: Self::IxArray) {
    }

    proof fn lemma_value_bound() {
    }
}

impl PosNat for N3 {
    type Pre = N2;

    proof fn lemma_pre_value() {
    }
}

/// Type-level natural number representing `4`.
pub type N4 = Suc<N3>;

impl Nat for N4 {
    type IxArray = [usize; 4];

    open spec fn spec_value() -> nat {
        4
    }

    #[inline]
    fn value() -> (v: usize)
        ensures
            v == 4,
    {
        4
    }

    proof fn lemma_ix_array_len(a: Self::IxArray) {
    }

    proof fn lemma_value_bound() {
    }
}

impl PosNat for N4 {
    type Pre = N3;

    proof fn lemma_pre_value() {
    }
}

/// Type-level natural number representing `5`.
pub type N5 = Suc<N4>;

impl Nat for N5 {
    type IxArray = [usize; 5];

    open spec fn spec_value() -> nat {
        5
    }

    #[inline]
    fn value() -> (v: usize)
        ensures
            v == 5,
    {
        5
    }

    proof fn lemma_ix_array_len(a: Self::IxArray) {
    }

    proof fn lemma_value_bound() {
    }
}

impl PosNat for N5 {
    type Pre = N4;

    proof fn lemma_pre_value() {
    }
}

/// Type-level natural number representing `6`.
pub type N6 = Suc<N5>;

impl Nat for N6 {
    type IxArray = [usize; 6];

    open spec fn spec_value() -> nat {
        6
    }

    #[inline]
    fn value() -> (v: usize)
        ensures
            v == 6,
    {
        6
    }

    proof fn lemma_ix_array_len(a: Self::IxArray) {
    }

    proof fn lemma_value_bound() {
    }
}

impl PosNat for N6 {
    type Pre = N5;

    proof fn lemma_pre_value() {
    }
}

/// Type-level natural number representing `7`.
pub type N7 = Suc<N6>;

impl Nat for N7 {
    type IxArray = [usize; 7];

    open spec fn spec_value() -> nat {
        7
    }

    #[inline]
    fn value() -> (v: usize)
        ensures
            v == 7,
    {
        7
    }

    proof fn lemma_ix_array_len(a: Self::IxArray) {
    }

    proof fn lemma_value_bound() {
    }
}

impl PosNat for N7 {
    type Pre = N6;

    proof fn lemma_pre_value() {
    }
}

/// Type-level natural number representing `8`.
pub type N8 = Suc<N7>;

impl Nat for N8 {
    type IxArray = [usize; 8];

    open spec fn spec_value() -> nat {
        8
    }

    #[inline]
    fn value() -> (v: usize)
        ensures
            v == 8,
    {
        8
    }

    proof fn lemma_ix_array_len(a: Self::IxArray) {
    }

    proof fn lemma_value_bound() {
    }
}

impl PosNat for N8 {
    type Pre = N7;

    proof fn lemma_pre_value() {
    }
}

/// Type-level natural number representing `9`.
pub type N9 = Suc<N8>;

impl Nat for N9 {
    type IxArray = [usize; 9];

    open spec fn spec_value() -> nat {
        9
    }

    #[inline]
    fn value() -> (v: usize)
        ensures
            v == 9,
    {
        9
    }

    proof fn lemma_ix_array_len(a: Self::IxArray) {
    }

    proof fn lemma_value_bound() {
    }
}

impl PosNat for N9 {
    type Pre = N8;

    proof fn lemma_pre_value() {
    }
}

/// Type-level natural number representing `10`.
pub type N10 = Suc<N9>;

impl Nat for N10 {
    type IxArray = [usize; 10];

    open spec fn spec_value() -> nat {
        10
    }

    #[inline]
    fn value() -> (v: usize)
        ensures
            v == 10,
    {
        10
    }

    proof fn lemma_ix_array_len(a: Self::IxArray) {
    }

    proof fn lemma_value_bound() {
    }
}

impl PosNat for N10 {
    type Pre = N9;

    proof fn lemma_pre_value() {
    }
}

/// Type-level natural number representing `11`.
pub type N11 = Suc<N10>;

impl Nat for N11 {
    type IxArray = [usize; 11];

    open spec fn spec_value() -> nat {
        11
    }

    #[inline]
    fn value() -> (v: usize)
        ensures
            v == 11,
    {
        11
    }

    proof fn lemma_ix_array_len(a: Self::IxArray) {
    }

    proof fn lemma_value_bound() {
    }
}

impl PosNat for N11 {
    type Pre = N10;

    proof fn lemma_pre_value() {
    }
}

/// Type-level natural number representing `12`.
pub type N12 = Suc<N11>;

impl Nat for N12 {
    type IxArray = [usize; 12];

    open spec fn spec_value() -> nat {
        12
    }

    #[inline]
    fn value() -> (v: usize)
        ensures
            v == 12,
    {
        12
    }

    proof fn lemma_ix_array_len(a: Self::IxArray) {
    }

    proof fn lemma_value_bound() {
    }
}

impl PosNat for N12 {
    type Pre = N11;

    proof fn lemma_pre_value() {
    }
}

/// Type-level natural number representing `13`.
pub type N13 = Suc<N12>;

impl Nat for N13 {
    type IxArray = [usize; 13];

    open spec fn spec_value() -> nat {
        13
    }

    #[inline]
    fn value() -> (v: usize)
        ensures
            v == 13,
    {
        13
    }

    proof fn lemma_ix_array_len(a: Self::IxArray) {
    }

    proof fn lemma_value_bound() {
    }
}

impl PosNat for N13 {
    type Pre = N12;

    proof fn lemma_pre_value() {
    }
}

/// Type-level natural number representing `14`.
pub type N14 = Suc<N13>;

impl Nat for N14 {
    type IxArray = [usize; 14];

    open spec fn spec_value() -> nat {
        14
    }

    #[inline]
    fn value() -> (v: usize)
        ensures
            v == 14,
    {
        14
    }

    proof fn lemma_ix_array_len(a: Self::IxArray) {
    }

    proof fn lemma_value_bound() {
    }
}

impl PosNat for N14 {
    type Pre = N13;

    proof fn lemma_pre_value() {
    }
}

/// Type-level natural number representing `15`.
pub type N15 = Suc<N14>;

impl Nat for N15 {
    type IxArray = [usize; 15];

    open spec fn spec_value() -> nat {
        15
    }

    #[inline]
    fn value() -> (v: usize)
        ensures
            v == 15,
    {
        15
    }

    proof fn lemma_ix_array_len(a: Self::IxArray) {
    }

    proof fn lemma_value_bound() {
    }
}

impl PosNat for N15 {
    type Pre = N14;

    proof fn lemma_pre_value() {
    }
}

/// Type-level natural number representing `16`.
pub type N16 = Suc<N15>;

impl Nat for N16 {
    type IxArray = [usize; 16];

    open spec fn spec_value() -> nat {
        16
    }

    #[inline]
    fn value() -> (v: usize)
        ensures
            v == 16,
    {
        16
    }

    proof fn lemma_ix_array_len(a: Self::IxArray) {
    }

    proof fn lemma_value_bound() {
    }
}

impl PosNat for N16 {
    type Pre = N15;

    proof fn lemma_pre_value() {
    }
}

/// Type-level natural number representing `17`.
pub type N17 = Suc<N16>;

impl Nat for N17 {
    type IxArray = [usize; 17];

    open spec fn spec_value() -> nat {
        17
    }

    #[inline]
    fn value() -> (v: usize)
        ensures
            v == 17,
    {
        17
    }

    proof fn lemma_ix_array_len(a: Self::IxArray) {
    }

    proof fn lemma_value_bound() {
    }
}

impl PosNat for N17 {
    type Pre = N16;

    proof fn lemma_pre_value() {
    }
}

/// Type-level natural number representing `18`.
pub type N18 = Suc<N17>;

impl Nat for N18 {
    type IxArray = [usize; 18];

    open spec fn spec_value() -> nat {
        18
    }

    #[inline]
    fn value() -> (v: usize)
        ensures
            v == 18,
    {
        18
    }

    proof fn lemma_ix_array_len(a: Self::IxArray) {
    }

    proof fn lemma_value_bound() {
    }
}

impl PosNat for N18 {
    type Pre = N17;

    proof fn lemma_pre_value() {
    }
}

/// Type-level natural number representing `19`.
pub type N19 = Suc<N18>;

impl Nat for N19 {
    type IxArray = [usize; 19];

    open spec fn spec_value() -> nat {
        19
    }

    #[inline]
    fn value() -> (v: usize)
        ensures
            v == 19,
    {
        19
    }

    proof fn lemma_ix_array_len(a: Self::IxArray) {
    }

    proof fn lemma_value_bound() {
    }
}

impl PosNat for N19 {
    type Pre = N18;

    proof fn lemma_pre_value() {
    }
}

/// Type-level natural number representing `20`.
pub type N20 = Suc<N19>;

impl Nat for N20 {
    type IxArray = [usize; 20];

    open spec fn spec_value() -> nat {
        20
    }

    #[inline]
    fn value() -> (v: usize)
        ensures
            v == 20,
    {
        20
    }

    proof fn lemma_ix_array_len(a: Self::IxArray) {
    }

    proof fn lemma_value_bound() {
    }
}

impl PosNat for N20 {
    type Pre = N19;

    proof fn lemma_pre_value() {
    }
}

/// Type-level natural number representing `21`.
pub type N21 = Suc<N20>;

impl Nat for N21 {
    type IxArray = [usize; 21];

    open spec fn spec_value() -> nat {
        21
    }

    #[inline]
    fn value() -> (v: usize)
        ensures
            v == 21,
    {
        21
    }

    proof fn lemma_ix_array_len(a: Self::IxArray) {
    }

    proof fn lemma_value_bound() {
    }
}

impl PosNat for N21 {
    type Pre = N20;

    proof fn lemma_pre_value() {
    }
}

/// Type-level natural number representing `22`.
pub type N22 = Suc<N21>;

impl Nat for N22 {
    type IxArray = [usize; 22];

    open spec fn spec_value() -> nat {
        22
    }

    #[inline]
    fn value() -> (v: usize)
        ensures
            v == 22,
    {
        22
    }

    proof fn lemma_ix_array_len(a: Self::IxArray) {
    }

    proof fn lemma_value_bound() {
    }
}

impl PosNat for N22 {
    type Pre = N21;

    proof fn lemma_pre_value() {
    }
}

/// Type-level natural number representing `23`.
pub type N23 = Suc<N22>;

impl Nat for N23 {
    type IxArray = [usize; 23];

    open spec fn spec_value() -> nat {
        23
    }

    #[inline]
    fn value() -> (v: usize)
        ensures
            v == 23,
    {
        23
    }

    proof fn lemma_ix_array_len(a: Self::IxArray) {
    }

    proof fn lemma_value_bound() {
    }
}

impl PosNat for N23 {
    type Pre = N22;

    proof fn lemma_pre_value() {
    }
}

/// Type-level natural number representing `24`.
pub type N24 = Suc<N23>;

impl Nat for N24 {
    type IxArray = [usize; 24];

    open spec fn spec_value() -> nat {
        24
    }

    #[inline]
    fn value() -> (v: usize)
        ensures
            v == 24,
    {
        24
    }

    proof fn lemma_ix_array_len(a: Self::IxArray) {
    }

    proof fn lemma_value_bound() {
    }
}

impl PosNat for N24 {
    type Pre = N23;

    proof fn lemma_pre_value() {
    }
}

/// Type-level natural number representing `25`.
pub type N25 = Suc<N24>;

impl Nat for N25 {
    type IxArray = [usize; 25];

    open spec fn spec_value() -> nat {
        25
    }

    #[inline]
    fn value() -> (v: usize)
        ensures
            v == 25,
    {
        25
    }

    proof fn lemma_ix_array_len(a: Self::IxArray) {
    }

    proof fn lemma_value_bound() {
    }
}

impl PosNat for N25 {
    type Pre = N24;

    proof fn lemma_pre_value() {
    }
}

/// Type-level natural number representing `26`.
pub type N26 = Suc<N25>;

impl Nat for N26 {
    type IxArray = [usize; 26];

    open spec fn spec_value() -> nat {
        26
    }

    #[inline]
    fn value() -> (v: usize)
        ensures
            v == 26,
    {
        26
    }

    proof fn lemma_ix_array_len(a: Self::IxArray) {
    }

    proof fn lemma_value_bound() {
    }
}

impl PosNat for N26 {
    type Pre = N25;

    proof fn lemma_pre_value() {
    }
}

/// Type-level natural number representing `27`.
pub type N27 = Suc<N26>;

impl Nat for N27 {
    type IxArray = [usize; 27];

    open spec fn spec_value() -> nat {
        27
    }

    #[inline]
    fn value() -> (v: usize)
        ensures
            v == 27,
    {
        27
    }

    proof fn lemma_ix_array_len(a: Self::IxArray) {
    }

    proof fn lemma_value_bound() {
    }
}

impl PosNat for N27 {
    type Pre = N26;

    proof fn lemma_pre_value() {
    }
}

/// Type-level natural number representing `28`.
pub type N28 = Suc<N27>;

impl Nat for N28 {
    type IxArray = [usize; 28];

    open spec fn spec_value() -> nat {
        28
    }

    #[inline]
    fn value() -> (v: usize)
        ensures
            v == 28,
    {
        28
    }

    proof fn lemma_ix_array_len(a: Self::IxArray) {
    }

    proof fn lemma_value_bound() {
    }
}

impl PosNat for N28 {
    type Pre = N27;

    proof fn lemma_pre_value() {
    }
}

/// Type-level natural number representing `29`.
pub type N29 = Suc<N28>;

impl Nat for N29 {
    type IxArray = [usize; 29];

    open spec fn spec_value() -> nat {
        29
    }

    #[inline]
    fn value() -> (v: usize)
        ensures
            v == 29,
    {
        29
    }

    proof fn lemma_ix_array_len(a: Self::IxArray) {
    }

    proof fn lemma_value_bound() {
    }
}

impl PosNat for N29 {
    type Pre = N28;

    proof fn lemma_pre_value() {
    }
}

/// Type-level natural number representing `30`.
pub type N30 = Suc<N29>;

impl Nat for N30 {
    type IxArray = [usize; 30];

    open spec fn spec_value() -> nat {
        30
    }

    #[inline]
    fn value() -> (v: usize)
        ensures
            v == 30,
    {
        30
    }

    proof fn lemma_ix_array_len(a: Self::IxArray) {
    }

    proof fn lemma_value_bound() {
    }
}

impl PosNat for N30 {
    type Pre = N29;

    proof fn lemma_pre_value() {
    }
}

/// Type-level natural number representing `31`.
pub type N31 = Suc<N30>;

impl Nat for N31 {
    type IxArray = [usize; 31];

    open spec fn spec_value() -> nat {
        31
    }

    #[inline]
    fn value() -> (v: usize)
        ensures
            v == 31,
    {
        31
    }

    proof fn lemma_ix_array_len(a: Self::IxArray) {
    }

    proof fn lemma_value_bound() {
    }
}

impl PosNat for N31 {
    type Pre = N30;

    proof fn lemma_pre_value() {
    }
}

/// Type-level natural number representing `32`.
pub type N32 = Suc<N31>;

impl Nat for N32 {
    type IxArray = [usize; 32];

    open spec fn spec_value() -> nat {
        32
    }

    #[inline]
    fn value() -> (v: usize)
        ensures
            v == 32,
    {
        32
    }

    proof fn lemma_ix_array_len(a: Self::IxArray) {
    }

    proof fn lemma_value_bound() {
    }
}

impl PosNat for N32 {
    type Pre = N31;

    proof fn lemma_pre_value() {
    }
}

} // verus!
