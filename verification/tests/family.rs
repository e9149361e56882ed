use std::marker::PhantomData;

use multi_array::{
    Nat, PosNat, Suc, USIndex, MAX_VALUE, N0, N1, N10, N11, N12, N13, N14, N15, N16, N17, N18,
    N19, N2, N20, N21, N22, N23, N24, N25, N26, N27, N28, N29, N3, N30, N31, N32, N4, N5, N6, N7,
    N8, N9,
};

fn values() -> Vec<usize> {
    vec![
        N0::value(),
        N1::value(),
        N2::value(),
        N3::value(),
        N4::value(),
        N5::value(),
        N6::value(),
        N7::value(),
        N8::value(),
        N9::value(),
        N10::value(),
        N11::value(),
        N12::value(),
        N13::value(),
        N14::value(),
        N15::value(),
        N16::value(),
        N17::value(),
        N18::value(),
        N19::value(),
        N20::value(),
        N21::value(),
        N22::value(),
        N23::value(),
        N24::value(),
        N25::value(),
        N26::value(),
        N27::value(),
        N28::value(),
        N29::value(),
        N30::value(),
        N31::value(),
        N32::value(),
    ]
}

fn pre_values() -> Vec<usize> {
    vec![
        <N1 as PosNat>::Pre::value(),
        <N2 as PosNat>::Pre::value(),
        <N3 as PosNat>::Pre::value(),
        <N4 as PosNat>::Pre::value(),
        <N5 as PosNat>::Pre::value(),
        <N6 as PosNat>::Pre::value(),
        <N7 as PosNat>::Pre::value(),
        <N8 as PosNat>::Pre::value(),
        <N9 as PosNat>::Pre::value(),
        <N10 as PosNat>::Pre::value(),
        <N11 as PosNat>::Pre::value(),
        <N12 as PosNat>::Pre::value(),
        <N13 as PosNat>::Pre::value(),
        <N14 as PosNat>::Pre::value(),
        <N15 as PosNat>::Pre::value(),
        <N16 as PosNat>::Pre::value(),
        <N17 as PosNat>::Pre::value(),
        <N18 as PosNat>::Pre::value(),
        <N19 as PosNat>::Pre::value(),
        <N20 as PosNat>::Pre::value(),
        <N21 as PosNat>::Pre::value(),
        <N22 as PosNat>::Pre::value(),
        <N23 as PosNat>::Pre::value(),
        <N24 as PosNat>::Pre::value(),
        <N25 as PosNat>::Pre::value(),
        <N26 as PosNat>::Pre::value(),
        <N27 as PosNat>::Pre::value(),
        <N28 as PosNat>::Pre::value(),
        <N29 as PosNat>::Pre::value(),
        <N30 as PosNat>::Pre::value(),
        <N31 as PosNat>::Pre::value(),
        <N32 as PosNat>::Pre::value(),
    ]
}

fn slots<T: Nat>() -> usize {
    std::mem::size_of::<T::IxArray>() / std::mem::size_of::<usize>()
}

fn fill<A: USIndex>(a: &mut A, len: usize) {
    for i in 0..len {
        *a.us_index_mut(i) = 100 + i;
    }
}

fn read_both<A: USIndex>(a: &A, len: usize) {
    for i in 0..len {
        assert_eq!(*a.us_index(i), 100 + i);
        assert_eq!(*a.us_index_unchecked(i), 100 + i);
    }
}

#[test]
fn every_value_is_its_number() {
    let got = values();
    assert_eq!(got.len(), 33);
    for (k, v) in got.iter().enumerate() {
        assert_eq!(*v, k);
    }
}

#[test]
fn max_value_is_32() {
    assert_eq!(MAX_VALUE, 32);
    assert_eq!(N32::value(), MAX_VALUE);
}

#[test]
fn every_predecessor_is_one_less() {
    let got = pre_values();
    assert_eq!(got.len(), 32);
    for (j, v) in got.iter().enumerate() {
        assert_eq!(*v, j);
        assert_eq!(*v + 1, values()[j + 1]);
    }
}

#[test]
fn successor_is_one_more() {
    assert_eq!(<Suc<N0> as Nat>::value(), N0::value() + 1);
    assert_eq!(<Suc<N4> as Nat>::value(), 5);
    assert_eq!(<Suc<N15> as Nat>::value(), 16);
    assert_eq!(<Suc<N31> as Nat>::value(), 32);
}

#[test]
fn predecessor_then_successor_round_trip() {
    assert_eq!(<Suc<<N1 as PosNat>::Pre> as Nat>::value(), 1);
    assert_eq!(<Suc<<N17 as PosNat>::Pre> as Nat>::value(), 17);
    assert_eq!(<Suc<<N32 as PosNat>::Pre> as Nat>::value(), 32);
}

#[test]
fn successor_then_predecessor_round_trip() {
    assert_eq!(<<Suc<N0> as PosNat>::Pre as Nat>::value(), 0);
    assert_eq!(<<Suc<N16> as PosNat>::Pre as Nat>::value(), 16);
    assert_eq!(<<Suc<N31> as PosNat>::Pre as Nat>::value(), 31);
}

#[test]
fn index_array_has_value_many_slots() {
    assert_eq!(slots::<N0>(), 0);
    assert_eq!(slots::<N1>(), 1);
    assert_eq!(slots::<N2>(), 2);
    assert_eq!(slots::<N3>(), 3);
    assert_eq!(slots::<N8>(), 8);
    assert_eq!(slots::<N16>(), 16);
    assert_eq!(slots::<N31>(), 31);
    assert_eq!(slots::<N32>(), 32);
}

#[test]
fn n5_scenario() {
    assert_eq!(<N5 as Nat>::value(), 5);
    let a: <N5 as Nat>::IxArray = [10, 20, 30, 40, 50];
    assert_eq!(a.len(), 5);
    assert_eq!(<<N5 as PosNat>::Pre as Nat>::value(), 4);
    assert_eq!(<Suc<<N5 as PosNat>::Pre> as Nat>::value(), 5);
}

#[test]
fn checked_and_unchecked_read_the_same_slot() {
    let a: <N5 as Nat>::IxArray = [10, 20, 30, 40, 50];
    for i in 0..N5::value() {
        assert_eq!(*a.us_index(i), (i + 1) * 10);
        assert_eq!(*a.us_index_unchecked(i), (i + 1) * 10);
        assert_eq!(a.us_index(i), a.us_index_unchecked(i));
    }
}

#[test]
fn read_at_each_end() {
    let a: <N32 as Nat>::IxArray = [
        0, 1, 2, 3, 4, 5, 6, 7, 8, 9, 10, 11, 12, 13, 14, 15, 16, 17, 18, 19, 20, 21, 22, 23, 24,
        25, 26, 27, 28, 29, 30, 31,
    ];
    assert_eq!(*a.us_index(0), 0);
    assert_eq!(*a.us_index(31), 31);
    assert_eq!(*a.us_index_unchecked(0), 0);
    assert_eq!(*a.us_index_unchecked(31), 31);
    let one: <N1 as Nat>::IxArray = [77];
    assert_eq!(*one.us_index(0), 77);
    assert_eq!(*one.us_index_unchecked(0), 77);
}

#[test]
fn checked_write_then_read() {
    let mut a: <N3 as Nat>::IxArray = [1, 2, 3];
    *a.us_index_mut(1) = 42;
    assert_eq!(*a.us_index(1), 42);
    assert_eq!(*a.us_index_unchecked(1), 42);
    assert_eq!(a, [1, 42, 3]);
}

#[test]
fn unchecked_write_then_read() {
    let mut a: <N3 as Nat>::IxArray = [1, 2, 3];
    *a.us_index_unchecked_mut(2) = 7;
    assert_eq!(*a.us_index(2), 7);
    assert_eq!(*a.us_index_unchecked(2), 7);
    assert_eq!(a, [1, 2, 7]);
}

#[test]
fn mutable_reference_starts_at_the_stored_value() {
    let mut a: <N2 as Nat>::IxArray = [5, 6];
    assert_eq!(*a.us_index_mut(0), 5);
    assert_eq!(*a.us_index_unchecked_mut(1), 6);
    *a.us_index_mut(0) += 1;
    *a.us_index_unchecked_mut(1) += 1;
    assert_eq!(a, [6, 7]);
}

#[test]
fn write_and_read_every_slot_of_every_length() {
    let mut a1: <N1 as Nat>::IxArray = [0; 1];
    fill(&mut a1, N1::value());
    read_both(&a1, N1::value());
    let mut a2: <N2 as Nat>::IxArray = [0; 2];
    fill(&mut a2, N2::value());
    read_both(&a2, N2::value());
    let mut a9: <N9 as Nat>::IxArray = [0; 9];
    fill(&mut a9, N9::value());
    read_both(&a9, N9::value());
    assert_eq!(a9, [100, 101, 102, 103, 104, 105, 106, 107, 108]);
    let mut a31: <N31 as Nat>::IxArray = [0; 31];
    fill(&mut a31, N31::value());
    read_both(&a31, N31::value());
    let mut a32: <N32 as Nat>::IxArray = [0; 32];
    fill(&mut a32, N32::value());
    read_both(&a32, N32::value());
    assert_eq!(a32[31], 131);
}

#[test]
fn empty_index_array_has_nothing_to_fill() {
    let mut a0: <N0 as Nat>::IxArray = [];
    fill(&mut a0, N0::value());
    read_both(&a0, N0::value());
    assert_eq!(a0.len(), 0);
}

#[test]
fn index_array_is_copied_by_value() {
    let a: <N4 as Nat>::IxArray = [1, 2, 3, 4];
    let mut b = a;
    *b.us_index_mut(3) = 9;
    assert_eq!(*a.us_index(3), 4);
    assert_eq!(*b.us_index(3), 9);
    assert_eq!(format!("{:?}", a), "[1, 2, 3, 4]");
}

#[test]
fn markers_are_printable() {
    assert_eq!(format!("{:?}", N0), "N0");
    let one: N1 = Suc(PhantomData);
    assert_eq!(format!("{:?}", one), "Suc(PhantomData<multi_array::typenat::N0>)");
}

#[test]
fn markers_take_no_room_and_copy() {
    assert_eq!(std::mem::size_of::<N0>(), 0);
    assert_eq!(std::mem::size_of::<N32>(), 0);
    let two: N2 = Suc(PhantomData);
    let again = two;
    let cloned = two.clone();
    assert_eq!(format!("{:?}", again), format!("{:?}", cloned));
}
