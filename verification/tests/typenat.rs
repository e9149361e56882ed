use multi_array::{Nat, PosNat, Suc, N0, N1, N31, N32};

#[test]
fn n0_value_is_0() {
    assert_eq!(<N0 as Nat>::value(), 0);
}

#[test]
fn n0_array_is_assignable() {
    let _: <N0 as Nat>::IxArray = [0usize; 0];
}

#[test]
fn n0_suc_value_is_1() {
    assert_eq!(<Suc<N0> as Nat>::value(), 1);
}

#[test]
fn n1_value_is_1() {
    assert_eq!(<N1 as Nat>::value(), 1);
}

#[test]
fn n1_array_is_assignable() {
    let _: <N1 as Nat>::IxArray = [0usize; 1];
}

#[test]
fn n1_pre_value_is_0() {
    assert_eq!(<<N1 as PosNat>::Pre as Nat>::value(), 0);
}

#[test]
fn n1_suc_value_is_2() {
    assert_eq!(<Suc<N1> as Nat>::value(), 2);
}

#[test]
fn n31_value_is_31() {
    assert_eq!(<N31 as Nat>::value(), 31);
}

#[test]
fn n31_array_is_assignable() {
    let _: <N31 as Nat>::IxArray = [0usize; 31];
}

#[test]
fn n31_pre_value_is_30() {
    assert_eq!(<<N31 as PosNat>::Pre as Nat>::value(), 30);
}

#[test]
fn n31_suc_value_is_32() {
    assert_eq!(<Suc<N31> as Nat>::value(), 32);
}

#[test]
fn n32_value_is_32() {
    assert_eq!(<N32 as Nat>::value(), 32);
}

#[test]
fn n32_array_is_assignable() {
    let _: <N32 as Nat>::IxArray = [0usize; 32];
}

#[test]
fn n32_pre_value_is_30() {
    assert_eq!(<<N32 as PosNat>::Pre as Nat>::value(), 31);
}
