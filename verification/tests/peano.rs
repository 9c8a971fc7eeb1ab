use lambek::peano::{succ, Nat, S, Z};
use std::marker::PhantomData;

fn same_type<T>(_left: &T, _right: &T) {}

#[test]
fn the_successor_of_a_number_is_the_next_type() {
    let zero = Z::new();
    let one: S<Z> = succ(zero);
    let two: S<S<Z>> = succ(one);
    same_type(&two, &<S<S<Z>> as Nat>::new());
    same_type(&one, &S(PhantomData));
    assert_eq!(std::mem::size_of_val(&two), 0);
}

#[test]
fn numbers_can_be_copied() {
    let one: S<Z> = S::new();
    let copy = one;
    let clone = one.clone();
    same_type(&copy, &clone);
    same_type(&one, &clone);
}
