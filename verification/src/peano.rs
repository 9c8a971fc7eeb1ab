//! Natural numbers as types.
use core::marker::PhantomData;
use vstd::prelude::*;

verus! {

/// A type that stands for a natural number and has exactly one value.
pub trait Nat: Sized {
    /// The number that the type stands for.
    spec fn number() -> nat;

    /// The one value of the type.
    spec fn value() -> Self;

    fn new() -> (n: Self)
        ensures
            n == Self::value(),
    ;
}

/// Zero.
#[derive(Copy, Clone)]
pub struct Z;

/// The successor of `N`.
pub struct S<N>(pub PhantomData<N>);

impl<N> Clone for S<N> {
    fn clone(&self) -> (s: Self)
        ensures
            s == *self,
    {
        S(PhantomData)
    }
}

impl<N> Copy for S<N> {

}

impl Nat for Z {
    open spec fn number() -> nat {
        0
    }

    open spec fn value() -> Z {
        Z
    }

    fn new() -> Z {
        Z
    }
}

impl<N> Nat for S<N> where N: Nat {
    open spec fn number() -> nat {
        N::number() + 1
    }

    open spec fn value() -> S<N> {
        S(PhantomData)
    }

    fn new() -> S<N> {
        S(PhantomData)
    }
}

/// The value of the type that follows `N`.
pub fn succ<N>(_n: N) -> (s: S<N>)
    ensures
        s == S::<N>(PhantomData),
{
    S(PhantomData)
}

} // verus!
