use vstd::prelude::*;

verus! {

/// Marks a witness type as standing for a type constructor of kind
/// `Type -> Type`. A witness carries no data and exists only to be named.
pub trait TypeCon {

}

/// `F: TypeApp<'a, X>` records that the constructor named by `F`, applied to
/// `X`, is the type `Applied`, in the region `'a`. A handle of the
/// application asks that the witness, the argument and the applied value
/// all live that long.
///
/// `count` and `element` are the values of the argument type that an
/// applied value holds, in the order in which a map goes through them: the
/// elements of a vector, what an option holds if it holds anything. A
/// constructor that says nothing of them holds none. A handle shows them
/// under the same names, also to those who do not hold the proof of the
/// application.
pub trait TypeApp<'a, X: ?Sized>: TypeCon {
    type Applied: ?Sized;

    /// How many values of `X` the applied value holds.
    open spec fn count(applied: &Self::Applied) -> nat {
        0
    }

    /// The `i`-th value of `X` that the applied value holds, for `i` below
    /// `count`.
    open spec fn element(applied: &Self::Applied, i: int) -> &X {
        arbitrary()
    }
}

pub type Applied<'a, F, X> = <F as TypeApp<'a, X>>::Applied;

} // verus!
