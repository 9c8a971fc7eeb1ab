//! Natural transformations, `forall x. f x -> g x`.
use crate::type_app::{App, TypeAppGeneric, TypeCon};
use vstd::prelude::*;

verus! {

/// Every value that `gx` holds is one that `fx` holds.
pub open spec fn takes_from<'a, F: ?Sized, G: ?Sized, X>(
    fx: &App<'a, F, X>,
    gx: &App<'a, G, X>,
) -> bool {
    forall|j: int|
        #![trigger gx.element(j)]
        0 <= j < gx.count() ==> exists|i: int|
            #![trigger fx.element(i)]
            0 <= i < fx.count() && gx.element(j) == fx.element(i)
}

/// A way to turn a handle of `F` applied to any `X` into a handle of `G`
/// applied to the same `X`. The transformation itself is held under `Ref`.
///
/// A transformation knows nothing of `X`, so it cannot make a value of it:
/// the values that its result holds are all taken from its argument. Which
/// of them it keeps, and in what order, is for each transformation to say.
pub trait NaturalTransformation<Ref, F, G> where
    Ref: TypeCon,
    F: TypeAppGeneric,
    G: TypeAppGeneric,
 {
    fn lift<'a, 'b, X>(trans: App<'b, Ref, Self>, fx: App<'a, F, X>) -> (gx: App<'a, G, X>) where
        'a: 'b,

        ensures
            takes_from(&fx, &gx),
    ;
}

} // verus!
