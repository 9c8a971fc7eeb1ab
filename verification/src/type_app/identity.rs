use super::base::{TypeApp, TypeCon};
use super::generic::{TypeAppCont, TypeAppGeneric};
use core::convert::Infallible;
use vstd::prelude::*;

verus! {

/// The identity constructor: `Identity` applied to `X` is `X` itself.
pub struct Identity(Infallible);

impl TypeCon for Identity {

}

impl<'a, X: ?Sized> TypeApp<'a, X> for Identity {
    type Applied = X;

    open spec fn count(applied: &X) -> nat {
        1
    }

    open spec fn element(applied: &X, i: int) -> &X {
        applied
    }
}

impl TypeAppGeneric for Identity {
    fn with_type_app<'a, X: 'a, R: 'a, Cont: 'a>(cont: Box<Cont>) -> (r: R) where
        Self: 'a,
        Cont: TypeAppCont<'a, Self, X, R>,
     {
        cont.on_type_app()
    }
}

} // verus!
