//! The constraint "can be sent to another thread", as a constraint kind.
use crate::bi_type_app::{
    wrap_bi_app_box, BiApp, BiTypeApp, BiTypeAppGeneric, BiTypeAppGenericCont, BiTypeCon,
};
use crate::constraint::HasConstraint;
use crate::type_app::{TypeApp, TypeAppCont, TypeAppGeneric, TypeCon};
use core::convert::Infallible;
use core::marker::PhantomData;
use vstd::prelude::*;

verus! {

/// Names the constraint `Send`.
pub struct SendConstraint(Infallible);

/// A one-shot continuation that can only run where `X: Send` has been
/// established. `cont_ensures` relates it to what it returns. It can be run
/// whenever the constraint holds: it asks for nothing else.
pub trait SendCont<X: ?Sized, R> {
    open spec fn cont_ensures(&self, r: R) -> bool {
        true
    }

    fn on_send(self: Box<Self>) -> (r: R) where X: Send
        ensures
            self.cont_ensures(r),
    ;
}

/// `SendContF<X>` applied to `R` is a boxed continuation that asks for
/// `X: Send` and returns an `R`.
pub struct SendContF<X>(PhantomData<X>);

impl<X> TypeCon for SendContF<X> {

}

impl<'a, X, R> TypeApp<'a, R> for SendContF<X> {
    type Applied = Box<dyn SendCont<X, R> + 'a>;
}

impl<A> TypeAppGeneric for SendContF<A> {
    fn with_type_app<'a, X: 'a, R: 'a, Cont: 'a>(cont: Box<Cont>) -> (r: R) where
        Self: 'a,
        Cont: TypeAppCont<'a, Self, X, R>,
     {
        cont.on_type_app()
    }
}

impl BiTypeCon for SendConstraint {

}

impl<'a, X: ?Sized, R> BiTypeApp<'a, X, R> for SendConstraint {
    type Applied = dyn SendCont<X, R> + 'a;

    open spec fn relation(
        applied: &(dyn SendCont<X, R> + 'a),
        past: Seq<(&X, &R)>,
        x: &X,
        y: &R,
    ) -> bool {
        applied.cont_ensures(*y)
    }
}

impl BiTypeAppGeneric for SendConstraint {
    fn with_type_app<'a, X: 'a, Y: 'a, R: 'a, Cont>(cont: Cont) -> (r: R) where
        Self: 'a,
        Cont: BiTypeAppGenericCont<'a, Self, X, Y, R>,
     {
        cont.on_type_app()
    }
}

impl<X: ?Sized> HasConstraint<X> for SendConstraint where X: Send {
    /// Runs the continuation that the handle holds.
    fn with_constraint<'a, R: 'a>(cont: BiApp<'a, Self, X, R>) -> (r: R) where X: 'a
        ensures
            cont.applied().cont_ensures(r),
    {
        cont.get_applied_box().on_send()
    }
}

/// A continuation of a type that the caller chose, in the form in which a
/// handle holds it.
struct Carried<Cont>(Cont);

impl<X: ?Sized, R, Cont: SendCont<X, R>> SendCont<X, R> for Carried<Cont> {
    closed spec fn cont_ensures(&self, r: R) -> bool {
        self.0.cont_ensures(r)
    }

    fn on_send(self: Box<Self>) -> (r: R) where X: Send {
        let carried = *self;
        Box::new(carried.0).on_send()
    }
}

/// Runs `cont` under the proof that `X` can be sent to another thread.
pub fn with_send_constraint<'a, X: 'a + ?Sized, R: 'a, Cont: 'a>(cont: Cont) -> (r: R) where
    X: Send,
    Cont: SendCont<X, R>,

    ensures
        cont.cont_ensures(r),
{
    let boxed: Box<dyn SendCont<X, R> + 'a> = Box::new(Carried(cont));
    <SendConstraint as HasConstraint<X>>::with_constraint(wrap_bi_app_box(boxed))
}

} // verus!
