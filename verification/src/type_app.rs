//! Unary type application, the kind `Type -> Type`.
//!
//! A witness `F: TypeCon` stands for an unapplied type constructor. `F:
//! TypeApp<'a, X>` names the type that `F` yields for the argument `X`, and
//! `App<'a, F, X>` owns a value of that type without naming it.
use core::convert::Infallible;
use core::marker::PhantomData;
use vstd::prelude::*;

pub mod base;
pub mod compose;
pub mod dynamic;
pub mod generic;
pub mod identity;

pub use base::{Applied, TypeApp, TypeCon};
pub use dynamic::{App, HasTypeApp};
pub use compose::{Compose, ComposeApp};
pub use generic::{
    lemma_recovery_agrees, with_type_app_witness, GetApplied, TypeAppCont, TypeAppGeneric,
    TypeAppGenericUnsized, TypeAppWitness,
};
pub use identity::Identity;

verus! {

/// `Const<A>` applied to any `X` is `A`: the argument is dropped.
pub struct Const<A: ?Sized>(PhantomData<A>);

impl<A: ?Sized> TypeCon for Const<A> {

}

impl<'a, A: ?Sized, X: ?Sized> TypeApp<'a, X> for Const<A> {
    type Applied = A;
}

/// `AppF<F>` applied to `X` is the handle `App<'a, F, X>`.
pub struct AppF<F: ?Sized>(PhantomData<F>);

impl<F: ?Sized> TypeCon for AppF<F> {

}

impl<'a, X: 'a + ?Sized, F: 'a + ?Sized> TypeApp<'a, X> for AppF<F> {
    type Applied = App<'a, F, X>;

    open spec fn count(applied: &App<'a, F, X>) -> nat {
        applied.count()
    }

    open spec fn element<'r>(applied: &'r App<'a, F, X>, i: int) -> &'r X {
        applied.element(i)
    }
}

/// `VecF` applied to `X` is `Vec<X>`.
pub struct VecF(Infallible);

impl TypeCon for VecF {

}

impl<'a, X> TypeApp<'a, X> for VecF {
    type Applied = Vec<X>;

    open spec fn count(applied: &Vec<X>) -> nat {
        applied@.len()
    }

    open spec fn element(applied: &Vec<X>, i: int) -> &X {
        &applied@[i]
    }
}

impl TypeAppGeneric for VecF {
    fn with_type_app<'a, X: 'a, R: 'a, Cont: 'a>(cont: Box<Cont>) -> (r: R) where
        Self: 'a,
        Cont: TypeAppCont<'a, Self, X, R>,
     {
        cont.on_type_app()
    }
}

/// `OptionF` applied to `X` is `Option<X>`.
pub struct OptionF(Infallible);

impl TypeCon for OptionF {

}

impl<'a, X> TypeApp<'a, X> for OptionF {
    type Applied = Option<X>;

    open spec fn count(applied: &Option<X>) -> nat {
        if applied is Some {
            1
        } else {
            0
        }
    }

    open spec fn element(applied: &Option<X>, i: int) -> &X {
        &applied->0
    }
}

impl TypeAppGeneric for OptionF {
    fn with_type_app<'a, X: 'a, R: 'a, Cont: 'a>(cont: Box<Cont>) -> (r: R) where
        Self: 'a,
        Cont: TypeAppCont<'a, Self, X, R>,
     {
        cont.on_type_app()
    }
}

/// `ResultF<E>` applied to `X` is `Result<X, E>`.
pub struct ResultF<E>(PhantomData<E>);

impl<E> TypeCon for ResultF<E> {

}

impl<'a, E, X> TypeApp<'a, X> for ResultF<E> {
    type Applied = Result<X, E>;

    open spec fn count(applied: &Result<X, E>) -> nat {
        if applied is Ok {
            1
        } else {
            0
        }
    }

    open spec fn element(applied: &Result<X, E>, i: int) -> &X {
        &applied->Ok_0
    }
}

impl<F> TypeAppGeneric for F where F: TypeAppGenericUnsized {
    fn with_type_app<'a, X: 'a, R: 'a, Cont: 'a>(cont: Box<Cont>) -> (r: R) where
        Self: 'a,
        Cont: TypeAppCont<'a, Self, X, R>,
     {
        <F as TypeAppGenericUnsized>::with_type_app(cont)
    }
}

/// A constructor whose handles can be duplicated. The duplicate holds the
/// values that the handle holds.
pub trait CloneApp: TypeCon {
    fn clone_app<'a, X: 'a>(fx: &App<'a, Self, X>) -> (copy: App<'a, Self, X>)
        ensures
            copy.count() == fx.count(),
            forall|i: int| #[trigger] copy.element(i) == fx.element(i),
    ;
}

/// The payload of a handle made by [`wrap_app`].
struct Wrapped<FX>(FX);

impl<'a, F: 'a, X: 'a + ?Sized, FX: 'a> HasTypeApp<'a, F, X> for Wrapped<FX> where
    F: TypeApp<'a, X, Applied = FX>,
 {
    closed spec fn applied(&self) -> &FX {
        &self.0
    }

    closed spec fn count(&self) -> nat {
        F::count(&self.0)
    }

    closed spec fn element(&self, i: int) -> &X {
        F::element(&self.0, i)
    }

    fn get_applied_box(self: Box<Self>) -> Box<FX> {
        let inner = *self;
        Box::new(inner.0)
    }

    fn get_applied_borrow(&self) -> &FX {
        &self.0
    }

    fn get_applied_borrow_mut(&mut self) -> &mut FX {
        &mut self.0
    }

    fn with_type_app<'b>(&self, cont: Box<dyn TypeAppCont<'a, F, X, ()> + 'b>) where 'a: 'b {
        cont.on_type_app()
    }
}

/// Wraps a value of the applied type into a handle. The proof that `F`
/// applied to `X` is `FX` is needed here and again where the value is taken
/// out; nothing in between has to state it.
pub fn wrap_app<'a, F: 'a, X: 'a + ?Sized, FX: 'a>(fx: FX) -> (app: App<'a, F, X>) where
    F: TypeApp<'a, X, Applied = FX>,

    ensures
        app.applied() == fx,
        app.count() == F::count(&fx),
        forall|i: int| #[trigger] app.element(i) == F::element(&fx, i),
{
    App(Box::new(Wrapped(fx)))
}

/// Round trip: where `app` is what `wrap_app` returns for `fx` and `out`
/// is what `get_applied` returns for `app`, `out` is `fx`.
pub proof fn lemma_wrap_get_applied<'a, F: 'a, X: 'a, FX: 'a>(fx: FX, app: App<'a, F, X>, out: FX) where
    F: TypeApp<'a, X, Applied = FX>,

    requires
        call_ensures(wrap_app::<F, X, FX>, (fx,), app),
        call_ensures(App::<'a, F, X>::get_applied, (app,), out),
    ensures
        out == fx,
{
}

/// A borrow leaves the handle as it was: what two calls of
/// `get_applied_borrow` on one handle return is the same.
pub proof fn lemma_borrows_agree<'a, F: 'a, X: 'a, FX: 'a>(
    app: App<'a, F, X>,
    first: &FX,
    second: &FX,
) where F: TypeApp<'a, X, Applied = FX>
    requires
        call_ensures(App::<'a, F, X>::get_applied_borrow, (&app,), first),
        call_ensures(App::<'a, F, X>::get_applied_borrow, (&app,), second),
    ensures
        first == second,
{
}

/// What is written through a mutable borrow of a handle is what the next
/// borrow of that handle shows, and what is taken out of it in the end:
/// where `borrow` is what `get_applied_borrow_mut` returns for `handle`,
/// and `read` and `out` are what `get_applied_borrow` and `get_applied`
/// return for the handle once that borrow has ended, both are what the
/// borrow held in the end. The borrow is of the one handle, so no other
/// handle changes.
pub proof fn lemma_write_is_read_back<'a, 'b, F: 'a, X: 'a, FX: 'a>(
    handle: &'b mut App<'a, F, X>,
    borrow: &'b mut FX,
    read: &FX,
    out: FX,
) where F: TypeApp<'a, X, Applied = FX>
    requires
        call_ensures(App::<'a, F, X>::get_applied_borrow_mut, (old(handle),), old(borrow)),
        call_ensures(App::<'a, F, X>::get_applied_borrow, (&*final(old(handle)),), read),
        call_ensures(App::<'a, F, X>::get_applied, (*final(old(handle)),), out),
    ensures
        *read == *final(old(borrow)),
        out == *final(old(borrow)),
{
}

} // verus!
