//! Function types as applications of a binary constructor.
//!
//! `FunctionOnceF`, `FunctionMutF` and `FunctionF` applied to `A` and `B`
//! are the callables from `A` to `B` that may be called once, any number of
//! times through a mutable borrow, and any number of times through a shared
//! borrow. A handle of the last kind can be used as one of the second, and
//! one of the second as one of the first.
//!
//! A callable is an object with a relation `yields` between an argument
//! and what a call may return for it; one that states none may return
//! anything. It accepts every argument: a handle can be called by code that
//! knows nothing of where it came from.
//!
//! The relation of a handle of a function is what its callable yields, and
//! `apply`, `apply_mut` and `apply_once` return what the handle relates to
//! the argument. A callable that keeps a state yields what it does after
//! the calls made so far: what a call returns may depend on every call
//! before it, and each call says what the callable is afterwards by saying
//! that it goes on as the callable before would have after this call.
use crate::bi_type_app::{
    wrap_bi_app_box, BiApp, BiTypeApp, BiTypeAppGeneric, BiTypeAppGenericCont, BiTypeCon,
};
use core::convert::Infallible;
use core::marker::PhantomData;
use std::rc::Rc;
use vstd::prelude::*;

verus! {

/// Names the callables that can be called through a shared borrow and
/// duplicated.
pub struct FunctionF(Infallible);

/// Names the callables that can be called through a mutable borrow.
pub struct FunctionMutF(Infallible);

/// Names the callables that can be called once.
pub struct FunctionOnceF(Infallible);

/// A callable that is consumed by its call.
pub trait CallOnce<A, B> {
    /// `b` is a value that the call may return for `a`.
    open spec fn yields(&self, a: A, b: B) -> bool {
        true
    }

    fn call_once(self: Box<Self>, a: A) -> (b: B)
        ensures
            self.yields(a, b),
    ;
}

/// A callable that may change with each call.
///
/// `yields` is what the callable, as it is, may return once the calls in
/// `past` have been made on it: `past` holds their arguments and results,
/// oldest first. A call returns what the callable yields with nothing gone
/// before, and leaves a callable that yields, after any calls, only what
/// the old one yields after this call and those.
pub trait CallMut<A, B> {
    /// `b` is a value that a call may return for `a` after the calls in
    /// `past`.
    open spec fn yields(&self, past: Seq<(&A, &B)>, a: A, b: B) -> bool {
        true
    }

    fn call_mut(&mut self, a: A) -> (b: B)
        ensures
            old(self).yields(Seq::empty(), a, b),
            forall|past: Seq<(&A, &B)>, x: A, y: B| #[trigger]
                final(self).yields(past, x, y) ==> old(self).yields(
                    seq![(&a, &b)] + past,
                    x,
                    y,
                ),
    ;
}

/// A callable that a call leaves as it was, and that can be duplicated.
pub trait FnClone<A, B> {
    /// `b` is a value that a call may return for `a`.
    open spec fn yields(&self, a: A, b: B) -> bool {
        true
    }

    fn call(&self, a: A) -> (b: B)
        ensures
            self.yields(a, b),
    ;

    /// A handle of a duplicate of this callable. The duplicate returns what
    /// this callable returns: the handle relates what the callable yields.
    fn clone_fn<'a>(&self) -> (copy: BiApp<'a, FunctionF, A, B>) where Self: 'a, A: 'a, B: 'a
        ensures
            forall|past: Seq<(&A, &B)>, a: &A, b: &B| #[trigger]
                copy.relates(past, a, b) == self.yields(*a, *b),
    ;

    /// A handle of this callable: it relates what the callable yields.
    fn wrap_fn<'a>(self: Box<Self>) -> (app: BiApp<'a, FunctionF, A, B>) where
        Self: 'a,
        A: 'a,
        B: 'a,

        ensures
            forall|past: Seq<(&A, &B)>, a: &A, b: &B| #[trigger]
                app.relates(past, a, b) == self.yields(*a, *b),
    ;
}

impl BiTypeCon for FunctionF {

}

impl<'a, A, B> BiTypeApp<'a, A, B> for FunctionF {
    type Applied = dyn FnClone<A, B> + 'a;

    open spec fn relation(
        applied: &(dyn FnClone<A, B> + 'a),
        past: Seq<(&A, &B)>,
        x: &A,
        y: &B,
    ) -> bool {
        applied.yields(*x, *y)
    }
}

impl BiTypeAppGeneric for FunctionF {
    fn with_type_app<'a, X: 'a, Y: 'a, R: 'a, Cont>(cont: Cont) -> (r: R) where
        Self: 'a,
        Cont: BiTypeAppGenericCont<'a, Self, X, Y, R>,
     {
        cont.on_type_app()
    }
}

impl BiTypeCon for FunctionMutF {

}

impl<'a, A, B> BiTypeApp<'a, A, B> for FunctionMutF {
    type Applied = dyn CallMut<A, B> + 'a;

    open spec fn relation(
        applied: &(dyn CallMut<A, B> + 'a),
        past: Seq<(&A, &B)>,
        x: &A,
        y: &B,
    ) -> bool {
        applied.yields(past, *x, *y)
    }
}

impl BiTypeAppGeneric for FunctionMutF {
    fn with_type_app<'a, X: 'a, Y: 'a, R: 'a, Cont>(cont: Cont) -> (r: R) where
        Self: 'a,
        Cont: BiTypeAppGenericCont<'a, Self, X, Y, R>,
     {
        cont.on_type_app()
    }
}

impl BiTypeCon for FunctionOnceF {

}

impl<'a, A, B> BiTypeApp<'a, A, B> for FunctionOnceF {
    type Applied = dyn CallOnce<A, B> + 'a;

    open spec fn relation(
        applied: &(dyn CallOnce<A, B> + 'a),
        past: Seq<(&A, &B)>,
        x: &A,
        y: &B,
    ) -> bool {
        applied.yields(*x, *y)
    }
}

impl BiTypeAppGeneric for FunctionOnceF {
    fn with_type_app<'a, X: 'a, Y: 'a, R: 'a, Cont>(cont: Cont) -> (r: R) where
        Self: 'a,
        Cont: BiTypeAppGenericCont<'a, Self, X, Y, R>,
     {
        cont.on_type_app()
    }
}

/// A constructor of callables that can be called once.
pub trait IsFnOnce: BiTypeCon {
    /// Calls the function behind the handle, which is given up.
    fn apply_once<'a, A: 'a, B: 'a>(f: BiApp<'a, Self, A, B>, a: A) -> (b: B)
        ensures
            f.relates(Seq::empty(), &a, &b),
    ;
}

/// A constructor of callables that can be called through a mutable borrow.
pub trait IsFnMut: IsFnOnce {
    /// Calls the function behind the handle. The handle relates afterwards
    /// only what it related before to come after this call.
    fn apply_mut<'a, A: 'a, B: 'a>(f: &mut BiApp<'a, Self, A, B>, a: A) -> (b: B)
        ensures
            old(f).relates(Seq::empty(), &a, &b),
            forall|past: Seq<(&A, &B)>, x: &A, y: &B| #[trigger]
                final(f).relates(past, x, y) ==> old(f).relates(seq![(&a, &b)] + past, x, y),
    ;
}

/// A constructor of callables that can be called through a shared borrow.
pub trait IsFn: IsFnMut {
    /// Calls the function behind the handle, which is left as it was.
    fn apply<'a, A: 'a, B: 'a>(f: &BiApp<'a, Self, A, B>, a: A) -> (b: B)
        ensures
            f.relates(Seq::empty(), &a, &b),
    ;
}

impl IsFn for FunctionF {
    /// Calls the callable once. The handle is left as it was, and what it
    /// relates does not depend on the calls made before.
    fn apply<'a, A: 'a, B: 'a>(f: &BiApp<'a, Self, A, B>, a: A) -> (b: B)
        ensures
            f.applied().yields(a, b),
            forall|past: Seq<(&A, &B)>| f.relates(past, &a, &b),
    {
        f.get_applied_borrow().call(a)
    }
}

impl IsFnMut for FunctionF {
    /// Calls the callable once. The handle is left as it was.
    fn apply_mut<'a, A: 'a, B: 'a>(f: &mut BiApp<'a, Self, A, B>, a: A) -> (b: B)
        ensures
            old(f).applied().yields(a, b),
            *final(f) == *old(f),
    {
        f.get_applied_borrow().call(a)
    }
}

impl IsFnOnce for FunctionF {
    /// Calls the callable once and gives it up.
    fn apply_once<'a, A: 'a, B: 'a>(f: BiApp<'a, Self, A, B>, a: A) -> (b: B)
        ensures
            f.applied().yields(a, b),
    {
        f.get_applied_box().call(a)
    }
}

impl IsFnMut for FunctionMutF {
    /// Calls the callable once, as it is now, and leaves it as the call
    /// left it.
    fn apply_mut<'a, A: 'a, B: 'a>(f: &mut BiApp<'a, Self, A, B>, a: A) -> (b: B)
        ensures
            old(f).applied().yields(Seq::empty(), a, b),
            forall|past: Seq<(&A, &B)>, x: A, y: B| #[trigger]
                final(f).applied().yields(past, x, y) ==> old(f).applied().yields(
                    seq![(&a, &b)] + past,
                    x,
                    y,
                ),
    {
        f.get_applied_borrow_mut().call_mut(a)
    }
}

impl IsFnOnce for FunctionMutF {
    /// Calls the callable once and gives it up.
    fn apply_once<'a, A: 'a, B: 'a>(f: BiApp<'a, Self, A, B>, a: A) -> (b: B)
        ensures
            f.applied().yields(Seq::empty(), a, b),
    {
        let mut callable = f.get_applied_box();
        callable.call_mut(a)
    }
}

impl IsFnOnce for FunctionOnceF {
    /// Calls the callable, which is consumed.
    fn apply_once<'a, A: 'a, B: 'a>(f: BiApp<'a, Self, A, B>, a: A) -> (b: B)
        ensures
            f.applied().yields(a, b),
    {
        f.get_applied_box().call_once(a)
    }
}

/// `Rc::clone` of the standard library: another pointer to the value that
/// `rc` points to. The value itself is not duplicated, so the new pointer
/// shows the same value.
#[verifier::external_body]
fn share<T>(rc: &Rc<T>) -> (shared: Rc<T>)
    ensures
        shared == *rc,
{
    Rc::clone(rc)
}

/// A closure that accepts every argument, as a callable that can be
/// duplicated: every duplicate points to the one closure.
#[verifier::reject_recursive_types(A)]
#[verifier::reject_recursive_types(B)]
struct Shared<A, B, F: Fn(A) -> B> {
    f: Rc<F>,
    args: PhantomData<A>,
    results: PhantomData<B>,
}

impl<A, B, F: Fn(A) -> B> Shared<A, B, F> {
    #[verifier::type_invariant]
    spec fn accepts_all(self) -> bool {
        forall|a: A| call_requires(*self.f, (a,))
    }

    fn new(f: Rc<F>) -> (shared: Self)
        requires
            forall|a: A| call_requires(*f, (a,)),
        ensures
            shared.f == f,
    {
        Shared { f, args: PhantomData, results: PhantomData }
    }
}

impl<A, B, F: Fn(A) -> B> FnClone<A, B> for Shared<A, B, F> {
    closed spec fn yields(&self, a: A, b: B) -> bool {
        call_ensures(*self.f, (a,), b)
    }

    fn call(&self, a: A) -> (b: B) {
        proof {
            use_type_invariant(self);
        }
        (*self.f)(a)
    }

    fn clone_fn<'a>(&self) -> (copy: BiApp<'a, FunctionF, A, B>) where Self: 'a, A: 'a, B: 'a
        ensures
            forall|a: A, b: B| copy.applied().yields(a, b) == self.yields(a, b),
    {
        proof {
            use_type_invariant(self);
        }
        let boxed: Box<dyn FnClone<A, B> + 'a> = Box::new(Shared::new(share(&self.f)));
        wrap_bi_app_box(boxed)
    }

    fn wrap_fn<'a>(self: Box<Self>) -> (app: BiApp<'a, FunctionF, A, B>) where
        Self: 'a,
        A: 'a,
        B: 'a,

        ensures
            forall|a: A, b: B| app.applied().yields(a, b) == self.yields(a, b),
    {
        let boxed: Box<dyn FnClone<A, B> + 'a> = self;
        wrap_bi_app_box(boxed)
    }
}

/// A closure that accepts every argument, as a callable that is consumed
/// by its call.
#[verifier::reject_recursive_types(A)]
#[verifier::reject_recursive_types(B)]
struct Once<A, B, F: FnOnce(A) -> B> {
    f: F,
    args: PhantomData<A>,
    results: PhantomData<B>,
}

impl<A, B, F: FnOnce(A) -> B> Once<A, B, F> {
    #[verifier::type_invariant]
    spec fn accepts_all(self) -> bool {
        forall|a: A| call_requires(self.f, (a,))
    }

    fn new(f: F) -> (once: Self)
        requires
            forall|a: A| call_requires(f, (a,)),
        ensures
            once.f == f,
    {
        Once { f, args: PhantomData, results: PhantomData }
    }
}

impl<A, B, F: FnOnce(A) -> B> CallOnce<A, B> for Once<A, B, F> {
    closed spec fn yields(&self, a: A, b: B) -> bool {
        call_ensures(self.f, (a,), b)
    }

    fn call_once(self: Box<Self>, a: A) -> (b: B) {
        proof {
            use_type_invariant(&*self);
        }
        let once = *self;
        (once.f)(a)
    }
}

/// A callable of a type that the caller chose, in the form in which a handle
/// holds it.
struct Stateful<F>(F);

impl<A, B, F: CallMut<A, B>> CallMut<A, B> for Stateful<F> {
    closed spec fn yields(&self, past: Seq<(&A, &B)>, a: A, b: B) -> bool {
        self.0.yields(past, a, b)
    }

    fn call_mut(&mut self, a: A) -> (b: B) {
        self.0.call_mut(a)
    }
}

/// Wraps a closure that accepts every argument into a handle of a callable
/// from `A` to `B`. The callable returns what the closure returns, and so
/// does every duplicate of it. A duplicate of the handle shares the closure
/// with it, so the closure need not be one that can be cloned: nothing is
/// known of what a clone of a closure returns, and what the one closure
/// returns is known.
pub fn wrap_function<'a, F: 'a, A: 'a, B: 'a>(f: F) -> (app: BiApp<'a, FunctionF, A, B>) where
    F: Fn(A) -> B,

    requires
        forall|a: A| call_requires(f, (a,)),
    ensures
        forall|a: A, b: B| app.applied().yields(a, b) == call_ensures(f, (a,), b),
        forall|past: Seq<(&A, &B)>, a: &A, b: &B| #[trigger]
            app.relates(past, a, b) == call_ensures(f, (*a,), *b),
{
    let boxed: Box<dyn FnClone<A, B> + 'a> = Box::new(Shared::new(Rc::new(f)));
    wrap_bi_app_box(boxed)
}

/// Wraps a callable that may change with each call into a handle.
pub fn wrap_function_mut<'a, F: 'a, A: 'a, B: 'a>(f: F) -> (app: BiApp<'a, FunctionMutF, A, B>) where
    F: CallMut<A, B>,

    ensures
        forall|past: Seq<(&A, &B)>, a: A, b: B|
            app.applied().yields(past, a, b) == f.yields(past, a, b),
        forall|past: Seq<(&A, &B)>, a: &A, b: &B| #[trigger]
            app.relates(past, a, b) == f.yields(past, *a, *b),
{
    let boxed: Box<dyn CallMut<A, B> + 'a> = Box::new(Stateful(f));
    wrap_bi_app_box(boxed)
}

/// Wraps a closure that accepts every argument into a handle of a callable
/// that can be called once. The callable returns what the closure returns.
pub fn wrap_function_once<'a, F: 'a, A: 'a, B: 'a>(f: F) -> (app: BiApp<
    'a,
    FunctionOnceF,
    A,
    B,
>) where F: FnOnce(A) -> B
    requires
        forall|a: A| call_requires(f, (a,)),
    ensures
        forall|a: A, b: B| app.applied().yields(a, b) == call_ensures(f, (a,), b),
        forall|past: Seq<(&A, &B)>, a: &A, b: &B| #[trigger]
            app.relates(past, a, b) == call_ensures(f, (*a,), *b),
{
    let boxed: Box<dyn CallOnce<A, B> + 'a> = Box::new(Once::new(f));
    wrap_bi_app_box(boxed)
}

} // verus!
