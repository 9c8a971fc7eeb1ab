use super::base::{TypeApp, TypeCon};
use super::dynamic::App;
use crate::refl::{has_refl, refl_symmetric, HasReflUnrestricted, Refl};
use vstd::prelude::*;

verus! {

/// A one-shot continuation that can only run where `F: TypeApp<'a, X>` has
/// been established.
///
/// `cont_requires` says when the continuation may be run and `cont_ensures`
/// relates it to what it returns; whoever runs it owes the first and learns
/// the second. A continuation that states neither can always be run and
/// promises nothing.
pub trait TypeAppCont<'a, F: 'a + ?Sized, X: 'a + ?Sized, R: 'a> {
    open spec fn cont_requires(&self) -> bool {
        true
    }

    open spec fn cont_ensures(&self, r: R) -> bool {
        true
    }

    fn on_type_app(self: Box<Self>) -> (r: R) where F: TypeApp<'a, X>
        requires
            self.cont_requires(),
        ensures
            self.cont_ensures(r),
    ;
}

/// A witness that is a constructor for every sized argument type.
pub trait TypeAppGeneric: TypeCon + Sized {
    /// Runs `cont` under the proof that `Self` applies to `X`.
    fn with_type_app<'a, X: 'a, R: 'a, Cont: 'a>(cont: Box<Cont>) -> (r: R) where
        Self: 'a,
        Cont: TypeAppCont<'a, Self, X, R>,

        requires
            cont.cont_requires(),
        ensures
            cont.cont_ensures(r),
    ;
}

/// A witness that is a constructor for every argument type, sized or not.
pub trait TypeAppGenericUnsized: TypeCon {
    /// Runs `cont` under the proof that `Self` applies to `X`.
    fn with_type_app<'a, X: 'a + ?Sized, R: 'a, Cont: 'a>(cont: Box<Cont>) -> (r: R) where
        Self: 'a,
        Cont: TypeAppCont<'a, Self, X, R>,

        requires
            cont.cont_requires(),
        ensures
            cont.cont_ensures(r),
    ;
}

/// The continuation that takes the applied value out of a handle and
/// returns it.
#[verifier::reject_recursive_types(F)]
#[verifier::reject_recursive_types(X)]
pub struct GetApplied<'a, F: 'a + ?Sized, X: 'a + ?Sized>(pub App<'a, F, X>);

impl<'a, F: 'a + ?Sized, X: 'a + ?Sized, FX: 'a> TypeAppCont<'a, F, X, FX> for GetApplied<
    'a,
    F,
    X,
> where F: TypeApp<'a, X, Applied = FX> {
    open spec fn cont_requires(&self) -> bool {
        true
    }

    open spec fn cont_ensures(&self, r: FX) -> bool {
        r == self.0.applied()
    }

    fn on_type_app(self: Box<Self>) -> (r: FX) {
        let cont = *self;
        cont.0.get_applied()
    }
}

/// A type that stands for the proof `F: TypeApp<'a, X>`: its `Witness` is
/// `F` under another name, with the application in its bounds.
pub trait TypeAppWitness<'a, F, X: 'a> {
    type Witness: TypeApp<'a, X> + Refl<Refl = F> + 'a;
}

impl<'a, F: 'a, X: 'a> TypeAppWitness<'a, F, X> for F where F: TypeApp<'a, X> {
    type Witness = Self;
}

/// Re-types a continuation for `Self` as one for the `Refl` partner of
/// `Self`. It is the same continuation.
trait ReflCont<'a, Cont, X: 'a, R: 'a>: Refl + 'a where Cont: TypeAppCont<'a, Self, X, R> {
    type ContRefl: TypeAppCont<'a, Self::Refl, X, R>;

    fn refl_cont(cont: Cont) -> (cont2: Self::ContRefl)
        ensures
            cont2.cont_requires() == cont.cont_requires(),
            forall|r: R| cont2.cont_ensures(r) == cont.cont_ensures(r),
    ;
}

impl<'a, Cont, F: 'a, X: 'a, R: 'a> ReflCont<'a, Cont, X, R> for F where
    Cont: TypeAppCont<'a, F, X, R>,
 {
    type ContRefl = Cont;

    fn refl_cont(cont: Cont) -> Self::ContRefl {
        cont
    }
}

fn refl_cont_inner<'a, Cont, F: 'a, X: 'a, R: 'a>(cont: Cont) -> (cont2: impl TypeAppCont<
    'a,
    F::Refl,
    X,
    R,
>) where F: ReflCont<'a, Cont, X, R>, Cont: TypeAppCont<'a, F, X, R>
    ensures
        cont2.cont_requires() == cont.cont_requires(),
        forall|r: R| cont2.cont_ensures(r) == cont.cont_ensures(r),
{
    <F as ReflCont<'a, Cont, X, R>>::refl_cont(cont)
}

fn refl_cont<'a, Cont, F: Refl + 'a, X: 'a, R: 'a>(cont: Cont) -> (cont2: impl TypeAppCont<
    'a,
    F::Refl,
    X,
    R,
>) where Cont: TypeAppCont<'a, F, X, R>
    ensures
        cont2.cont_requires() == cont.cont_requires(),
        forall|r: R| cont2.cont_ensures(r) == cont.cont_ensures(r),
{
    refl_cont_inner::<'a, Cont, F, X, R>(cont)
}

fn refl_cont_2<'a, Cont, F1, F2, W, X: 'a, R: 'a>(_witness: W, cont: Cont) -> (cont2: impl TypeAppCont<
    'a,
    W::Right,
    X,
    R,
>) where
    Cont: TypeAppCont<'a, W::Left, X, R>,
    W: HasReflUnrestricted<F1, F2>,
    W::Left: Sized + 'a,
    W::Right: Sized + 'a,

    ensures
        cont2.cont_requires() == cont.cont_requires(),
        forall|r: R| cont2.cont_ensures(r) == cont.cont_ensures(r),
{
    refl_cont::<'a, Cont, W::Left, X, R>(cont)
}

/// Runs a continuation that asks for `F: TypeApp<'a, X>` where only a
/// witness type for that application is known.
///
/// The continuation is carried from `F` to the witness's own name for `F`
/// along the equality of the two, and run there.
pub fn with_type_app_witness<'a, W, Cont, F: 'a, X: 'a, R: 'a>(_witness: W, cont: Cont) -> (r: R) where
    W: TypeAppWitness<'a, F, X>,
    Cont: TypeAppCont<'a, F, X, R>,

    requires
        cont.cont_requires(),
    ensures
        cont.cont_ensures(r),
{
    let refl1 = has_refl::<W::Witness, F>();
    let refl2 = refl_symmetric(refl1);
    let cont2 = refl_cont_2(refl2, cont);
    Box::new(cont2).on_type_app()
}

/// Recovering the proof of an application by a continuation agrees with
/// holding the proof: where `recovered` is what `with_type_app_witness`
/// returns for the continuation [`GetApplied`] of a handle, and `direct` is
/// what `get_applied` returns for that handle, the two are the same. A
/// witness with the generic capability promises the same of its
/// `with_type_app`, by the contract of the continuation.
pub proof fn lemma_recovery_agrees<'a, W, F: 'a, X: 'a, FX: 'a>(
    witness: W,
    app: App<'a, F, X>,
    recovered: FX,
    direct: FX,
) where F: TypeApp<'a, X, Applied = FX>, W: TypeAppWitness<'a, F, X>
    requires
        call_ensures(
            with_type_app_witness::<W, GetApplied<'a, F, X>, F, X, FX>,
            (witness, GetApplied(app)),
            recovered,
        ),
        call_ensures(App::<'a, F, X>::get_applied, (app,), direct),
    ensures
        recovered == direct,
{
}

} // verus!
