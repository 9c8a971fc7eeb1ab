//! The constraint "can be formatted for display", as a constraint kind.
//!
//! What a continuation does with the value that it can now format is its
//! own work, and so is the text that comes of it: the library runs the
//! continuation and hands on what it returns.
use crate::bi_type_app::{
    wrap_bi_app_box, BiApp, BiTypeApp, BiTypeAppGeneric, BiTypeAppGenericCont, BiTypeCon,
};
use crate::constraint::HasConstraint;
use core::convert::Infallible;
use core::fmt::Display;
use vstd::prelude::*;

verus! {

/// Names the constraint `Display`.
pub struct DisplayConstraint(Infallible);

/// A one-shot continuation that can only run where `X: Display` has been
/// established. `cont_ensures` relates it to what it returns. It can be run
/// whenever the constraint holds: it asks for nothing else.
pub trait DisplayCont<X: ?Sized, R> {
    open spec fn cont_ensures(&self, r: R) -> bool {
        true
    }

    fn on_display(self: Box<Self>) -> (r: R) where X: Display
        ensures
            self.cont_ensures(r),
    ;
}

impl BiTypeCon for DisplayConstraint {

}

impl<'a, X: ?Sized, R> BiTypeApp<'a, X, R> for DisplayConstraint {
    type Applied = dyn DisplayCont<X, R> + 'a;

    open spec fn relation(
        applied: &(dyn DisplayCont<X, R> + 'a),
        past: Seq<(&X, &R)>,
        x: &X,
        y: &R,
    ) -> bool {
        applied.cont_ensures(*y)
    }
}

impl BiTypeAppGeneric for DisplayConstraint {
    fn with_type_app<'a, X: 'a, Y: 'a, R: 'a, Cont>(cont: Cont) -> (r: R) where
        Self: 'a,
        Cont: BiTypeAppGenericCont<'a, Self, X, Y, R>,
     {
        cont.on_type_app()
    }
}

impl<X> HasConstraint<X> for DisplayConstraint where X: Display {
    /// Runs the continuation that the handle holds.
    fn with_constraint<'a, R: 'a>(cont: BiApp<'a, Self, X, R>) -> (r: R) where X: 'a
        ensures
            cont.applied().cont_ensures(r),
    {
        cont.get_applied_box().on_display()
    }
}

/// A continuation of a type that the caller chose, in the form in which a
/// handle holds it.
struct Carried<Cont>(Cont);

impl<X: ?Sized, R, Cont: DisplayCont<X, R>> DisplayCont<X, R> for Carried<Cont> {
    closed spec fn cont_ensures(&self, r: R) -> bool {
        self.0.cont_ensures(r)
    }

    fn on_display(self: Box<Self>) -> (r: R) where X: Display {
        let carried = *self;
        Box::new(carried.0).on_display()
    }
}

/// Wraps a continuation into a handle of `DisplayConstraint` applied to `X`
/// and `R`. The handle holds a continuation that returns what `cont`
/// returns.
pub fn wrap_display_cont<'a, Cont: 'a, X: 'a + ?Sized, R: 'a>(cont: Cont) -> (app: BiApp<
    'a,
    DisplayConstraint,
    X,
    R,
>) where Cont: DisplayCont<X, R>
    ensures
        forall|r: R| #[trigger] app.applied().cont_ensures(r) == cont.cont_ensures(r),
        forall|past: Seq<(&X, &R)>, x: &X, r: &R| #[trigger]
            app.relates(past, x, r) == cont.cont_ensures(*r),
{
    let boxed: Box<dyn DisplayCont<X, R> + 'a> = Box::new(Carried(cont));
    wrap_bi_app_box(boxed)
}

/// Runs `cont` under the proof that `X` can be formatted for display, and
/// returns what it returns.
pub fn with_display_constraint<'a, X: 'a, R: 'a, Cont: 'a>(cont: Cont) -> (r: R) where
    DisplayConstraint: HasConstraint<X>,
    Cont: DisplayCont<X, R>,

    ensures
        cont.cont_ensures(r),
{
    let app = wrap_display_cont(cont);
    let ghost shown = app;
    let r = DisplayConstraint::with_constraint(app);
    proof {
        let x: &X = arbitrary();
        assert(shown.relates(Seq::empty(), x, &r));
    }
    r
}

} // verus!
