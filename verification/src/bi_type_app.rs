//! Binary type application, the kind `Type -> Type -> Type`.
//!
//! The shape is that of [`crate::type_app`] with two argument types. It is
//! what function types and constraints are made of: see [`crate::function`]
//! and [`crate::constraint`].
use vstd::prelude::*;

verus! {

/// Marks a witness type as standing for a type constructor of kind
/// `Type -> Type -> Type`.
pub trait BiTypeCon {

}

/// `F: BiTypeApp<'a, X, Y>` records that the constructor named by `F`,
/// applied to `X` and `Y`, is the type `Applied`.
///
/// `relation` is what an applied value says of an `X` and a `Y`: for a
/// function from `X` to `Y`, that a call may return the one for the other.
/// Where the applied value keeps a state, what it says depends on what was
/// done with it before: `past` holds the arguments and results of the calls
/// made since, oldest first, and the relation is the one after those calls.
/// A constructor whose applied values say nothing of the kind relates
/// everything. A handle shows this relation as `relates`, also to those who
/// do not hold the proof of the application.
pub trait BiTypeApp<'a, X: ?Sized, Y: ?Sized>: BiTypeCon {
    type Applied: ?Sized;

    open spec fn relation(applied: &Self::Applied, past: Seq<(&X, &Y)>, x: &X, y: &Y) -> bool {
        true
    }
}

/// A one-shot continuation that can only run where `F: BiTypeApp<'a, X, Y>`
/// has been established. `cont_requires` says when it may be run and
/// `cont_ensures` relates it to what it returns; one that states neither
/// can always be run and promises nothing.
pub trait BiTypeAppGenericCont<'a, F: 'a, X: 'a, Y: 'a, R: 'a> {
    open spec fn cont_requires(&self) -> bool {
        true
    }

    open spec fn cont_ensures(&self, r: R) -> bool {
        true
    }

    fn on_type_app(self) -> (r: R) where F: BiTypeApp<'a, X, Y>, Self: Sized
        requires
            self.cont_requires(),
        ensures
            self.cont_ensures(r),
    ;
}

/// A witness that is a constructor for every pair of sized argument types.
pub trait BiTypeAppGeneric: BiTypeCon + Sized {
    /// Runs `cont` under the proof that `Self` applies to `X` and `Y`.
    fn with_type_app<'a, X: 'a, Y: 'a, R: 'a, Cont>(cont: Cont) -> (r: R) where
        Self: 'a,
        Cont: BiTypeAppGenericCont<'a, Self, X, Y, R>,

        requires
            cont.cont_requires(),
        ensures
            cont.cont_ensures(r),
    ;
}

/// What a handle can do once `F: BiTypeApp<'a, X, Y>` is in scope again.
///
/// `applied` is the value that the handle holds. `relates` is the relation
/// of that value, which needs no proof to be spoken of; each way of getting
/// at the value says that the two agree.
pub trait HasBiTypeApp<'a, F: 'a + ?Sized, X: 'a + ?Sized, Y: 'a + ?Sized>: 'a {
    spec fn applied(&self) -> &F::Applied where F: BiTypeApp<'a, X, Y>;

    spec fn relates(&self, past: Seq<(&X, &Y)>, x: &X, y: &Y) -> bool;

    /// Gives up the applied value.
    fn get_applied_box(self: Box<Self>) -> (fxy: Box<F::Applied>) where F: BiTypeApp<'a, X, Y>
        ensures
            fxy == self.applied(),
            forall|past: Seq<(&X, &Y)>, x: &X, y: &Y| #[trigger]
                self.relates(past, x, y) == F::relation(self.applied(), past, x, y),
    ;

    /// Lends the applied value.
    fn get_applied_borrow(&self) -> (fxy: &F::Applied) where F: BiTypeApp<'a, X, Y>
        ensures
            fxy == self.applied(),
            forall|past: Seq<(&X, &Y)>, x: &X, y: &Y| #[trigger]
                self.relates(past, x, y) == F::relation(self.applied(), past, x, y),
    ;

    /// Lends the applied value for writing.
    fn get_applied_borrow_mut(&mut self) -> (fxy: &mut F::Applied) where F: BiTypeApp<'a, X, Y>
        ensures
            &*fxy == old(self).applied(),
            final(self).applied() == &*final(fxy),
            forall|past: Seq<(&X, &Y)>, x: &X, y: &Y| #[trigger]
                old(self).relates(past, x, y) == F::relation(old(self).applied(), past, x, y),
            forall|past: Seq<(&X, &Y)>, x: &X, y: &Y| #[trigger]
                final(self).relates(past, x, y) == F::relation(final(self).applied(), past, x, y),
    ;
}

/// An owning handle of `F` applied to `X` and `Y`. Its type names `F`, `X`
/// and `Y` only.
#[verifier::reject_recursive_types(F)]
#[verifier::reject_recursive_types(X)]
#[verifier::reject_recursive_types(Y)]
pub struct BiApp<'a, F: 'a + ?Sized, X: 'a + ?Sized, Y: 'a + ?Sized>(
    pub Box<dyn HasBiTypeApp<'a, F, X, Y>>,
);

impl<'a, F: 'a + ?Sized, X: 'a + ?Sized, Y: 'a + ?Sized> BiApp<'a, F, X, Y> {
    /// The value that the handle holds.
    pub open spec fn applied(&self) -> &F::Applied where F: BiTypeApp<'a, X, Y> {
        self.0.applied()
    }

    /// What the value that the handle holds says of an `X` and a `Y`, after
    /// the calls in `past`.
    pub open spec fn relates(&self, past: Seq<(&X, &Y)>, x: &X, y: &Y) -> bool {
        self.0.relates(past, x, y)
    }

    /// Takes the applied value out of the handle.
    pub fn get_applied(self) -> (fxy: F::Applied) where F: BiTypeApp<'a, X, Y>, F::Applied: Sized
        ensures
            fxy == self.applied(),
            forall|past: Seq<(&X, &Y)>, x: &X, y: &Y| #[trigger]
                self.relates(past, x, y) == F::relation(self.applied(), past, x, y),
    {
        *self.0.get_applied_box()
    }

    /// Takes the applied value out of the handle, still boxed.
    pub fn get_applied_box(self) -> (fxy: Box<F::Applied>) where F: BiTypeApp<'a, X, Y>
        ensures
            fxy == self.applied(),
            forall|past: Seq<(&X, &Y)>, x: &X, y: &Y| #[trigger]
                self.relates(past, x, y) == F::relation(self.applied(), past, x, y),
    {
        self.0.get_applied_box()
    }

    /// Lends the applied value. The handle is left as it was.
    pub fn get_applied_borrow(&self) -> (fxy: &F::Applied) where F: BiTypeApp<'a, X, Y>
        ensures
            fxy == self.applied(),
            forall|past: Seq<(&X, &Y)>, x: &X, y: &Y| #[trigger]
                self.relates(past, x, y) == F::relation(self.applied(), past, x, y),
    {
        self.0.get_applied_borrow()
    }

    /// Lends the applied value for writing: it is the old value now, and the
    /// handle holds whatever the borrow holds when it ends.
    pub fn get_applied_borrow_mut(&mut self) -> (fxy: &mut F::Applied) where
        F: BiTypeApp<'a, X, Y>,

        ensures
            &*fxy == old(self).applied(),
            final(self).applied() == &*final(fxy),
            forall|past: Seq<(&X, &Y)>, x: &X, y: &Y| #[trigger]
                old(self).relates(past, x, y) == F::relation(old(self).applied(), past, x, y),
            forall|past: Seq<(&X, &Y)>, x: &X, y: &Y| #[trigger]
                final(self).relates(past, x, y) == F::relation(final(self).applied(), past, x, y),
    {
        self.0.get_applied_borrow_mut()
    }
}

/// A value that can be turned into a handle of `F` applied to `X` and `Y`.
pub trait ToBiTypeApp<'a, F: 'a + ?Sized, X: 'a + ?Sized, Y: 'a + ?Sized> {
    fn to_applied(self: Box<Self>) -> BiApp<'a, F, X, Y>;
}

/// The payload of a handle of an applied type that has a size: the applied
/// value itself.
struct Held<FXY>(FXY);

impl<'a, F: 'a + ?Sized, X: 'a + ?Sized, Y: 'a + ?Sized, FXY: 'a> HasBiTypeApp<'a, F, X, Y> for Held<
    FXY,
> where F: BiTypeApp<'a, X, Y, Applied = FXY> {
    closed spec fn applied(&self) -> &FXY {
        &self.0
    }

    closed spec fn relates(&self, past: Seq<(&X, &Y)>, x: &X, y: &Y) -> bool {
        F::relation(&self.0, past, x, y)
    }

    fn get_applied_box(self: Box<Self>) -> Box<FXY> {
        let held = *self;
        Box::new(held.0)
    }

    fn get_applied_borrow(&self) -> &FXY {
        &self.0
    }

    fn get_applied_borrow_mut(&mut self) -> &mut FXY {
        &mut self.0
    }
}

/// The payload of a handle of an applied type that need not have a size:
/// the applied value in its box.
struct HeldBox<FXY: ?Sized>(Box<FXY>);

impl<'a, F: 'a + ?Sized, X: 'a + ?Sized, Y: 'a + ?Sized, FXY: 'a + ?Sized> HasBiTypeApp<
    'a,
    F,
    X,
    Y,
> for HeldBox<FXY> where F: BiTypeApp<'a, X, Y, Applied = FXY> {
    closed spec fn applied(&self) -> &FXY {
        &*self.0
    }

    closed spec fn relates(&self, past: Seq<(&X, &Y)>, x: &X, y: &Y) -> bool {
        F::relation(&*self.0, past, x, y)
    }

    fn get_applied_box(self: Box<Self>) -> Box<FXY> {
        let held = *self;
        held.0
    }

    fn get_applied_borrow(&self) -> &FXY {
        &*self.0
    }

    fn get_applied_borrow_mut(&mut self) -> &mut FXY {
        &mut *self.0
    }
}

/// Wraps a boxed value of the applied type into a handle. The applied type
/// need not have a size; the handle keeps the value in the box that it came
/// in.
pub fn wrap_bi_app_box<'a, F: 'a + ?Sized, X: 'a + ?Sized, Y: 'a + ?Sized, FXY: 'a + ?Sized>(
    fxy: Box<FXY>,
) -> (app: BiApp<'a, F, X, Y>) where F: BiTypeApp<'a, X, Y, Applied = FXY>
    ensures
        app.applied() == fxy,
        forall|past: Seq<(&X, &Y)>, x: &X, y: &Y| #[trigger]
            app.relates(past, x, y) == F::relation(&*fxy, past, x, y),
{
    BiApp(Box::new(HeldBox(fxy)))
}

/// Wraps a value of the applied type into a handle, which holds it in the
/// one box that the handle is.
pub fn wrap_bi_app<'a, F: 'a, X: 'a, Y: 'a, FXY: 'a>(fxy: FXY) -> (app: BiApp<'a, F, X, Y>) where
    F: BiTypeApp<'a, X, Y, Applied = FXY>,

    ensures
        app.applied() == fxy,
        forall|past: Seq<(&X, &Y)>, x: &X, y: &Y| #[trigger]
            app.relates(past, x, y) == F::relation(&fxy, past, x, y),
{
    BiApp(Box::new(Held(fxy)))
}

} // verus!
