use super::base::TypeApp;
use super::generic::TypeAppCont;
use vstd::prelude::*;

verus! {

/// What a handle can do once `F: TypeApp<'a, X>` is in scope again: give the
/// applied value up, lend it, or lend it for writing.
///
/// `applied` is the value that the handle holds; it is what every contract
/// about a handle speaks of. `count` and `element` are the values of `X` in
/// it, which need no proof to be spoken of; each way of getting at the
/// applied value says that they are those of that value.
pub trait HasTypeApp<'a, F: 'a + ?Sized, X: 'a + ?Sized>: 'a {
    spec fn applied(&self) -> &F::Applied where F: TypeApp<'a, X>;

    spec fn count(&self) -> nat;

    spec fn element(&self, i: int) -> &X;

    /// Gives up the applied value.
    fn get_applied_box(self: Box<Self>) -> (fx: Box<F::Applied>) where F: TypeApp<'a, X>
        ensures
            fx == self.applied(),
            self.count() == F::count(self.applied()),
            forall|i: int| #[trigger] self.element(i) == F::element(self.applied(), i),
    ;

    /// Lends the applied value.
    fn get_applied_borrow(&self) -> (fx: &F::Applied) where F: TypeApp<'a, X>
        ensures
            fx == self.applied(),
            self.count() == F::count(self.applied()),
            forall|i: int| #[trigger] self.element(i) == F::element(self.applied(), i),
    ;

    /// Lends the applied value for writing: it is the old value now, and the
    /// handle holds whatever the borrow holds when it ends.
    fn get_applied_borrow_mut(&mut self) -> (fx: &mut F::Applied) where F: TypeApp<'a, X>
        ensures
            &*fx == old(self).applied(),
            final(self).applied() == &*final(fx),
            old(self).count() == F::count(old(self).applied()),
            forall|i: int| #[trigger] old(self).element(i) == F::element(old(self).applied(), i),
            final(self).count() == F::count(final(self).applied()),
            forall|i: int| #[trigger]
                final(self).element(i) == F::element(final(self).applied(), i),
    ;

    /// Runs a continuation under the proof `F: TypeApp<'a, X>` that the
    /// handle was made with. A caller who holds only the handle needs no
    /// such proof.
    fn with_type_app<'b>(&self, cont: Box<dyn TypeAppCont<'a, F, X, ()> + 'b>) where 'a: 'b
        requires
            cont.cont_requires(),
        ensures
            cont.cont_ensures(()),
    ;
}

/// An owning handle of `F` applied to `X`. Its type names `F` and `X` only.
#[verifier::reject_recursive_types(F)]
#[verifier::reject_recursive_types(X)]
pub struct App<'a, F: 'a + ?Sized, X: 'a + ?Sized>(pub Box<dyn HasTypeApp<'a, F, X>>);

impl<'a, F: 'a + ?Sized, X: 'a + ?Sized> App<'a, F, X> {
    /// The value that the handle holds.
    pub open spec fn applied(&self) -> &F::Applied where F: TypeApp<'a, X> {
        self.0.applied()
    }

    /// How many values of `X` the handle holds.
    pub open spec fn count(&self) -> nat {
        self.0.count()
    }

    /// The `i`-th value of `X` that the handle holds, for `i` below `count`.
    pub open spec fn element(&self, i: int) -> &X {
        self.0.element(i)
    }

    /// Takes the applied value out of the handle.
    pub fn get_applied(self) -> (fx: F::Applied) where F: TypeApp<'a, X>, F::Applied: Sized
        ensures
            fx == self.applied(),
            self.count() == F::count(self.applied()),
            forall|i: int| #[trigger] self.element(i) == F::element(self.applied(), i),
    {
        *self.0.get_applied_box()
    }

    /// Takes the applied value out of the handle, still boxed.
    pub fn get_applied_box(self) -> (fx: Box<F::Applied>) where F: TypeApp<'a, X>
        ensures
            fx == self.applied(),
            self.count() == F::count(self.applied()),
            forall|i: int| #[trigger] self.element(i) == F::element(self.applied(), i),
    {
        self.0.get_applied_box()
    }

    /// Lends the applied value. The handle is left as it was.
    pub fn get_applied_borrow(&self) -> (fx: &F::Applied) where F: TypeApp<'a, X>
        ensures
            fx == self.applied(),
            self.count() == F::count(self.applied()),
            forall|i: int| #[trigger] self.element(i) == F::element(self.applied(), i),
    {
        self.0.get_applied_borrow()
    }

    /// Lends the applied value for writing: it is the old value now, and the
    /// handle holds whatever the borrow holds when it ends.
    pub fn get_applied_borrow_mut(&mut self) -> (fx: &mut F::Applied) where F: TypeApp<'a, X>
        ensures
            &*fx == old(self).applied(),
            final(self).applied() == &*final(fx),
            old(self).count() == F::count(old(self).applied()),
            forall|i: int| #[trigger] old(self).element(i) == F::element(old(self).applied(), i),
            final(self).count() == F::count(final(self).applied()),
            forall|i: int| #[trigger]
                final(self).element(i) == F::element(final(self).applied(), i),
    {
        self.0.get_applied_borrow_mut()
    }

    /// Runs `cont` under the proof `F: TypeApp<'a, X>` that the handle was
    /// made with.
    pub fn with_type_app<'b, Cont: 'b>(&self, cont: Cont) where
        'a: 'b,
        Cont: TypeAppCont<'a, F, X, ()>,

        requires
            cont.cont_requires(),
        ensures
            cont.cont_ensures(()),
    {
        self.0.with_type_app(Box::new(Erased(cont)))
    }
}

/// A continuation of a type that the caller chose, in the form in which a
/// handle takes it.
struct Erased<Cont>(Cont);

impl<'a, F: 'a + ?Sized, X: 'a + ?Sized, Cont> TypeAppCont<'a, F, X, ()> for Erased<Cont> where
    Cont: TypeAppCont<'a, F, X, ()>,
 {
    closed spec fn cont_requires(&self) -> bool {
        self.0.cont_requires()
    }

    closed spec fn cont_ensures(&self, r: ()) -> bool {
        self.0.cont_ensures(r)
    }

    fn on_type_app(self: Box<Self>) -> (r: ()) where F: TypeApp<'a, X> {
        let erased = *self;
        Box::new(erased.0).on_type_app()
    }
}

} // verus!
