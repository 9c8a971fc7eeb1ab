//! Rows: type constructors of kind `(Type -> Type) -> Type`, out of which
//! extensible products and sums are made.
use crate::nat_trans::{takes_from, NaturalTransformation};
use crate::type_app::{App, TypeAppGeneric, TypeCon};
use vstd::prelude::*;

verus! {

/// Marks a type as standing for a row.
///
/// `Values` is what a row holds whichever constructor is put round its
/// members: for each member that is there, the values of the member's type
/// that its handle holds. `taken_from` says of two such that the one holds,
/// member by member, only values that the other holds. A row that says
/// nothing of its values lets anything be taken from anything.
pub trait RowCon {
    type Values;

    open spec fn taken_from(new: Self::Values, old: Self::Values) -> bool {
        true
    }
}

/// `Row: RowApp<'a, F>` records that the row, with the constructor `F` put
/// round each of its members, is the type `Applied`. `values` is what an
/// applied row holds; a handle shows it under the same name, also to those
/// who do not hold the proof of the application.
pub trait RowApp<'a, F: ?Sized>: RowCon where F: TypeCon {
    type Applied;

    open spec fn values(applied: &Self::Applied) -> Self::Values {
        arbitrary()
    }
}

/// A one-shot continuation that can only run where `Row: RowApp<'a, F>` has
/// been established. `cont_requires` says when it may be run and
/// `cont_ensures` relates it to what it returns; one that states neither
/// can always be run and promises nothing.
pub trait RowAppGenericCont<'a, Row: 'a, F: 'a, R: 'a> {
    open spec fn cont_requires(&self) -> bool {
        true
    }

    open spec fn cont_ensures(&self, r: R) -> bool {
        true
    }

    fn on_row_app(self) -> (r: R) where F: TypeCon, Row: RowApp<'a, F>, Self: Sized
        requires
            self.cont_requires(),
        ensures
            self.cont_ensures(r),
    ;
}

/// A row that can take every generic constructor round its members.
pub trait RowAppGeneric: RowCon + Sized {
    /// Runs `cont` under the proof that `Self` applies to `F`.
    fn with_row_app<'a, F: 'a, R: 'a, Cont>(cont: Cont) -> (r: R) where
        Self: 'a,
        F: TypeAppGeneric,
        Cont: RowAppGenericCont<'a, Self, F, R>,

        requires
            cont.cont_requires(),
        ensures
            cont.cont_ensures(r),
    ;
}

/// What a handle of a row can do once `Row: RowApp<'a, F>` is in scope
/// again. `applied` is the value that the handle holds.
pub trait HasRowApp<'a, Row: 'a + ?Sized + RowCon, F: 'a + ?Sized + TypeCon>: 'a {
    spec fn applied(&self) -> &Row::Applied where Row: RowApp<'a, F>;

    spec fn values(&self) -> Row::Values;

    /// Gives up the applied row.
    fn get_applied_box(self: Box<Self>) -> (row: Box<Row::Applied>) where Row: RowApp<'a, F>
        ensures
            row == self.applied(),
            self.values() == Row::values(self.applied()),
    ;

    /// Lends the applied row.
    fn get_applied_borrow(&self) -> (row: &Row::Applied) where Row: RowApp<'a, F>
        ensures
            row == self.applied(),
            self.values() == Row::values(self.applied()),
    ;

    /// Lends the applied row for writing.
    fn get_applied_borrow_mut(&mut self) -> (row: &mut Row::Applied) where Row: RowApp<'a, F>
        ensures
            *row == old(self).applied(),
            final(self).applied() == *final(row),
            old(self).values() == Row::values(old(self).applied()),
            final(self).values() == Row::values(final(self).applied()),
    ;
}

/// An owning handle of the row `Row` applied to `F`.
#[verifier::reject_recursive_types(Row)]
#[verifier::reject_recursive_types(F)]
pub struct AppRow<'a, Row: 'a + ?Sized + RowCon, F: 'a + ?Sized + TypeCon>(
    pub Box<dyn HasRowApp<'a, Row, F>>,
);

impl<'a, Row: 'a + ?Sized + RowCon, F: 'a + ?Sized + TypeCon> AppRow<'a, Row, F> {
    /// The applied row that the handle holds.
    pub open spec fn applied(&self) -> &Row::Applied where Row: RowApp<'a, F> {
        self.0.applied()
    }

    /// The values that the applied row holds.
    pub open spec fn values(&self) -> Row::Values {
        self.0.values()
    }

    /// Takes the applied row out of the handle.
    pub fn get_applied(self) -> (row: Row::Applied) where Row: RowApp<'a, F>
        ensures
            row == self.applied(),
            self.values() == Row::values(self.applied()),
    {
        *self.0.get_applied_box()
    }

    /// Lends the applied row. The handle is left as it was.
    pub fn get_applied_borrow(&self) -> (row: &Row::Applied) where Row: RowApp<'a, F>
        ensures
            row == self.applied(),
            self.values() == Row::values(self.applied()),
    {
        self.0.get_applied_borrow()
    }

    /// Lends the applied row for writing: it is the old row now, and the
    /// handle holds whatever the borrow holds when it ends.
    pub fn get_applied_borrow_mut(&mut self) -> (row: &mut Row::Applied) where Row: RowApp<'a, F>
        ensures
            *row == old(self).applied(),
            final(self).applied() == *final(row),
            old(self).values() == Row::values(old(self).applied()),
            final(self).values() == Row::values(final(self).applied()),
    {
        self.0.get_applied_borrow_mut()
    }
}

/// The payload of a handle made by [`wrap_row`].
struct WrappedRow<RF>(RF);

impl<'a, Row: 'a, F: 'a, RF: 'a> HasRowApp<'a, Row, F> for WrappedRow<RF> where
    F: TypeCon,
    Row: RowApp<'a, F, Applied = RF>,
 {
    closed spec fn applied(&self) -> &RF {
        &self.0
    }

    closed spec fn values(&self) -> Row::Values {
        Row::values(&self.0)
    }

    fn get_applied_box(self: Box<Self>) -> Box<RF> {
        let inner = *self;
        Box::new(inner.0)
    }

    fn get_applied_borrow(&self) -> &RF {
        &self.0
    }

    fn get_applied_borrow_mut(&mut self) -> &mut RF {
        &mut self.0
    }
}

/// Wraps an applied row into a handle.
pub fn wrap_row<'a, Row: 'a, F: 'a>(row: Row::Applied) -> (app: AppRow<'a, Row, F>) where
    F: TypeCon,
    Row: RowApp<'a, F>,
    Row::Applied: 'a,

    ensures
        app.applied() == row,
        app.values() == Row::values(&row),
{
    AppRow(Box::new(WrappedRow(row)))
}

/// The values that a handle holds, in order.
pub open spec fn held<'a, F: ?Sized, X>(handle: &App<'a, F, X>) -> Seq<X> {
    Seq::new(handle.count(), |i: int| *handle.element(i))
}

/// Every value of `new` is one of `old`.
pub open spec fn each_taken_from<X>(new: Seq<X>, old: Seq<X>) -> bool {
    forall|j: int| 0 <= j < new.len() ==> old.contains(#[trigger] new[j])
}

/// Where a handle holds only values that another holds, so do the values
/// that the two hold, taken as sequences.
pub proof fn lemma_held_taken_from<'a, F: ?Sized, G: ?Sized, X>(
    fx: App<'a, F, X>,
    gx: App<'a, G, X>,
)
    requires
        takes_from(&fx, &gx),
    ensures
        each_taken_from(held(&gx), held(&fx)),
{
    let new = held(&gx);
    let old = held(&fx);
    assert forall|j: int| 0 <= j < new.len() implies old.contains(#[trigger] new[j]) by {
        let member = gx.element(j);
        let i = choose|i: int|
            #![trigger fx.element(i)]
            0 <= i < fx.count() && member == fx.element(i);
        assert(old[i] == new[j]);
    }
}

/// A row whose members can all be taken from one constructor to another by
/// a natural transformation held under `Ref`. The result has the members
/// that the row has, and each holds only values that the member held
/// before: a transformation makes no value.
pub trait LiftRow<Ref>: RowCon where Ref: TypeCon {
    fn lift<'a, 'b, F: 'a, G: 'a, Trans>(
        trans: App<'b, Ref, Trans>,
        row: AppRow<'a, Self, F>,
    ) -> (lifted: AppRow<'a, Self, G>) where
        'a: 'b,
        Self: 'a,
        Trans: NaturalTransformation<Ref, F, G>,
        F: TypeAppGeneric,
        G: TypeAppGeneric,

        ensures
            Self::taken_from(lifted.values(), row.values()),
    ;
}

} // verus!
