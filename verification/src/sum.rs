//! Extensible sums: a row applied to `F` holds, for one of its members `X`,
//! a handle of `F` applied to `X`.
use crate::nat_trans::NaturalTransformation;
use crate::row::{
    each_taken_from, held, lemma_held_taken_from, wrap_row, AppRow, LiftRow, RowApp, RowAppGeneric,
    RowAppGenericCont, RowCon,
};
use crate::type_app::{App, TypeAppGeneric, TypeCon};
use core::convert::Infallible;
use vstd::prelude::*;

pub use Union::{Inl, Inr};

verus! {

/// A row that stands for a sum.
pub trait Sum {

}

/// The empty sum. It has no value.
pub struct Bottom(Infallible);

/// The sum of `X` and the sum `Tail`.
pub enum Union<X, Tail> {
    Inl(X),
    Inr(Tail),
}

impl Sum for Bottom {

}

impl<X, Tail> Sum for Union<X, Tail> where Tail: Sum {

}

impl RowCon for Bottom {
    type Values = Bottom;
}

impl<X, Tail: RowCon> RowCon for Union<X, Tail> {
    type Values = Union<Seq<X>, Tail::Values>;

    open spec fn taken_from(new: Union<Seq<X>, Tail::Values>, old: Union<Seq<X>, Tail::Values>) -> bool {
        match (new, old) {
            (Union::Inl(n), Union::Inl(o)) => each_taken_from(n, o),
            (Union::Inr(n), Union::Inr(o)) => Tail::taken_from(n, o),
            _ => false,
        }
    }
}

impl<'a, F: 'a> RowApp<'a, F> for Bottom where F: TypeCon {
    type Applied = Bottom;

    open spec fn values(applied: &Bottom) -> Bottom {
        *applied
    }
}

impl<'a, X: 'a, Tail: 'a + RowCon, F: 'a> RowApp<'a, F> for Union<X, Tail> where F: TypeCon {
    type Applied = Union<App<'a, F, X>, AppRow<'a, Tail, F>>;

    open spec fn values(applied: &Union<App<'a, F, X>, AppRow<'a, Tail, F>>) -> Union<
        Seq<X>,
        Tail::Values,
    > {
        match applied {
            Union::Inl(member) => Union::Inl(held(member)),
            Union::Inr(rest) => Union::Inr(rest.values()),
        }
    }
}

impl RowAppGeneric for Bottom {
    fn with_row_app<'a, F: 'a, R: 'a, Cont>(cont: Cont) -> (r: R) where
        Self: 'a,
        F: TypeAppGeneric,
        Cont: RowAppGenericCont<'a, Self, F, R>,
     {
        cont.on_row_app()
    }
}

impl<X, Tail> RowAppGeneric for Union<X, Tail> where Tail: RowAppGeneric {
    fn with_row_app<'a, F: 'a, R: 'a, Cont>(cont: Cont) -> (r: R) where
        Self: 'a,
        F: TypeAppGeneric,
        Cont: RowAppGenericCont<'a, Self, F, R>,
     {
        cont.on_row_app()
    }
}

impl<Ref> LiftRow<Ref> for Bottom where Ref: TypeCon {
    /// The empty sum has no member to take over, and no value either: a
    /// handle of it, could there be one, would hold the same under `G`.
    #[allow(unreachable_code)]
    fn lift<'a, 'b, F: 'a, G: 'a, Trans>(
        _trans: App<'b, Ref, Trans>,
        row: AppRow<'a, Self, F>,
    ) -> (lifted: AppRow<'a, Self, G>) where
        'a: 'b,
        Self: 'a,
        Trans: NaturalTransformation<Ref, F, G>,
        F: TypeAppGeneric,
        G: TypeAppGeneric,

        ensures
            lifted.applied() == row.applied(),
    {
        wrap_row(row.get_applied())
    }
}

impl<Ref, X, Tail> LiftRow<Ref> for Union<X, Tail> where Ref: TypeCon, Tail: LiftRow<Ref> {
    /// Takes the member that is there over by the transformation. The
    /// result holds a member on the same side as `row` does.
    fn lift<'a, 'b, F: 'a, G: 'a, Trans>(
        trans: App<'b, Ref, Trans>,
        row: AppRow<'a, Self, F>,
    ) -> (lifted: AppRow<'a, Self, G>) where
        'a: 'b,
        Self: 'a,
        Trans: NaturalTransformation<Ref, F, G>,
        F: TypeAppGeneric,
        G: TypeAppGeneric,

        ensures
            lifted.applied() is Inl <==> row.applied() is Inl,
    {
        match row.get_applied() {
            Union::Inl(fx) => {
                let ghost member = fx;
                let gx = Trans::lift(trans, fx);
                proof {
                    lemma_held_taken_from(member, gx);
                }
                wrap_row(Union::Inl(gx))
            },
            Union::Inr(tail) => wrap_row(Union::Inr(Tail::lift(trans, tail))),
        }
    }
}

} // verus!
