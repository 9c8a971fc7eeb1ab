//! Extensible products: a row applied to `F` holds, for every member `X`,
//! a handle of `F` applied to `X`.
use crate::nat_trans::{takes_from, NaturalTransformation};
use crate::row::{
    each_taken_from, held, lemma_held_taken_from, wrap_row, AppRow, LiftRow, RowApp, RowAppGeneric,
    RowAppGenericCont, RowCon,
};
use crate::type_app::{App, CloneApp, TypeAppGeneric, TypeCon};
use vstd::prelude::*;

verus! {

/// A row that stands for a product.
pub trait Product {

}

/// The empty product.
pub struct Top;

/// The product of `X` and the product `Tail`.
pub struct Cons<X, Tail>(pub X, pub Tail);

impl Product for Top {

}

impl<X, Tail> Product for Cons<X, Tail> where Tail: Product {

}

impl RowCon for Top {
    type Values = Top;
}

impl<X, Tail: RowCon> RowCon for Cons<X, Tail> {
    type Values = Cons<Seq<X>, Tail::Values>;

    open spec fn taken_from(new: Cons<Seq<X>, Tail::Values>, old: Cons<Seq<X>, Tail::Values>) -> bool {
        &&& each_taken_from(new.0, old.0)
        &&& Tail::taken_from(new.1, old.1)
    }
}

impl<'a, F: 'a> RowApp<'a, F> for Top where F: TypeCon {
    type Applied = Top;

    open spec fn values(applied: &Top) -> Top {
        Top
    }
}

impl<'a, X: 'a, Tail: 'a + RowCon, F: 'a> RowApp<'a, F> for Cons<X, Tail> where F: TypeCon {
    type Applied = Cons<App<'a, F, X>, AppRow<'a, Tail, F>>;

    open spec fn values(applied: &Cons<App<'a, F, X>, AppRow<'a, Tail, F>>) -> Cons<
        Seq<X>,
        Tail::Values,
    > {
        Cons(held(&applied.0), applied.1.values())
    }
}

impl RowAppGeneric for Top {
    fn with_row_app<'a, F: 'a, R: 'a, Cont>(cont: Cont) -> (r: R) where
        Self: 'a,
        F: TypeAppGeneric,
        Cont: RowAppGenericCont<'a, Self, F, R>,
     {
        cont.on_row_app()
    }
}

impl<X, Tail> RowAppGeneric for Cons<X, Tail> where Tail: RowAppGeneric {
    fn with_row_app<'a, F: 'a, R: 'a, Cont>(cont: Cont) -> (r: R) where
        Self: 'a,
        F: TypeAppGeneric,
        Cont: RowAppGenericCont<'a, Self, F, R>,
     {
        cont.on_row_app()
    }
}

impl<Ref> LiftRow<Ref> for Top where Ref: TypeCon {
    /// The empty product stays the empty product.
    fn lift<'a, 'b, F: 'a, G: 'a, Trans>(
        _trans: App<'b, Ref, Trans>,
        _row: AppRow<'a, Self, F>,
    ) -> (lifted: AppRow<'a, Self, G>) where
        'a: 'b,
        Self: 'a,
        Trans: NaturalTransformation<Ref, F, G>,
        F: TypeAppGeneric,
        G: TypeAppGeneric,

        ensures
            lifted.applied() == Top,
    {
        wrap_row(Top)
    }
}

impl<Ref, X, Tail> LiftRow<Ref> for Cons<X, Tail> where Ref: CloneApp, Tail: LiftRow<Ref> {
    /// Takes the first member over by a duplicate of the transformation,
    /// and the rest of the product by the transformation itself. Each
    /// member of the result holds only values that the same member of `row`
    /// holds.
    fn lift<'a, 'b, F: 'a, G: 'a, Trans>(
        trans: App<'b, Ref, Trans>,
        row: AppRow<'a, Self, F>,
    ) -> (lifted: AppRow<'a, Self, G>) where
        'a: 'b,
        Self: 'a,
        Trans: NaturalTransformation<Ref, F, G>,
        F: TypeAppGeneric,
        G: TypeAppGeneric,

        ensures
            takes_from(&row.applied().0, &lifted.applied().0),
    {
        let Cons(fx, tail) = row.get_applied();
        let ghost member = fx;
        let gx = Trans::lift(Ref::clone_app(&trans), fx);
        let tail2 = Tail::lift(trans, tail);
        proof {
            lemma_held_taken_from(member, gx);
        }
        wrap_row(Cons(gx, tail2))
    }
}

} // verus!
