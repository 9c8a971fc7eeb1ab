use super::base::{TypeApp, TypeCon};
use super::dynamic::App;
use core::marker::PhantomData;
use vstd::prelude::*;

verus! {

/// The composition of two constructors: `Compose<F, G>` applied to `X` is
/// `F` applied to `G` applied to `X`. It holds the values of `X` that the
/// values of `G` applied to `X` in it hold, those of the first before those
/// of the second and so on.
pub struct Compose<F: ?Sized, G: ?Sized>(PhantomData<F>, PhantomData<G>);

impl<F: ?Sized, G: ?Sized> TypeCon for Compose<F, G> {

}

/// How many values of `X` the first `n` values of `G` applied to `X` hold
/// that `applied` holds.
pub open spec fn composed_count<'a, F: ?Sized, G: ?Sized, X: ?Sized, FX, GX>(
    applied: &FX,
    n: int,
) -> nat where G: TypeApp<'a, X, Applied = GX>, F: TypeApp<'a, GX, Applied = FX>
    decreases n,
{
    if n <= 0 {
        0
    } else {
        composed_count::<F, G, X, FX, GX>(applied, n - 1) + G::count(F::element(applied, n - 1))
    }
}

/// The `k`-th of the values of `X` that the first `n` values of `G` applied
/// to `X` hold that `applied` holds.
pub open spec fn composed_element<'r, 'a, F: ?Sized, G: ?Sized, X: ?Sized, FX, GX>(
    applied: &'r FX,
    n: int,
    k: int,
) -> &'r X where G: TypeApp<'a, X, Applied = GX>, F: TypeApp<'a, GX, Applied = FX>
    decreases n,
{
    if n <= 0 {
        arbitrary()
    } else if k >= composed_count::<F, G, X, FX, GX>(applied, n - 1) {
        G::element(
            F::element(applied, n - 1),
            k - composed_count::<F, G, X, FX, GX>(applied, n - 1),
        )
    } else {
        composed_element::<F, G, X, FX, GX>(applied, n - 1, k)
    }
}

impl<'a, F: ?Sized, G: ?Sized, X: ?Sized, FX, GX> TypeApp<'a, X> for Compose<F, G> where
    G: TypeApp<'a, X, Applied = GX>,
    F: TypeApp<'a, GX, Applied = FX>,
 {
    type Applied = FX;

    open spec fn count(applied: &FX) -> nat {
        composed_count::<F, G, X, FX, GX>(applied, F::count(applied) as int)
    }

    open spec fn element(applied: &FX, k: int) -> &X {
        composed_element::<F, G, X, FX, GX>(applied, F::count(applied) as int, k)
    }
}

/// How many values of `X` the first `n` inner handles of `outer` hold.
pub open spec fn nested_count<'a, F: ?Sized, G: ?Sized, X: ?Sized>(
    outer: &App<'a, F, App<'a, G, X>>,
    n: int,
) -> nat
    decreases n,
{
    if n <= 0 {
        0
    } else {
        nested_count(outer, n - 1) + outer.element(n - 1).count()
    }
}

/// The `k`-th of the values of `X` that the first `n` inner handles of
/// `outer` hold.
pub open spec fn nested_element<'r, 'a, F: ?Sized, G: ?Sized, X: ?Sized>(
    outer: &'r App<'a, F, App<'a, G, X>>,
    n: int,
    k: int,
) -> &'r X
    decreases n,
{
    if n <= 0 {
        arbitrary()
    } else if k >= nested_count(outer, n - 1) {
        outer.element(n - 1).element(k - nested_count(outer, n - 1))
    } else {
        nested_element(outer, n - 1, k)
    }
}

/// The composition of two constructors over handles: `ComposeApp<F, G>`
/// applied to `X` is a handle of `F` applied to a handle of `G` applied to
/// `X`, so it needs no proof about `F` or `G`. It holds the values of `X`
/// that its inner handles hold, those of the first before those of the
/// second and so on.
pub struct ComposeApp<F: ?Sized, G: ?Sized>(PhantomData<F>, PhantomData<G>);

impl<F: ?Sized, G: ?Sized> TypeCon for ComposeApp<F, G> {

}

impl<'a, F: 'a + ?Sized, G: 'a + ?Sized, X: 'a + ?Sized> TypeApp<'a, X> for ComposeApp<F, G> {
    type Applied = App<'a, F, App<'a, G, X>>;

    open spec fn count(applied: &App<'a, F, App<'a, G, X>>) -> nat {
        nested_count(applied, applied.count() as int)
    }

    open spec fn element<'r>(applied: &'r App<'a, F, App<'a, G, X>>, k: int) -> &'r X {
        nested_element(applied, applied.count() as int, k)
    }
}

} // verus!
