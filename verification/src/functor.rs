//! `Functor`, `Applicative` and `Monad` over type constructors, with the
//! kind of function that is mapped chosen by the caller.
//!
//! A map keeps the shape of what it maps and replaces each value by one
//! that the function relates to it, going from the first value to the last
//! and calling the function once for each. That is stated over what handles
//! show without a proof: the values that a handle holds, and the relation
//! of the handle of a function after the calls made before.
//!
//! A map takes its function with it. [`FunctorMut`] maps with a function
//! that is lent, and leaves it to its owner as the calls of the map have
//! left it. A composition maps its inner handles one after the other with
//! that map of the inner constructor, so a function that keeps a state goes
//! through all of them in order.
use crate::bi_type_app::BiApp;
use crate::container::Container;
use crate::function::{
    wrap_function, wrap_function_mut, wrap_function_once, CallMut, FunctionF, FunctionMutF,
    FunctionOnceF, IsFnMut, IsFnOnce,
};
use crate::type_app::compose::{nested_count, nested_element};
use crate::type_app::{wrap_app, App, ComposeApp, Const, Identity, OptionF, ResultF, TypeCon, VecF};
use core::marker::PhantomData;
use vstd::prelude::*;

verus! {

/// The first `n` values of `fa`, each with the value of `fb` in the same
/// place: the calls that a map has made when it has come to the `n`-th
/// value.
pub open spec fn mapped_so_far<'r, 'a, F: ?Sized, A, B>(
    fa: &'r App<'a, F, A>,
    fb: &'r App<'a, F, B>,
    n: int,
) -> Seq<(&'r A, &'r B)> {
    Seq::new(n as nat, |k: int| (fa.element(k), fb.element(k)))
}

/// The first `n` of the arguments `xs`, each with the result in the same
/// place of `ys`.
pub open spec fn calls<'r, A, B>(xs: Seq<A>, ys: Seq<B>, n: int) -> Seq<(&'r A, &'r B)> {
    Seq::new(n as nat, |k: int| (&xs[k], &ys[k]))
}

/// `fb` holds as many values as `fa`, and each is one that `mapper` relates
/// to the value of `fa` in the same place, after it was called for the
/// values before that one, from the first on and once for each.
pub open spec fn maps_each<'a, 'b, F: ?Sized, Func: ?Sized, A, B>(
    fa: &App<'a, F, A>,
    mapper: &BiApp<'b, Func, A, B>,
    fb: &App<'a, F, B>,
) -> bool {
    &&& fb.count() == fa.count()
    &&& forall|i: int|
        0 <= i < fa.count() ==> mapper.relates(
            mapped_so_far(fa, fb, i),
            fa.element(i),
            #[trigger] fb.element(i),
        )
}

/// `fb` holds as many values as `fa`.
pub open spec fn same_count<'a, F: ?Sized, A, B>(fa: &App<'a, F, A>, fb: &App<'a, F, B>) -> bool {
    fb.count() == fa.count()
}

/// A constructor whose applied values can be mapped over.
pub trait Functor<Func>: TypeCon {
    /// `fmap :: forall a b . f a -> (a -> b) -> f b`
    ///
    /// The result holds as many values as `fa` does, and each is one that
    /// `mapper` relates to the value in the same place, after the calls for
    /// the values before it.
    fn fmap<'a, 'b, A: 'a, B: 'a>(fa: App<'a, Self, A>, mapper: BiApp<'b, Func, A, B>) -> (fb: App<
        'a,
        Self,
        B,
    >) where Self: 'a, 'a: 'b
        ensures
            maps_each(&fa, &mapper, &fb),
    ;
}

/// Everything that a map of `fa` into `fb` has the function do: each value
/// of `fa` with the value of `fb` in the same place.
pub open spec fn mapped<'r, 'a, F: ?Sized, A, B>(
    fa: &'r App<'a, F, A>,
    fb: &'r App<'a, F, B>,
) -> Seq<(&'r A, &'r B)> {
    mapped_so_far(fa, fb, fa.count() as int)
}

/// As [`maps_each`], for a mapper that has been called before: `before`
/// holds what it has done by then.
pub open spec fn maps_each_after<'r, 'a, 'b, F: ?Sized, Func: ?Sized, A, B>(
    before: Seq<(&'r A, &'r B)>,
    fa: &'r App<'a, F, A>,
    mapper: &BiApp<'b, Func, A, B>,
    fb: &'r App<'a, F, B>,
) -> bool {
    &&& fb.count() == fa.count()
    &&& forall|i: int|
        0 <= i < fa.count() ==> mapper.relates(
            before + mapped_so_far(fa, fb, i),
            fa.element(i),
            #[trigger] fb.element(i),
        )
}

/// A functor that can map with a function that is lent to it.
pub trait FunctorMut<Func>: Functor<Func> where Func: IsFnMut {
    /// Maps as `fmap` does, with `mapper` as it is, and leaves `mapper` to
    /// its owner as the calls of the map have left it: what it relates
    /// afterwards is what it related before to come after those calls.
    fn fmap_mut<'a, 'b, A: 'a, B: 'a>(
        fa: App<'a, Self, A>,
        mapper: &mut BiApp<'b, Func, A, B>,
    ) -> (fb: App<'a, Self, B>) where Self: 'a, 'a: 'b
        ensures
            maps_each(&fa, old(mapper), &fb),
            forall|past: Seq<(&A, &B)>, x: &A, y: &B| #[trigger]
                final(mapper).relates(past, x, y) ==> old(mapper).relates(
                    mapped(&fa, &fb) + past,
                    x,
                    y,
                ),
    ;
}

/// A functor into which a value can be put, and under which a function can
/// be applied.
pub trait Applicative<Func>: Functor<Func> {
    fn pure<'a, A: 'a>(a: A) -> App<'a, Self, A>;

    fn apply<'a, 'b, A: 'a, B: 'a, F: 'a>(
        app: App<'a, Self, BiApp<'b, Func, A, B>>,
        fa: App<'a, Self, A>,
    ) -> App<'a, Self, A> where Self: 'a, 'a: 'b;
}

/// An applicative whose computations can be chained.
pub trait Monad<Func>: Applicative<Func> {
    fn bind<'a, 'b, A: 'a, B: 'a>(
        ma: App<'a, Self, A>,
        cont: BiApp<'b, Func, A, App<'a, Self, B>>,
    ) -> App<'a, Self, B> where Self: 'a, 'a: 'b;
}

impl<F, G> Functor<FunctionOnceF> for ComposeApp<F, G> where
    F: Functor<FunctionOnceF>,
    G: Functor<FunctionOnceF>,
 {
    /// Maps `F` with the function that maps `G` with `mapper`: the outer
    /// handle of the result holds as many inner handles as that of `fga`,
    /// and each is the inner handle in the same place mapped with `mapper`.
    fn fmap<'a, 'b, A: 'a, B: 'a>(
        fga: App<'a, ComposeApp<F, G>, A>,
        mapper: BiApp<'b, FunctionOnceF, A, B>,
    ) -> (fgb: App<'a, ComposeApp<F, G>, B>) where Self: 'a, F: 'a, G: 'a, 'a: 'b
        ensures
            same_count(fga.applied(), fgb.applied()),
            forall|i: int|
                0 <= i < fga.applied().count() ==> maps_each(
                    fga.applied().element(i),
                    &mapper,
                    #[trigger] fgb.applied().element(i),
                ),
    {
        let fga2 = fga.get_applied();
        // The borrow shows that what `mapper` relates is the same after any
        // calls.
        let _ = mapper.get_applied_borrow();
        let ghost given = mapper;
        let map_inner = move |ga: App<'a, G, A>| -> (gb: App<'a, G, B>)
            ensures
                maps_each(&ga, &mapper, &gb)
            { G::fmap(ga, mapper) };
        let inner = wrap_function_once(map_inner);
        let ghost lent = inner;
        let fgb2 = F::fmap(fga2, inner);
        proof {
            assert forall|i: int| 0 <= i < fga2.count() implies maps_each(
                fga2.element(i),
                &given,
                #[trigger] fgb2.element(i),
            ) by {
                assert(lent.relates(mapped_so_far(&fga2, &fgb2, i), fga2.element(i), fgb2.element(i)));
            }
        }
        let fgb = wrap_app(fgb2);
        proof {
            lemma_composition_maps(&fga, &given, &fgb, Seq::empty());
            assert forall|k: int| 0 <= k < fga.count() implies given.relates(
                mapped_so_far(&fga, &fgb, k),
                fga.element(k),
                #[trigger] fgb.element(k),
            ) by {
                assert(Seq::empty() + mapped_so_far(&fga, &fgb, k) =~= mapped_so_far(&fga, &fgb, k));
            }
        }
        fgb
    }
}

impl<Func> Functor<Func> for Identity where Func: IsFnOnce {
    /// Applies the function to the one value.
    fn fmap<'a, 'b, A: 'a, B: 'a>(a: App<'a, Identity, A>, mapper: BiApp<'b, Func, A, B>) -> App<
        'a,
        Identity,
        B,
    > where Self: 'a, 'a: 'b {
        let a2 = a.get_applied();
        let b = wrap_app(Func::apply_once(mapper, a2));
        proof {
            assert(mapped_so_far(&a, &b, 0) =~= Seq::empty());
        }
        b
    }
}

impl<Func, X> Functor<Func> for Const<X> {
    /// Keeps the value, which holds nothing to map.
    fn fmap<'a, 'b, A: 'a, B: 'a>(a: App<'a, Const<X>, A>, _mapper: BiApp<'b, Func, A, B>) -> (r:
        App<'a, Const<X>, B>) where Self: 'a, 'a: 'b
        ensures
            r.applied() == a.applied(),
    {
        wrap_app(a.get_applied())
    }
}

impl<Func> Functor<Func> for OptionF where Func: IsFnOnce {
    /// Applies the function to the value, if there is one.
    fn fmap<'a, 'b, A: 'a, B: 'a>(a: App<'a, Self, A>, mapper: BiApp<'b, Func, A, B>) -> (r: App<
        'a,
        Self,
        B,
    >) where Self: 'a, 'a: 'b
        ensures
            r.applied() is Some <==> a.applied() is Some,
    {
        let b = match a.get_applied() {
            Some(a2) => wrap_app(Some(Func::apply_once(mapper, a2))),
            None => wrap_app(None),
        };
        proof {
            assert(mapped_so_far(&a, &b, 0) =~= Seq::empty());
        }
        b
    }
}

impl<Func, E> Functor<Func> for ResultF<E> where Func: IsFnOnce {
    /// Applies the function to the value, or keeps the error.
    fn fmap<'a, 'b, A: 'a, B: 'a>(a: App<'a, Self, A>, mapper: BiApp<'b, Func, A, B>) -> (r: App<
        'a,
        Self,
        B,
    >) where Self: 'a, 'a: 'b
        ensures
            match *a.applied() {
                Ok(_) => r.applied() is Ok,
                Err(e) => *r.applied() == Err::<B, E>(e),
            },
    {
        let b = match a.get_applied() {
            Ok(a2) => wrap_app(Ok(Func::apply_once(mapper, a2))),
            Err(err) => wrap_app(Err(err)),
        };
        proof {
            assert(mapped_so_far(&a, &b, 0) =~= Seq::empty());
        }
        b
    }
}

impl<Func> Functor<Func> for VecF where Func: IsFnMut {
    /// Applies the function to each element, from the first to the last.
    fn fmap<'a, 'b, A: 'a, B: 'a>(xs: App<'a, Self, A>, mapper: BiApp<'b, Func, A, B>) -> (r: App<
        'a,
        Self,
        B,
    >) where Self: 'a, 'a: 'b
        ensures
            r.applied().len() == xs.applied().len(),
    {
        let mut mapper = mapper;
        <VecF as FunctorMut<Func>>::fmap_mut(xs, &mut mapper)
    }
}

impl<Func> FunctorMut<Func> for VecF where Func: IsFnMut {
    /// Applies the function to each element, from the first to the last.
    fn fmap_mut<'a, 'b, A: 'a, B: 'a>(xs: App<'a, Self, A>, mapper: &mut BiApp<'b, Func, A, B>) -> (r:
        App<'a, Self, B>) where Self: 'a, 'a: 'b
        ensures
            r.applied().len() == xs.applied().len(),
    {
        broadcast use vstd::std_specs::vec::axiom_spec_into_iter;

        let ghost given = *mapper;
        let elements = xs.get_applied();
        let ghost source = elements@;
        let mut mapped: Vec<B> = Vec::new();
        proof {
            assert forall|past: Seq<(&A, &B)>, a: &A, b: &B| #[trigger]
                mapper.relates(past, a, b) implies given.relates(
                calls(source, mapped@, 0) + past,
                a,
                b,
            ) by {
                assert(calls(source, mapped@, 0) + past =~= past);
            }
        }
        for x in it: elements.into_iter()
            invariant
                it.seq() == source,
                mapped.len() == it.index(),
                forall|k: int|
                    0 <= k < it.index() ==> given.relates(
                        calls(source, mapped@, k),
                        &source[k],
                        #[trigger] &mapped@[k],
                    ),
                forall|past: Seq<(&A, &B)>, a: &A, b: &B| #[trigger]
                    mapper.relates(past, a, b) ==> given.relates(
                        calls(source, mapped@, it.index()) + past,
                        a,
                        b,
                    ),
        {
            let ghost n = it.index();
            let ghost before = mapped@;
            let ghost arg = x;
            let y = Func::apply_mut(mapper, x);
            let ghost res = y;
            mapped.push(y);
            proof {
                assert(calls(source, mapped@, n + 1) =~= calls(source, before, n) + seq![
                    (&arg, &res),
                ]);
                assert(calls(source, before, n) + Seq::<(&A, &B)>::empty() =~= calls(
                    source,
                    before,
                    n,
                ));
                assert forall|k: int| 0 <= k < n + 1 implies given.relates(
                    calls(source, mapped@, k),
                    &source[k],
                    #[trigger] &mapped@[k],
                ) by {
                    assert(calls(source, mapped@, k) =~= calls(source, before, k));
                }
                assert forall|past: Seq<(&A, &B)>, a: &A, b: &B| #[trigger]
                    mapper.relates(past, a, b) implies given.relates(
                    calls(source, mapped@, n + 1) + past,
                    a,
                    b,
                ) by {
                    assert(calls(source, mapped@, n + 1) + past =~= calls(source, before, n) + (
                    seq![(&arg, &res)] + past));
                }
            }
        }
        let fb = wrap_app(mapped);
        proof {
            assert forall|i: int| 0 <= i < xs.count() implies given.relates(
                mapped_so_far(&xs, &fb, i),
                xs.element(i),
                #[trigger] fb.element(i),
            ) by {
                assert(mapped_so_far(&xs, &fb, i) =~= calls(source, fb.applied()@, i));
            }
            assert(self::mapped(&xs, &fb) =~= calls(source, fb.applied()@, source.len() as int));
        }
        fb
    }
}

impl<Func> FunctorMut<Func> for Identity where Func: IsFnMut {
    /// Applies the function to the one value.
    fn fmap_mut<'a, 'b, A: 'a, B: 'a>(a: App<'a, Identity, A>, mapper: &mut BiApp<'b, Func, A, B>) -> (b:
        App<'a, Identity, B>) where Self: 'a, 'a: 'b {
        let a2 = a.get_applied();
        let ghost arg = a2;
        let b2 = Func::apply_mut(mapper, a2);
        let ghost res = b2;
        let b = wrap_app(b2);
        proof {
            assert(mapped_so_far(&a, &b, 0) =~= Seq::empty());
            assert(mapped(&a, &b) =~= seq![(&arg, &res)]);
        }
        b
    }
}

impl<Func, X> FunctorMut<Func> for Const<X> where Func: IsFnMut {
    /// Keeps the value, which holds nothing to map, and the function as it
    /// is.
    fn fmap_mut<'a, 'b, A: 'a, B: 'a>(a: App<'a, Const<X>, A>, mapper: &mut BiApp<'b, Func, A, B>) -> (r:
        App<'a, Const<X>, B>) where Self: 'a, 'a: 'b
        ensures
            r.applied() == a.applied(),
            *final(mapper) == *old(mapper),
    {
        let r = wrap_app(a.get_applied());
        proof {
            assert forall|past: Seq<(&A, &B)>| mapped(&a, &r) + past =~= past by {}
        }
        r
    }
}

impl<Func> FunctorMut<Func> for OptionF where Func: IsFnMut {
    /// Applies the function to the value, if there is one, and keeps the
    /// function as it is if there is none.
    fn fmap_mut<'a, 'b, A: 'a, B: 'a>(a: App<'a, Self, A>, mapper: &mut BiApp<'b, Func, A, B>) -> (r:
        App<'a, Self, B>) where Self: 'a, 'a: 'b
        ensures
            r.applied() is Some <==> a.applied() is Some,
            a.applied() is None ==> *final(mapper) == *old(mapper),
    {
        match a.get_applied() {
            Some(a2) => {
                let ghost arg = a2;
                let b2 = Func::apply_mut(mapper, a2);
                let ghost res = b2;
                let r = wrap_app(Some(b2));
                proof {
                    assert(mapped_so_far(&a, &r, 0) =~= Seq::empty());
                    assert(mapped(&a, &r) =~= seq![(&arg, &res)]);
                }
                r
            },
            None => {
                let r = wrap_app(None);
                proof {
                    assert forall|past: Seq<(&A, &B)>| mapped(&a, &r) + past =~= past by {}
                }
                r
            },
        }
    }
}

impl<Func, E> FunctorMut<Func> for ResultF<E> where Func: IsFnMut {
    /// Applies the function to the value, or keeps the error and the
    /// function as it is.
    fn fmap_mut<'a, 'b, A: 'a, B: 'a>(a: App<'a, Self, A>, mapper: &mut BiApp<'b, Func, A, B>) -> (r:
        App<'a, Self, B>) where Self: 'a, 'a: 'b
        ensures
            match *a.applied() {
                Ok(_) => r.applied() is Ok,
                Err(e) => *r.applied() == Err::<B, E>(e) && *final(mapper) == *old(mapper),
            },
    {
        match a.get_applied() {
            Ok(a2) => {
                let ghost arg = a2;
                let b2 = Func::apply_mut(mapper, a2);
                let ghost res = b2;
                let r = wrap_app(Ok(b2));
                proof {
                    assert(mapped_so_far(&a, &r, 0) =~= Seq::empty());
                    assert(mapped(&a, &r) =~= seq![(&arg, &res)]);
                }
                r
            },
            Err(err) => {
                let r = wrap_app(Err(err));
                proof {
                    assert forall|past: Seq<(&A, &B)>| mapped(&a, &r) + past =~= past by {}
                }
                r
            },
        }
    }
}

impl<F, G> Functor<FunctionF> for ComposeApp<F, G> where F: Functor<FunctionF>, G: Functor<FunctionF> {
    /// Maps `F` with the function that maps `G` with `mapper`: the outer
    /// handle of the result holds as many inner handles as that of `fga`,
    /// and each is the inner handle in the same place mapped with `mapper`.
    fn fmap<'a, 'b, A: 'a, B: 'a>(
        fga: App<'a, ComposeApp<F, G>, A>,
        mapper: BiApp<'b, FunctionF, A, B>,
    ) -> (fgb: App<'a, ComposeApp<F, G>, B>) where Self: 'a, F: 'a, G: 'a, 'a: 'b
        ensures
            same_count(fga.applied(), fgb.applied()),
            forall|i: int|
                0 <= i < fga.applied().count() ==> maps_each(
                    fga.applied().element(i),
                    &mapper,
                    #[trigger] fgb.applied().element(i),
                ),
    {
        let fga2 = fga.get_applied();
        let callable = mapper.get_applied_borrow();
        let map_inner = |ga: App<'a, G, A>| -> (gb: App<'a, G, B>)
            ensures
                maps_each(&ga, &mapper, &gb)
            {
                let apply = |x: A| -> (y: B)
                    ensures
                        callable.yields(x, y)
                    { callable.call(x) };
                G::fmap(ga, wrap_function(apply))
            };
        let inner = wrap_function(map_inner);
        let ghost lent = inner;
        let fgb2 = F::fmap(fga2, inner);
        proof {
            assert forall|i: int| 0 <= i < fga2.count() implies maps_each(
                fga2.element(i),
                &mapper,
                #[trigger] fgb2.element(i),
            ) by {
                assert(lent.relates(mapped_so_far(&fga2, &fgb2, i), fga2.element(i), fgb2.element(i)));
            }
        }
        let fgb = wrap_app(fgb2);
        proof {
            lemma_composition_maps(&fga, &mapper, &fgb, Seq::empty());
            assert forall|k: int| 0 <= k < fga.count() implies mapper.relates(
                mapped_so_far(&fga, &fgb, k),
                fga.element(k),
                #[trigger] fgb.element(k),
            ) by {
                assert(Seq::empty() + mapped_so_far(&fga, &fgb, k) =~= mapped_so_far(&fga, &fgb, k));
            }
        }
        fgb
    }
}

/// What the maps of the inner handles in `outer` have the function do, one
/// map after the other.
pub open spec fn flat<'r, 'a, G: ?Sized, A, B>(
    outer: Seq<(&'r App<'a, G, A>, &'r App<'a, G, B>)>,
) -> Seq<(&'r A, &'r B)>
    decreases outer.len(),
{
    if outer.len() == 0 {
        Seq::empty()
    } else {
        flat(outer.drop_last()) + mapped(outer.last().0, outer.last().1)
    }
}

/// What a map and then others have the function do is what the map has it
/// do and then what the others have it do.
pub proof fn lemma_flat_first<'r, 'a, G: ?Sized, A, B>(
    ga: &'r App<'a, G, A>,
    gb: &'r App<'a, G, B>,
    rest: Seq<(&'r App<'a, G, A>, &'r App<'a, G, B>)>,
)
    ensures
        flat(seq![(ga, gb)] + rest) == mapped(ga, gb) + flat(rest),
    decreases rest.len(),
{
    let all = seq![(ga, gb)] + rest;
    if rest.len() == 0 {
        assert(all.drop_last() =~= Seq::empty());
        assert(all.last() == (ga, gb));
        assert(flat(all.drop_last()) =~= Seq::empty());
        assert(flat(rest) =~= Seq::empty());
        assert(flat(all) =~= flat(all.drop_last()) + mapped(ga, gb));
        assert(flat(all) =~= mapped(ga, gb) + flat(rest));
    } else {
        lemma_flat_first(ga, gb, rest.drop_last());
        assert(all.drop_last() =~= seq![(ga, gb)] + rest.drop_last());
        assert(all.last() == rest.last());
        assert(flat(all) =~= flat(all.drop_last()) + mapped(all.last().0, all.last().1));
        assert(flat(rest) =~= flat(rest.drop_last()) + mapped(rest.last().0, rest.last().1));
        assert(flat(all) =~= mapped(ga, gb) + flat(rest));
    }
}

/// What a map of the composition has made the function do when it has come
/// to the `k`-th of the values that the first `n` inner handles hold.
pub open spec fn nested_mapped<'r, 'a, F: ?Sized, G: ?Sized, A, B>(
    ins: &'r App<'a, F, App<'a, G, A>>,
    outs: &'r App<'a, F, App<'a, G, B>>,
    n: int,
    k: int,
) -> Seq<(&'r A, &'r B)> {
    Seq::new(k as nat, |t: int| (nested_element(ins, n, t), nested_element(outs, n, t)))
}

/// Where each inner handle of `outs` is the inner handle of `ins` in the
/// same place, mapped with the function as the maps before have left it,
/// the values that the inner handles hold are mapped one after another,
/// taken all together.
pub proof fn lemma_maps_nested<'r, 'a, 'b, F: ?Sized, G: ?Sized, Func: ?Sized, A, B>(
    ins: &'r App<'a, F, App<'a, G, A>>,
    mapper: &BiApp<'b, Func, A, B>,
    outs: &'r App<'a, F, App<'a, G, B>>,
    before: Seq<(&'r A, &'r B)>,
    n: int,
)
    requires
        0 <= n <= ins.count(),
        same_count(ins, outs),
        forall|i: int|
            0 <= i < ins.count() ==> maps_each_after(
                before + flat(mapped_so_far(ins, outs, i)),
                ins.element(i),
                mapper,
                #[trigger] outs.element(i),
            ),
    ensures
        nested_count(outs, n) == nested_count(ins, n),
        nested_mapped(ins, outs, n, nested_count(ins, n) as int) == flat(mapped_so_far(ins, outs, n)),
        forall|k: int|
            0 <= k < nested_count(ins, n) ==> mapper.relates(
                before + nested_mapped(ins, outs, n, k),
                nested_element(ins, n, k),
                #[trigger] nested_element(outs, n, k),
            ),
    decreases n,
{
    if n <= 0 {
        assert(mapped_so_far(ins, outs, n) =~= Seq::empty());
        assert(nested_mapped(ins, outs, n, 0) =~= flat(mapped_so_far(ins, outs, n)));
    } else {
        lemma_maps_nested(ins, mapper, outs, before, n - 1);
        let c = nested_count(ins, n - 1) as int;
        let ga = ins.element(n - 1);
        let gb = outs.element(n - 1);
        let done = flat(mapped_so_far(ins, outs, n - 1));
        assert(maps_each_after(before + done, ga, mapper, gb));
        assert(mapped_so_far(ins, outs, n).drop_last() =~= mapped_so_far(ins, outs, n - 1));
        assert(mapped_so_far(ins, outs, n).last() == (ga, gb));
        assert(flat(mapped_so_far(ins, outs, n)) =~= done + mapped(ga, gb));
        assert forall|t: int| 0 <= t < c implies nested_element(ins, n, t) == nested_element(
            ins,
            n - 1,
            t,
        ) && nested_element(outs, n, t) == nested_element(outs, n - 1, t) by {}
        assert forall|t: int| c <= t < c + ga.count() implies nested_element(ins, n, t)
            == ga.element(t - c) && nested_element(outs, n, t) == gb.element(t - c) by {}
        assert(nested_mapped(ins, outs, n, c + ga.count()) =~= done + mapped(ga, gb));
        assert forall|k: int| 0 <= k < nested_count(ins, n) implies mapper.relates(
            before + nested_mapped(ins, outs, n, k),
            nested_element(ins, n, k),
            #[trigger] nested_element(outs, n, k),
        ) by {
            if k < c {
                assert(nested_mapped(ins, outs, n, k) =~= nested_mapped(ins, outs, n - 1, k));
            } else {
                let r = k - c;
                assert(nested_mapped(ins, outs, n, k) =~= done + mapped_so_far(ga, gb, r));
                assert(before + nested_mapped(ins, outs, n, k) =~= (before + done) + mapped_so_far(
                    ga,
                    gb,
                    r,
                ));
                assert(mapper.relates(
                    (before + done) + mapped_so_far(ga, gb, r),
                    ga.element(r),
                    gb.element(r),
                ));
            }
        }
    }
}

/// The same, said of two handles of a composition: where the inner handles
/// of `fgb` are those of `fga` mapped one after the other, `fgb` is `fga`
/// mapped, and what the map has made the function do is what the maps of
/// the inner handles have, in turn.
pub proof fn lemma_composition_maps<'r, 'a, 'b, F: 'a + ?Sized, G: 'a + ?Sized, Func: ?Sized, A: 'a, B: 'a>(
    fga: &'r App<'a, ComposeApp<F, G>, A>,
    mapper: &BiApp<'b, Func, A, B>,
    fgb: &'r App<'a, ComposeApp<F, G>, B>,
    before: Seq<(&'r A, &'r B)>,
)
    requires
        fga.count() == nested_count(fga.applied(), fga.applied().count() as int),
        forall|k: int| #[trigger]
            fga.element(k) == nested_element(fga.applied(), fga.applied().count() as int, k),
        fgb.count() == nested_count(fgb.applied(), fgb.applied().count() as int),
        forall|k: int| #[trigger]
            fgb.element(k) == nested_element(fgb.applied(), fgb.applied().count() as int, k),
        same_count(fga.applied(), fgb.applied()),
        forall|i: int|
            0 <= i < fga.applied().count() ==> maps_each_after(
                before + flat(mapped_so_far(fga.applied(), fgb.applied(), i)),
                fga.applied().element(i),
                mapper,
                #[trigger] fgb.applied().element(i),
            ),
    ensures
        maps_each_after(before, fga, mapper, fgb),
        mapped(fga, fgb) == flat(
            mapped_so_far(fga.applied(), fgb.applied(), fga.applied().count() as int),
        ),
{
    let ins = fga.applied();
    let outs = fgb.applied();
    let n = ins.count() as int;
    lemma_maps_nested(ins, mapper, outs, before, n);
    assert forall|k: int| 0 <= k < fga.count() implies mapper.relates(
        before + mapped_so_far(fga, fgb, k),
        fga.element(k),
        #[trigger] fgb.element(k),
    ) by {
        assert(mapped_so_far(fga, fgb, k) =~= nested_mapped(ins, outs, n, k));
        assert(mapper.relates(
            before + nested_mapped(ins, outs, n, k),
            nested_element(ins, n, k),
            nested_element(outs, n, k),
        ));
    }
    assert(mapped(fga, fgb) =~= nested_mapped(ins, outs, n, nested_count(ins, n) as int));
}

impl<F, G> FunctorMut<FunctionMutF> for ComposeApp<F, G> where
    F: Container + Functor<FunctionMutF>,
    G: FunctorMut<FunctionMutF>,
 {
    /// Takes the inner handles out, maps one after the other with `mapper`,
    /// and puts the results where they were: each inner handle of the
    /// result is the inner handle of `fga` in the same place, mapped with
    /// `mapper` as the maps of the inner handles before it have left it.
    fn fmap_mut<'a, 'b, A: 'a, B: 'a>(
        fga: App<'a, ComposeApp<F, G>, A>,
        mapper: &mut BiApp<'b, FunctionMutF, A, B>,
    ) -> (fgb: App<'a, ComposeApp<F, G>, B>) where Self: 'a, F: 'a, G: 'a, 'a: 'b
        ensures
            same_count(fga.applied(), fgb.applied()),
            forall|i: int|
                0 <= i < fga.applied().count() ==> maps_each_after(
                    flat(mapped_so_far(fga.applied(), fgb.applied(), i)),
                    fga.applied().element(i),
                    old(mapper),
                    #[trigger] fgb.applied().element(i),
                ),
    {
        broadcast use vstd::std_specs::vec::axiom_spec_into_iter;

        let ghost given = *mapper;
        let outer = fga.get_applied();
        let (shape, inners) = F::unpack(outer);
        let ghost source = inners@;
        let mut results: Vec<App<'a, G, B>> = Vec::new();
        proof {
            assert(flat(calls(source, results@, 0)) =~= Seq::empty());
            assert forall|past: Seq<(&A, &B)>, a: &A, b: &B| #[trigger]
                mapper.relates(past, a, b) implies given.relates(
                flat(calls(source, results@, 0)) + past,
                a,
                b,
            ) by {
                assert(flat(calls(source, results@, 0)) + past =~= past);
            }
        }
        for inner in it: inners.into_iter()
            invariant
                it.seq() == source,
                results.len() == it.index(),
                forall|j: int|
                    0 <= j < it.index() ==> maps_each_after(
                        flat(calls(source, results@, j)),
                        &source[j],
                        &given,
                        #[trigger] &results@[j],
                    ),
                forall|past: Seq<(&A, &B)>, a: &A, b: &B| #[trigger]
                    mapper.relates(past, a, b) ==> given.relates(
                        flat(calls(source, results@, it.index())) + past,
                        a,
                        b,
                    ),
        {
            let ghost n = it.index();
            let ghost before = results@;
            let ghost now = *mapper;
            let ghost ga = inner;
            let gb = G::fmap_mut(inner, mapper);
            results.push(gb);
            proof {
                let done = flat(calls(source, before, n));
                assert forall|j: int| 0 <= j < n + 1 implies maps_each_after(
                    flat(calls(source, results@, j)),
                    &source[j],
                    &given,
                    #[trigger] &results@[j],
                ) by {
                    assert(calls(source, results@, j) =~= calls(source, before, j));
                    if j == n {
                        assert forall|i: int| 0 <= i < ga.count() implies given.relates(
                            done + mapped_so_far(&ga, &gb, i),
                            ga.element(i),
                            #[trigger] gb.element(i),
                        ) by {
                            assert(now.relates(mapped_so_far(&ga, &gb, i), ga.element(i), gb.element(i)));
                        }
                    }
                }
                assert(calls(source, results@, n + 1).drop_last() =~= calls(source, before, n));
                assert(calls(source, results@, n + 1).last() == (&ga, &gb));
                assert(flat(calls(source, results@, n + 1)) =~= done + mapped(&ga, &gb));
                assert forall|past: Seq<(&A, &B)>, a: &A, b: &B| #[trigger]
                    mapper.relates(past, a, b) implies given.relates(
                    flat(calls(source, results@, n + 1)) + past,
                    a,
                    b,
                ) by {
                    assert(now.relates(mapped(&ga, &gb) + past, a, b));
                    assert(flat(calls(source, results@, n + 1)) + past =~= done + (mapped(&ga, &gb)
                        + past));
                }
            }
        }
        let ghost mapped_handles = results@;
        let outer_b = F::pack(shape, results);
        let fgb = wrap_app(outer_b);
        proof {
            let count = outer.count() as int;
            assert forall|i: int| 0 <= i <= count implies #[trigger] mapped_so_far(&outer, &outer_b, i)
                =~= calls(source, mapped_handles, i) by {}
            assert forall|i: int| 0 <= i < count implies maps_each_after(
                Seq::empty() + flat(mapped_so_far(&outer, &outer_b, i)),
                outer.element(i),
                &given,
                #[trigger] outer_b.element(i),
            ) by {
                assert(mapped_so_far(&outer, &outer_b, i) =~= calls(source, mapped_handles, i));
                assert(Seq::empty() + flat(mapped_so_far(&outer, &outer_b, i)) =~= flat(
                    calls(source, mapped_handles, i),
                ));
                assert(maps_each_after(
                    flat(calls(source, mapped_handles, i)),
                    &source[i],
                    &given,
                    &mapped_handles[i],
                ));
            }
            lemma_composition_maps(&fga, &given, &fgb, Seq::empty());
            assert forall|k: int| 0 <= k < fga.count() implies given.relates(
                mapped_so_far(&fga, &fgb, k),
                fga.element(k),
                #[trigger] fgb.element(k),
            ) by {
                assert(Seq::empty() + mapped_so_far(&fga, &fgb, k) =~= mapped_so_far(&fga, &fgb, k));
            }
            assert(mapped_so_far(&outer, &outer_b, count) =~= calls(source, mapped_handles, count));
        }
        fgb
    }
}

/// The function that maps a handle of `G` with a function from `A` to `B`
/// that it holds: the map of `G`, as a function from handle to handle.
#[verifier::reject_recursive_types(A)]
#[verifier::reject_recursive_types(B)]
struct MapInner<'b, G, A, B> {
    mapper: BiApp<'b, FunctionMutF, A, B>,
    inner: PhantomData<G>,
}

impl<'a, 'b, G: 'a, A: 'a, B: 'a> CallMut<App<'a, G, A>, App<'a, G, B>> for MapInner<
    'b,
    G,
    A,
    B,
> where G: FunctorMut<FunctionMutF>, 'a: 'b {
    closed spec fn yields(
        &self,
        past: Seq<(&App<'a, G, A>, &App<'a, G, B>)>,
        ga: App<'a, G, A>,
        gb: App<'a, G, B>,
    ) -> bool {
        maps_each_after(flat(past), &ga, &self.mapper, &gb)
    }

    fn call_mut(&mut self, ga: App<'a, G, A>) -> (gb: App<'a, G, B>) {
        let ghost given = ga;
        let ghost before = self.mapper;
        let gb = G::fmap_mut(ga, &mut self.mapper);
        proof {
            assert forall|i: int| 0 <= i < given.count() implies before.relates(
                flat::<G, A, B>(Seq::empty()) + mapped_so_far(&given, &gb, i),
                given.element(i),
                #[trigger] gb.element(i),
            ) by {
                assert(flat::<G, A, B>(Seq::empty()) + mapped_so_far(&given, &gb, i)
                    =~= mapped_so_far(&given, &gb, i));
            }
            assert forall|
                past: Seq<(&App<'a, G, A>, &App<'a, G, B>)>,
                x: App<'a, G, A>,
                y: App<'a, G, B>,
            | #[trigger] self.yields(past, x, y) implies old(self).yields(
                seq![(&given, &gb)] + past,
                x,
                y,
            ) by {
                lemma_flat_first(&given, &gb, past);
                assert forall|i: int| 0 <= i < x.count() implies before.relates(
                    flat(seq![(&given, &gb)] + past) + mapped_so_far(&x, &y, i),
                    x.element(i),
                    #[trigger] y.element(i),
                ) by {
                    assert(self.mapper.relates(
                        flat(past) + mapped_so_far(&x, &y, i),
                        x.element(i),
                        y.element(i),
                    ));
                    assert(flat(seq![(&given, &gb)] + past) + mapped_so_far(&x, &y, i) =~= mapped(
                        &given,
                        &gb,
                    ) + (flat(past) + mapped_so_far(&x, &y, i)));
                }
            }
        }
        gb
    }
}

impl<F, G> Functor<FunctionMutF> for ComposeApp<F, G> where
    F: Functor<FunctionMutF>,
    G: FunctorMut<FunctionMutF>,
 {
    /// Maps `F` with the function that maps `G` with `mapper`: each inner
    /// handle of the result is the inner handle of `fga` in the same place,
    /// mapped with `mapper` as the maps of the inner handles before it have
    /// left it.
    fn fmap<'a, 'b, A: 'a, B: 'a>(
        fga: App<'a, ComposeApp<F, G>, A>,
        mapper: BiApp<'b, FunctionMutF, A, B>,
    ) -> (fgb: App<'a, ComposeApp<F, G>, B>) where Self: 'a, F: 'a, G: 'a, 'a: 'b
        ensures
            same_count(fga.applied(), fgb.applied()),
            forall|i: int|
                0 <= i < fga.applied().count() ==> maps_each_after(
                    flat(mapped_so_far(fga.applied(), fgb.applied(), i)),
                    fga.applied().element(i),
                    &mapper,
                    #[trigger] fgb.applied().element(i),
                ),
    {
        let outer = fga.get_applied();
        let inner = wrap_function_mut(MapInner::<G, A, B> { mapper, inner: PhantomData });
        let ghost lent = inner;
        let outer_b = F::fmap(outer, inner);
        let fgb = wrap_app(outer_b);
        proof {
            assert forall|i: int| 0 <= i < outer.count() implies maps_each_after(
                Seq::empty() + flat(mapped_so_far(&outer, &outer_b, i)),
                outer.element(i),
                &mapper,
                #[trigger] outer_b.element(i),
            ) by {
                assert(lent.relates(
                    mapped_so_far(&outer, &outer_b, i),
                    outer.element(i),
                    outer_b.element(i),
                ));
                assert(Seq::empty() + flat(mapped_so_far(&outer, &outer_b, i)) =~= flat(
                    mapped_so_far(&outer, &outer_b, i),
                ));
            }
            lemma_composition_maps(&fga, &mapper, &fgb, Seq::empty());
            assert forall|k: int| 0 <= k < fga.count() implies mapper.relates(
                mapped_so_far(&fga, &fgb, k),
                fga.element(k),
                #[trigger] fgb.element(k),
            ) by {
                assert(Seq::empty() + mapped_so_far(&fga, &fgb, k) =~= mapped_so_far(&fga, &fgb, k));
            }
        }
        fgb
    }
}

/// The map of a list of options keeps the length and the order, keeps
/// `None` where `None` was, and turns `Some` of a value into `Some` of one
/// that the function relates to it.
///
/// `xs` and `ys` are the handle that is mapped and the result, as the map
/// of the composition relates them, with `before` for what the function has
/// done when it comes to an option. `v` and `r` are the lists that
/// `get_applied_borrow` returns for the two, and the options in them are
/// what it returns for each of their handles.
pub proof fn lemma_list_of_options_map<'a, 'b, Func: ?Sized, A, B>(
    xs: App<'a, ComposeApp<VecF, OptionF>, A>,
    mapper: BiApp<'b, Func, A, B>,
    ys: App<'a, ComposeApp<VecF, OptionF>, B>,
    before: spec_fn(int) -> Seq<(&A, &B)>,
    v: &Vec<App<'a, OptionF, A>>,
    r: &Vec<App<'a, OptionF, B>>,
)
    requires
        same_count(xs.applied(), ys.applied()),
        forall|i: int|
            0 <= i < xs.applied().count() ==> maps_each_after(
                before(i),
                xs.applied().element(i),
                &mapper,
                #[trigger] ys.applied().element(i),
            ),
        call_ensures(App::<'a, VecF, App<'a, OptionF, A>>::get_applied_borrow, (xs.applied(),), v),
        call_ensures(App::<'a, VecF, App<'a, OptionF, B>>::get_applied_borrow, (ys.applied(),), r),
        forall|i: int|
            0 <= i < v@.len() ==> call_ensures(
                App::<'a, OptionF, A>::get_applied_borrow,
                (&v@[i],),
                #[trigger] v@[i].applied(),
            ),
        forall|i: int|
            0 <= i < r@.len() ==> call_ensures(
                App::<'a, OptionF, B>::get_applied_borrow,
                (&r@[i],),
                #[trigger] r@[i].applied(),
            ),
    ensures
        r@.len() == v@.len(),
        forall|i: int|
            0 <= i < v@.len() ==> (#[trigger] r@[i].applied() is None <==> v@[i].applied() is None),
        forall|i: int|
            0 <= i < v@.len() && v@[i].applied() is Some ==> mapper.relates(
                before(i),
                &v@[i].applied()->0,
                #[trigger] &r@[i].applied()->0,
            ),
{
    assert forall|i: int| 0 <= i < v@.len() implies (#[trigger] r@[i].applied() is None
        <==> v@[i].applied() is None) by {
        assert(same_count(xs.applied().element(i), ys.applied().element(i)));
    }
    assert forall|i: int| 0 <= i < v@.len() && v@[i].applied() is Some implies mapper.relates(
        before(i),
        &v@[i].applied()->0,
        #[trigger] &r@[i].applied()->0,
    ) by {
        let ga = xs.applied().element(i);
        let gb = ys.applied().element(i);
        assert(maps_each_after(before(i), ga, &mapper, gb));
        assert(before(i) + mapped_so_far(ga, gb, 0) =~= before(i));
        assert(mapper.relates(before(i) + mapped_so_far(ga, gb, 0), ga.element(0), gb.element(0)));
    }
}

} // verus!
