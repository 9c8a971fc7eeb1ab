//! Applied values taken apart into their shape and their values, and put
//! together again.
//!
//! A map hands its function to the constructor. A [`Container`] hands its
//! values to the caller instead. That is how a composition maps with a
//! function that is only lent to it: it takes the inner handles out of
//! the outer one, maps them one after the other, and puts the results
//! where the inner handles were.
use crate::row::held;
use crate::type_app::compose::{nested_count, nested_element};
use crate::type_app::{
    wrap_app, App, ComposeApp, Const, Identity, OptionF, ResultF, TypeCon, VecF,
};
use vstd::prelude::*;

verus! {

/// A constructor whose applied values can be taken apart and put together.
pub trait Container: TypeCon {
    /// The shape of `fa`, which holds a `()` wherever `fa` holds a value,
    /// and the values that `fa` holds, in their order.
    fn unpack<'a, A: 'a>(fa: App<'a, Self, A>) -> (parts: (App<'a, Self, ()>, Vec<A>)) where
        Self: 'a,

        ensures
            parts.0.count() == fa.count(),
            parts.1@.len() == fa.count(),
            forall|i: int| 0 <= i < fa.count() ==> #[trigger] parts.1@[i] == *fa.element(i),
    ;

    /// The shape with the values put where it holds a `()`, in their order.
    fn pack<'a, B: 'a>(shape: App<'a, Self, ()>, values: Vec<B>) -> (fb: App<'a, Self, B>) where
        Self: 'a,

        requires
            values@.len() == shape.count(),
        ensures
            fb.count() == shape.count(),
            forall|i: int| 0 <= i < shape.count() ==> *#[trigger] fb.element(i) == values@[i],
    ;
}

impl Container for Identity {
    fn unpack<'a, A: 'a>(fa: App<'a, Self, A>) -> (parts: (App<'a, Self, ()>, Vec<A>)) where
        Self: 'a,
     {
        let value = fa.get_applied();
        let mut values = Vec::new();
        values.push(value);
        (wrap_app(()), values)
    }

    fn pack<'a, B: 'a>(shape: App<'a, Self, ()>, values: Vec<B>) -> (fb: App<'a, Self, B>) where
        Self: 'a,
     {
        let _ = shape.get_applied();
        let mut values = values;
        wrap_app(values.remove(0))
    }
}

impl<X> Container for Const<X> {
    fn unpack<'a, A: 'a>(fa: App<'a, Self, A>) -> (parts: (App<'a, Self, ()>, Vec<A>)) where
        Self: 'a,

        ensures
            parts.0.applied() == fa.applied(),
    {
        (wrap_app(fa.get_applied()), Vec::new())
    }

    fn pack<'a, B: 'a>(shape: App<'a, Self, ()>, values: Vec<B>) -> (fb: App<'a, Self, B>) where
        Self: 'a,

        ensures
            fb.applied() == shape.applied(),
    {
        wrap_app(shape.get_applied())
    }
}

impl Container for OptionF {
    fn unpack<'a, A: 'a>(fa: App<'a, Self, A>) -> (parts: (App<'a, Self, ()>, Vec<A>)) where
        Self: 'a,
     {
        let mut values = Vec::new();
        match fa.get_applied() {
            Some(value) => {
                values.push(value);
                (wrap_app(Some(())), values)
            },
            None => (wrap_app(None), values),
        }
    }

    fn pack<'a, B: 'a>(shape: App<'a, Self, ()>, values: Vec<B>) -> (fb: App<'a, Self, B>) where
        Self: 'a,
     {
        let mut values = values;
        match shape.get_applied() {
            Some(_) => wrap_app(Some(values.remove(0))),
            None => wrap_app(None),
        }
    }
}

impl<E> Container for ResultF<E> {
    fn unpack<'a, A: 'a>(fa: App<'a, Self, A>) -> (parts: (App<'a, Self, ()>, Vec<A>)) where
        Self: 'a,

        ensures
            match *fa.applied() {
                Ok(_) => parts.0.applied() is Ok,
                Err(e) => *parts.0.applied() == Err::<(), E>(e),
            },
    {
        let mut values = Vec::new();
        match fa.get_applied() {
            Ok(value) => {
                values.push(value);
                (wrap_app(Ok(())), values)
            },
            Err(err) => (wrap_app(Err(err)), values),
        }
    }

    fn pack<'a, B: 'a>(shape: App<'a, Self, ()>, values: Vec<B>) -> (fb: App<'a, Self, B>) where
        Self: 'a,

        ensures
            match *shape.applied() {
                Ok(_) => fb.applied() is Ok,
                Err(e) => *fb.applied() == Err::<B, E>(e),
            },
    {
        let mut values = values;
        match shape.get_applied() {
            Ok(_) => wrap_app(Ok(values.remove(0))),
            Err(err) => wrap_app(Err(err)),
        }
    }
}

impl Container for VecF {
    fn unpack<'a, A: 'a>(fa: App<'a, Self, A>) -> (parts: (App<'a, Self, ()>, Vec<A>)) where
        Self: 'a,

        ensures
            parts.1@ == fa.applied()@,
    {
        let values = fa.get_applied();
        let n = values.len();
        let mut units: Vec<()> = Vec::new();
        let mut i: usize = 0;
        while i < n
            invariant
                i <= n,
                units.len() == i,
            decreases n - i,
        {
            units.push(());
            i = i + 1;
        }
        (wrap_app(units), values)
    }

    fn pack<'a, B: 'a>(shape: App<'a, Self, ()>, values: Vec<B>) -> (fb: App<'a, Self, B>) where
        Self: 'a,

        ensures
            fb.applied()@ == values@,
    {
        let _ = shape.get_applied();
        wrap_app(values)
    }
}

/// The values that the first `n` of `handles` hold, those of the first
/// before those of the second and so on.
pub open spec fn gathered<'a, G: ?Sized, X>(handles: Seq<App<'a, G, X>>, n: int) -> Seq<X>
    decreases n,
{
    if n <= 0 {
        Seq::empty()
    } else {
        gathered(handles, n - 1) + held(&handles[n - 1])
    }
}

/// What is gathered from the first `n` handles does not depend on the
/// handles after them.
pub proof fn lemma_gathered_prefix<'a, G: ?Sized, X>(
    some: Seq<App<'a, G, X>>,
    others: Seq<App<'a, G, X>>,
    n: int,
)
    requires
        forall|j: int| 0 <= j < n ==> #[trigger] some[j] == others[j],
    ensures
        gathered(some, n) == gathered(others, n),
    decreases n,
{
    if n > 0 {
        lemma_gathered_prefix(some, others, n - 1);
        assert(some[n - 1] == others[n - 1]);
    }
}

/// The more handles, the more is gathered.
pub proof fn lemma_gathered_grows<'a, G: ?Sized, X>(handles: Seq<App<'a, G, X>>, m: int, n: int)
    requires
        m <= n,
    ensures
        gathered(handles, m).len() <= gathered(handles, n).len(),
    decreases n - m,
{
    if m < n {
        lemma_gathered_grows(handles, m, n - 1);
    }
}

/// Handles that hold as many values each have as many values gathered.
pub proof fn lemma_gathered_as_many<'a, G: ?Sized, X, Y>(
    some: Seq<App<'a, G, X>>,
    others: Seq<App<'a, G, Y>>,
    n: int,
)
    requires
        forall|j: int| 0 <= j < n ==> (#[trigger] some[j]).count() == others[j].count(),
    ensures
        gathered(some, n).len() == gathered(others, n).len(),
    decreases n,
{
    if n > 0 {
        lemma_gathered_as_many(some, others, n - 1);
        assert(some[n - 1].count() == others[n - 1].count());
    }
}

/// What is gathered from the inner handles of a handle is what the handle
/// of the composition holds.
pub proof fn lemma_gathered_nested<'a, F: ?Sized, G: ?Sized, X>(
    outer: &App<'a, F, App<'a, G, X>>,
    handles: Seq<App<'a, G, X>>,
    n: int,
)
    requires
        forall|j: int| 0 <= j < n ==> #[trigger] handles[j] == *outer.element(j),
    ensures
        gathered(handles, n).len() == nested_count(outer, n),
        forall|k: int|
            0 <= k < nested_count(outer, n) ==> #[trigger] gathered(handles, n)[k]
                == *nested_element(outer, n, k),
    decreases n,
{
    if n > 0 {
        lemma_gathered_nested(outer, handles, n - 1);
        assert(handles[n - 1] == *outer.element(n - 1));
    }
}

impl<F, G> Container for ComposeApp<F, G> where F: Container, G: Container {
    /// The shape holds as many inner handles as `fga`, and each holds a `()`
    /// for every value of the inner handle of `fga` in the same place.
    fn unpack<'a, A: 'a>(fga: App<'a, Self, A>) -> (parts: (App<'a, Self, ()>, Vec<A>)) where
        Self: 'a,

        ensures
            parts.0.applied().count() == fga.applied().count(),
            forall|i: int|
                0 <= i < fga.applied().count() ==> (#[trigger] parts.0.applied().element(i)).count()
                    == fga.applied().element(i).count(),
    {
        broadcast use vstd::std_specs::vec::axiom_spec_into_iter;

        let outer = fga.get_applied();
        let (shape_f, inners) = F::unpack(outer);
        let ghost handles = inners@;
        let mut shapes: Vec<App<'a, G, ()>> = Vec::new();
        let mut values: Vec<A> = Vec::new();
        for inner in it: inners.into_iter()
            invariant
                it.seq() == handles,
                shapes.len() == it.index(),
                forall|j: int|
                    0 <= j < it.index() ==> (#[trigger] shapes@[j]).count() == handles[j].count(),
                values@ == gathered(handles, it.index()),
        {
            let ghost given = inner;
            let (shape_g, mut inner_values) = G::unpack(inner);
            proof {
                assert(inner_values@ =~= held(&given));
            }
            shapes.push(shape_g);
            values.append(&mut inner_values);
        }
        let ghost filled = shapes@;
        let shape_outer = F::pack(shape_f, shapes);
        let shape = wrap_app(shape_outer);
        proof {
            let n = outer.count() as int;
            lemma_gathered_nested(&outer, handles, n);
            lemma_gathered_nested(&shape_outer, filled, n);
            lemma_gathered_as_many(filled, handles, n);
        }
        (shape, values)
    }

    /// The result holds as many inner handles as the shape, and each holds
    /// as many values as the inner handle of the shape in the same place
    /// holds `()`.
    fn pack<'a, B: 'a>(shape: App<'a, Self, ()>, values: Vec<B>) -> (fb: App<'a, Self, B>) where
        Self: 'a,

        ensures
            fb.applied().count() == shape.applied().count(),
            forall|i: int|
                0 <= i < shape.applied().count() ==> (#[trigger] fb.applied().element(i)).count()
                    == shape.applied().element(i).count(),
    {
        broadcast use vstd::std_specs::vec::axiom_spec_into_iter;

        let shape_outer = shape.get_applied();
        let (shape_f, shapes) = F::unpack(shape_outer);
        let ghost handles = shapes@;
        let ghost all = values@;
        let ghost n = shape_outer.count() as int;
        proof {
            lemma_gathered_nested(&shape_outer, handles, n);
        }
        let mut rest = values;
        let mut inners: Vec<App<'a, G, B>> = Vec::new();
        for shape_g in it: shapes.into_iter()
            invariant
                it.seq() == handles,
                handles.len() == n,
                gathered(handles, n).len() == all.len(),
                inners.len() == it.index(),
                forall|j: int|
                    0 <= j < it.index() ==> (#[trigger] inners@[j]).count() == handles[j].count(),
                gathered(inners@, it.index()) + rest@ == all,
        {
            let ghost done = it.index();
            let ghost before = inners@;
            let (shape_g2, units) = G::unpack(shape_g);
            let c = units.len();
            proof {
                lemma_gathered_as_many(before, handles, done);
                lemma_gathered_grows(handles, done + 1, n);
            }
            let mut chunk = rest;
            let tail = chunk.split_off(c);
            rest = tail;
            let ghost taken = chunk@;
            let gb = G::pack(shape_g2, chunk);
            proof {
                assert(held(&gb) =~= taken);
            }
            inners.push(gb);
            proof {
                lemma_gathered_prefix(before, inners@, done);
                assert(gathered(inners@, done + 1) + rest@ =~= all);
            }
        }
        let ghost packed = inners@;
        let outer = F::pack(shape_f, inners);
        let fb = wrap_app(outer);
        proof {
            lemma_gathered_as_many(packed, handles, n);
            lemma_gathered_nested(&outer, packed, n);
            assert(rest@.len() == 0);
            assert(gathered(packed, n) =~= all);
        }
        fb
    }
}

} // verus!
