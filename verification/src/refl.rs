//! Type equality as a trait bound, and the witnesses that carry it.
//!
//! Every type implements [`Refl`] with itself as the associated type, so a
//! bound `T1: Refl<Refl = T2>` can only hold where `T1` and `T2` are one
//! type. Generic code cannot see that by itself. The traits here are each
//! implemented once, for all types, at a place where the equality is still
//! in view, and so let a value of the one type pass as a value of the other.
//!
//! What a value is on the other side is written `as_refl`, and the way back
//! `of_refl`; a witness of an equality takes a value across by `carry`. All
//! three are the identity, which is what the contracts and the lemmas of
//! this module say in the end.
use crate::reference::Borrow;
use crate::type_app::{App, AppF, Applied, Compose, OptionF, TypeApp, VecF};
use vstd::prelude::*;

verus! {

/// Pairs every type with itself.
pub trait Refl {
    type Refl: ?Sized;

    /// `self` seen as a value of the partner type.
    spec fn as_refl(&self) -> &Self::Refl;

    /// A value of the partner type seen as a value of `Self`.
    spec fn of_refl(x: &Self::Refl) -> &Self;
}

impl<T: ?Sized> Refl for T {
    type Refl = T;

    open spec fn as_refl(&self) -> &T {
        self
    }

    open spec fn of_refl(x: &T) -> &T {
        x
    }
}

/// A witness that its two sides are one type, with nothing fixed about
/// which types they are.
pub trait HasReflUnrestricted<T1: ?Sized, T2: ?Sized>: Sized {
    type Left: Refl<Refl = Self::Right> + ?Sized;

    type Right: Refl<Refl = Self::Left> + ?Sized;

    /// A value of the left type seen as a value of the right type.
    spec fn carry(left: &Self::Left) -> &Self::Right;
}

impl<A, T: ?Sized> HasReflUnrestricted<T, T> for A {
    type Left = T;

    type Right = T;

    open spec fn carry(left: &T) -> &T {
        left
    }
}

/// A witness that `T1` and `T2` are one type.
pub trait HasRefl<T1: ?Sized, T2: ?Sized>: HasReflUnrestricted<T1, T2, Left = T1, Right = T2> {

}

impl<A, T1: ?Sized, T2: ?Sized> HasRefl<T1, T2> for A where
    A: HasReflUnrestricted<T1, T2, Left = T1, Right = T2>,
 {
}

/// What `x` is when it is carried from `T1` to `T2` along a witness that
/// the two are one type.
pub open spec fn carry_along<W, T1: ?Sized, T2: ?Sized>(witness: W, x: &T1) -> &T2 where
    W: HasRefl<T1, T2>,
 {
    <W as HasReflUnrestricted<T1, T2>>::carry(x)
}

trait ReflWitness: Refl {
    type Witness: HasRefl<Self, Self::Refl> + HasRefl<Self::Refl, Self>;

    fn witness() -> Self::Witness;
}

impl<T: ?Sized> ReflWitness for T {
    type Witness = ();

    fn witness() -> Self::Witness {
    }
}

fn has_refl_inner<T1: ?Sized, T2: ?Sized>() -> impl HasRefl<T1, T2> + HasRefl<T2, T1> where
    T1: Refl<Refl = T2>,
    T1: ReflWitness,
 {
    T1::witness()
}

/// The witness of an equality that a bound already states, good for both
/// directions. With `T2` the same as `T1` this is the identity witness,
/// which every type has.
pub fn has_refl<T1: ?Sized, T2: ?Sized>() -> (witness: impl HasRefl<T1, T2> + HasRefl<T2, T1>) where
    T1: Refl<Refl = T2>,

    ensures
        forall|x: &T1| #[trigger] carry_along::<_, T1, T2>(witness, x) == x.as_refl(),
        forall|y: &T2| #[trigger] carry_along::<_, T2, T1>(witness, y) == T1::of_refl(y),
{
    has_refl_inner::<T1, T2>()
}

fn refl_symmetric_inner<W, T1, T2>() -> impl HasRefl<W::Right, W::Left> where
    W: HasReflUnrestricted<T1, T2>,
 {
    has_refl::<W::Left, W::Right>()
}

/// Turns a witness round: from one for `(T1, T2)`, one for `(T2, T1)`. The
/// new witness carries back what the old one carried over.
pub fn refl_symmetric<W, T1, T2>(witness: W) -> (turned: impl HasRefl<T2, T1>) where
    W: HasRefl<T1, T2>,

    ensures
        forall|x: &T1| #[trigger] carry_along(turned, carry_along(witness, x)) == x,
{
    refl_symmetric_inner::<W, T1, T2>()
}

trait ReflTransitive: Refl {
    type Witness: HasRefl<Self, <Self::Refl as Refl>::Refl>;

    fn witness() -> Self::Witness;
}

impl<T: ?Sized> ReflTransitive for T {
    type Witness = ();

    fn witness() -> Self::Witness {
    }
}

fn refl_transitive_inner<T: ReflTransitive + ?Sized>() -> impl HasRefl<T, <T::Refl as Refl>::Refl> {
    T::witness()
}

/// Chains two equalities: from `T1 = T2` and `T2 = T3`, a witness for
/// `(T1, T3)`. It carries a value as the two equalities do in turn.
pub fn refl_transitive<T1: ?Sized, T2: ?Sized, T3: ?Sized>() -> (chained: impl HasRefl<T1, T3>) where
    T1: Refl<Refl = T2>,
    T2: Refl<Refl = T3>,

    ensures
        forall|x: &T1| #[trigger] carry_along(chained, x) == x.as_refl().as_refl(),
{
    refl_transitive_inner::<T1>()
}

trait AppCongruence<'a, F: ?Sized>: Refl + 'a where
    F: TypeApp<'a, Self>,
    F: TypeApp<'a, Self::Refl>,
 {
    type Witness: HasRefl<
        <F as TypeApp<'a, Self>>::Applied,
        <F as TypeApp<'a, Self::Refl>>::Applied,
    >;

    fn witness() -> Self::Witness;
}

impl<'a, F: ?Sized, T: 'a + ?Sized> AppCongruence<'a, F> for T where
    F: TypeApp<'a, Self>,
    F: TypeApp<'a, Self::Refl>,
 {
    type Witness = ();

    fn witness() -> Self::Witness {
    }
}

fn app_congruence_inner<'a, F: ?Sized, T: ?Sized>() -> impl HasRefl<
    <F as TypeApp<'a, T>>::Applied,
    <F as TypeApp<'a, T::Refl>>::Applied,
> where T: AppCongruence<'a, F>, F: TypeApp<'a, T>, F: TypeApp<'a, T::Refl> {
    T::witness()
}

/// What an applied value is when the argument type is replaced by its
/// `Refl` partner. Every constructor has it for every argument.
pub trait ReflApplied<'a, T: ?Sized>: TypeApp<'a, T> + TypeApp<'a, <T as Refl>::Refl> {
    /// `applied` seen as a value of `Self` applied to the partner of `T`.
    spec fn app_as_refl<'b>(applied: &'b <Self as TypeApp<'a, T>>::Applied) -> &'b <Self as TypeApp<
        'a,
        <T as Refl>::Refl,
    >>::Applied;
}

impl<'a, F: ?Sized, T: ?Sized> ReflApplied<'a, T> for F where F: TypeApp<'a, T> {
    open spec fn app_as_refl<'b>(applied: &'b Applied<'a, F, T>) -> &'b Applied<'a, F, T> {
        applied
    }
}

/// Lifts an equality through any constructor: from `T1 = T2`, a witness
/// that `F` applied to `T1` is `F` applied to `T2`. It carries an applied
/// value to the same value under the other argument type.
pub fn app_congruence<'a, F: ?Sized, T1: 'a + ?Sized, T2: 'a + ?Sized>() -> (lifted: impl HasRefl<
    <F as TypeApp<'a, T1>>::Applied,
    <F as TypeApp<'a, T2>>::Applied,
>) where T1: Refl<Refl = T2>, F: TypeApp<'a, T1>, F: TypeApp<'a, T2>
    ensures
        forall|fx: &<F as TypeApp<'a, T1>>::Applied| #[trigger]
            carry_along(lifted, fx) == <F as ReflApplied<'a, T1>>::app_as_refl(fx),
{
    app_congruence_inner::<'a, F, T1>()
}

/// Lifts an equality through `Vec`: from `T1 = T2`, a witness for
/// `(Vec<T1>, Vec<T2>)`. It carries a vector element by element.
pub fn vec_congruence<'a, T1: 'a, T2: 'a>() -> (lifted: impl HasRefl<Vec<T1>, Vec<T2>> + 'a) where
    T1: Refl<Refl = T2>,

    ensures
        forall|xs: &Vec<T1>| #[trigger]
            carry_along(lifted, xs)@ == xs@.map_values(|x: T1| *x.as_refl()),
{
    let lifted = app_congruence::<'a, VecF, T1, T2>();
    proof {
        assert forall|xs: &Vec<T1>| #[trigger]
            carry_along(lifted, xs)@ == xs@.map_values(|x: T1| *x.as_refl()) by {
            assert(carry_along(lifted, xs)@ =~= xs@.map_values(|x: T1| *x.as_refl()));
        }
    }
    lifted
}

/// Lifts an equality through `Option`. The witness carries what an option
/// holds, if it holds anything.
pub fn option_congruence<'a, T1: 'a, T2: 'a>() -> (lifted: impl HasRefl<Option<T1>, Option<T2>>
    + 'a) where T1: Refl<Refl = T2>
    ensures
        forall|x: &Option<T1>| #[trigger]
            *carry_along(lifted, x) == match *x {
                Some(x1) => Some(*x1.as_refl()),
                None => None,
            },
{
    app_congruence::<'a, OptionF, T1, T2>()
}

/// Lifts an equality through a borrowed `Option`. The witness carries what
/// the borrowed option holds, if it holds anything.
pub fn option_ref_congruence<'a, T1: 'a, T2: 'a>() -> (lifted: impl HasRefl<
    &'a Option<T1>,
    &'a Option<T2>,
>) where T1: Refl<Refl = T2>
    ensures
        forall|x: &&'a Option<T1>| #[trigger]
            **carry_along(lifted, x) == match **x {
                Some(x1) => Some(*x1.as_refl()),
                None => None,
            },
{
    app_congruence::<'a, Compose<Borrow, OptionF>, T1, T2>()
}

/// Carries a value, a borrow or a box of a type over to the type's `Refl`
/// partner, and back.
pub trait ReflSelf: Refl {
    fn refl_self(self) -> (r: Self::Refl) where Self: Sized, Self::Refl: Sized
        ensures
            r == self.as_refl(),
    ;

    fn refl_self_right(x: Self::Refl) -> (r: Self) where Self: Sized, Self::Refl: Sized
        ensures
            r == Self::of_refl(&x),
    ;

    fn refl_self_ref(&self) -> (r: &Self::Refl) where Self: Sized, Self::Refl: Sized
        ensures
            r == (*self).as_refl(),
    ;

    fn refl_self_mut(&mut self) -> (r: &mut Self::Refl) where Self: Sized, Self::Refl: Sized
        ensures
            *r == (*old(self)).as_refl(),
            *final(self) == Self::of_refl(&*final(r)),
    ;

    fn refl_self_box(self: Box<Self>) -> (r: Box<Self::Refl>) where Self: Sized, Self::Refl: Sized
        ensures
            r == (*self).as_refl(),
    ;

    fn refl_right_ref(right: &Self::Refl) -> (r: &Self) where Self: Sized, Self::Refl: Sized
        ensures
            r == Self::of_refl(right),
    ;
}

impl<T> ReflSelf for T {
    fn refl_self(self) -> T {
        self
    }

    fn refl_self_right(x: T) -> T {
        x
    }

    fn refl_self_ref(&self) -> &T {
        self
    }

    fn refl_self_mut(&mut self) -> &mut T {
        self
    }

    fn refl_self_box(self: Box<Self>) -> Box<T> {
        self
    }

    fn refl_right_ref(right: &T) -> &T {
        right
    }
}

/// Carries an applied value over to the same constructor applied to the
/// `Refl` partner of the argument.
pub trait ReflApp: Refl {
    fn refl_app<'a, F>(applied: <F as TypeApp<'a, Self>>::Applied) -> (r: <F as TypeApp<
        'a,
        Self::Refl,
    >>::Applied) where
        Self: 'a + Sized,
        Self::Refl: Sized,
        F: TypeApp<'a, Self>,
        F: TypeApp<'a, Self::Refl>,
        <F as TypeApp<'a, Self>>::Applied: Sized,
        <F as TypeApp<'a, Self::Refl>>::Applied: Sized,

        ensures
            r == <F as ReflApplied<'a, Self>>::app_as_refl(&applied),
    ;
}

impl<T> ReflApp for T {
    fn refl_app<'a, F>(applied: Applied<'a, F, Self>) -> Applied<'a, F, Self::Refl> where
        Self: 'a,
        F: TypeApp<'a, Self>,
        F: TypeApp<'a, Self::Refl>,
        Applied<'a, F, Self>: Sized,
        Applied<'a, F, Self::Refl>: Sized,
     {
        applied
    }
}

/// Passes a value of `T1` as a value of `T2`.
pub fn reflect_value<T1, T2>(x: T1) -> (r: T2) where T1: Refl<Refl = T2>
    ensures
        r == x.as_refl(),
{
    T1::refl_self(x)
}

/// Passes a value of `T2` as a value of `T1`.
pub fn reflect_value_right<T1, T2>(x: T2) -> (r: T1) where T1: Refl<Refl = T2>
    ensures
        r == T1::of_refl(&x),
{
    T1::refl_self_right(x)
}

/// Passes a borrow of a `T1` as a borrow of a `T2`.
pub fn reflect_value_ref<T1, T2>(x: &T1) -> (r: &T2) where T1: Refl<Refl = T2>
    ensures
        r == (*x).as_refl(),
{
    T1::refl_self_ref(x)
}

/// Passes a borrow of a `T2` as a borrow of a `T1`.
pub fn reflect_right_ref<T1, T2>(x: &T2) -> (r: &T1) where T1: Refl<Refl = T2>
    ensures
        r == T1::of_refl(x),
{
    T1::refl_right_ref(x)
}

/// Passes a mutable borrow of a `T1` as one of a `T2`. What is written
/// through the result is written to `x`.
pub fn reflect_value_mut<T1, T2>(x: &mut T1) -> (r: &mut T2) where T1: Refl<Refl = T2>
    ensures
        *r == (*old(x)).as_refl(),
        *final(x) == T1::of_refl(&*final(r)),
{
    T1::refl_self_mut(x)
}

/// Passes a boxed `T1` as a boxed `T2`.
pub fn reflect_boxed<T1, T2>(x: Box<T1>) -> (r: Box<T2>) where T1: Refl<Refl = T2>
    ensures
        r == (*x).as_refl(),
{
    T1::refl_self_box(x)
}

/// Passes a handle of `F` applied to `T1` as one of `F` applied to `T2`.
pub fn reflect_applied<'a, F: 'a, T1: 'a, T2: 'a>(xs: App<'a, F, T1>) -> (r: App<'a, F, T2>) where
    T1: Refl<Refl = T2>,

    ensures
        r == <AppF<F> as ReflApplied<'a, T1>>::app_as_refl(&xs),
{
    T1::refl_app::<AppF<F>>(xs)
}

/// Carrying a value over to the partner type and back gives the value, and
/// so does carrying it back and over.
pub proof fn lemma_as_refl_of_refl<T1: ?Sized, T2: ?Sized>(x: &T1, y: &T2) where
    T1: Refl<Refl = T2>,

    ensures
        T1::of_refl(x.as_refl()) == x,
        T1::of_refl(y).as_refl() == y,
{
}

/// Every type has the identity witness, and along it a value is carried
/// to itself.
pub proof fn lemma_identity_witness<W, T: ?Sized>(witness: W, x: &T) where W: HasRefl<T, T>
    ensures
        carry_along(witness, x) == x,
        x.as_refl() == x,
{
}

/// A witness carries a value as the bound `T1: Refl<Refl = T2>` does, so
/// two witnesses of one equality carry alike.
pub proof fn lemma_witnesses_agree<W1, W2, T1: ?Sized, T2: ?Sized>(first: W1, second: W2, x: &T1) where
    T1: Refl<Refl = T2>,
    W1: HasRefl<T1, T2>,
    W2: HasRefl<T1, T2>,

    ensures
        carry_along(first, x) == x.as_refl(),
        carry_along(first, x) == carry_along(second, x),
{
}

/// Turning a witness round gives the way back, and turning it round twice
/// gives a witness that carries as the first one does.
pub proof fn lemma_symmetric_twice<W, S, SS, T1: ?Sized, T2: ?Sized>(
    witness: W,
    turned: S,
    turned_twice: SS,
    x: &T1,
) where W: HasRefl<T1, T2>, S: HasRefl<T2, T1>, SS: HasRefl<T1, T2>
    ensures
        carry_along(turned, carry_along(witness, x)) == x,
        carry_along(turned_twice, x) == carry_along(witness, x),
{
}

/// A chain of three equalities carries a value to the same value however
/// the chain is put together: first and second link joined and then the
/// third, or the first and then second and third joined.
pub proof fn lemma_transitive_associative<
    W12,
    W23,
    W34,
    W13,
    W24,
    L,
    R,
    T1: ?Sized,
    T2: ?Sized,
    T3: ?Sized,
    T4: ?Sized,
>(w12: W12, w23: W23, w34: W34, w13: W13, w24: W24, left: L, right: R, x: &T1) where
    W12: HasRefl<T1, T2>,
    W23: HasRefl<T2, T3>,
    W34: HasRefl<T3, T4>,
    W13: HasRefl<T1, T3>,
    W24: HasRefl<T2, T4>,
    L: HasRefl<T1, T4>,
    R: HasRefl<T1, T4>,

    ensures
        carry_along(w13, x) == carry_along(w23, carry_along(w12, x)),
        carry_along(w24, carry_along(w12, x)) == carry_along(w34, carry_along(w13, x)),
        carry_along(left, x) == carry_along(w34, carry_along(w13, x)),
        carry_along(right, x) == carry_along(w24, carry_along(w12, x)),
        carry_along(left, x) == carry_along(right, x),
{
}

} // verus!
