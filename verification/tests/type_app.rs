use lambek::type_app::{
    with_type_app_witness, wrap_app, App, AppF, Compose, ComposeApp, Const, GetApplied, HasTypeApp,
    Identity, OptionF, ResultF, TypeApp, TypeAppCont, TypeAppGeneric, TypeCon, VecF,
};
use std::marker::PhantomData;

#[test]
fn wrap_then_unwrap_gives_the_value_back() {
    let handle: App<OptionF, u64> = wrap_app(Some(42));
    assert_eq!(handle.get_applied(), Some(42));

    let handle: App<OptionF, u64> = wrap_app(None);
    assert_eq!(handle.get_applied(), None);

    let handle: App<VecF, String> = wrap_app(vec!["a".to_string(), "b".to_string()]);
    assert_eq!(handle.get_applied(), vec!["a".to_string(), "b".to_string()]);

    let handle: App<ResultF<String>, u8> = wrap_app(Err("no".to_string()));
    assert_eq!(handle.get_applied(), Err("no".to_string()));

    let handle: App<Identity, String> = wrap_app("foo".to_string());
    assert_eq!(handle.get_applied(), "foo");

    let handle: App<Const<u32>, String> = wrap_app(7u32);
    assert_eq!(handle.get_applied(), 7);
}

#[test]
fn unwrap_boxed_gives_the_value_back() {
    let handle: App<VecF, u8> = wrap_app(vec![1, 2, 3]);
    let boxed: Box<Vec<u8>> = handle.get_applied_box();
    assert_eq!(*boxed, vec![1, 2, 3]);
}

#[test]
fn handles_nest() {
    let inner: App<OptionF, u64> = wrap_app(Some(5));
    let outer: App<AppF<OptionF>, u64> = wrap_app(inner);
    assert_eq!(outer.get_applied().get_applied(), Some(5));

    let items: Vec<App<OptionF, u64>> = vec![wrap_app(Some(1)), wrap_app(None)];
    let composed: App<ComposeApp<VecF, OptionF>, u64> = wrap_app(wrap_app(items));
    let mut items: Vec<App<OptionF, u64>> = composed.get_applied().get_applied();
    assert_eq!(items.pop().unwrap().get_applied(), None);
    assert_eq!(items.pop().unwrap().get_applied(), Some(1));
    assert!(items.is_empty());
}

#[test]
fn compose_applies_the_inner_constructor_first() {
    let handle: App<Compose<VecF, OptionF>, u64> = wrap_app(vec![Some(1), None, Some(3)]);
    let values: Vec<Option<u64>> = handle.get_applied();
    assert_eq!(values, vec![Some(1), None, Some(3)]);

    let handle: App<Compose<OptionF, VecF>, u64> = wrap_app(Some(vec![1, 2]));
    let values: Option<Vec<u64>> = handle.get_applied();
    assert_eq!(values, Some(vec![1, 2]));
}

#[test]
fn two_borrows_see_the_same() {
    let handle: App<VecF, u64> = wrap_app(vec![3, 1, 2]);
    let first = handle.get_applied_borrow().clone();
    let second = handle.get_applied_borrow().clone();
    assert_eq!(first, vec![3, 1, 2]);
    assert_eq!(first, second);
    assert_eq!(handle.get_applied(), vec![3, 1, 2]);
}

#[test]
fn a_write_through_a_borrow_is_seen_afterwards() {
    let mut handle: App<OptionF, u64> = wrap_app(Some(42));
    let other: App<OptionF, u64> = wrap_app(Some(42));

    *handle.get_applied_borrow_mut() = Some(7);
    assert_eq!(*handle.get_applied_borrow(), Some(7));
    assert_eq!(*other.get_applied_borrow(), Some(42));

    handle.get_applied_borrow_mut().take();
    assert_eq!(*handle.get_applied_borrow(), None);
    assert_eq!(handle.get_applied(), None);
    assert_eq!(other.get_applied(), Some(42));
}

#[test]
fn a_write_through_a_borrow_of_a_vector_is_seen_afterwards() {
    let mut handle: App<VecF, u64> = wrap_app(vec![1]);
    handle.get_applied_borrow_mut().push(2);
    handle.get_applied_borrow_mut().push(3);
    assert_eq!(handle.get_applied_borrow().len(), 3);
    assert_eq!(handle.get_applied(), vec![1, 2, 3]);
}

#[test]
fn the_trait_of_a_handle_gives_the_same_access() {
    let mut handle: App<VecF, u8> = wrap_app(vec![9]);
    assert_eq!(*handle.0.get_applied_borrow(), vec![9]);
    handle.0.get_applied_borrow_mut().push(8);
    assert_eq!(*handle.0.get_applied_box(), vec![9, 8]);
}

/// Counts the elements that a handle of a vector holds, into a place of
/// the caller's.
struct CountInto<'b, 'a, X> {
    handle: &'b App<'a, VecF, X>,
    count: &'b mut usize,
}

impl<'a, 'b, X: 'a> TypeAppCont<'a, VecF, X, ()> for CountInto<'b, 'a, X> {
    fn on_type_app(self: Box<Self>)
    where
        VecF: TypeApp<'a, X>,
    {
        *self.count = count_elements(self.handle);
    }
}

fn count_elements<X>(handle: &App<VecF, X>) -> usize {
    handle.get_applied_borrow().len()
}

#[test]
fn a_handle_runs_a_continuation_once() {
    let handle: App<VecF, u64> = wrap_app(vec![4, 5, 6]);
    let mut count = 0;
    handle.with_type_app(CountInto { handle: &handle, count: &mut count });
    assert_eq!(count, 3);
}

/// Runs a continuation that returns a value under the proof that a handle
/// was made with, by way of a continuation that returns nothing and leaves
/// the value in a place of the caller's.
fn with_type_app<'a, 'b, F: 'a + ?Sized, X: 'a + ?Sized, R: 'a>(
    applied: &'b App<'a, F, X>,
    cont: impl TypeAppCont<'a, F, X, R> + 'b,
) -> R
where
    'a: 'b,
{
    let mut result: Option<R> = None;
    let wrap_cont = WrapCont { cont: Box::new(cont), result: &mut result };

    applied.with_type_app(wrap_cont);

    result.unwrap()
}

struct WrapCont<'b, Cont, R> {
    cont: Box<Cont>,
    result: &'b mut Option<R>,
}

impl<'a, 'b, F: 'a + ?Sized, X: 'a + ?Sized, R: 'a, Cont> TypeAppCont<'a, F, X, ()>
    for WrapCont<'b, Cont, R>
where
    Cont: TypeAppCont<'a, F, X, R>,
{
    fn on_type_app(self: Box<Self>)
    where
        F: TypeApp<'a, X>,
    {
        let res = self.cont.on_type_app();
        *self.result = Some(res);
    }
}

fn on_type_app<'a, F: 'a, X: 'a>(x: &u64, _applied: &F::Applied) -> u64
where
    F: TypeApp<'a, X>,
{
    x * 2
}

struct Cont<'a, 'b, F: 'a, X: 'a>
where
    'a: 'b,
{
    state: &'b u64,
    applied: &'b App<'a, F, X>,
    phantom: PhantomData<&'a (F, X)>,
}

impl<'a, 'b, F: 'a, X: 'a> TypeAppCont<'a, F, X, u64> for Cont<'a, 'b, F, X>
where
    'a: 'b,
{
    fn on_type_app(self: Box<Self>) -> u64
    where
        F: TypeApp<'a, X>,
    {
        on_type_app::<F, X>(self.state, self.applied.get_applied_borrow())
    }
}

fn use_type_app<'a, F: 'a, X: 'a>(applied: App<'a, F, X>) -> u64 {
    let state: u64 = 42;

    let cont = Cont::<F, X> { state: &state, applied: &applied, phantom: PhantomData };

    with_type_app(&applied, cont)
}

#[test]
fn test_dyn_with_type_app_cont() {
    let res = use_type_app::<Identity, String>(wrap_app("foo".to_string()));

    assert_eq!(res, 84);
}

fn recover<'a, F: 'a, X: 'a, FX: 'a>(applied: App<'a, F, X>) -> FX
where
    F: TypeAppGeneric + TypeApp<'a, X, Applied = FX>,
{
    F::with_type_app::<X, FX, GetApplied<'a, F, X>>(Box::new(GetApplied(applied)))
}

#[test]
fn generic_recovery_agrees_with_direct_application() {
    let direct: App<VecF, u64> = wrap_app(vec![1, 2, 3]);
    let generic: App<VecF, u64> = wrap_app(vec![1, 2, 3]);
    assert_eq!(recover(generic), direct.get_applied());

    let direct: App<VecF, String> = wrap_app(vec!["x".to_string()]);
    let generic: App<VecF, String> = wrap_app(vec!["x".to_string()]);
    assert_eq!(recover(generic), direct.get_applied());

    let direct: App<OptionF, i32> = wrap_app(Some(-4));
    let generic: App<OptionF, i32> = wrap_app(Some(-4));
    assert_eq!(recover(generic), direct.get_applied());

    let direct: App<OptionF, Vec<u8>> = wrap_app(None);
    let generic: App<OptionF, Vec<u8>> = wrap_app(None);
    assert_eq!(recover(generic), direct.get_applied());

    let direct: App<Identity, String> = wrap_app("foo".to_string());
    let generic: App<Identity, String> = wrap_app("foo".to_string());
    assert_eq!(recover(generic), direct.get_applied());
}

/// `PairF` applied to `X` is `(X, X)`. Unlike the witnesses of the library
/// it has a value, which can be handed over where a witness is asked for.
struct PairF;

impl TypeCon for PairF {}

impl<'a, X> TypeApp<'a, X> for PairF {
    type Applied = (X, X);
}

/// Returns the sum of the pair that a handle under `PairF` holds.
struct SumOfPair<'b, 'a> {
    applied: &'b App<'a, PairF, u64>,
}

impl<'a, 'b> TypeAppCont<'a, PairF, u64, u64> for SumOfPair<'b, 'a> {
    fn on_type_app(self: Box<Self>) -> u64
    where
        PairF: TypeApp<'a, u64>,
    {
        sum_of_pair(self.applied)
    }
}

fn sum_of_pair(applied: &App<PairF, u64>) -> u64 {
    let pair = applied.get_applied_borrow();
    pair.0 + pair.1
}

#[test]
fn a_witness_value_stands_for_the_proof() {
    let applied: App<PairF, u64> = wrap_app((40, 2));
    let sum = with_type_app_witness(PairF, SumOfPair { applied: &applied });
    assert_eq!(sum, 42);
    assert_eq!(applied.get_applied(), (40, 2));
}
