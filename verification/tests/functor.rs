use lambek::bi_type_app::BiApp;
use lambek::container::Container;
use lambek::function::{
    wrap_function, wrap_function_mut, wrap_function_once, CallMut, FunctionF, FunctionMutF,
    FunctionOnceF, IsFnMut,
};
use lambek::functor::{Functor, FunctorMut};
use lambek::type_app::{wrap_app, App, ComposeApp, Const, Identity, OptionF, ResultF, VecF};

type VecOptionF = ComposeApp<VecF, OptionF>;

/// A closure that changes what it captured, as a callable.
struct FromFnMut<F>(F);

impl<A, B, F: FnMut(A) -> B> CallMut<A, B> for FromFnMut<F> {
    fn call_mut(&mut self, a: A) -> B {
        (self.0)(a)
    }
}

#[test]
fn test_fmap_vec_option() {
    let xs1: Vec<App<OptionF, u64>> = vec![wrap_app(Some(42)), wrap_app(None), wrap_app(Some(64))];

    let xs2: App<ComposeApp<VecF, OptionF>, u64> = wrap_app(wrap_app(xs1));

    let mut base = 2;

    let xs3: App<ComposeApp<VecF, OptionF>, String> = <VecOptionF as Functor<FunctionMutF>>::fmap(
        xs2,
        wrap_function_mut(FromFnMut(|x| {
            base *= x;
            format!("{}", base)
        })),
    );

    assert_eq!(5376, base);

    let mut xs4: Vec<App<OptionF, String>> = xs3.get_applied().get_applied();

    {
        let x = xs4.pop().unwrap().get_applied();
        assert_eq!(Some("5376".to_string()), x);
    }

    {
        let x = xs4.pop().unwrap().get_applied();
        assert_eq!(None, x);
    }

    {
        let x = xs4.pop().unwrap().get_applied();
        assert_eq!(Some("84".to_string()), x);
    }
}

fn double_and_show(x: u64) -> String {
    format!("{}", x * 2)
}

fn options(values: Vec<Option<u64>>) -> Vec<App<'static, OptionF, u64>> {
    let mut handles = Vec::new();
    for value in values {
        handles.push(wrap_app(value));
    }
    handles
}

fn shown(handles: Vec<App<'static, OptionF, String>>) -> Vec<Option<String>> {
    let mut values = Vec::new();
    for handle in handles {
        values.push(handle.get_applied());
    }
    values
}

#[test]
fn mapping_a_list_of_options_keeps_the_structure() {
    let xs: App<VecOptionF, u64> = wrap_app(wrap_app(options(vec![Some(42), None, Some(64)])));

    let ys: App<VecOptionF, String> =
        <VecOptionF as Functor<FunctionF>>::fmap(xs, wrap_function(double_and_show));

    assert_eq!(
        shown(ys.get_applied().get_applied()),
        vec![Some("84".to_string()), None, Some("128".to_string())]
    );
}

#[test]
fn mapping_the_composition_is_mapping_the_outer_with_the_mapped_inner() {
    let xs: App<VecOptionF, u64> = wrap_app(wrap_app(options(vec![Some(42), None, Some(64)])));
    let composed: App<VecOptionF, String> =
        <VecOptionF as Functor<FunctionF>>::fmap(xs, wrap_function(double_and_show));

    let xs: App<VecF, App<OptionF, u64>> = wrap_app(options(vec![Some(42), None, Some(64)]));
    let inner = wrap_function(|x: App<'static, OptionF, u64>| {
        <OptionF as Functor<FunctionF>>::fmap(x, wrap_function(double_and_show))
    });
    let by_hand: App<VecF, App<OptionF, String>> = <VecF as Functor<FunctionF>>::fmap(xs, inner);

    assert_eq!(shown(composed.get_applied().get_applied()), shown(by_hand.get_applied()));
}

#[test]
fn the_composition_can_be_mapped_with_a_function_for_one_call() {
    let xs: App<ComposeApp<OptionF, OptionF>, u64> = wrap_app(wrap_app(Some(wrap_app(Some(21)))));
    let ys: App<ComposeApp<OptionF, OptionF>, String> =
        <ComposeApp<OptionF, OptionF> as Functor<FunctionOnceF>>::fmap(
            xs,
            wrap_function_once(double_and_show),
        );
    let inner: Option<App<OptionF, String>> = ys.get_applied().get_applied();
    assert_eq!(inner.unwrap().get_applied(), Some("42".to_string()));
}

#[test]
fn mapping_an_option() {
    let some: App<OptionF, u64> = wrap_app(Some(42));
    let mapped = <OptionF as Functor<FunctionOnceF>>::fmap(some, wrap_function_once(double_and_show));
    assert_eq!(mapped.get_applied(), Some("84".to_string()));

    let none: App<OptionF, u64> = wrap_app(None);
    let mapped = <OptionF as Functor<FunctionF>>::fmap(none, wrap_function(double_and_show));
    assert_eq!(mapped.get_applied(), None);
}

#[test]
fn mapping_a_result() {
    let ok: App<ResultF<String>, u64> = wrap_app(Ok(1));
    let mapped = <ResultF<String> as Functor<FunctionF>>::fmap(ok, wrap_function(double_and_show));
    assert_eq!(mapped.get_applied(), Ok("2".to_string()));

    let err: App<ResultF<String>, u64> = wrap_app(Err("kept".to_string()));
    let mapped = <ResultF<String> as Functor<FunctionF>>::fmap(err, wrap_function(double_and_show));
    assert_eq!(mapped.get_applied(), Err("kept".to_string()));
}

#[test]
fn mapping_a_vector_goes_from_the_first_element_to_the_last() {
    let xs: App<VecF, u64> = wrap_app(vec![1, 2, 3]);
    let mut seen = Vec::new();
    let mapper: BiApp<FunctionMutF, u64, String> = wrap_function_mut(FromFnMut(|x: u64| {
        seen.push(x);
        double_and_show(x)
    }));
    let mapped = <VecF as Functor<FunctionMutF>>::fmap(xs, mapper);
    assert_eq!(
        mapped.get_applied(),
        vec!["2".to_string(), "4".to_string(), "6".to_string()]
    );
    assert_eq!(seen, vec![1, 2, 3]);

    let empty: App<VecF, u64> = wrap_app(Vec::new());
    let mapped = <VecF as Functor<FunctionF>>::fmap(empty, wrap_function(double_and_show));
    assert_eq!(mapped.get_applied(), Vec::<String>::new());
}

#[test]
fn mapping_the_identity_applies_the_function() {
    let x: App<Identity, u64> = wrap_app(21);
    let mapped = <Identity as Functor<FunctionOnceF>>::fmap(x, wrap_function_once(double_and_show));
    assert_eq!(mapped.get_applied(), "42");
}

#[test]
fn mapping_a_constant_keeps_it() {
    let x: App<Const<u8>, u64> = wrap_app(7u8);
    let mapped: App<Const<u8>, String> =
        <Const<u8> as Functor<FunctionF>>::fmap(x, wrap_function(double_and_show));
    assert_eq!(mapped.get_applied(), 7);
}

#[test]
fn mapping_a_vector_with_a_function_that_keeps_a_state() {
    let xs: App<VecF, u64> = wrap_app(vec![1, 2, 3]);
    let mut digits = 0u64;
    let mapper: BiApp<FunctionMutF, u64, u64> = wrap_function_mut(FromFnMut(move |x: u64| {
        digits = digits * 10 + x;
        digits
    }));
    let mapped = <VecF as Functor<FunctionMutF>>::fmap(xs, mapper);
    assert_eq!(mapped.get_applied(), vec![1, 12, 123]);
}

#[test]
fn mapping_a_list_of_options_with_a_function_that_keeps_a_state() {
    let xs: App<VecOptionF, u64> = wrap_app(wrap_app(options(vec![Some(1), None, Some(2), Some(3)])));
    let mut calls = Vec::new();
    let ys: App<VecOptionF, String> = <VecOptionF as Functor<FunctionMutF>>::fmap(
        xs,
        wrap_function_mut(FromFnMut(|x: u64| {
            calls.push(x);
            format!("{}:{}", calls.len(), x)
        })),
    );
    assert_eq!(
        shown(ys.get_applied().get_applied()),
        vec![Some("1:1".to_string()), None, Some("2:2".to_string()), Some("3:3".to_string())]
    );
    assert_eq!(calls, vec![1, 2, 3]);
}

/// Counts its calls and returns the count.
struct Counter {
    calls: u64,
}

impl CallMut<u64, u64> for Counter {
    fn call_mut(&mut self, _a: u64) -> u64 {
        self.calls += 1;
        self.calls
    }
}

#[test]
fn a_lent_function_comes_back_as_the_map_left_it() {
    let mut counter = wrap_function_mut(Counter { calls: 0 });

    let xs: App<VecF, u64> = wrap_app(vec![7, 7, 7]);
    let ys = <VecF as FunctorMut<FunctionMutF>>::fmap_mut(xs, &mut counter);
    assert_eq!(ys.get_applied(), vec![1, 2, 3]);

    let none: App<OptionF, u64> = wrap_app(None);
    let mapped = <OptionF as FunctorMut<FunctionMutF>>::fmap_mut(none, &mut counter);
    assert_eq!(mapped.get_applied(), None);

    let some: App<OptionF, u64> = wrap_app(Some(7));
    let mapped = <OptionF as FunctorMut<FunctionMutF>>::fmap_mut(some, &mut counter);
    assert_eq!(mapped.get_applied(), Some(4));

    assert_eq!(FunctionMutF::apply_mut(&mut counter, 7), 5);
}

#[test]
fn a_lent_function_goes_through_a_composition_in_order() {
    let mut counter = wrap_function_mut(Counter { calls: 0 });
    let xs: App<VecOptionF, u64> = wrap_app(wrap_app(options(vec![Some(7), None, Some(7)])));
    let ys = <VecOptionF as FunctorMut<FunctionMutF>>::fmap_mut(xs, &mut counter);
    let mut values = Vec::new();
    for handle in ys.get_applied().get_applied() {
        values.push(handle.get_applied());
    }
    assert_eq!(values, vec![Some(1), None, Some(2)]);
    assert_eq!(FunctionMutF::apply_mut(&mut counter, 7), 3);
}

#[test]
fn a_composition_of_compositions_can_be_mapped_with_a_function_that_keeps_a_state() {
    type Deep = ComposeApp<VecF, ComposeApp<VecF, OptionF>>;
    let inner_one: App<VecOptionF, u64> = wrap_app(wrap_app(options(vec![Some(1), None])));
    let inner_two: App<VecOptionF, u64> = wrap_app(wrap_app(options(vec![Some(2)])));
    let xs: App<Deep, u64> = wrap_app(wrap_app(vec![inner_one, inner_two]));
    let ys: App<Deep, u64> = <Deep as Functor<FunctionMutF>>::fmap(
        xs,
        wrap_function_mut(Counter { calls: 0 }),
    );
    let mut values = Vec::new();
    for inner in ys.get_applied().get_applied() {
        for handle in inner.get_applied().get_applied() {
            values.push(handle.get_applied());
        }
    }
    assert_eq!(values, vec![Some(1), None, Some(2)]);
}

#[test]
fn a_lent_function_comes_back_from_a_composition_of_compositions() {
    type Deep = ComposeApp<VecF, ComposeApp<VecF, OptionF>>;
    let mut counter = wrap_function_mut(Counter { calls: 0 });
    let inner_one: App<VecOptionF, u64> = wrap_app(wrap_app(options(vec![Some(7), None])));
    let inner_two: App<VecOptionF, u64> = wrap_app(wrap_app(options(vec![None, Some(7), Some(7)])));
    let xs: App<Deep, u64> = wrap_app(wrap_app(vec![inner_one, inner_two]));
    let ys: App<Deep, u64> = <Deep as FunctorMut<FunctionMutF>>::fmap_mut(xs, &mut counter);
    let mut values = Vec::new();
    for inner in ys.get_applied().get_applied() {
        let mut row = Vec::new();
        for handle in inner.get_applied().get_applied() {
            row.push(handle.get_applied());
        }
        values.push(row);
    }
    assert_eq!(values, vec![vec![Some(1), None], vec![None, Some(2), Some(3)]]);
    assert_eq!(FunctionMutF::apply_mut(&mut counter, 7), 4);
}

#[test]
fn the_owned_and_the_lent_map_of_a_composition_agree() {
    let owned: App<VecOptionF, u64> = <VecOptionF as Functor<FunctionMutF>>::fmap(
        wrap_app(wrap_app(options(vec![Some(5), None, Some(6)]))),
        wrap_function_mut(Counter { calls: 10 }),
    );
    let mut counter = wrap_function_mut(Counter { calls: 10 });
    let lent: App<VecOptionF, u64> = <VecOptionF as FunctorMut<FunctionMutF>>::fmap_mut(
        wrap_app(wrap_app(options(vec![Some(5), None, Some(6)]))),
        &mut counter,
    );
    let mut first = Vec::new();
    for handle in owned.get_applied().get_applied() {
        first.push(handle.get_applied());
    }
    let mut second = Vec::new();
    for handle in lent.get_applied().get_applied() {
        second.push(handle.get_applied());
    }
    assert_eq!(first, vec![Some(11), None, Some(12)]);
    assert_eq!(second, first);
}

#[test]
fn a_list_of_options_is_taken_apart_into_shape_and_values() {
    let xs: App<VecOptionF, u64> = wrap_app(wrap_app(options(vec![Some(1), None, Some(2), Some(3)])));
    let (shape, values) = <VecOptionF as Container>::unpack(xs);
    assert_eq!(values, vec![1, 2, 3]);
    let mut units = Vec::new();
    for handle in shape.get_applied().get_applied() {
        units.push(handle.get_applied());
    }
    assert_eq!(units, vec![Some(()), None, Some(()), Some(())]);
}

#[test]
fn a_shape_is_filled_with_values_in_order() {
    let xs: App<VecOptionF, u64> = wrap_app(wrap_app(options(vec![None, Some(1), Some(2), None, Some(3)])));
    let (shape, _) = <VecOptionF as Container>::unpack(xs);
    let ys: App<VecOptionF, String> =
        <VecOptionF as Container>::pack(shape, vec!["a".to_string(), "b".to_string(), "c".to_string()]);
    assert_eq!(
        shown(ys.get_applied().get_applied()),
        vec![None, Some("a".to_string()), Some("b".to_string()), None, Some("c".to_string())]
    );
}

#[test]
fn the_simple_constructors_are_taken_apart_and_put_together() {
    let one: App<Identity, u64> = wrap_app(7);
    let (shape, values) = <Identity as Container>::unpack(one);
    assert_eq!(values, vec![7]);
    let back: App<Identity, String> = <Identity as Container>::pack(shape, vec!["seven".to_string()]);
    assert_eq!(back.get_applied(), "seven");

    let kept: App<Const<String>, u64> = wrap_app("kept".to_string());
    let (shape, values) = <Const<String> as Container>::unpack(kept);
    assert_eq!(values, Vec::<u64>::new());
    let back: App<Const<String>, bool> = <Const<String> as Container>::pack(shape, Vec::new());
    assert_eq!(back.get_applied(), "kept");

    let failed: App<ResultF<String>, u64> = wrap_app(Err("no".to_string()));
    let (shape, values) = <ResultF<String> as Container>::unpack(failed);
    assert_eq!(values, Vec::<u64>::new());
    let back: App<ResultF<String>, bool> = <ResultF<String> as Container>::pack(shape, Vec::new());
    assert_eq!(back.get_applied(), Err("no".to_string()));

    let fine: App<ResultF<String>, u64> = wrap_app(Ok(3));
    let (shape, values) = <ResultF<String> as Container>::unpack(fine);
    assert_eq!(values, vec![3]);
    let back: App<ResultF<String>, bool> = <ResultF<String> as Container>::pack(shape, vec![true]);
    assert_eq!(back.get_applied(), Ok(true));

    let list: App<VecF, u64> = wrap_app(vec![4, 5]);
    let (shape, values) = <VecF as Container>::unpack(list);
    assert_eq!(values, vec![4, 5]);
    let back: App<VecF, u64> = <VecF as Container>::pack(shape, vec![40, 50]);
    assert_eq!(back.get_applied(), vec![40, 50]);
}
