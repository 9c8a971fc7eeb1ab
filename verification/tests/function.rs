use lambek::bi_type_app::BiApp;
use lambek::function::{
    wrap_function, wrap_function_mut, wrap_function_once, CallMut, FunctionF, FunctionMutF,
    FunctionOnceF, IsFn, IsFnMut, IsFnOnce,
};

/// Calls a handle of any kind of function once, and gives it up.
fn call_once<'a, Func: IsFnOnce>(f: BiApp<'a, Func, u64, String>, a: u64) -> String {
    Func::apply_once(f, a)
}

/// Calls a handle of any kind of function that can be called again, twice.
fn call_twice<'a, Func: IsFnMut>(f: &mut BiApp<'a, Func, u64, String>, a: u64) -> (String, String) {
    let first = Func::apply_mut(f, a);
    let second = Func::apply_mut(f, a);
    (first, second)
}

fn double_and_show(x: u64) -> String {
    format!("{}", x * 2)
}

#[test]
fn a_function_can_be_called_in_all_three_ways() {
    let mut f = wrap_function(double_and_show);
    assert_eq!(FunctionF::apply(&f, 42), "84");
    assert_eq!(FunctionF::apply(&f, 64), "128");
    assert_eq!(call_twice(&mut f, 21), ("42".to_string(), "42".to_string()));
    assert_eq!(FunctionF::apply(&f, 42), "84");
    assert_eq!(call_once(f, 42), "84");
}

#[test]
fn apply_once_after_apply_agrees_with_the_function() {
    let offset = 10u64;
    let f = wrap_function(move |x: u64| x + offset);
    let by_borrow = FunctionF::apply(&f, 5);
    let by_value = FunctionF::apply_once(f, 5);
    assert_eq!(by_borrow, 15);
    assert_eq!(by_value, by_borrow);
}

/// Counts its calls and returns the count with the argument.
struct Counting {
    calls: u64,
}

impl CallMut<u64, String> for Counting {
    fn call_mut(&mut self, a: u64) -> String {
        self.calls += 1;
        format!("{}:{}", self.calls, a)
    }
}

#[test]
fn a_stateful_function_keeps_its_state_between_calls() {
    let mut f = wrap_function_mut(Counting { calls: 0 });
    assert_eq!(FunctionMutF::apply_mut(&mut f, 7), "1:7");
    assert_eq!(call_twice(&mut f, 8), ("2:8".to_string(), "3:8".to_string()));
    assert_eq!(call_once(f, 9), "4:9");
}

#[test]
fn a_function_for_one_call_can_give_away_what_it_holds() {
    let held = "held".to_string();
    let f = wrap_function_once(move |x: u64| {
        let mut text = held;
        text.push_str(&x.to_string());
        text
    });
    assert_eq!(FunctionOnceF::apply_once(f, 1), "held1");

    let g = wrap_function_once(double_and_show);
    assert_eq!(call_once(g, 3), "6");
}

#[test]
fn a_function_can_be_duplicated_through_its_handle() {
    let f = wrap_function(double_and_show);
    let copy = f.get_applied_borrow().clone_fn();
    assert_eq!(FunctionF::apply_once(f, 4), "8");
    assert_eq!(FunctionF::apply(&copy, 4), "8");

    let again = copy.get_applied_box().wrap_fn();
    assert_eq!(FunctionF::apply(&again, 5), "10");
}

#[test]
fn a_function_that_owns_what_it_captured_can_be_duplicated() {
    let prefix = "n=".to_string();
    let f = wrap_function(move |x: u64| format!("{}{}", prefix, x));
    let copy = f.get_applied_borrow().clone_fn();
    let another = copy.get_applied_borrow().clone_fn();
    assert_eq!(FunctionF::apply(&f, 1), "n=1");
    assert_eq!(FunctionF::apply_once(f, 2), "n=2");
    assert_eq!(FunctionF::apply_once(copy, 3), "n=3");
    assert_eq!(FunctionF::apply(&another, 4), "n=4");
}

/// Adds each argument to a running sum and returns the sum.
struct RunningSum {
    sum: u64,
}

impl CallMut<u64, u64> for RunningSum {
    fn call_mut(&mut self, a: u64) -> u64 {
        self.sum += a;
        self.sum
    }
}

#[test]
fn each_call_works_on_the_state_that_the_last_one_left() {
    let mut f = wrap_function_mut(RunningSum { sum: 0 });
    assert_eq!(FunctionMutF::apply_mut(&mut f, 2), 2);
    assert_eq!(FunctionMutF::apply_mut(&mut f, 3), 5);
    assert_eq!(FunctionMutF::apply_once(f, 10), 15);
}
