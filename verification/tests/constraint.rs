use lambek::bi_type_app::{wrap_bi_app_box, BiApp};
use lambek::constraint::HasConstraint;
use lambek::display::{with_display_constraint, wrap_display_cont, DisplayConstraint, DisplayCont};
use lambek::send::{with_send_constraint, SendCont, SendConstraint, SendContF};
use lambek::type_app::{wrap_app, App};
use std::fmt::Display;

struct PrintCont<'a, X: 'a> {
    x: &'a X,
}

impl<'a, X: 'a> DisplayCont<X, ()> for PrintCont<'a, X> {
    fn on_display(self: Box<Self>)
    where
        X: Display,
    {
        let x = self.x;
        println!("X: {}", x);
    }
}

fn use_display<'a, X: 'a>(x: &'a X)
where
    DisplayConstraint: HasConstraint<X>,
{
    with_display_constraint(PrintCont { x })
}

#[test]
fn test_display_constraint() {
    use_display(&"Hello World".to_string());
}

struct FormatCont<'a, X: 'a> {
    x: &'a X,
}

impl<'a, X: 'a> DisplayCont<X, String> for FormatCont<'a, X> {
    fn on_display(self: Box<Self>) -> String
    where
        X: Display,
    {
        format!("{}", self.x)
    }
}

fn show<'a, X: 'a>(x: &'a X) -> String
where
    DisplayConstraint: HasConstraint<X>,
{
    with_display_constraint(FormatCont { x })
}

#[test]
fn discharged_display_formats_as_the_value_does() {
    assert_eq!(show(&"Hello World".to_string()), "Hello World");
    assert_eq!(show(&5376u64), format!("{}", 5376u64));
    assert_eq!(show(&-7i32), "-7");
}

/// Hands the value to a function that asks for `Send`, which returns its
/// length.
struct LengthElsewhere {
    text: String,
}

impl SendCont<String, usize> for LengthElsewhere {
    fn on_send(self: Box<Self>) -> usize
    where
        String: Send,
    {
        length_of_sendable(self.text)
    }
}

fn length_of_sendable<T: Send + AsRef<str>>(text: T) -> usize {
    text.as_ref().len()
}

#[test]
fn a_value_that_can_be_sent_discharges_the_constraint() {
    let length = with_send_constraint::<String, usize, _>(LengthElsewhere { text: "four".to_string() });
    assert_eq!(length, 4);
}

#[test]
fn the_constraint_runs_the_continuation_behind_a_handle() {
    let boxed: Box<dyn SendCont<String, usize>> = Box::new(LengthElsewhere { text: "seven..".to_string() });
    let handle: BiApp<SendConstraint, String, usize> = wrap_bi_app_box(boxed);
    assert_eq!(<SendConstraint as HasConstraint<String>>::with_constraint(handle), 7);
}

#[test]
fn a_continuation_can_be_held_under_its_own_constructor() {
    let boxed: Box<dyn SendCont<String, usize>> = Box::new(LengthElsewhere { text: "ab".to_string() });
    let handle: App<SendContF<String>, usize> = wrap_app(boxed);
    assert_eq!(handle.get_applied().on_send(), 2);
}

#[test]
fn the_display_constraint_runs_the_continuation_behind_a_handle() {
    let value = 42u8;
    let handle: BiApp<DisplayConstraint, u8, String> = wrap_display_cont(FormatCont { x: &value });
    assert_eq!(<DisplayConstraint as HasConstraint<u8>>::with_constraint(handle), "42");
}
