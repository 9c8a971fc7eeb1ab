use lambek::nat_trans::NaturalTransformation;
use lambek::product::{Cons, Top};
use lambek::reference::{Borrow, BoxF};
use lambek::row::{wrap_row, AppRow, LiftRow, RowApp, RowAppGeneric, RowAppGenericCont};
use lambek::sum::{Bottom, Inl, Inr, Union};
use lambek::type_app::{wrap_app, App, Identity, OptionF, VecF};

/// Turns an option into the list of what it holds.
struct OptionToVec;

impl NaturalTransformation<Borrow, OptionF, VecF> for OptionToVec {
    fn lift<'a, 'b, X>(_trans: App<'b, Borrow, Self>, fx: App<'a, OptionF, X>) -> App<'a, VecF, X>
    where
        'a: 'b,
    {
        match fx.get_applied() {
            Some(x) => wrap_app(vec![x]),
            None => wrap_app(Vec::new()),
        }
    }
}

type Fields = Cons<u64, Cons<String, Top>>;

type Choice = Union<u64, Union<String, Bottom>>;

static OPTION_TO_VEC: OptionToVec = OptionToVec;

#[test]
fn wrap_then_unwrap_gives_the_row_back() {
    let row: AppRow<Top, OptionF> = wrap_row(Top);
    let Top = row.get_applied();

    let mut row: AppRow<Fields, OptionF> =
        wrap_row(Cons(wrap_app(Some(1)), wrap_row(Cons(wrap_app(None), wrap_row(Top)))));
    row.get_applied_borrow_mut().0 = wrap_app(Some(2));
    assert_eq!(*row.get_applied_borrow().0.get_applied_borrow(), Some(2));
    let Cons(first, rest) = row.get_applied();
    assert_eq!(first.get_applied(), Some(2));
    let Cons(second, _) = rest.get_applied();
    assert_eq!(second.get_applied(), None);
}

#[test]
fn lifting_a_product_takes_every_member_over() {
    let row: AppRow<Fields, OptionF> = wrap_row(Cons(
        wrap_app(Some(42)),
        wrap_row(Cons(wrap_app(None), wrap_row(Top))),
    ));

    let lifted: AppRow<Fields, VecF> =
        <Fields as LiftRow<Borrow>>::lift::<OptionF, VecF, OptionToVec>(wrap_app(&OPTION_TO_VEC), row);

    let Cons(first, rest) = lifted.get_applied();
    assert_eq!(first.get_applied(), vec![42]);
    let Cons(second, rest) = rest.get_applied();
    assert_eq!(second.get_applied(), Vec::<String>::new());
    let Top = rest.get_applied();
}

#[test]
fn lifting_the_empty_product_gives_the_empty_product() {
    let row: AppRow<Top, OptionF> = wrap_row(Top);
    let lifted: AppRow<Top, VecF> =
        <Top as LiftRow<Borrow>>::lift::<OptionF, VecF, OptionToVec>(wrap_app(&OPTION_TO_VEC), row);
    let Top = lifted.get_applied();
}

#[test]
fn lifting_a_sum_takes_the_member_that_is_there_over() {
    let first: AppRow<Choice, OptionF> = wrap_row(Inl(wrap_app(Some(42))));
    let lifted: AppRow<Choice, VecF> =
        <Choice as LiftRow<Borrow>>::lift::<OptionF, VecF, OptionToVec>(wrap_app(&OPTION_TO_VEC), first);
    match lifted.get_applied() {
        Inl(x) => assert_eq!(x.get_applied(), vec![42]),
        Inr(_) => panic!("the member moved to the other side"),
    }

    let second: AppRow<Choice, OptionF> =
        wrap_row(Inr(wrap_row(Inl(wrap_app(Some("b".to_string()))))));
    let lifted: AppRow<Choice, VecF> =
        <Choice as LiftRow<Borrow>>::lift::<OptionF, VecF, OptionToVec>(wrap_app(&OPTION_TO_VEC), second);
    match lifted.get_applied() {
        Inl(_) => panic!("the member moved to the other side"),
        Inr(rest) => match rest.get_applied() {
            Inl(x) => assert_eq!(x.get_applied(), vec!["b".to_string()]),
            Inr(_) => panic!("the member moved to the other side"),
        },
    }
}

/// Counts the members of a product of two, where the row is known to apply.
struct CountFields<'b, 'a> {
    row: &'b AppRow<'a, Fields, OptionF>,
}

impl<'a, 'b> RowAppGenericCont<'a, Fields, OptionF, usize> for CountFields<'b, 'a> {
    fn on_row_app(self) -> usize
    where
        Fields: RowApp<'a, OptionF>,
    {
        count_fields(self.row)
    }
}

fn count_fields(row: &AppRow<Fields, OptionF>) -> usize {
    let Cons(first, rest) = row.get_applied_borrow();
    let Cons(second, _) = rest.get_applied_borrow();
    first.get_applied_borrow().iter().count() + second.get_applied_borrow().iter().count()
}

#[test]
fn a_generic_row_runs_a_continuation() {
    let row: AppRow<Fields, OptionF> = wrap_row(Cons(
        wrap_app(Some(42)),
        wrap_row(Cons(wrap_app(None), wrap_row(Top))),
    ));
    let count = <Fields as RowAppGeneric>::with_row_app::<OptionF, usize, _>(CountFields { row: &row });
    assert_eq!(count, 1);
}

/// Takes a value out of its box.
struct Unbox;

impl NaturalTransformation<Borrow, BoxF, Identity> for Unbox {
    fn lift<'a, 'b, X>(_trans: App<'b, Borrow, Self>, fx: App<'a, BoxF, X>) -> App<'a, Identity, X>
    where
        'a: 'b,
    {
        wrap_app(*fx.get_applied())
    }
}

static UNBOX: Unbox = Unbox;

#[test]
fn lifting_keeps_the_values_that_the_transformation_keeps() {
    let row: AppRow<Fields, BoxF> = wrap_row(Cons(
        wrap_app(Box::new(7)),
        wrap_row(Cons(wrap_app(Box::new("seven".to_string())), wrap_row(Top))),
    ));
    let lifted: AppRow<Fields, Identity> =
        <Fields as LiftRow<Borrow>>::lift::<BoxF, Identity, Unbox>(wrap_app(&UNBOX), row);
    let Cons(first, rest) = lifted.get_applied();
    assert_eq!(first.get_applied(), 7);
    let Cons(second, _) = rest.get_applied();
    assert_eq!(second.get_applied(), "seven");
}
