use lambek::reference::{Borrow, BorrowMut, BoxF, IsBox, IsMutRef, IsOwn, IsRef, Own};
use lambek::type_app::{wrap_app, App, CloneApp};

/// Reads the number behind any kind of reference.
fn read<'a, Ref: IsRef>(x: &App<'a, Ref, u64>) -> u64 {
    *Ref::get_ref(x)
}

/// Adds one to the number behind any kind of reference that can be
/// written through.
fn bump<'a, Ref: IsMutRef>(x: &mut App<'a, Ref, u64>) {
    *Ref::get_mut_ref(x) += 1;
}

#[test]
fn every_kind_of_reference_can_be_read() {
    let value = 42u64;
    let borrowed: App<Borrow, u64> = wrap_app(&value);
    assert_eq!(read(&borrowed), 42);

    let mut target = 43u64;
    let borrowed_mut: App<BorrowMut, u64> = wrap_app(&mut target);
    assert_eq!(read(&borrowed_mut), 43);

    let owned: App<Own, u64> = wrap_app(Box::new(44));
    assert_eq!(read(&owned), 44);

    let boxed: App<BoxF, u64> = wrap_app(Box::new(45));
    assert_eq!(read(&boxed), 45);
}

#[test]
fn a_borrow_of_an_unsized_value_can_be_read() {
    let text: App<Borrow, str> = wrap_app("hello");
    assert_eq!(Borrow::get_ref(&text), "hello");

    let boxed: App<BoxF, str> = wrap_app(Box::from("boxed"));
    assert_eq!(BoxF::get_ref(&boxed), "boxed");
}

#[test]
fn owning_references_can_be_written_through() {
    let mut owned: App<Own, u64> = wrap_app(Box::new(1));
    bump(&mut owned);
    bump(&mut owned);
    assert_eq!(read(&owned), 3);
    assert_eq!(Own::get_own(owned), 3);

    let mut boxed: App<BoxF, u64> = wrap_app(Box::new(10));
    bump(&mut boxed);
    assert_eq!(read(&boxed), 11);
    assert_eq!(BoxF::get_own(boxed), 11);
}

#[test]
fn a_box_can_be_taken_out_whole() {
    let boxed: App<BoxF, String> = wrap_app(Box::new("whole".to_string()));
    let taken: Box<String> = BoxF::get_box(boxed);
    assert_eq!(*taken, "whole");

    let boxed: App<BoxF, [u8]> = wrap_app(vec![1u8, 2].into_boxed_slice());
    let taken: Box<[u8]> = BoxF::get_box(boxed);
    assert_eq!(&*taken, &[1u8, 2][..]);
}

#[test]
fn a_handle_of_a_borrow_can_be_duplicated() {
    let value = "shared".to_string();
    let first: App<Borrow, String> = wrap_app(&value);
    let second: App<Borrow, String> = Borrow::clone_app(&first);
    assert_eq!(Borrow::get_ref(&first), "shared");
    assert_eq!(Borrow::get_ref(&second), "shared");
    assert!(std::ptr::eq(Borrow::get_ref(&first), Borrow::get_ref(&second)));
}
