//! References and boxes as type constructors, so that a function can be
//! written once for every way of holding a value.
//!
//! Each of these constructors applied to `X` holds one value of `X`, which
//! is what the traits here give access to.
use crate::type_app::{
    wrap_app, App, CloneApp, TypeApp, TypeAppCont, TypeAppGenericUnsized, TypeCon,
};
use core::convert::Infallible;
use vstd::prelude::*;

verus! {

/// A constructor whose applied value gives shared access to the argument.
pub trait IsRef: TypeCon {
    /// Lends the value that the handle holds.
    fn get_ref<'a, 'b, X: 'a + ?Sized>(x: &'b App<'a, Self, X>) -> (r: &'b X) where 'a: 'b
        ensures
            r == x.element(0),
    ;
}

/// A constructor whose applied value gives access for writing as well.
pub trait IsMutRef: IsRef {
    /// Lends the value that the handle holds for writing: the handle holds
    /// whatever the borrow holds when it ends.
    fn get_mut_ref<'a, 'b, X: 'a + ?Sized>(x: &'b mut App<'a, Self, X>) -> (r: &'b mut X) where
        'a: 'b,

        ensures
            &*r == old(x).element(0),
            final(x).element(0) == &*final(r),
    ;
}

/// A constructor whose applied value owns the argument.
pub trait IsOwn: IsMutRef {
    /// Takes the value that the handle holds.
    fn get_own<'a, X: 'a>(x: App<'a, Self, X>) -> (r: X)
        ensures
            r == x.element(0),
    ;
}

/// A constructor whose applied value is a box of the argument.
pub trait IsBox: IsOwn {
    /// Takes the value that the handle holds, in its box.
    fn get_box<'a, X: 'a + ?Sized>(x: App<'a, Self, X>) -> (r: Box<X>)
        ensures
            r == x.element(0),
    ;
}

/// `Borrow` applied to `X` is `&'a X`, for `X` sized or not.
pub struct Borrow(Infallible);

/// `BorrowMut` applied to `X` is `&'a mut X`.
pub struct BorrowMut(Infallible);

/// `BoxF` applied to `X` is `Box<X>`.
pub struct BoxF(Infallible);

/// `Own` applied to `X` is an owned `X`, kept in a box so that `X` need
/// not have a size.
pub struct Own(Infallible);

impl TypeCon for Borrow {

}

impl<'a, X: 'a + ?Sized> TypeApp<'a, X> for Borrow {
    type Applied = &'a X;

    open spec fn count(applied: &&'a X) -> nat {
        1
    }

    open spec fn element<'r>(applied: &'r &'a X, i: int) -> &'r X {
        *applied
    }
}

impl TypeAppGenericUnsized for Borrow {
    fn with_type_app<'a, X: 'a + ?Sized, R: 'a, Cont: 'a>(cont: Box<Cont>) -> (r: R) where
        Self: 'a,
        Cont: TypeAppCont<'a, Self, X, R>,
     {
        cont.on_type_app()
    }
}

impl IsRef for Borrow {
    fn get_ref<'a, 'b, X: 'a + ?Sized>(x: &'b App<'a, Self, X>) -> (r: &'b X) where 'a: 'b
        ensures
            r == x.applied(),
    {
        *x.get_applied_borrow()
    }
}

impl CloneApp for Borrow {
    fn clone_app<'a, X: 'a>(fx: &App<'a, Self, X>) -> (r: App<'a, Self, X>)
        ensures
            r.applied() == fx.applied(),
    {
        wrap_app(*fx.get_applied_borrow())
    }
}

impl TypeCon for BorrowMut {

}

impl<'a, X: 'a + ?Sized> TypeApp<'a, X> for BorrowMut {
    type Applied = &'a mut X;

    open spec fn count(applied: &&'a mut X) -> nat {
        1
    }

    open spec fn element<'r>(applied: &'r &'a mut X, i: int) -> &'r X {
        &**applied
    }
}

impl TypeAppGenericUnsized for BorrowMut {
    fn with_type_app<'a, X: 'a + ?Sized, R: 'a, Cont: 'a>(cont: Box<Cont>) -> (r: R) where
        Self: 'a,
        Cont: TypeAppCont<'a, Self, X, R>,
     {
        cont.on_type_app()
    }
}

impl IsRef for BorrowMut {
    fn get_ref<'a, 'b, X: 'a + ?Sized>(x: &'b App<'a, Self, X>) -> (r: &'b X) where 'a: 'b
        ensures
            r == &**x.applied(),
    {
        &**x.get_applied_borrow()
    }
}

impl TypeCon for Own {

}

impl<'a, X: ?Sized> TypeApp<'a, X> for Own {
    type Applied = Box<X>;

    open spec fn count(applied: &Box<X>) -> nat {
        1
    }

    open spec fn element(applied: &Box<X>, i: int) -> &X {
        &**applied
    }
}

impl TypeAppGenericUnsized for Own {
    fn with_type_app<'a, X: 'a + ?Sized, R: 'a, Cont: 'a>(cont: Box<Cont>) -> (r: R) where
        Self: 'a,
        Cont: TypeAppCont<'a, Self, X, R>,
     {
        cont.on_type_app()
    }
}

impl IsRef for Own {
    fn get_ref<'a, 'b, X: 'a + ?Sized>(x: &'b App<'a, Self, X>) -> (r: &'b X) where 'a: 'b
        ensures
            r == x.applied(),
    {
        &**x.get_applied_borrow()
    }
}

impl IsMutRef for Own {
    fn get_mut_ref<'a, 'b, X: 'a + ?Sized>(x: &'b mut App<'a, Self, X>) -> (r: &'b mut X) where
        'a: 'b,

        ensures
            &*r == old(x).applied(),
            final(x).applied() == &*final(r),
    {
        let boxed = x.get_applied_borrow_mut();
        &mut **boxed
    }
}

impl IsOwn for Own {
    fn get_own<'a, X: 'a>(x: App<'a, Self, X>) -> (r: X)
        ensures
            r == x.applied(),
    {
        *x.get_applied()
    }
}

impl TypeCon for BoxF {

}

impl<'a, X: ?Sized> TypeApp<'a, X> for BoxF {
    type Applied = Box<X>;

    open spec fn count(applied: &Box<X>) -> nat {
        1
    }

    open spec fn element(applied: &Box<X>, i: int) -> &X {
        &**applied
    }
}

impl TypeAppGenericUnsized for BoxF {
    fn with_type_app<'a, X: 'a + ?Sized, R: 'a, Cont: 'a>(cont: Box<Cont>) -> (r: R) where
        Self: 'a,
        Cont: TypeAppCont<'a, Self, X, R>,
     {
        cont.on_type_app()
    }
}

impl IsRef for BoxF {
    fn get_ref<'a, 'b, X: 'a + ?Sized>(x: &'b App<'a, Self, X>) -> (r: &'b X) where 'a: 'b
        ensures
            r == x.applied(),
    {
        &**x.get_applied_borrow()
    }
}

impl IsMutRef for BoxF {
    fn get_mut_ref<'a, 'b, X: 'a + ?Sized>(x: &'b mut App<'a, Self, X>) -> (r: &'b mut X) where
        'a: 'b,

        ensures
            &*r == old(x).applied(),
            final(x).applied() == &*final(r),
    {
        let boxed = x.get_applied_borrow_mut();
        &mut **boxed
    }
}

impl IsOwn for BoxF {
    fn get_own<'a, X: 'a>(x: App<'a, Self, X>) -> (r: X)
        ensures
            r == x.applied(),
    {
        *x.get_applied()
    }
}

impl IsBox for BoxF {
    fn get_box<'a, X: 'a + ?Sized>(x: App<'a, Self, X>) -> (r: Box<X>)
        ensures
            r == x.applied(),
    {
        x.get_applied()
    }
}

} // verus!
