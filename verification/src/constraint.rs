//! Constraint kinds, `Type -> Constraint`.
use crate::bi_type_app::{BiApp, BiTypeCon};
use vstd::prelude::*;

verus! {

/// `C: HasConstraint<X>` records that `X` meets the constraint named by
/// `C`. The witness `C` applied to `X` and `R` is a continuation that asks
/// for the constraint and returns an `R`; `with_constraint` runs it where
/// the constraint is known to hold.
///
/// The relation of a handle of such a continuation is what the
/// continuation may return, whatever the `X`: the result is one that the
/// handle relates to every `X`.
pub trait HasConstraint<X: ?Sized>: BiTypeCon {
    fn with_constraint<'a, R: 'a>(cont: BiApp<'a, Self, X, R>) -> (r: R) where X: 'a, Self: 'a
        ensures
            forall|x: &X| #[trigger] cont.relates(Seq::empty(), x, &r),
    ;
}

} // verus!
