//! Type-level programming with higher-kinded types, constraint kinds and
//! type-equality witnesses.
//!
//! A type constructor such as `Vec` cannot be passed around unapplied. This
//! library names each constructor by a witness type, records what the witness
//! yields for each argument type ([`type_app::TypeApp`]), and hides the applied
//! type behind an owning handle ([`type_app::App`]). What a handle holds is
//! its `applied` value, and the contracts of the library are stated over it.
//!
//! Where a function knows a handle but not the proof that it was made with,
//! the proof is recovered by a continuation ([`type_app::TypeAppCont`]), or
//! carried across a type equality ([`refl`]). The same is done for
//! constructors of two arguments ([`bi_type_app`]), of which function types
//! ([`function`]) and constraints ([`constraint`], [`send`], [`display`])
//! are instances, and for rows ([`row`]), of which products and sums are
//! made.
//!
//! A handle also shows, without the proof, what generic code has to speak
//! of: the values that it holds, and for a handle of a function what the
//! function may return for an argument after the calls made before.

/// Unary type application, `Type -> Type`.
pub mod type_app;

/// Binary type application, `Type -> Type -> Type`.
pub mod bi_type_app;

/// Type equality witnesses.
pub mod refl;

/// Constraint kinds, `Type -> Constraint`.
pub mod constraint;

/// Function types as applications.
pub mod function;

/// References and boxes as type constructors.
pub mod reference;

/// Applied values taken apart and put together.
pub mod container;

/// `Functor`, `Applicative` and `Monad`.
pub mod functor;

/// Natural transformations, `forall x. f x -> g x`.
pub mod nat_trans;

/// Rows, `(Type -> Type) -> Type`.
pub mod row;

/// Extensible products.
pub mod product;

/// Extensible sums.
pub mod sum;

/// Natural numbers as types.
pub mod peano;

/// The constraint `Send`.
pub mod send;

/// The constraint `Display`.
pub mod display;
