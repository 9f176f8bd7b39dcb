//! Binary operators as types, and the elements that belong to an operator:
//! its identity and the inverse of an element.

use vstd::prelude::*;

verus! {

/// A binary operator. Its values carry nothing: they say which operator is
/// meant where a type has several.
pub trait Operator: Copy {
    /// The value that stands for the operator.
    fn operator_token() -> Self;
}

/// The addition.
#[derive(Clone, Copy, Debug)]
pub struct Additive;

/// The multiplication.
#[derive(Clone, Copy, Debug)]
pub struct Multiplicative;

impl Operator for Additive {
    fn operator_token() -> Self {
        Additive
    }
}

impl Operator for Multiplicative {
    fn operator_token() -> Self {
        Multiplicative
    }
}

/// A type with an identity element for the operator `O`.
pub trait Identity<O: Operator>: Sized {
    /// The identity element.
    spec fn spec_identity() -> Self;

    fn identity() -> (r: Self)
        ensures
            r == Self::spec_identity(),
    ;
}

/// A type whose elements have an inverse for the operator `O`.
pub trait Inverse<O: Operator>: Sized {
    /// The inverse of `self`.
    spec fn spec_inverse(&self) -> Self;

    fn inverse(&self) -> (r: Self)
        ensures
            r == self.spec_inverse(),
    ;
}

} // verus!
