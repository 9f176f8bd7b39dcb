//! The arithmetic that every scalar offers: the four operations, negation,
//! the two identity elements and the tests that compare with them.

use vstd::prelude::*;

verus! {

/// A set with two identity elements and the four arithmetic operations.
///
/// The specification functions name the result of each operation; the
/// executable functions return exactly that result. Nothing is assumed of
/// the operations beyond that: they need not be associative or exact, so a
/// rounding arithmetic is a model of this trait. Equality is the scalar's
/// own notion of it (`spec_equals`), which may differ from identity of
/// values: a scalar may have two zeros that compare equal, or a value that
/// does not equal itself.
pub trait Field: Sized + Copy {
    /// The additive identity.
    spec fn spec_zero() -> Self;

    fn zero() -> (r: Self)
        ensures
            r == Self::spec_zero(),
    ;

    /// The multiplicative identity.
    spec fn spec_one() -> Self;

    fn one() -> (r: Self)
        ensures
            r == Self::spec_one(),
    ;

    /// `self + rhs`.
    spec fn spec_add(self, rhs: Self) -> Self;

    fn add(self, rhs: Self) -> (r: Self)
        ensures
            r == self.spec_add(rhs),
    ;

    /// `self - rhs`.
    spec fn spec_sub(self, rhs: Self) -> Self;

    fn sub(self, rhs: Self) -> (r: Self)
        ensures
            r == self.spec_sub(rhs),
    ;

    /// `self * rhs`.
    spec fn spec_mul(self, rhs: Self) -> Self;

    fn mul(self, rhs: Self) -> (r: Self)
        ensures
            r == self.spec_mul(rhs),
    ;

    /// `self / rhs`.
    spec fn spec_div(self, rhs: Self) -> Self;

    fn div(self, rhs: Self) -> (r: Self)
        ensures
            r == self.spec_div(rhs),
    ;

    /// `-self`.
    spec fn spec_neg(self) -> Self;

    fn neg(self) -> (r: Self)
        ensures
            r == self.spec_neg(),
    ;

    /// Whether the scalar's own equality holds between `self` and `rhs`.
    spec fn spec_equals(self, rhs: Self) -> bool;

    fn equals(self, rhs: Self) -> (b: bool)
        ensures
            b == self.spec_equals(rhs),
    ;

    /// Whether `self` counts as zero.
    spec fn spec_is_zero(self) -> bool;

    fn is_zero(self) -> (b: bool)
        ensures
            b == self.spec_is_zero(),
    ;
}

} // verus!
