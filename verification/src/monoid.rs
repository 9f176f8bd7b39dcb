//! Monoids whose identity is tested on given elements, exactly or up to a
//! tolerance.

use vstd::prelude::*;
use vstd::std_specs::cmp::PartialEqSpec;
use crate::approx_eq::{approx_eq, spec_approx_eq, ApproxEq};
use crate::operator::{Identity, Operator};
use crate::one_operator::{AbstractMagma, AbstractSemigroup};

verus! {

/// A type with an operator that is associative up to a tolerance, and with
/// an identity element for it: `a ∘ e ≈ a` and `e ∘ a ≈ a`.
pub trait MonoidApprox<O: Operator>: PartialEq + AbstractMagma<O> + Identity<O> + ApproxEq {
    /// Checks whether operating with the identity is a no-op for the given
    /// argument: exactly from the right, and up to the default tolerances
    /// from the left.
    fn prop_operating_identity_is_noop_approx(a: Self) -> (holds: bool)
        ensures
            Self::obeys_eq_spec() ==> holds == (a.spec_operate(&Self::spec_identity()).eq_spec(&a)
                && spec_approx_eq(&Self::spec_identity().spec_operate(&a), &a)),
    {
        a.operate(&Self::identity()) == a && approx_eq(&Self::identity().operate(&a), &a)
    }
}

/// A type with an associative operator and an identity element for it:
/// `a ∘ e = a` and `e ∘ a = a`.
pub trait Monoid<O: Operator>: MonoidApprox<O> + AbstractSemigroup<O> {
    /// Checks whether operating with the identity is a no-op for the given
    /// argument.
    fn prop_operating_identity_is_noop(a: Self) -> (holds: bool)
        ensures
            Self::obeys_eq_spec() ==> holds == (a.spec_operate(&Self::spec_identity()).eq_spec(&a)
                && Self::spec_identity().spec_operate(&a).eq_spec(&a)),
    {
        a.operate(&Self::identity()) == a && Self::identity().operate(&a) == a
    }
}

} // verus!
