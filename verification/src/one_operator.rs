//! Algebraic structures with one operator, from the magma to the abelian
//! group.
//!
//! Each structure adds a law to those below it. An implementation proves the
//! law; the function that tests the law on given elements is kept for code
//! that has no proof at hand.

use vstd::prelude::*;
use vstd::std_specs::cmp::PartialEqSpec;
use crate::approx_eq::{approx_eq, spec_approx_eq, ApproxEq};
use crate::operator::{Identity, Inverse, Operator};

verus! {

/// A set that is closed under the operator `O`.
pub trait AbstractMagma<O: Operator>: Sized + Clone {
    /// `self ∘ right`.
    spec fn spec_operate(&self, right: &Self) -> Self;

    /// Performs the operation.
    fn operate(&self, right: &Self) -> (r: Self)
        ensures
            r == self.spec_operate(right),
    ;

    /// Performs the operation that the first argument names.
    fn op(&self, _operator: O, lhs: &Self) -> (r: Self)
        ensures
            r == self.spec_operate(lhs),
    {
        self.operate(lhs)
    }
}

/// A magma in which operating with an element is undone by operating with
/// its inverse: `(a ∘ b⁻¹) ∘ b = a` and `a ∘ (b ∘ b⁻¹) = a`.
pub trait AbstractQuasigroup<O: Operator>: PartialEq + AbstractMagma<O> + Inverse<O> {
    proof fn lemma_inv_is_latin_square(a: &Self, b: &Self)
        ensures
            a.spec_operate(&b.spec_inverse()).spec_operate(b) == *a,
            a.spec_operate(&b.spec_operate(&b.spec_inverse())) == *a,
    ;

    /// Tests the law of the quasigroup on `a` and `b` up to the default
    /// tolerances.
    fn prop_inv_is_latin_square_approx(args: (Self, Self)) -> (holds: bool) where Self: ApproxEq
        ensures
            holds == (spec_approx_eq(
                &args.0,
                &args.0.spec_operate(&args.1.spec_inverse()).spec_operate(&args.1),
            ) && spec_approx_eq(
                &args.0,
                &args.0.spec_operate(&args.1.spec_operate(&args.1.spec_inverse())),
            )),
    {
        let (a, b) = args;
        approx_eq(&a, &a.operate(&b.inverse()).operate(&b)) && approx_eq(
            &a,
            &a.operate(&b.operate(&b.inverse())),
        )
    }

    /// Tests the law of the quasigroup on `a` and `b`, comparing with `==`.
    fn prop_inv_is_latin_square(args: (Self, Self)) -> (holds: bool)
        ensures
            Self::obeys_eq_spec() ==> holds == (args.0.eq_spec(
                &args.0.spec_operate(&args.1.spec_inverse()).spec_operate(&args.1),
            ) && args.0.eq_spec(
                &args.0.spec_operate(&args.1.spec_operate(&args.1.spec_inverse())),
            )),
    {
        let (a, b) = args;
        a == a.operate(&b.inverse()).operate(&b) && a == a.operate(&b.operate(&b.inverse()))
    }
}

/// A magma whose operator is associative: `(a ∘ b) ∘ c = a ∘ (b ∘ c)`.
pub trait AbstractSemigroup<O: Operator>: PartialEq + AbstractMagma<O> {
    proof fn lemma_is_associative(a: &Self, b: &Self, c: &Self)
        ensures
            a.spec_operate(b).spec_operate(c) == a.spec_operate(&b.spec_operate(c)),
    ;

    /// Tests associativity on `a`, `b` and `c` up to the default tolerances.
    fn prop_is_associative_approx(args: (Self, Self, Self)) -> (holds: bool) where Self: ApproxEq
        ensures
            holds == spec_approx_eq(
                &args.0.spec_operate(&args.1).spec_operate(&args.2),
                &args.0.spec_operate(&args.1.spec_operate(&args.2)),
            ),
    {
        let (a, b, c) = args;
        approx_eq(&a.operate(&b).operate(&c), &a.operate(&b.operate(&c)))
    }

    /// Tests associativity on `a`, `b` and `c`, comparing with `==`.
    fn prop_is_associative(args: (Self, Self, Self)) -> (holds: bool)
        ensures
            Self::obeys_eq_spec() ==> holds == args.0.spec_operate(&args.1).spec_operate(
                &args.2,
            ).eq_spec(&args.0.spec_operate(&args.1.spec_operate(&args.2))),
    {
        let (a, b, c) = args;
        a.operate(&b).operate(&c) == a.operate(&b.operate(&c))
    }
}

/// A quasigroup with an identity element.
pub trait AbstractLoop<O: Operator>: AbstractQuasigroup<O> + Identity<O> {
}

/// A semigroup with an identity element `e`: `e ∘ a = a ∘ e = a`.
pub trait AbstractMonoid<O: Operator>: AbstractSemigroup<O> + Identity<O> {
    proof fn lemma_operating_identity_element_is_noop(a: &Self)
        ensures
            a.spec_operate(&Self::spec_identity()) == *a,
            Self::spec_identity().spec_operate(a) == *a,
    ;

    /// Tests on `a` that operating with the identity element changes
    /// nothing, up to the default tolerances.
    fn prop_operating_identity_element_is_noop_approx(a: Self) -> (holds: bool) where Self: ApproxEq
        ensures
            holds == (spec_approx_eq(&a.spec_operate(&Self::spec_identity()), &a)
                && spec_approx_eq(&Self::spec_identity().spec_operate(&a), &a)),
    {
        approx_eq(&a.operate(&Self::identity()), &a) && approx_eq(
            &Self::identity().operate(&a),
            &a,
        )
    }

    /// Tests on `a` that operating with the identity element changes
    /// nothing, comparing with `==`.
    fn prop_operating_identity_element_is_noop(a: Self) -> (holds: bool)
        ensures
            Self::obeys_eq_spec() ==> holds == (a.spec_operate(&Self::spec_identity()).eq_spec(&a)
                && Self::spec_identity().spec_operate(&a).eq_spec(&a)),
    {
        a.operate(&Self::identity()) == a && Self::identity().operate(&a) == a
    }
}

/// A loop that is a monoid as well.
pub trait AbstractGroup<O: Operator>: AbstractLoop<O> + AbstractMonoid<O> {
}

/// A group whose operator is commutative: `a ∘ b = b ∘ a`.
pub trait AbstractGroupAbelian<O: Operator>: AbstractGroup<O> {
    proof fn lemma_is_commutative(a: &Self, b: &Self)
        ensures
            a.spec_operate(b) == b.spec_operate(a),
    ;

    /// Tests commutativity on `a` and `b` up to the default tolerances.
    fn prop_is_commutative_approx(args: (Self, Self)) -> (holds: bool) where Self: ApproxEq
        ensures
            holds == spec_approx_eq(
                &args.0.spec_operate(&args.1),
                &args.1.spec_operate(&args.0),
            ),
    {
        let (a, b) = args;
        approx_eq(&a.operate(&b), &b.operate(&a))
    }

    /// Tests commutativity on `a` and `b`, comparing with `==`.
    fn prop_is_commutative(args: (Self, Self)) -> (holds: bool)
        ensures
            Self::obeys_eq_spec() ==> holds == args.0.spec_operate(&args.1).eq_spec(
                &args.1.spec_operate(&args.0),
            ),
    {
        let (a, b) = args;
        a.operate(&b) == b.operate(&a)
    }
}

/// In a structure whose `==` is the identity of values, the test of
/// associativity holds on all elements.
pub proof fn lemma_semigroup_test_holds<O: Operator, M: AbstractSemigroup<O>>(a: M, b: M, c: M)
    requires
        forall|x: M, y: M| #[trigger] x.eq_spec(&y) <==> x == y,
    ensures
        a.spec_operate(&b).spec_operate(&c).eq_spec(&a.spec_operate(&b.spec_operate(&c))),
{
    M::lemma_is_associative(&a, &b, &c);
}

/// In a structure whose `==` is the identity of values, the test of the
/// identity element holds on all elements.
pub proof fn lemma_monoid_test_holds<O: Operator, M: AbstractMonoid<O>>(a: M)
    requires
        forall|x: M, y: M| #[trigger] x.eq_spec(&y) <==> x == y,
    ensures
        a.spec_operate(&M::spec_identity()).eq_spec(&a),
        M::spec_identity().spec_operate(&a).eq_spec(&a),
{
    M::lemma_operating_identity_element_is_noop(&a);
}

} // verus!
