//! A wrapper that gives the elements of an algebraic structure the
//! arithmetic operators.

use vstd::prelude::*;
use core::ops::{Add, Mul, Neg};
use vstd::std_specs::ops::{AddSpecImpl, DivSpecImpl, MulSpecImpl, NegSpecImpl, SubSpecImpl};
use crate::approx_eq::ApproxEq;
use crate::operator::{Additive, Identity, Inverse, Multiplicative, Operator};
use crate::one_operator::{AbstractMagma, AbstractQuasigroup};

verus! {

/// An element of a structure, with `+` and `*` for the addition and the
/// multiplication of the structure, and `-` and `/` where it has inverses.
#[derive(Clone, Copy, PartialOrd, PartialEq, Debug)]
pub struct Wrapper<M>(pub M);

/// The identity element of the operator that the argument names, wrapped.
pub fn id<O: Operator, M: Identity<O>>(_operator: O) -> (r: Wrapper<M>)
    ensures
        r.0 == M::spec_identity(),
{
    Wrapper(M::identity())
}

/// Wrapped elements are compared as the elements are, with the tolerances of
/// the elements.
impl<M: ApproxEq> ApproxEq for Wrapper<M> {
    type Epsilon = M::Epsilon;

    open spec fn spec_default_epsilon() -> M::Epsilon {
        M::spec_default_epsilon()
    }

    open spec fn spec_default_max_relative() -> M::Epsilon {
        M::spec_default_max_relative()
    }

    open spec fn spec_default_max_ulps() -> u32 {
        M::spec_default_max_ulps()
    }

    open spec fn spec_relative_eq(
        &self,
        other: &Self,
        epsilon: M::Epsilon,
        max_relative: M::Epsilon,
    ) -> bool {
        self.0.spec_relative_eq(&other.0, epsilon, max_relative)
    }

    open spec fn spec_ulps_eq(&self, other: &Self, epsilon: M::Epsilon, max_ulps: u32) -> bool {
        self.0.spec_ulps_eq(&other.0, epsilon, max_ulps)
    }

    fn default_epsilon() -> (r: M::Epsilon) {
        M::default_epsilon()
    }

    fn default_max_relative() -> (r: M::Epsilon) {
        M::default_max_relative()
    }

    fn default_max_ulps() -> (r: u32) {
        M::default_max_ulps()
    }

    fn relative_eq(&self, other: &Self, epsilon: M::Epsilon, max_relative: M::Epsilon) -> (b: bool) {
        self.0.relative_eq(&other.0, epsilon, max_relative)
    }

    fn ulps_eq(&self, other: &Self, epsilon: M::Epsilon, max_ulps: u32) -> (b: bool) {
        self.0.ulps_eq(&other.0, epsilon, max_ulps)
    }
}

impl<M: AbstractMagma<Additive>> core::ops::Add for Wrapper<M> {
    type Output = Self;

    fn add(self, lhs: Self) -> (r: Self) {
        Wrapper(self.0.operate(&lhs.0))
    }
}

impl<M: AbstractMagma<Additive>> AddSpecImpl for Wrapper<M> {
    open spec fn obeys_add_spec() -> bool {
        true
    }

    open spec fn add_req(self, lhs: Self) -> bool {
        true
    }

    /// The sum of the structure.
    open spec fn add_spec(self, lhs: Self) -> Self {
        Wrapper(self.0.spec_operate(&lhs.0))
    }
}

impl<M: AbstractQuasigroup<Additive>> core::ops::Neg for Wrapper<M> {
    type Output = Self;

    fn neg(self) -> (r: Self) {
        Wrapper(self.0.inverse())
    }
}

impl<M: AbstractQuasigroup<Additive>> NegSpecImpl for Wrapper<M> {
    open spec fn obeys_neg_spec() -> bool {
        true
    }

    open spec fn neg_req(self) -> bool {
        true
    }

    /// The additive inverse.
    open spec fn neg_spec(self) -> Self {
        Wrapper(self.0.spec_inverse())
    }
}

impl<M: AbstractQuasigroup<Additive>> core::ops::Sub for Wrapper<M> {
    type Output = Self;

    fn sub(self, lhs: Self) -> (r: Self) {
        self.add(lhs.neg())
    }
}

impl<M: AbstractQuasigroup<Additive>> SubSpecImpl for Wrapper<M> {
    open spec fn obeys_sub_spec() -> bool {
        true
    }

    open spec fn sub_req(self, lhs: Self) -> bool {
        true
    }

    /// The sum with the additive inverse of `lhs`.
    open spec fn sub_spec(self, lhs: Self) -> Self {
        Wrapper(self.0.spec_operate(&lhs.0.spec_inverse()))
    }
}

impl<M: AbstractMagma<Multiplicative>> core::ops::Mul for Wrapper<M> {
    type Output = Self;

    fn mul(self, lhs: Self) -> (r: Self) {
        Wrapper(self.0.operate(&lhs.0))
    }
}

impl<M: AbstractMagma<Multiplicative>> MulSpecImpl for Wrapper<M> {
    open spec fn obeys_mul_spec() -> bool {
        true
    }

    open spec fn mul_req(self, lhs: Self) -> bool {
        true
    }

    /// The product of the structure.
    open spec fn mul_spec(self, lhs: Self) -> Self {
        Wrapper(self.0.spec_operate(&lhs.0))
    }
}

impl<M: AbstractQuasigroup<Multiplicative>> Wrapper<M> {
    /// The multiplicative inverse.
    pub fn recip(self) -> (r: Self)
        ensures
            r.0 == self.0.spec_inverse(),
    {
        Wrapper(self.0.inverse())
    }
}

impl<M: AbstractQuasigroup<Multiplicative>> core::ops::Div for Wrapper<M> {
    type Output = Self;

    fn div(self, lhs: Self) -> (r: Self) {
        self.mul(lhs.recip())
    }
}

impl<M: AbstractQuasigroup<Multiplicative>> DivSpecImpl for Wrapper<M> {
    open spec fn obeys_div_spec() -> bool {
        true
    }

    open spec fn div_req(self, lhs: Self) -> bool {
        true
    }

    /// The product with the multiplicative inverse of `lhs`.
    open spec fn div_spec(self, lhs: Self) -> Self {
        Wrapper(self.0.spec_operate(&lhs.0.spec_inverse()))
    }
}

} // verus!
