//! Real scalars as scalars of the shared interface.
//!
//! A real scalar is the complex scalar on the real axis: it has no imaginary
//! part, its modulus is its absolute value, and its argument is zero or pi.
//! The elementary functions are the scalar's own primitives; the square root
//! is partial, since the reals are not closed under it.

use vstd::prelude::*;
use crate::field::Field;
use crate::real_field::RealField;
use crate::complex_field::ComplexField;

verus! {

impl<N: RealField> ComplexField for N {
    type RealField = N;

    open spec fn spec_from_real(re: N) -> N {
        re
    }

    fn from_real(re: N) -> (r: N) {
        re
    }

    open spec fn spec_real_part(self) -> N {
        self
    }

    fn real_part(self) -> (r: N) {
        self
    }

    open spec fn spec_imaginary(self) -> N {
        N::spec_zero()
    }

    fn imaginary(self) -> (r: N)
        ensures
            r == N::spec_zero(),
    {
        N::zero()
    }

    open spec fn spec_modulus(self) -> N {
        RealField::spec_abs(self)
    }

    fn modulus(self) -> (r: N) {
        RealField::abs(self)
    }

    open spec fn spec_modulus_squared(self) -> N {
        self.spec_mul(self)
    }

    fn modulus_squared(self) -> (r: N) {
        self.mul(self)
    }

    /// Zero on the non-negative half of the axis, pi on the rest: on a
    /// scalar that is not comparable with zero, pi.
    open spec fn spec_argument(self) -> N {
        if N::spec_ge(self, N::spec_zero()) {
            N::spec_zero()
        } else {
            N::spec_pi()
        }
    }

    fn argument(self) -> (r: N)
        ensures
            r == N::spec_zero() || r == N::spec_pi(),
    {
        if N::ge(self, N::zero()) {
            N::zero()
        } else {
            N::pi()
        }
    }

    open spec fn spec_norm1(self) -> N {
        RealField::spec_abs(self)
    }

    fn norm1(self) -> (r: N) {
        RealField::abs(self)
    }

    /// The scalar itself with the unit one where it is not below zero, its
    /// negation with the unit minus one elsewhere.
    open spec fn spec_to_exp(self) -> (N, N) {
        if N::spec_ge(self, N::spec_zero()) {
            (self, N::spec_one())
        } else {
            (self.spec_neg(), N::spec_one().spec_neg())
        }
    }

    fn to_exp(self) -> (r: (N, N)) {
        if N::ge(self, N::zero()) {
            (self, N::one())
        } else {
            (self.neg(), N::one().neg())
        }
    }

    open spec fn spec_recip(self) -> N {
        N::spec_one().spec_div(self)
    }

    fn recip(self) -> (r: N) {
        N::one().div(self)
    }

    open spec fn spec_conjugate(self) -> N {
        self
    }

    fn conjugate(self) -> (r: N) {
        self
    }

    open spec fn spec_scale(self, factor: N) -> N {
        self.spec_mul(factor)
    }

    fn scale(self, factor: N) -> (r: N) {
        self.mul(factor)
    }

    open spec fn spec_unscale(self, factor: N) -> N {
        self.spec_div(factor)
    }

    fn unscale(self, factor: N) -> (r: N) {
        self.div(factor)
    }

    open spec fn spec_mul_add(self, a: N, b: N) -> N {
        RealField::spec_mul_add(self, a, b)
    }

    fn mul_add(self, a: N, b: N) -> (r: N) {
        RealField::mul_add(self, a, b)
    }

    open spec fn spec_hypot(self, other: N) -> N {
        RealField::spec_hypot(self, other)
    }

    fn hypot(self, other: N) -> (r: N) {
        RealField::hypot(self, other)
    }

    open spec fn spec_log(self, base: N) -> N {
        RealField::spec_log(self, base)
    }

    fn log(self, base: N) -> (r: N) {
        RealField::log(self, base)
    }

    open spec fn spec_powi(self, n: i32) -> N {
        RealField::spec_powi(self, n)
    }

    fn powi(self, n: i32) -> (r: N) {
        RealField::powi(self, n)
    }

    open spec fn spec_powf(self, n: N) -> N {
        RealField::spec_powf(self, n)
    }

    fn powf(self, n: N) -> (r: N) {
        RealField::powf(self, n)
    }

    /// A real power of a real scalar: the same as `powf`.
    open spec fn spec_powc(self, n: N) -> N {
        RealField::spec_powf(self, n)
    }

    fn powc(self, n: N) -> (r: N) {
        RealField::powf(self, n)
    }

    open spec fn spec_is_finite(self) -> bool {
        RealField::spec_is_finite(self)
    }

    fn is_finite(&self) -> (b: bool) {
        RealField::is_finite(*self)
    }

    /// The square root of a scalar that is not below zero; none elsewhere.
    open spec fn spec_try_sqrt(self) -> Option<N> {
        if N::spec_ge(self, N::spec_zero()) {
            Some(RealField::spec_sqrt(self))
        } else {
            None
        }
    }

    fn try_sqrt(self) -> (r: Option<N>)
        ensures
            r.is_some() <==> N::spec_ge(self, N::spec_zero()),
            r.is_some() ==> r == Some(RealField::spec_sqrt(self)),
    {
        if N::ge(self, N::zero()) {
            Some(RealField::sqrt(self))
        } else {
            None
        }
    }

    open spec fn spec_floor(self) -> N {
        RealField::spec_floor(self)
    }

    fn floor(self) -> (r: N) {
        RealField::floor(self)
    }

    open spec fn spec_ceil(self) -> N {
        RealField::spec_ceil(self)
    }

    fn ceil(self) -> (r: N) {
        RealField::ceil(self)
    }

    open spec fn spec_round(self) -> N {
        RealField::spec_round(self)
    }

    fn round(self) -> (r: N) {
        RealField::round(self)
    }

    open spec fn spec_trunc(self) -> N {
        RealField::spec_trunc(self)
    }

    fn trunc(self) -> (r: N) {
        RealField::trunc(self)
    }

    open spec fn spec_fract(self) -> N {
        RealField::spec_fract(self)
    }

    fn fract(self) -> (r: N) {
        RealField::fract(self)
    }

    open spec fn spec_sin(self) -> N {
        RealField::spec_sin(self)
    }

    fn sin(self) -> (r: N) {
        RealField::sin(self)
    }

    open spec fn spec_cos(self) -> N {
        RealField::spec_cos(self)
    }

    fn cos(self) -> (r: N) {
        RealField::cos(self)
    }

    fn sin_cos(self) -> (r: (N, N)) {
        RealField::sin_cos(self)
    }

    open spec fn spec_tan(self) -> N {
        RealField::spec_tan(self)
    }

    fn tan(self) -> (r: N) {
        RealField::tan(self)
    }

    open spec fn spec_asin(self) -> N {
        RealField::spec_asin(self)
    }

    fn asin(self) -> (r: N) {
        RealField::asin(self)
    }

    open spec fn spec_acos(self) -> N {
        RealField::spec_acos(self)
    }

    fn acos(self) -> (r: N) {
        RealField::acos(self)
    }

    open spec fn spec_atan(self) -> N {
        RealField::spec_atan(self)
    }

    fn atan(self) -> (r: N) {
        RealField::atan(self)
    }

    open spec fn spec_sinh(self) -> N {
        RealField::spec_sinh(self)
    }

    fn sinh(self) -> (r: N) {
        RealField::sinh(self)
    }

    open spec fn spec_cosh(self) -> N {
        RealField::spec_cosh(self)
    }

    fn cosh(self) -> (r: N) {
        RealField::cosh(self)
    }

    open spec fn spec_tanh(self) -> N {
        RealField::spec_tanh(self)
    }

    fn tanh(self) -> (r: N) {
        RealField::tanh(self)
    }

    open spec fn spec_asinh(self) -> N {
        RealField::spec_asinh(self)
    }

    fn asinh(self) -> (r: N) {
        RealField::asinh(self)
    }

    open spec fn spec_acosh(self) -> N {
        RealField::spec_acosh(self)
    }

    fn acosh(self) -> (r: N) {
        RealField::acosh(self)
    }

    open spec fn spec_atanh(self) -> N {
        RealField::spec_atanh(self)
    }

    fn atanh(self) -> (r: N) {
        RealField::atanh(self)
    }

    open spec fn spec_log2(self) -> N {
        RealField::spec_log2(self)
    }

    fn log2(self) -> (r: N) {
        RealField::log2(self)
    }

    open spec fn spec_log10(self) -> N {
        RealField::spec_log10(self)
    }

    fn log10(self) -> (r: N) {
        RealField::log10(self)
    }

    open spec fn spec_ln(self) -> N {
        RealField::spec_ln(self)
    }

    fn ln(self) -> (r: N) {
        RealField::ln(self)
    }

    open spec fn spec_ln_1p(self) -> N {
        RealField::spec_ln_1p(self)
    }

    fn ln_1p(self) -> (r: N) {
        RealField::ln_1p(self)
    }

    open spec fn spec_sqrt(self) -> N {
        RealField::spec_sqrt(self)
    }

    fn sqrt(self) -> (r: N) {
        RealField::sqrt(self)
    }

    open spec fn spec_exp(self) -> N {
        RealField::spec_exp(self)
    }

    fn exp(self) -> (r: N) {
        RealField::exp(self)
    }

    open spec fn spec_exp2(self) -> N {
        RealField::spec_exp2(self)
    }

    fn exp2(self) -> (r: N) {
        RealField::exp2(self)
    }

    open spec fn spec_exp_m1(self) -> N {
        RealField::spec_exp_m1(self)
    }

    fn exp_m1(self) -> (r: N) {
        RealField::exp_m1(self)
    }

    open spec fn spec_cbrt(self) -> N {
        RealField::spec_cbrt(self)
    }

    fn cbrt(self) -> (r: N) {
        RealField::cbrt(self)
    }
}

} // verus!
