//! Scalars as batches of one lane.
//!
//! Code written for batches of scalars calls the operations under their
//! `simd_` names. A single scalar is a batch of one: each such operation is
//! the scalar's own, and the batch is zero where the scalar is.

use vstd::prelude::*;
use crate::field::Field;
use crate::complex_field::ComplexField;

verus! {

/// The operations of [`ComplexField`] for a batch of scalars, each applied
/// lane by lane, with the two constant batches and the test for the zero
/// batch.
pub trait SimdComplexField: Field {
    /// The real batches that the parts, the modulus and the argument are
    /// taken from.
    type SimdRealField: Field;

    /// The batch whose lanes are all zero.
    spec fn spec_simd_zero() -> Self;

    fn simd_zero() -> (r: Self)
        ensures
            r == Self::spec_simd_zero(),
    ;

    /// Whether all lanes are zero.
    spec fn spec_is_simd_zero(self) -> bool;

    fn is_simd_zero(self) -> (b: bool)
        ensures
            b == self.spec_is_simd_zero(),
    ;

    /// The batch whose lanes are all one.
    spec fn spec_simd_one() -> Self;

    fn simd_one() -> (r: Self)
        ensures
            r == Self::spec_simd_one(),
    ;

    /// The batch with the given real parts and no imaginary parts.
    spec fn spec_from_simd_real(re: Self::SimdRealField) -> Self;

    fn from_simd_real(re: Self::SimdRealField) -> (r: Self)
        ensures
            r == Self::spec_from_simd_real(re),
    ;

    /// The real parts.
    spec fn spec_simd_real(self) -> Self::SimdRealField;

    fn simd_real(self) -> (r: Self::SimdRealField)
        ensures
            r == self.spec_simd_real(),
    ;

    /// The exponential form of each lane.
    spec fn spec_simd_to_exp(self) -> (Self::SimdRealField, Self);

    fn simd_to_exp(self) -> (r: (Self::SimdRealField, Self))
        ensures
            r == self.spec_simd_to_exp(),
    ;

    /// Lane by lane: the imaginary part.
    spec fn spec_simd_imaginary(self) -> Self::SimdRealField;

    fn simd_imaginary(self) -> (r: Self::SimdRealField)
        ensures
            r == self.spec_simd_imaginary(),
    ;

    /// Lane by lane: the modulus `|self|`.
    spec fn spec_simd_modulus(self) -> Self::SimdRealField;

    fn simd_modulus(self) -> (r: Self::SimdRealField)
        ensures
            r == self.spec_simd_modulus(),
    ;

    /// Lane by lane: the square of the modulus.
    spec fn spec_simd_modulus_squared(self) -> Self::SimdRealField;

    fn simd_modulus_squared(self) -> (r: Self::SimdRealField)
        ensures
            r == self.spec_simd_modulus_squared(),
    ;

    /// Lane by lane: the argument: the angle from the positive real axis, in `(-pi, pi]`.
    spec fn spec_simd_argument(self) -> Self::SimdRealField;

    fn simd_argument(self) -> (r: Self::SimdRealField)
        ensures
            r == self.spec_simd_argument(),
    ;

    /// Lane by lane: the sum of the absolute values of the real and the imaginary part.
    spec fn spec_simd_norm1(self) -> Self::SimdRealField;

    fn simd_norm1(self) -> (r: Self::SimdRealField)
        ensures
            r == self.spec_simd_norm1(),
    ;

    /// Lane by lane: `self` multiplied by the real `factor`.
    spec fn spec_simd_scale(self, factor: Self::SimdRealField) -> Self;

    fn simd_scale(self, factor: Self::SimdRealField) -> (r: Self)
        ensures
            r == self.spec_simd_scale(factor),
    ;

    /// Lane by lane: `self` divided by the real `factor`.
    spec fn spec_simd_unscale(self, factor: Self::SimdRealField) -> Self;

    fn simd_unscale(self, factor: Self::SimdRealField) -> (r: Self)
        ensures
            r == self.spec_simd_unscale(factor),
    ;

    /// Lane by lane: the floor of each part.
    spec fn spec_simd_floor(self) -> Self;

    fn simd_floor(self) -> (r: Self)
        ensures
            r == self.spec_simd_floor(),
    ;

    /// Lane by lane: the ceiling of each part.
    spec fn spec_simd_ceil(self) -> Self;

    fn simd_ceil(self) -> (r: Self)
        ensures
            r == self.spec_simd_ceil(),
    ;

    /// Lane by lane: each part rounded to the nearest integer.
    spec fn spec_simd_round(self) -> Self;

    fn simd_round(self) -> (r: Self)
        ensures
            r == self.spec_simd_round(),
    ;

    /// Lane by lane: the integer part of each part.
    spec fn spec_simd_trunc(self) -> Self;

    fn simd_trunc(self) -> (r: Self)
        ensures
            r == self.spec_simd_trunc(),
    ;

    /// Lane by lane: the fractional part of each part.
    spec fn spec_simd_fract(self) -> Self;

    fn simd_fract(self) -> (r: Self)
        ensures
            r == self.spec_simd_fract(),
    ;

    /// Lane by lane: `self * a + b`.
    spec fn spec_simd_mul_add(self, a: Self, b: Self) -> Self;

    fn simd_mul_add(self, a: Self, b: Self) -> (r: Self)
        ensures
            r == self.spec_simd_mul_add(a, b),
    ;

    /// Lane by lane: the square root of `|self|^2 + |other|^2`.
    spec fn spec_simd_hypot(self, other: Self) -> Self::SimdRealField;

    fn simd_hypot(self, other: Self) -> (r: Self::SimdRealField)
        ensures
            r == self.spec_simd_hypot(other),
    ;

    /// Lane by lane: `1 / self`.
    spec fn spec_simd_recip(self) -> Self;

    fn simd_recip(self) -> (r: Self)
        ensures
            r == self.spec_simd_recip(),
    ;

    /// Lane by lane: the complex conjugate.
    spec fn spec_simd_conjugate(self) -> Self;

    fn simd_conjugate(self) -> (r: Self)
        ensures
            r == self.spec_simd_conjugate(),
    ;

    /// Lane by lane: the sine.
    spec fn spec_simd_sin(self) -> Self;

    fn simd_sin(self) -> (r: Self)
        ensures
            r == self.spec_simd_sin(),
    ;

    /// Lane by lane: the cosine.
    spec fn spec_simd_cos(self) -> Self;

    fn simd_cos(self) -> (r: Self)
        ensures
            r == self.spec_simd_cos(),
    ;

    fn simd_sin_cos(self) -> (r: (Self, Self))
        ensures
            r == (self.spec_simd_sin(), self.spec_simd_cos()),
    ;

    /// Lane by lane: the tangent.
    spec fn spec_simd_tan(self) -> Self;

    fn simd_tan(self) -> (r: Self)
        ensures
            r == self.spec_simd_tan(),
    ;

    /// Lane by lane: the principal value of the inverse sine.
    spec fn spec_simd_asin(self) -> Self;

    fn simd_asin(self) -> (r: Self)
        ensures
            r == self.spec_simd_asin(),
    ;

    /// Lane by lane: the principal value of the inverse cosine.
    spec fn spec_simd_acos(self) -> Self;

    fn simd_acos(self) -> (r: Self)
        ensures
            r == self.spec_simd_acos(),
    ;

    /// Lane by lane: the principal value of the inverse tangent.
    spec fn spec_simd_atan(self) -> Self;

    fn simd_atan(self) -> (r: Self)
        ensures
            r == self.spec_simd_atan(),
    ;

    /// Lane by lane: the hyperbolic sine.
    spec fn spec_simd_sinh(self) -> Self;

    fn simd_sinh(self) -> (r: Self)
        ensures
            r == self.spec_simd_sinh(),
    ;

    /// Lane by lane: the hyperbolic cosine.
    spec fn spec_simd_cosh(self) -> Self;

    fn simd_cosh(self) -> (r: Self)
        ensures
            r == self.spec_simd_cosh(),
    ;

    /// Lane by lane: the hyperbolic tangent.
    spec fn spec_simd_tanh(self) -> Self;

    fn simd_tanh(self) -> (r: Self)
        ensures
            r == self.spec_simd_tanh(),
    ;

    /// Lane by lane: the principal value of the inverse hyperbolic sine.
    spec fn spec_simd_asinh(self) -> Self;

    fn simd_asinh(self) -> (r: Self)
        ensures
            r == self.spec_simd_asinh(),
    ;

    /// Lane by lane: the principal value of the inverse hyperbolic cosine.
    spec fn spec_simd_acosh(self) -> Self;

    fn simd_acosh(self) -> (r: Self)
        ensures
            r == self.spec_simd_acosh(),
    ;

    /// Lane by lane: the principal value of the inverse hyperbolic tangent.
    spec fn spec_simd_atanh(self) -> Self;

    fn simd_atanh(self) -> (r: Self)
        ensures
            r == self.spec_simd_atanh(),
    ;

    /// Lane by lane: the principal value of the logarithm to a real base.
    spec fn spec_simd_log(self, base: Self::SimdRealField) -> Self;

    fn simd_log(self, base: Self::SimdRealField) -> (r: Self)
        ensures
            r == self.spec_simd_log(base),
    ;

    /// Lane by lane: the principal value of the logarithm to base two.
    spec fn spec_simd_log2(self) -> Self;

    fn simd_log2(self) -> (r: Self)
        ensures
            r == self.spec_simd_log2(),
    ;

    /// Lane by lane: the principal value of the logarithm to base ten.
    spec fn spec_simd_log10(self) -> Self;

    fn simd_log10(self) -> (r: Self)
        ensures
            r == self.spec_simd_log10(),
    ;

    /// Lane by lane: the principal value of the natural logarithm.
    spec fn spec_simd_ln(self) -> Self;

    fn simd_ln(self) -> (r: Self)
        ensures
            r == self.spec_simd_ln(),
    ;

    /// Lane by lane: the principal value of `ln(1 + self)`.
    spec fn spec_simd_ln_1p(self) -> Self;

    fn simd_ln_1p(self) -> (r: Self)
        ensures
            r == self.spec_simd_ln_1p(),
    ;

    /// Lane by lane: the principal value of the square root.
    spec fn spec_simd_sqrt(self) -> Self;

    fn simd_sqrt(self) -> (r: Self)
        ensures
            r == self.spec_simd_sqrt(),
    ;

    /// Lane by lane: `e` raised to `self`.
    spec fn spec_simd_exp(self) -> Self;

    fn simd_exp(self) -> (r: Self)
        ensures
            r == self.spec_simd_exp(),
    ;

    /// Lane by lane: two raised to `self`.
    spec fn spec_simd_exp2(self) -> Self;

    fn simd_exp2(self) -> (r: Self)
        ensures
            r == self.spec_simd_exp2(),
    ;

    /// Lane by lane: `e^self - 1`.
    spec fn spec_simd_exp_m1(self) -> Self;

    fn simd_exp_m1(self) -> (r: Self)
        ensures
            r == self.spec_simd_exp_m1(),
    ;

    /// Lane by lane: `self` raised to the integer power `n`.
    spec fn spec_simd_powi(self, n: i32) -> Self;

    fn simd_powi(self, n: i32) -> (r: Self)
        ensures
            r == self.spec_simd_powi(n),
    ;

    /// Lane by lane: `self` raised to the real power `n`.
    spec fn spec_simd_powf(self, n: Self::SimdRealField) -> Self;

    fn simd_powf(self, n: Self::SimdRealField) -> (r: Self)
        ensures
            r == self.spec_simd_powf(n),
    ;

    /// Lane by lane: `self` raised to the power `n`.
    spec fn spec_simd_powc(self, n: Self) -> Self;

    fn simd_powc(self, n: Self) -> (r: Self)
        ensures
            r == self.spec_simd_powc(n),
    ;

    /// Lane by lane: the principal value of the cube root.
    spec fn spec_simd_cbrt(self) -> Self;

    fn simd_cbrt(self) -> (r: Self)
        ensures
            r == self.spec_simd_cbrt(),
    ;

    fn simd_to_polar(self) -> (r: (Self::SimdRealField, Self::SimdRealField))
        ensures
            r == (self.spec_simd_modulus(), self.spec_simd_argument()),
    {
        (self.simd_modulus(), self.simd_argument())
    }

    fn simd_signum(self) -> (r: Self)
        ensures
            r == self.spec_simd_to_exp().1,
    {
        self.simd_to_exp().1
    }

    fn simd_abs(self) -> (r: Self::SimdRealField)
        ensures
            r == self.spec_simd_modulus(),
    {
        self.simd_modulus()
    }

    fn simd_sinh_cosh(self) -> (r: (Self, Self))
        ensures
            r == (self.spec_simd_sinh(), self.spec_simd_cosh()),
    {
        (self.simd_sinh(), self.simd_cosh())
    }

    fn simd_sinc(self) -> (r: Self)
        ensures
            r == (if self.spec_is_simd_zero() {
                Self::spec_simd_one()
            } else {
                self.spec_simd_sin().spec_div(self)
            }),
    {
        if self.is_simd_zero() {
            Self::simd_one()
        } else {
            self.simd_sin().div(self)
        }
    }

    fn simd_sinhc(self) -> (r: Self)
        ensures
            r == (if self.spec_is_simd_zero() {
                Self::spec_simd_one()
            } else {
                self.spec_simd_sinh().spec_div(self)
            }),
    {
        if self.is_simd_zero() {
            Self::simd_one()
        } else {
            self.simd_sinh().div(self)
        }
    }

    fn simd_cosc(self) -> (r: Self)
        ensures
            r == (if self.spec_is_simd_zero() {
                Self::spec_simd_one()
            } else {
                self.spec_simd_cos().spec_div(self)
            }),
    {
        if self.is_simd_zero() {
            Self::simd_one()
        } else {
            self.simd_cos().div(self)
        }
    }

    fn simd_coshc(self) -> (r: Self)
        ensures
            r == (if self.spec_is_simd_zero() {
                Self::spec_simd_one()
            } else {
                self.spec_simd_cosh().spec_div(self)
            }),
    {
        if self.is_simd_zero() {
            Self::simd_one()
        } else {
            self.simd_cosh().div(self)
        }
    }
}

impl<T: ComplexField> SimdComplexField for T {
    type SimdRealField = T::RealField;

    open spec fn spec_simd_zero() -> T {
        T::spec_zero()
    }

    fn simd_zero() -> (r: T) {
        T::zero()
    }

    open spec fn spec_is_simd_zero(self) -> bool {
        self.spec_is_zero()
    }

    fn is_simd_zero(self) -> (b: bool) {
        self.is_zero()
    }

    open spec fn spec_simd_one() -> T {
        T::spec_one()
    }

    fn simd_one() -> (r: T) {
        T::one()
    }

    open spec fn spec_from_simd_real(re: T::RealField) -> T {
        T::spec_from_real(re)
    }

    fn from_simd_real(re: T::RealField) -> (r: T) {
        T::from_real(re)
    }

    open spec fn spec_simd_real(self) -> T::RealField {
        self.spec_real_part()
    }

    fn simd_real(self) -> (r: T::RealField) {
        self.real_part()
    }

    open spec fn spec_simd_to_exp(self) -> (T::RealField, T) {
        self.spec_to_exp()
    }

    fn simd_to_exp(self) -> (r: (T::RealField, T)) {
        self.to_exp()
    }

    open spec fn spec_simd_imaginary(self) -> T::RealField {
        self.spec_imaginary()
    }

    fn simd_imaginary(self) -> (r: T::RealField) {
        self.imaginary()
    }

    open spec fn spec_simd_modulus(self) -> T::RealField {
        self.spec_modulus()
    }

    fn simd_modulus(self) -> (r: T::RealField) {
        self.modulus()
    }

    open spec fn spec_simd_modulus_squared(self) -> T::RealField {
        self.spec_modulus_squared()
    }

    fn simd_modulus_squared(self) -> (r: T::RealField) {
        self.modulus_squared()
    }

    open spec fn spec_simd_argument(self) -> T::RealField {
        self.spec_argument()
    }

    fn simd_argument(self) -> (r: T::RealField) {
        self.argument()
    }

    open spec fn spec_simd_norm1(self) -> T::RealField {
        self.spec_norm1()
    }

    fn simd_norm1(self) -> (r: T::RealField) {
        self.norm1()
    }

    open spec fn spec_simd_scale(self, factor: T::RealField) -> T {
        self.spec_scale(factor)
    }

    fn simd_scale(self, factor: T::RealField) -> (r: T) {
        self.scale(factor)
    }

    open spec fn spec_simd_unscale(self, factor: T::RealField) -> T {
        self.spec_unscale(factor)
    }

    fn simd_unscale(self, factor: T::RealField) -> (r: T) {
        self.unscale(factor)
    }

    open spec fn spec_simd_floor(self) -> T {
        self.spec_floor()
    }

    fn simd_floor(self) -> (r: T) {
        self.floor()
    }

    open spec fn spec_simd_ceil(self) -> T {
        self.spec_ceil()
    }

    fn simd_ceil(self) -> (r: T) {
        self.ceil()
    }

    open spec fn spec_simd_round(self) -> T {
        self.spec_round()
    }

    fn simd_round(self) -> (r: T) {
        self.round()
    }

    open spec fn spec_simd_trunc(self) -> T {
        self.spec_trunc()
    }

    fn simd_trunc(self) -> (r: T) {
        self.trunc()
    }

    open spec fn spec_simd_fract(self) -> T {
        self.spec_fract()
    }

    fn simd_fract(self) -> (r: T) {
        self.fract()
    }

    open spec fn spec_simd_mul_add(self, a: T, b: T) -> T {
        self.spec_mul_add(a, b)
    }

    fn simd_mul_add(self, a: T, b: T) -> (r: T) {
        self.mul_add(a, b)
    }

    open spec fn spec_simd_hypot(self, other: T) -> T::RealField {
        self.spec_hypot(other)
    }

    fn simd_hypot(self, other: T) -> (r: T::RealField) {
        self.hypot(other)
    }

    open spec fn spec_simd_recip(self) -> T {
        self.spec_recip()
    }

    fn simd_recip(self) -> (r: T) {
        self.recip()
    }

    open spec fn spec_simd_conjugate(self) -> T {
        self.spec_conjugate()
    }

    fn simd_conjugate(self) -> (r: T) {
        self.conjugate()
    }

    open spec fn spec_simd_sin(self) -> T {
        self.spec_sin()
    }

    fn simd_sin(self) -> (r: T) {
        self.sin()
    }

    open spec fn spec_simd_cos(self) -> T {
        self.spec_cos()
    }

    fn simd_cos(self) -> (r: T) {
        self.cos()
    }

    fn simd_sin_cos(self) -> (r: (T, T)) {
        self.sin_cos()
    }

    open spec fn spec_simd_tan(self) -> T {
        self.spec_tan()
    }

    fn simd_tan(self) -> (r: T) {
        self.tan()
    }

    open spec fn spec_simd_asin(self) -> T {
        self.spec_asin()
    }

    fn simd_asin(self) -> (r: T) {
        self.asin()
    }

    open spec fn spec_simd_acos(self) -> T {
        self.spec_acos()
    }

    fn simd_acos(self) -> (r: T) {
        self.acos()
    }

    open spec fn spec_simd_atan(self) -> T {
        self.spec_atan()
    }

    fn simd_atan(self) -> (r: T) {
        self.atan()
    }

    open spec fn spec_simd_sinh(self) -> T {
        self.spec_sinh()
    }

    fn simd_sinh(self) -> (r: T) {
        self.sinh()
    }

    open spec fn spec_simd_cosh(self) -> T {
        self.spec_cosh()
    }

    fn simd_cosh(self) -> (r: T) {
        self.cosh()
    }

    open spec fn spec_simd_tanh(self) -> T {
        self.spec_tanh()
    }

    fn simd_tanh(self) -> (r: T) {
        self.tanh()
    }

    open spec fn spec_simd_asinh(self) -> T {
        self.spec_asinh()
    }

    fn simd_asinh(self) -> (r: T) {
        self.asinh()
    }

    open spec fn spec_simd_acosh(self) -> T {
        self.spec_acosh()
    }

    fn simd_acosh(self) -> (r: T) {
        self.acosh()
    }

    open spec fn spec_simd_atanh(self) -> T {
        self.spec_atanh()
    }

    fn simd_atanh(self) -> (r: T) {
        self.atanh()
    }

    open spec fn spec_simd_log(self, base: T::RealField) -> T {
        self.spec_log(base)
    }

    fn simd_log(self, base: T::RealField) -> (r: T) {
        self.log(base)
    }

    open spec fn spec_simd_log2(self) -> T {
        self.spec_log2()
    }

    fn simd_log2(self) -> (r: T) {
        self.log2()
    }

    open spec fn spec_simd_log10(self) -> T {
        self.spec_log10()
    }

    fn simd_log10(self) -> (r: T) {
        self.log10()
    }

    open spec fn spec_simd_ln(self) -> T {
        self.spec_ln()
    }

    fn simd_ln(self) -> (r: T) {
        self.ln()
    }

    open spec fn spec_simd_ln_1p(self) -> T {
        self.spec_ln_1p()
    }

    fn simd_ln_1p(self) -> (r: T) {
        self.ln_1p()
    }

    open spec fn spec_simd_sqrt(self) -> T {
        self.spec_sqrt()
    }

    fn simd_sqrt(self) -> (r: T) {
        self.sqrt()
    }

    open spec fn spec_simd_exp(self) -> T {
        self.spec_exp()
    }

    fn simd_exp(self) -> (r: T) {
        self.exp()
    }

    open spec fn spec_simd_exp2(self) -> T {
        self.spec_exp2()
    }

    fn simd_exp2(self) -> (r: T) {
        self.exp2()
    }

    open spec fn spec_simd_exp_m1(self) -> T {
        self.spec_exp_m1()
    }

    fn simd_exp_m1(self) -> (r: T) {
        self.exp_m1()
    }

    open spec fn spec_simd_powi(self, n: i32) -> T {
        self.spec_powi(n)
    }

    fn simd_powi(self, n: i32) -> (r: T) {
        self.powi(n)
    }

    open spec fn spec_simd_powf(self, n: T::RealField) -> T {
        self.spec_powf(n)
    }

    fn simd_powf(self, n: T::RealField) -> (r: T) {
        self.powf(n)
    }

    open spec fn spec_simd_powc(self, n: T) -> T {
        self.spec_powc(n)
    }

    fn simd_powc(self, n: T) -> (r: T) {
        self.powc(n)
    }

    open spec fn spec_simd_cbrt(self) -> T {
        self.spec_cbrt()
    }

    fn simd_cbrt(self) -> (r: T) {
        self.cbrt()
    }

    fn simd_to_polar(self) -> (r: (T::RealField, T::RealField)) {
        self.to_polar()
    }

    fn simd_signum(self) -> (r: T) {
        self.signum()
    }

    fn simd_abs(self) -> (r: T::RealField) {
        self.abs()
    }

    fn simd_sinh_cosh(self) -> (r: (T, T)) {
        self.sinh_cosh()
    }

    fn simd_sinc(self) -> (r: T) {
        self.sinc()
    }

    fn simd_sinhc(self) -> (r: T) {
        self.sinhc()
    }

    fn simd_cosc(self) -> (r: T) {
        self.cosc()
    }

    fn simd_coshc(self) -> (r: T) {
        self.coshc()
    }
}

} // verus!
