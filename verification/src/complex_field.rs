//! The interface shared by real and complex scalars.

use vstd::prelude::*;
use crate::field::Field;
use crate::real_field::RealField;

verus! {

/// The operations that real and complex scalars have in common.
///
/// Every operation has a specification function, which an implementation
/// defines, and an executable function that returns exactly what the
/// specification function names. The derived operations (`to_polar`,
/// `signum`, `abs`, `sinh_cosh` and the cardinal functions) are stated and
/// implemented here once, in terms of the others.
pub trait ComplexField: Field {
    /// The real scalars that the parts, the modulus and the argument are
    /// taken from.
    type RealField: RealField;

    /// The scalar with the given real part and no imaginary part.
    spec fn spec_from_real(re: Self::RealField) -> Self;

    fn from_real(re: Self::RealField) -> (r: Self)
        ensures
            r == Self::spec_from_real(re),
    ;

    /// The real part.
    spec fn spec_real_part(self) -> Self::RealField;

    fn real_part(self) -> (r: Self::RealField)
        ensures
            r == self.spec_real_part(),
    ;

    /// The exponential form: the modulus, and the unit scalar that gives the
    /// direction.
    spec fn spec_to_exp(self) -> (Self::RealField, Self);

    fn to_exp(self) -> (r: (Self::RealField, Self))
        ensures
            r == self.spec_to_exp(),
    ;

    /// Whether no part of `self` is infinite or undefined.
    spec fn spec_is_finite(self) -> bool;

    fn is_finite(&self) -> (b: bool)
        ensures
            b == self.spec_is_finite(),
    ;

    /// The square root where the scalars are closed under it, `None` where
    /// only a larger set of scalars holds it.
    spec fn spec_try_sqrt(self) -> Option<Self>;

    fn try_sqrt(self) -> (r: Option<Self>)
        ensures
            r == self.spec_try_sqrt(),
    ;

    /// The imaginary part.
    spec fn spec_imaginary(self) -> Self::RealField;

    fn imaginary(self) -> (r: Self::RealField)
        ensures
            r == self.spec_imaginary(),
    ;

    /// The modulus `|self|`.
    spec fn spec_modulus(self) -> Self::RealField;

    fn modulus(self) -> (r: Self::RealField)
        ensures
            r == self.spec_modulus(),
    ;

    /// The square of the modulus.
    spec fn spec_modulus_squared(self) -> Self::RealField;

    fn modulus_squared(self) -> (r: Self::RealField)
        ensures
            r == self.spec_modulus_squared(),
    ;

    /// The argument: the angle from the positive real axis, in `(-pi, pi]`.
    spec fn spec_argument(self) -> Self::RealField;

    fn argument(self) -> (r: Self::RealField)
        ensures
            r == self.spec_argument(),
    ;

    /// The sum of the absolute values of the real and the imaginary part.
    spec fn spec_norm1(self) -> Self::RealField;

    fn norm1(self) -> (r: Self::RealField)
        ensures
            r == self.spec_norm1(),
    ;

    /// `self` multiplied by the real `factor`.
    spec fn spec_scale(self, factor: Self::RealField) -> Self;

    fn scale(self, factor: Self::RealField) -> (r: Self)
        ensures
            r == self.spec_scale(factor),
    ;

    /// `self` divided by the real `factor`.
    spec fn spec_unscale(self, factor: Self::RealField) -> Self;

    fn unscale(self, factor: Self::RealField) -> (r: Self)
        ensures
            r == self.spec_unscale(factor),
    ;

    /// The floor of each part.
    spec fn spec_floor(self) -> Self;

    fn floor(self) -> (r: Self)
        ensures
            r == self.spec_floor(),
    ;

    /// The ceiling of each part.
    spec fn spec_ceil(self) -> Self;

    fn ceil(self) -> (r: Self)
        ensures
            r == self.spec_ceil(),
    ;

    /// Each part rounded to the nearest integer.
    spec fn spec_round(self) -> Self;

    fn round(self) -> (r: Self)
        ensures
            r == self.spec_round(),
    ;

    /// The integer part of each part.
    spec fn spec_trunc(self) -> Self;

    fn trunc(self) -> (r: Self)
        ensures
            r == self.spec_trunc(),
    ;

    /// The fractional part of each part.
    spec fn spec_fract(self) -> Self;

    fn fract(self) -> (r: Self)
        ensures
            r == self.spec_fract(),
    ;

    /// `self * a + b`.
    spec fn spec_mul_add(self, a: Self, b: Self) -> Self;

    fn mul_add(self, a: Self, b: Self) -> (r: Self)
        ensures
            r == self.spec_mul_add(a, b),
    ;

    /// The square root of `|self|^2 + |other|^2`.
    spec fn spec_hypot(self, other: Self) -> Self::RealField;

    fn hypot(self, other: Self) -> (r: Self::RealField)
        ensures
            r == self.spec_hypot(other),
    ;

    /// `1 / self`.
    spec fn spec_recip(self) -> Self;

    fn recip(self) -> (r: Self)
        ensures
            r == self.spec_recip(),
    ;

    /// The complex conjugate.
    spec fn spec_conjugate(self) -> Self;

    fn conjugate(self) -> (r: Self)
        ensures
            r == self.spec_conjugate(),
    ;

    /// The sine.
    spec fn spec_sin(self) -> Self;

    fn sin(self) -> (r: Self)
        ensures
            r == self.spec_sin(),
    ;

    /// The cosine.
    spec fn spec_cos(self) -> Self;

    fn cos(self) -> (r: Self)
        ensures
            r == self.spec_cos(),
    ;

    /// The sine and the cosine, in this order.
    fn sin_cos(self) -> (r: (Self, Self))
        ensures
            r == (self.spec_sin(), self.spec_cos()),
    ;

    /// The tangent.
    spec fn spec_tan(self) -> Self;

    fn tan(self) -> (r: Self)
        ensures
            r == self.spec_tan(),
    ;

    /// The principal value of the inverse sine.
    spec fn spec_asin(self) -> Self;

    fn asin(self) -> (r: Self)
        ensures
            r == self.spec_asin(),
    ;

    /// The principal value of the inverse cosine.
    spec fn spec_acos(self) -> Self;

    fn acos(self) -> (r: Self)
        ensures
            r == self.spec_acos(),
    ;

    /// The principal value of the inverse tangent.
    spec fn spec_atan(self) -> Self;

    fn atan(self) -> (r: Self)
        ensures
            r == self.spec_atan(),
    ;

    /// The hyperbolic sine.
    spec fn spec_sinh(self) -> Self;

    fn sinh(self) -> (r: Self)
        ensures
            r == self.spec_sinh(),
    ;

    /// The hyperbolic cosine.
    spec fn spec_cosh(self) -> Self;

    fn cosh(self) -> (r: Self)
        ensures
            r == self.spec_cosh(),
    ;

    /// The hyperbolic tangent.
    spec fn spec_tanh(self) -> Self;

    fn tanh(self) -> (r: Self)
        ensures
            r == self.spec_tanh(),
    ;

    /// The principal value of the inverse hyperbolic sine.
    spec fn spec_asinh(self) -> Self;

    fn asinh(self) -> (r: Self)
        ensures
            r == self.spec_asinh(),
    ;

    /// The principal value of the inverse hyperbolic cosine.
    spec fn spec_acosh(self) -> Self;

    fn acosh(self) -> (r: Self)
        ensures
            r == self.spec_acosh(),
    ;

    /// The principal value of the inverse hyperbolic tangent.
    spec fn spec_atanh(self) -> Self;

    fn atanh(self) -> (r: Self)
        ensures
            r == self.spec_atanh(),
    ;

    /// The principal value of the logarithm to a real base.
    spec fn spec_log(self, base: Self::RealField) -> Self;

    fn log(self, base: Self::RealField) -> (r: Self)
        ensures
            r == self.spec_log(base),
    ;

    /// The principal value of the logarithm to base two.
    spec fn spec_log2(self) -> Self;

    fn log2(self) -> (r: Self)
        ensures
            r == self.spec_log2(),
    ;

    /// The principal value of the logarithm to base ten.
    spec fn spec_log10(self) -> Self;

    fn log10(self) -> (r: Self)
        ensures
            r == self.spec_log10(),
    ;

    /// The principal value of the natural logarithm.
    spec fn spec_ln(self) -> Self;

    fn ln(self) -> (r: Self)
        ensures
            r == self.spec_ln(),
    ;

    /// The principal value of `ln(1 + self)`.
    spec fn spec_ln_1p(self) -> Self;

    fn ln_1p(self) -> (r: Self)
        ensures
            r == self.spec_ln_1p(),
    ;

    /// The principal value of the square root.
    spec fn spec_sqrt(self) -> Self;

    fn sqrt(self) -> (r: Self)
        ensures
            r == self.spec_sqrt(),
    ;

    /// `e` raised to `self`.
    spec fn spec_exp(self) -> Self;

    fn exp(self) -> (r: Self)
        ensures
            r == self.spec_exp(),
    ;

    /// Two raised to `self`.
    spec fn spec_exp2(self) -> Self;

    fn exp2(self) -> (r: Self)
        ensures
            r == self.spec_exp2(),
    ;

    /// `e^self - 1`.
    spec fn spec_exp_m1(self) -> Self;

    fn exp_m1(self) -> (r: Self)
        ensures
            r == self.spec_exp_m1(),
    ;

    /// `self` raised to the integer power `n`.
    spec fn spec_powi(self, n: i32) -> Self;

    fn powi(self, n: i32) -> (r: Self)
        ensures
            r == self.spec_powi(n),
    ;

    /// `self` raised to the real power `n`.
    spec fn spec_powf(self, n: Self::RealField) -> Self;

    fn powf(self, n: Self::RealField) -> (r: Self)
        ensures
            r == self.spec_powf(n),
    ;

    /// `self` raised to the power `n`.
    spec fn spec_powc(self, n: Self) -> Self;

    fn powc(self, n: Self) -> (r: Self)
        ensures
            r == self.spec_powc(n),
    ;

    /// The principal value of the cube root.
    spec fn spec_cbrt(self) -> Self;

    fn cbrt(self) -> (r: Self)
        ensures
            r == self.spec_cbrt(),
    ;

    /// The polar form: the modulus and the argument.
    fn to_polar(self) -> (r: (Self::RealField, Self::RealField))
        ensures
            r == (self.spec_modulus(), self.spec_argument()),
    {
        (self.modulus(), self.argument())
    }

    /// The direction of `self`: the unit scalar of its exponential form.
    fn signum(self) -> (r: Self)
        ensures
            r == self.spec_to_exp().1,
    {
        self.to_exp().1
    }

    /// The absolute value, which is the modulus.
    fn abs(self) -> (r: Self::RealField)
        ensures
            r == self.spec_modulus(),
    {
        self.modulus()
    }

    /// The hyperbolic sine and the hyperbolic cosine, in this order.
    fn sinh_cosh(self) -> (r: (Self, Self))
        ensures
            r == (self.spec_sinh(), self.spec_cosh()),
    {
        (self.sinh(), self.cosh())
    }

    /// The cardinal sine: one at zero, `sin(self) / self` elsewhere.
    fn sinc(self) -> (r: Self)
        ensures
            r == (if self.spec_is_zero() {
                Self::spec_one()
            } else {
                self.spec_sin().spec_div(self)
            }),
            self.spec_is_zero() ==> r == Self::spec_one(),
    {
        if self.is_zero() {
            Self::one()
        } else {
            self.sin().div(self)
        }
    }

    /// The cardinal hyperbolic sine: one at zero, `sinh(self) / self`
    /// elsewhere.
    fn sinhc(self) -> (r: Self)
        ensures
            r == (if self.spec_is_zero() {
                Self::spec_one()
            } else {
                self.spec_sinh().spec_div(self)
            }),
            self.spec_is_zero() ==> r == Self::spec_one(),
    {
        if self.is_zero() {
            Self::one()
        } else {
            self.sinh().div(self)
        }
    }

    /// The cardinal cosine: one at zero, `cos(self) / self` elsewhere.
    fn cosc(self) -> (r: Self)
        ensures
            r == (if self.spec_is_zero() {
                Self::spec_one()
            } else {
                self.spec_cos().spec_div(self)
            }),
            self.spec_is_zero() ==> r == Self::spec_one(),
    {
        if self.is_zero() {
            Self::one()
        } else {
            self.cos().div(self)
        }
    }

    /// The cardinal hyperbolic cosine: one at zero, `cosh(self) / self`
    /// elsewhere.
    fn coshc(self) -> (r: Self)
        ensures
            r == (if self.spec_is_zero() {
                Self::spec_one()
            } else {
                self.spec_cosh().spec_div(self)
            }),
            self.spec_is_zero() ==> r == Self::spec_one(),
    {
        if self.is_zero() {
            Self::one()
        } else {
            self.cosh().div(self)
        }
    }
}

} // verus!
