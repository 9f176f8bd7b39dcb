//! The primitive operations of a real scalar.

use vstd::prelude::*;
use crate::field::Field;

verus! {

/// A real scalar: a [`Field`] with an order, the constant pi, the integers
/// and the elementary functions.
///
/// This is the layer that a concrete number type supplies. For each
/// primitive there is a specification function that names its result and an
/// executable function that returns it; an implementation promises that the
/// two agree, that is, that each primitive is a function of its arguments
/// alone. No identity between the primitives is assumed.
///
/// The primitives are associated functions and not methods, so that method
/// syntax on a real scalar always means the shared interface of real and
/// complex scalars.
pub trait RealField: Field {
    /// Whether `x >= y` in the scalar's order.
    spec fn spec_ge(x: Self, y: Self) -> bool;

    fn ge(x: Self, y: Self) -> (b: bool)
        ensures
            b == Self::spec_ge(x, y),
    ;

    /// The constant pi.
    spec fn spec_pi() -> Self;

    fn pi() -> (r: Self)
        ensures
            r == Self::spec_pi(),
    ;

    /// The scalar that stands for the integer `n`.
    spec fn spec_from_i32(n: i32) -> Self;

    fn from_i32(n: i32) -> (r: Self)
        ensures
            r == Self::spec_from_i32(n),
    ;

    /// Whether `x` is neither infinite nor undefined.
    spec fn spec_is_finite(x: Self) -> bool;

    fn is_finite(x: Self) -> (b: bool)
        ensures
            b == Self::spec_is_finite(x),
    ;

    /// `x` raised to the integer power `n`.
    spec fn spec_powi(x: Self, n: i32) -> Self;

    fn powi(x: Self, n: i32) -> (r: Self)
        ensures
            r == Self::spec_powi(x, n),
    ;

    /// `x * a + b`, rounded once where the arithmetic rounds.
    spec fn spec_mul_add(x: Self, a: Self, b: Self) -> Self;

    fn mul_add(x: Self, a: Self, b: Self) -> (r: Self)
        ensures
            r == Self::spec_mul_add(x, a, b),
    ;

    /// The angle of the point `(x, y)` from the positive real axis, in `(-pi, pi]`.
    spec fn spec_atan2(y: Self, x: Self) -> Self;

    fn atan2(y: Self, x: Self) -> (r: Self)
        ensures
            r == Self::spec_atan2(y, x),
    ;

    /// The length of the hypotenuse with legs `x` and `y`.
    spec fn spec_hypot(x: Self, y: Self) -> Self;

    fn hypot(x: Self, y: Self) -> (r: Self)
        ensures
            r == Self::spec_hypot(x, y),
    ;

    /// `x` raised to the real power `y`.
    spec fn spec_powf(x: Self, y: Self) -> Self;

    fn powf(x: Self, y: Self) -> (r: Self)
        ensures
            r == Self::spec_powf(x, y),
    ;

    /// The logarithm of `x` to the given base.
    spec fn spec_log(x: Self, base: Self) -> Self;

    fn log(x: Self, base: Self) -> (r: Self)
        ensures
            r == Self::spec_log(x, base),
    ;

    /// The absolute value of `x`.
    spec fn spec_abs(x: Self) -> Self;

    fn abs(x: Self) -> (r: Self)
        ensures
            r == Self::spec_abs(x),
    ;

    /// The largest integer that is not above `x`.
    spec fn spec_floor(x: Self) -> Self;

    fn floor(x: Self) -> (r: Self)
        ensures
            r == Self::spec_floor(x),
    ;

    /// The smallest integer that is not below `x`.
    spec fn spec_ceil(x: Self) -> Self;

    fn ceil(x: Self) -> (r: Self)
        ensures
            r == Self::spec_ceil(x),
    ;

    /// The integer nearest to `x`, halves going away from zero.
    spec fn spec_round(x: Self) -> Self;

    fn round(x: Self) -> (r: Self)
        ensures
            r == Self::spec_round(x),
    ;

    /// The integer part of `x`.
    spec fn spec_trunc(x: Self) -> Self;

    fn trunc(x: Self) -> (r: Self)
        ensures
            r == Self::spec_trunc(x),
    ;

    /// The fractional part of `x`.
    spec fn spec_fract(x: Self) -> Self;

    fn fract(x: Self) -> (r: Self)
        ensures
            r == Self::spec_fract(x),
    ;

    /// The square root of `x`.
    spec fn spec_sqrt(x: Self) -> Self;

    fn sqrt(x: Self) -> (r: Self)
        ensures
            r == Self::spec_sqrt(x),
    ;

    /// The cube root of `x`.
    spec fn spec_cbrt(x: Self) -> Self;

    fn cbrt(x: Self) -> (r: Self)
        ensures
            r == Self::spec_cbrt(x),
    ;

    /// `e` raised to `x`.
    spec fn spec_exp(x: Self) -> Self;

    fn exp(x: Self) -> (r: Self)
        ensures
            r == Self::spec_exp(x),
    ;

    /// Two raised to `x`.
    spec fn spec_exp2(x: Self) -> Self;

    fn exp2(x: Self) -> (r: Self)
        ensures
            r == Self::spec_exp2(x),
    ;

    /// `e^x - 1`, computed so that it stays accurate near zero.
    spec fn spec_exp_m1(x: Self) -> Self;

    fn exp_m1(x: Self) -> (r: Self)
        ensures
            r == Self::spec_exp_m1(x),
    ;

    /// The natural logarithm of `x`.
    spec fn spec_ln(x: Self) -> Self;

    fn ln(x: Self) -> (r: Self)
        ensures
            r == Self::spec_ln(x),
    ;

    /// `ln(1 + x)`, computed so that it stays accurate near zero.
    spec fn spec_ln_1p(x: Self) -> Self;

    fn ln_1p(x: Self) -> (r: Self)
        ensures
            r == Self::spec_ln_1p(x),
    ;

    /// The logarithm of `x` to base two.
    spec fn spec_log2(x: Self) -> Self;

    fn log2(x: Self) -> (r: Self)
        ensures
            r == Self::spec_log2(x),
    ;

    /// The logarithm of `x` to base ten.
    spec fn spec_log10(x: Self) -> Self;

    fn log10(x: Self) -> (r: Self)
        ensures
            r == Self::spec_log10(x),
    ;

    /// The sine of `x`.
    spec fn spec_sin(x: Self) -> Self;

    fn sin(x: Self) -> (r: Self)
        ensures
            r == Self::spec_sin(x),
    ;

    /// The cosine of `x`.
    spec fn spec_cos(x: Self) -> Self;

    fn cos(x: Self) -> (r: Self)
        ensures
            r == Self::spec_cos(x),
    ;

    /// The sine and the cosine of `x`, in this order.
    fn sin_cos(x: Self) -> (r: (Self, Self))
        ensures
            r == (Self::spec_sin(x), Self::spec_cos(x)),
    ;

    /// The tangent of `x`.
    spec fn spec_tan(x: Self) -> Self;

    fn tan(x: Self) -> (r: Self)
        ensures
            r == Self::spec_tan(x),
    ;

    /// The inverse sine of `x`.
    spec fn spec_asin(x: Self) -> Self;

    fn asin(x: Self) -> (r: Self)
        ensures
            r == Self::spec_asin(x),
    ;

    /// The inverse cosine of `x`.
    spec fn spec_acos(x: Self) -> Self;

    fn acos(x: Self) -> (r: Self)
        ensures
            r == Self::spec_acos(x),
    ;

    /// The inverse tangent of `x`.
    spec fn spec_atan(x: Self) -> Self;

    fn atan(x: Self) -> (r: Self)
        ensures
            r == Self::spec_atan(x),
    ;

    /// The hyperbolic sine of `x`.
    spec fn spec_sinh(x: Self) -> Self;

    fn sinh(x: Self) -> (r: Self)
        ensures
            r == Self::spec_sinh(x),
    ;

    /// The hyperbolic cosine of `x`.
    spec fn spec_cosh(x: Self) -> Self;

    fn cosh(x: Self) -> (r: Self)
        ensures
            r == Self::spec_cosh(x),
    ;

    /// The hyperbolic tangent of `x`.
    spec fn spec_tanh(x: Self) -> Self;

    fn tanh(x: Self) -> (r: Self)
        ensures
            r == Self::spec_tanh(x),
    ;

    /// The inverse hyperbolic sine of `x`.
    spec fn spec_asinh(x: Self) -> Self;

    fn asinh(x: Self) -> (r: Self)
        ensures
            r == Self::spec_asinh(x),
    ;

    /// The inverse hyperbolic cosine of `x`.
    spec fn spec_acosh(x: Self) -> Self;

    fn acosh(x: Self) -> (r: Self)
        ensures
            r == Self::spec_acosh(x),
    ;

    /// The inverse hyperbolic tangent of `x`.
    spec fn spec_atanh(x: Self) -> Self;

    fn atanh(x: Self) -> (r: Self)
        ensures
            r == Self::spec_atanh(x),
    ;
}

} // verus!
