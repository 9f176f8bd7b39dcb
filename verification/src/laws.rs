//! What holds between the operations, for every real scalar.

use vstd::prelude::*;
use crate::field::Field;
use crate::real_field::RealField;
use crate::complex_field::ComplexField;
use crate::complex::{Complex, spec_complex_from_polar};
use crate::simd::SimdComplexField;

verus! {

/// A real scalar lies on the real axis: it is its own real part, it has no
/// imaginary part, and its argument is zero or pi.
pub proof fn lemma_real_scalar_is_on_real_axis<N: RealField>(x: N)
    ensures
        x.spec_real_part() == x,
        x.spec_imaginary() == N::spec_zero(),
        x.spec_argument() == N::spec_zero() || x.spec_argument() == N::spec_pi(),
        x.spec_conjugate() == x,
{
}

/// A real scalar taken as a complex number keeps its real part and gets the
/// imaginary part zero, and the complex number's real part taken as a real
/// scalar is that real part again.
pub proof fn lemma_from_real_keeps_real_part<N: RealField>(x: N)
    ensures
        Complex::<N>::spec_from_real(x).spec_real_part() == x,
        Complex::<N>::spec_from_real(x).spec_imaginary() == N::spec_zero(),
        Complex::<N>::spec_from_real(x).spec_real_part() == N::spec_from_real(x).spec_real_part(),
        Complex::<N>::spec_from_real(x).spec_imaginary() == N::spec_from_real(x).spec_imaginary(),
{
}

/// Taking a complex number to its polar form and back multiplies the modulus
/// with the cosine and the sine of the argument. This gives the number back
/// exactly where the real scalar's `hypot(a, b) cos(atan2(b, a))` is `a` and
/// its `hypot(a, b) sin(atan2(b, a))` is `b`.
pub proof fn lemma_polar_round_trip<N: RealField>(z: Complex<N>)
    ensures
        spec_complex_from_polar(z.spec_modulus(), z.spec_argument()) == (Complex {
            re: N::spec_hypot(z.re, z.im).spec_mul(N::spec_cos(N::spec_atan2(z.im, z.re))),
            im: N::spec_hypot(z.re, z.im).spec_mul(N::spec_sin(N::spec_atan2(z.im, z.re))),
        }),
        N::spec_hypot(z.re, z.im).spec_mul(N::spec_cos(N::spec_atan2(z.im, z.re))) == z.re
            && N::spec_hypot(z.re, z.im).spec_mul(N::spec_sin(N::spec_atan2(z.im, z.re))) == z.im
            ==> spec_complex_from_polar(z.spec_modulus(), z.spec_argument()) == z,
{
}

/// On the real axis the complex exponential is the real exponential, taken
/// to the polar form with argument zero: its parts are `exp(x) cos(0)` and
/// `exp(x) sin(0)`.
pub proof fn lemma_exp_on_real_axis<N: RealField>(x: N)
    ensures
        Complex::<N>::spec_from_real(x).spec_exp() == spec_complex_from_polar(
            x.spec_exp(),
            N::spec_zero(),
        ),
{
}

/// The exponential of the logarithm of `z` is the number with the argument
/// of `z` and the modulus `exp(ln |z|)`: it gives `z` back as far as the
/// real exponential undoes the real logarithm and the polar form gives `z`
/// back.
pub proof fn lemma_exp_of_ln<N: RealField>(z: Complex<N>)
    ensures
        z.spec_ln().spec_exp() == spec_complex_from_polar(
            z.spec_modulus().spec_ln().spec_exp(),
            z.spec_argument(),
        ),
        z.spec_modulus().spec_ln().spec_exp() == z.spec_modulus() ==> z.spec_ln().spec_exp()
            == spec_complex_from_polar(z.spec_modulus(), z.spec_argument()),
{
}

/// Every complex number has a square root; a real scalar has one where it is
/// not below zero, and only there.
pub proof fn lemma_try_sqrt_is_total_on_complex_numbers<N: RealField>(z: Complex<N>, x: N)
    ensures
        z.spec_try_sqrt() == Some(z.spec_sqrt()),
        x.spec_try_sqrt().is_some() <==> N::spec_ge(x, N::spec_zero()),
{
}

/// The modulus part of the exponential form is the modulus, or zero where
/// the modulus counts as zero; the direction of a number of modulus zero is
/// one.
pub proof fn lemma_exp_form_of_complex<N: RealField>(z: Complex<N>)
    ensures
        z.spec_modulus().spec_is_zero() ==> z.spec_to_exp() == (
            N::spec_zero(),
            Complex::<N>::spec_one(),
        ),
        !z.spec_modulus().spec_is_zero() ==> z.spec_to_exp() == (
            z.spec_modulus(),
            z.spec_unscale(z.spec_modulus()),
        ),
{
}

/// A scalar as a batch of one lane: the batch is zero where the scalar is,
/// and each operation on the batch is the operation on the scalar.
pub proof fn lemma_single_lane<T: ComplexField>(z: T)
    ensures
        z.spec_is_simd_zero() == z.spec_is_zero(),
        T::spec_simd_zero() == T::spec_zero(),
        T::spec_simd_one() == T::spec_one(),
        z.spec_simd_modulus() == z.spec_modulus(),
        z.spec_simd_argument() == z.spec_argument(),
        z.spec_simd_exp() == z.spec_exp(),
        z.spec_simd_ln() == z.spec_ln(),
        z.spec_simd_sqrt() == z.spec_sqrt(),
        z.spec_simd_to_exp() == z.spec_to_exp(),
{
}

} // verus!
