//! The elementary functions of complex numbers.
//!
//! Each function is computed from the real and the imaginary part through
//! the operations of the real scalar, by the identity that its
//! specification function states; the executable function below each
//! specification function returns exactly that value.
//!
//! The identity fixes the principal branch. The logarithm, the roots and
//! the powers go through the polar form, so they cut the plane along the
//! negative real axis, where the argument jumps from pi to -pi. The inverse
//! functions are logarithms of square roots and inherit their cuts. The
//! inverse tangents have poles, where a part of the result is one divided
//! by zero, with the sign of the pole.

use vstd::prelude::*;
use crate::field::Field;
use crate::real_field::RealField;
use crate::complex_field::ComplexField;
use crate::complex::{Complex, complex_from_polar, spec_complex_from_polar};

verus! {

/// The real scalar two, built as `1 + 1`.
pub open spec fn spec_real_two<N: RealField>() -> N {
    N::spec_one().spec_add(N::spec_one())
}

/// The real scalar one third, built as `1 / 3`.
pub open spec fn spec_real_third<N: RealField>() -> N {
    N::spec_one().spec_div(N::spec_from_i32(3))
}

impl<N: RealField> ComplexField for Complex<N> {
    type RealField = N;

    open spec fn spec_from_real(re: N) -> Self {
        Complex { re, im: N::spec_zero() }
    }

    fn from_real(re: N) -> (r: Self) {
        Complex { re, im: N::zero() }
    }

    open spec fn spec_real_part(self) -> N {
        self.re
    }

    fn real_part(self) -> (r: N) {
        self.re
    }

    open spec fn spec_imaginary(self) -> N {
        self.im
    }

    fn imaginary(self) -> (r: N) {
        self.im
    }

    /// `atan2(im, re)`.
    open spec fn spec_argument(self) -> N {
        N::spec_atan2(self.im, self.re)
    }

    fn argument(self) -> (r: N) {
        N::atan2(self.im, self.re)
    }

    /// `hypot(re, im)`.
    open spec fn spec_modulus(self) -> N {
        self.re.spec_hypot(self.im)
    }

    fn modulus(self) -> (r: N) {
        self.re.hypot(self.im)
    }

    /// `re^2 + im^2`.
    open spec fn spec_modulus_squared(self) -> N {
        self.spec_norm_sqr()
    }

    fn modulus_squared(self) -> (r: N) {
        self.re.mul(self.re).add(self.im.mul(self.im))
    }

    /// `|re| + |im|`.
    open spec fn spec_norm1(self) -> N {
        N::spec_abs(self.re).spec_add(N::spec_abs(self.im))
    }

    fn norm1(self) -> (r: N) {
        self.re.abs().add(self.im.abs())
    }

    /// The modulus and the number divided by it; zero and one where the
    /// modulus is zero.
    open spec fn spec_to_exp(self) -> (N, Self) {
        let m = self.spec_modulus();
        if m.spec_is_zero() {
            (N::spec_zero(), Self::spec_one())
        } else {
            (m, self.spec_unscale(m))
        }
    }

    fn to_exp(self) -> (r: (N, Self)) {
        let m = self.modulus();
        if !m.is_zero() {
            (m, self.unscale(m))
        } else {
            (N::zero(), Self::one())
        }
    }

    /// The quotient of one by `self`.
    open spec fn spec_recip(self) -> Self {
        Self::spec_one().spec_div(self)
    }

    fn recip(self) -> (r: Self) {
        Self::one().div(self)
    }

    /// `re - im i`.
    open spec fn spec_conjugate(self) -> Self {
        Complex { re: self.re, im: self.im.spec_neg() }
    }

    fn conjugate(self) -> (r: Self) {
        Complex { re: self.re, im: self.im.neg() }
    }

    open spec fn spec_scale(self, factor: N) -> Self {
        Complex { re: self.re.spec_mul(factor), im: self.im.spec_mul(factor) }
    }

    fn scale(self, factor: N) -> (r: Self) {
        Complex { re: self.re.mul(factor), im: self.im.mul(factor) }
    }

    open spec fn spec_unscale(self, factor: N) -> Self {
        Complex { re: self.re.spec_div(factor), im: self.im.spec_div(factor) }
    }

    fn unscale(self, factor: N) -> (r: Self) {
        Complex { re: self.re.div(factor), im: self.im.div(factor) }
    }

    open spec fn spec_floor(self) -> Self {
        Complex { re: self.re.spec_floor(), im: self.im.spec_floor() }
    }

    fn floor(self) -> (r: Self) {
        Complex { re: self.re.floor(), im: self.im.floor() }
    }

    open spec fn spec_ceil(self) -> Self {
        Complex { re: self.re.spec_ceil(), im: self.im.spec_ceil() }
    }

    fn ceil(self) -> (r: Self) {
        Complex { re: self.re.ceil(), im: self.im.ceil() }
    }

    open spec fn spec_round(self) -> Self {
        Complex { re: self.re.spec_round(), im: self.im.spec_round() }
    }

    fn round(self) -> (r: Self) {
        Complex { re: self.re.round(), im: self.im.round() }
    }

    open spec fn spec_trunc(self) -> Self {
        Complex { re: self.re.spec_trunc(), im: self.im.spec_trunc() }
    }

    fn trunc(self) -> (r: Self) {
        Complex { re: self.re.trunc(), im: self.im.trunc() }
    }

    open spec fn spec_fract(self) -> Self {
        Complex { re: self.re.spec_fract(), im: self.im.spec_fract() }
    }

    fn fract(self) -> (r: Self) {
        Complex { re: self.re.fract(), im: self.im.fract() }
    }

    /// The complex product `self * a`, then the sum with `b`: two
    /// operations, each with its own rounding.
    open spec fn spec_mul_add(self, a: Self, b: Self) -> Self {
        self.spec_mul(a).spec_add(b)
    }

    fn mul_add(self, a: Self, b: Self) -> (r: Self) {
        self.mul(a).add(b)
    }

    /// `sqrt(|self|^2 + |other|^2)`.
    open spec fn spec_hypot(self, other: Self) -> N {
        self.spec_modulus_squared().spec_add(other.spec_modulus_squared()).spec_sqrt()
    }

    fn hypot(self, other: Self) -> (r: N) {
        self.modulus_squared().add(other.modulus_squared()).sqrt()
    }

    /// `2^self`: the complex power of the real number two.
    open spec fn spec_exp2(self) -> Self {
        Complex { re: spec_real_two::<N>(), im: N::spec_zero() }.spec_powc(self)
    }

    fn exp2(self) -> (r: Self) {
        let two = N::one().add(N::one());
        Complex { re: two, im: N::zero() }.powc(self)
    }

    /// `exp(self) - 1`.
    open spec fn spec_exp_m1(self) -> Self {
        self.spec_exp().spec_sub(Self::spec_one())
    }

    fn exp_m1(self) -> (r: Self) {
        self.exp().sub(Self::one())
    }

    /// `ln(1 + self)`.
    open spec fn spec_ln_1p(self) -> Self {
        Self::spec_one().spec_add(self).spec_ln()
    }

    fn ln_1p(self) -> (r: Self) {
        Self::one().add(self).ln()
    }

    open spec fn spec_log2(self) -> Self {
        self.spec_log(spec_real_two::<N>())
    }

    fn log2(self) -> (r: Self) {
        let two = N::one().add(N::one());
        self.log(two)
    }

    open spec fn spec_log10(self) -> Self {
        self.spec_log(N::spec_from_i32(10))
    }

    fn log10(self) -> (r: Self) {
        let ten = N::from_i32(10);
        self.log(ten)
    }

    /// The power with exponent one third.
    open spec fn spec_cbrt(self) -> Self {
        self.spec_powf(spec_real_third::<N>())
    }

    fn cbrt(self) -> (r: Self) {
        let one_third = N::one().div(N::from_i32(3));
        self.powf(one_third)
    }

    /// The power with the real exponent that stands for `n`.
    open spec fn spec_powi(self, n: i32) -> Self {
        self.spec_powf(N::spec_from_i32(n))
    }

    fn powi(self, n: i32) -> (r: Self) {
        let n = N::from_i32(n);
        self.powf(n)
    }

    open spec fn spec_is_finite(self) -> bool {
        self.re.spec_is_finite() && self.im.spec_is_finite()
    }

    fn is_finite(&self) -> (b: bool) {
        self.re.is_finite() && self.im.is_finite()
    }

    /// `e^(a + b i) = e^a (cos b + i sin b)`: modulus `e^a`, argument `b`.
    open spec fn spec_exp(self) -> Self {
        spec_complex_from_polar(self.re.spec_exp(), self.im)
    }

    fn exp(self) -> (r: Self) {
        complex_from_polar(self.re.exp(), self.im)
    }

    /// `ln z = ln |z| + i arg z`. The argument lies in `(-pi, pi]`, so the
    /// cut runs along the negative real axis and is reached from above.
    open spec fn spec_ln(self) -> Self {
        Complex { re: self.spec_modulus().spec_ln(), im: self.spec_argument() }
    }

    fn ln(self) -> (r: Self) {
        let (r, theta) = self.to_polar();
        Complex { re: r.ln(), im: theta }
    }

    /// The number with modulus `sqrt |z|` and half the argument of `z`.
    open spec fn spec_sqrt(self) -> Self {
        spec_complex_from_polar(
            self.spec_modulus().spec_sqrt(),
            self.spec_argument().spec_div(spec_real_two::<N>()),
        )
    }

    fn sqrt(self) -> (r: Self) {
        let two = N::one().add(N::one());
        let (r, theta) = self.to_polar();
        complex_from_polar(r.sqrt(), theta.div(two))
    }

    /// Always the square root: the complex numbers are closed under it.
    open spec fn spec_try_sqrt(self) -> Option<Self> {
        Some(self.spec_sqrt())
    }

    fn try_sqrt(self) -> (r: Option<Self>)
        ensures
            r == Some(self.spec_sqrt()),
    {
        Some(self.sqrt())
    }

    /// `z^y` for real `y`: modulus `|z|^y`, argument `y arg z`.
    open spec fn spec_powf(self, n: N) -> Self {
        spec_complex_from_polar(
            self.spec_modulus().spec_powf(n),
            self.spec_argument().spec_mul(n),
        )
    }

    fn powf(self, n: N) -> (r: Self) {
        let (r, theta) = self.to_polar();
        complex_from_polar(r.powf(n), theta.mul(n))
    }

    /// `ln |z| / ln base + i arg z / ln base`, the first quotient taken as
    /// the real logarithm of `|z|` to that base.
    open spec fn spec_log(self, base: N) -> Self {
        Complex {
            re: self.spec_modulus().spec_log(base),
            im: self.spec_argument().spec_div(base.spec_ln()),
        }
    }

    fn log(self, base: N) -> (r: Self) {
        let (r, theta) = self.to_polar();
        Complex { re: r.log(base), im: theta.div(base.ln()) }
    }

    /// `z^(c + d i)` with `r = |z|` and `t = arg z`: modulus
    /// `r^c e^(-d t)`, argument `c t + d ln r`.
    open spec fn spec_powc(self, n: Self) -> Self {
        let r = self.spec_modulus();
        let theta = self.spec_argument();
        spec_complex_from_polar(
            r.spec_powf(n.re).spec_mul(n.im.spec_neg().spec_mul(theta).spec_exp()),
            n.re.spec_mul(theta).spec_add(n.im.spec_mul(r.spec_ln())),
        )
    }

    fn powc(self, n: Self) -> (r: Self) {
        let (r, theta) = self.to_polar();
        complex_from_polar(
            r.powf(n.re).mul(n.im.neg().mul(theta).exp()),
            n.re.mul(theta).add(n.im.mul(r.ln())),
        )
    }

    /// `sin(a + b i) = sin a cosh b + i cos a sinh b`.
    open spec fn spec_sin(self) -> Self {
        Complex {
            re: self.re.spec_sin().spec_mul(self.im.spec_cosh()),
            im: self.re.spec_cos().spec_mul(self.im.spec_sinh()),
        }
    }

    fn sin(self) -> (r: Self) {
        Complex {
            re: self.re.sin().mul(self.im.cosh()),
            im: self.re.cos().mul(self.im.sinh()),
        }
    }

    /// `cos(a + b i) = cos a cosh b - i sin a sinh b`.
    open spec fn spec_cos(self) -> Self {
        Complex {
            re: self.re.spec_cos().spec_mul(self.im.spec_cosh()),
            im: self.re.spec_sin().spec_neg().spec_mul(self.im.spec_sinh()),
        }
    }

    fn cos(self) -> (r: Self) {
        Complex {
            re: self.re.cos().mul(self.im.cosh()),
            im: self.re.sin().neg().mul(self.im.sinh()),
        }
    }

    fn sin_cos(self) -> (r: (Self, Self)) {
        let (rsin, rcos) = self.re.sin_cos();
        let (isinh, icosh) = self.im.sinh_cosh();
        let sin = Complex { re: rsin.mul(icosh), im: rcos.mul(isinh) };
        let cos = Complex { re: rcos.mul(icosh), im: rsin.neg().mul(isinh) };
        (sin, cos)
    }

    /// `tan(a + b i) = (sin 2a + i sinh 2b) / (cos 2a + cosh 2b)`, with
    /// `2a` and `2b` built as `a + a` and `b + b`.
    open spec fn spec_tan(self) -> Self {
        let two_re = self.re.spec_add(self.re);
        let two_im = self.im.spec_add(self.im);
        Complex { re: two_re.spec_sin(), im: two_im.spec_sinh() }.spec_unscale(
            two_re.spec_cos().spec_add(two_im.spec_cosh()),
        )
    }

    fn tan(self) -> (r: Self) {
        let two_re = self.re.add(self.re);
        let two_im = self.im.add(self.im);
        Complex { re: two_re.sin(), im: two_im.sinh() }.unscale(two_re.cos().add(two_im.cosh()))
    }

    /// `asin z = -i ln(sqrt(1 - z^2) + i z)`.
    open spec fn spec_asin(self) -> Self {
        let i = Self::spec_i();
        let root = Self::spec_one().spec_sub(self.spec_mul(self)).spec_sqrt();
        i.spec_neg().spec_mul(root.spec_add(i.spec_mul(self)).spec_ln())
    }

    fn asin(self) -> (r: Self) {
        let i = Self::i();
        let root = Self::one().sub(self.mul(self)).sqrt();
        i.neg().mul(root.add(i.mul(self)).ln())
    }

    /// `acos z = -i ln(i sqrt(1 - z^2) + z)`.
    open spec fn spec_acos(self) -> Self {
        let i = Self::spec_i();
        let root = Self::spec_one().spec_sub(self.spec_mul(self)).spec_sqrt();
        i.spec_neg().spec_mul(i.spec_mul(root).spec_add(self).spec_ln())
    }

    fn acos(self) -> (r: Self) {
        let i = Self::i();
        let root = Self::one().sub(self.mul(self)).sqrt();
        i.neg().mul(i.mul(root).add(self).ln())
    }

    /// `atan z = (ln(1 + i z) - ln(1 - i z)) / (2 i)`, but at the two
    /// poles: at `i` the result is `0 + (1 / 0) i`, at `-i` it is
    /// `0 + (-1 / 0) i`.
    open spec fn spec_atan(self) -> Self {
        let i = Self::spec_i();
        let one = Self::spec_one();
        if self.spec_equals(i) {
            Complex { re: N::spec_zero(), im: N::spec_one().spec_div(N::spec_zero()) }
        } else if self.spec_equals(i.spec_neg()) {
            Complex { re: N::spec_zero(), im: N::spec_one().spec_neg().spec_div(N::spec_zero()) }
        } else {
            one.spec_add(i.spec_mul(self)).spec_ln().spec_sub(
                one.spec_sub(i.spec_mul(self)).spec_ln(),
            ).spec_div(Self::spec_two().spec_mul(i))
        }
    }

    fn atan(self) -> (r: Self)
        ensures
            self.spec_equals(Self::spec_i()) ==> r.re == N::spec_zero() && r.im
                == N::spec_one().spec_div(N::spec_zero()),
            !self.spec_equals(Self::spec_i()) && self.spec_equals(Self::spec_i().spec_neg()) ==> r.re
                == N::spec_zero() && r.im == N::spec_one().spec_neg().spec_div(N::spec_zero()),
    {
        let i = Self::i();
        let one = Self::one();
        let two = one.add(one);
        if self.equals(i) {
            return Complex { re: N::zero(), im: N::one().div(N::zero()) };
        } else if self.equals(i.neg()) {
            return Complex { re: N::zero(), im: N::one().neg().div(N::zero()) };
        }
        one.add(i.mul(self)).ln().sub(one.sub(i.mul(self)).ln()).div(two.mul(i))
    }

    /// `sinh(a + b i) = sinh a cos b + i cosh a sin b`.
    open spec fn spec_sinh(self) -> Self {
        Complex {
            re: self.re.spec_sinh().spec_mul(self.im.spec_cos()),
            im: self.re.spec_cosh().spec_mul(self.im.spec_sin()),
        }
    }

    fn sinh(self) -> (r: Self) {
        Complex {
            re: self.re.sinh().mul(self.im.cos()),
            im: self.re.cosh().mul(self.im.sin()),
        }
    }

    /// `cosh(a + b i) = cosh a cos b + i sinh a sin b`.
    open spec fn spec_cosh(self) -> Self {
        Complex {
            re: self.re.spec_cosh().spec_mul(self.im.spec_cos()),
            im: self.re.spec_sinh().spec_mul(self.im.spec_sin()),
        }
    }

    fn cosh(self) -> (r: Self) {
        Complex {
            re: self.re.cosh().mul(self.im.cos()),
            im: self.re.sinh().mul(self.im.sin()),
        }
    }

    fn sinh_cosh(self) -> (r: (Self, Self)) {
        let (rsinh, rcosh) = self.re.sinh_cosh();
        let (isin, icos) = self.im.sin_cos();
        let sinh = Complex { re: rsinh.mul(icos), im: rcosh.mul(isin) };
        let cosh = Complex { re: rcosh.mul(icos), im: rsinh.mul(isin) };
        (sinh, cosh)
    }

    /// `tanh(a + b i) = (sinh 2a + i sin 2b) / (cosh 2a + cos 2b)`, with
    /// `2a` and `2b` built as `a + a` and `b + b`.
    open spec fn spec_tanh(self) -> Self {
        let two_re = self.re.spec_add(self.re);
        let two_im = self.im.spec_add(self.im);
        Complex { re: two_re.spec_sinh(), im: two_im.spec_sin() }.spec_unscale(
            two_re.spec_cosh().spec_add(two_im.spec_cos()),
        )
    }

    fn tanh(self) -> (r: Self) {
        let two_re = self.re.add(self.re);
        let two_im = self.im.add(self.im);
        Complex { re: two_re.sinh(), im: two_im.sin() }.unscale(two_re.cosh().add(two_im.cos()))
    }

    /// `asinh z = ln(z + sqrt(1 + z^2))`.
    open spec fn spec_asinh(self) -> Self {
        self.spec_add(Self::spec_one().spec_add(self.spec_mul(self)).spec_sqrt()).spec_ln()
    }

    fn asinh(self) -> (r: Self) {
        let one = Self::one();
        self.add(one.add(self.mul(self)).sqrt()).ln()
    }

    /// `acosh z = 2 ln(sqrt((z + 1) / 2) + sqrt((z - 1) / 2))`.
    open spec fn spec_acosh(self) -> Self {
        let one = Self::spec_one();
        let two = Self::spec_two();
        two.spec_mul(
            self.spec_add(one).spec_div(two).spec_sqrt().spec_add(
                self.spec_sub(one).spec_div(two).spec_sqrt(),
            ).spec_ln(),
        )
    }

    fn acosh(self) -> (r: Self) {
        let one = Self::one();
        let two = one.add(one);
        two.mul(self.add(one).div(two).sqrt().add(self.sub(one).div(two).sqrt()).ln())
    }

    /// `atanh z = (ln(1 + z) - ln(1 - z)) / 2`, but at the two poles: at
    /// `1` the result is `1 / 0 + 0 i`, at `-1` it is `-1 / 0 + 0 i`.
    open spec fn spec_atanh(self) -> Self {
        let one = Self::spec_one();
        if self.spec_equals(one) {
            Complex { re: N::spec_one().spec_div(N::spec_zero()), im: N::spec_zero() }
        } else if self.spec_equals(one.spec_neg()) {
            Complex { re: N::spec_one().spec_neg().spec_div(N::spec_zero()), im: N::spec_zero() }
        } else {
            one.spec_add(self).spec_ln().spec_sub(one.spec_sub(self).spec_ln()).spec_div(
                Self::spec_two(),
            )
        }
    }

    fn atanh(self) -> (r: Self)
        ensures
            self.spec_equals(Self::spec_one()) ==> r.re == N::spec_one().spec_div(N::spec_zero())
                && r.im == N::spec_zero(),
            !self.spec_equals(Self::spec_one()) && self.spec_equals(Self::spec_one().spec_neg())
                ==> r.re == N::spec_one().spec_neg().spec_div(N::spec_zero()) && r.im
                == N::spec_zero(),
    {
        let one = Self::one();
        let two = one.add(one);
        if self.equals(one) {
            return Complex { re: N::one().div(N::zero()), im: N::zero() };
        } else if self.equals(one.neg()) {
            return Complex { re: N::one().neg().div(N::zero()), im: N::zero() };
        }
        one.add(self).ln().sub(one.sub(self).ln()).div(two)
    }
}

} // verus!
