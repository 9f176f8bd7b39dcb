//! Complex numbers over a real scalar, their arithmetic and their polar
//! form.
//!
//! The four operations are those of the real scalar, applied to the parts
//! by the usual rules; nothing is normalised or rearranged, so that over a
//! rounding arithmetic each result is rounded exactly as the rule says.

use vstd::prelude::*;
use crate::field::Field;
use crate::real_field::RealField;
use crate::complex_field::ComplexField;

verus! {

/// The complex number `re + im i`. Any two real scalars make one; no
/// normal form is kept.
#[derive(Clone, Copy, Debug, PartialEq)]
pub struct Complex<N> {
    /// The real part.
    pub re: N,
    /// The imaginary part.
    pub im: N,
}

/// The complex number with modulus `r` and argument `theta`.
pub open spec fn spec_complex_from_polar<N: RealField>(r: N, theta: N) -> Complex<N> {
    Complex { re: r.spec_mul(theta.spec_cos()), im: r.spec_mul(theta.spec_sin()) }
}

/// Builds the complex number with modulus `r` and argument `theta`:
/// `r cos(theta) + r sin(theta) i`.
pub fn complex_from_polar<N: RealField>(r: N, theta: N) -> (z: Complex<N>)
    ensures
        z == spec_complex_from_polar(r, theta),
{
    Complex { re: r.mul(theta.cos()), im: r.mul(theta.sin()) }
}

impl<N: RealField> Complex<N> {
    /// The imaginary unit.
    pub open spec fn spec_i() -> Self {
        Complex { re: N::spec_zero(), im: N::spec_one() }
    }

    /// The real number two as a complex number, built as `1 + 1`.
    pub open spec fn spec_two() -> Self {
        Self::spec_one().spec_add(Self::spec_one())
    }

    /// The complex number with the given parts.
    pub fn new(re: N, im: N) -> (z: Self)
        ensures
            z.re == re,
            z.im == im,
    {
        Complex { re, im }
    }

    /// The imaginary unit.
    pub fn i() -> (z: Self)
        ensures
            z == Self::spec_i(),
    {
        Complex { re: N::zero(), im: N::one() }
    }

    /// The square of the modulus, `re^2 + im^2`.
    pub open spec fn spec_norm_sqr(self) -> N {
        self.re.spec_mul(self.re).spec_add(self.im.spec_mul(self.im))
    }
}

impl<N: RealField> Field for Complex<N> {
    open spec fn spec_zero() -> Self {
        Complex { re: N::spec_zero(), im: N::spec_zero() }
    }

    open spec fn spec_one() -> Self {
        Complex { re: N::spec_one(), im: N::spec_zero() }
    }

    open spec fn spec_add(self, rhs: Self) -> Self {
        Complex { re: self.re.spec_add(rhs.re), im: self.im.spec_add(rhs.im) }
    }

    open spec fn spec_sub(self, rhs: Self) -> Self {
        Complex { re: self.re.spec_sub(rhs.re), im: self.im.spec_sub(rhs.im) }
    }

    /// `(a + b i)(c + d i) = (ac - bd) + (ad + bc) i`.
    open spec fn spec_mul(self, rhs: Self) -> Self {
        Complex {
            re: self.re.spec_mul(rhs.re).spec_sub(self.im.spec_mul(rhs.im)),
            im: self.re.spec_mul(rhs.im).spec_add(self.im.spec_mul(rhs.re)),
        }
    }

    /// `(a + b i) / (c + d i) = ((ac + bd) + (bc - ad) i) / (c^2 + d^2)`.
    open spec fn spec_div(self, rhs: Self) -> Self {
        let norm_sqr = rhs.spec_norm_sqr();
        Complex {
            re: self.re.spec_mul(rhs.re).spec_add(self.im.spec_mul(rhs.im)).spec_div(norm_sqr),
            im: self.im.spec_mul(rhs.re).spec_sub(self.re.spec_mul(rhs.im)).spec_div(norm_sqr),
        }
    }

    open spec fn spec_neg(self) -> Self {
        Complex { re: self.re.spec_neg(), im: self.im.spec_neg() }
    }

    /// Equality of both parts.
    open spec fn spec_equals(self, rhs: Self) -> bool {
        self.re.spec_equals(rhs.re) && self.im.spec_equals(rhs.im)
    }

    open spec fn spec_is_zero(self) -> bool {
        self.re.spec_is_zero() && self.im.spec_is_zero()
    }

    fn zero() -> (r: Self) {
        Complex { re: N::zero(), im: N::zero() }
    }

    fn one() -> (r: Self) {
        Complex { re: N::one(), im: N::zero() }
    }

    fn add(self, rhs: Self) -> (r: Self) {
        Complex { re: self.re.add(rhs.re), im: self.im.add(rhs.im) }
    }

    fn sub(self, rhs: Self) -> (r: Self) {
        Complex { re: self.re.sub(rhs.re), im: self.im.sub(rhs.im) }
    }

    fn mul(self, rhs: Self) -> (r: Self) {
        let re = self.re.mul(rhs.re).sub(self.im.mul(rhs.im));
        let im = self.re.mul(rhs.im).add(self.im.mul(rhs.re));
        Complex { re, im }
    }

    fn div(self, rhs: Self) -> (r: Self) {
        let norm_sqr = rhs.re.mul(rhs.re).add(rhs.im.mul(rhs.im));
        let re = self.re.mul(rhs.re).add(self.im.mul(rhs.im));
        let im = self.im.mul(rhs.re).sub(self.re.mul(rhs.im));
        Complex { re: re.div(norm_sqr), im: im.div(norm_sqr) }
    }

    fn neg(self) -> (r: Self) {
        Complex { re: self.re.neg(), im: self.im.neg() }
    }

    fn equals(self, rhs: Self) -> (b: bool) {
        self.re.equals(rhs.re) && self.im.equals(rhs.im)
    }

    fn is_zero(self) -> (b: bool) {
        self.re.is_zero() && self.im.is_zero()
    }
}

} // verus!
