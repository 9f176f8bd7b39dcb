use alga::complex::{complex_from_polar, Complex};
use alga::complex_field::ComplexField;
use alga::simd::SimdComplexField;
use num_complex::Complex64;
use alga::field::Field;
use alga::real_field::RealField;

/// Double precision numbers as a real scalar.
#[derive(Clone, Copy, Debug, PartialEq)]
struct F(f64);

// Each executable operation returns what its specification function names;
// outside of verified code the two are one computation.
impl Field for F {
    fn spec_zero() -> Self { F(0.0) }
    fn spec_one() -> Self { F(1.0) }
    fn spec_add(self, rhs: Self) -> Self { F(self.0 + rhs.0) }
    fn spec_sub(self, rhs: Self) -> Self { F(self.0 - rhs.0) }
    fn spec_mul(self, rhs: Self) -> Self { F(self.0 * rhs.0) }
    fn spec_div(self, rhs: Self) -> Self { F(self.0 / rhs.0) }
    fn spec_neg(self) -> Self { F(-self.0) }
    fn spec_equals(self, rhs: Self) -> bool { self.0 == rhs.0 }
    fn spec_is_zero(self) -> bool { self.0 == 0.0 }
    fn zero() -> Self { Self::spec_zero() }
    fn one() -> Self { Self::spec_one() }
    fn add(self, rhs: Self) -> Self { self.spec_add(rhs) }
    fn sub(self, rhs: Self) -> Self { self.spec_sub(rhs) }
    fn mul(self, rhs: Self) -> Self { self.spec_mul(rhs) }
    fn div(self, rhs: Self) -> Self { self.spec_div(rhs) }
    fn neg(self) -> Self { self.spec_neg() }
    fn equals(self, rhs: Self) -> bool { self.spec_equals(rhs) }
    fn is_zero(self) -> bool { self.spec_is_zero() }
}

impl RealField for F {
    fn spec_ge(x: Self, y: Self) -> bool { x.0 >= y.0 }
    fn spec_pi() -> Self { F(std::f64::consts::PI) }
    fn spec_from_i32(n: i32) -> Self { F(f64::from(n)) }
    fn spec_is_finite(x: Self) -> bool { x.0.is_finite() }
    fn spec_powi(x: Self, n: i32) -> Self { F(x.0.powi(n)) }
    fn spec_mul_add(x: Self, a: Self, b: Self) -> Self { F(x.0.mul_add(a.0, b.0)) }
    fn spec_atan2(y: Self, x: Self) -> Self { F(y.0.atan2(x.0)) }
    fn spec_hypot(x: Self, y: Self) -> Self { F(x.0.hypot(y.0)) }
    fn spec_powf(x: Self, y: Self) -> Self { F(x.0.powf(y.0)) }
    fn spec_log(x: Self, base: Self) -> Self { F(x.0.log(base.0)) }
    fn spec_abs(x: Self) -> Self { F(x.0.abs()) }
    fn spec_floor(x: Self) -> Self { F(x.0.floor()) }
    fn spec_ceil(x: Self) -> Self { F(x.0.ceil()) }
    fn spec_round(x: Self) -> Self { F(x.0.round()) }
    fn spec_trunc(x: Self) -> Self { F(x.0.trunc()) }
    fn spec_fract(x: Self) -> Self { F(x.0.fract()) }
    fn spec_sqrt(x: Self) -> Self { F(x.0.sqrt()) }
    fn spec_cbrt(x: Self) -> Self { F(x.0.cbrt()) }
    fn spec_exp(x: Self) -> Self { F(x.0.exp()) }
    fn spec_exp2(x: Self) -> Self { F(x.0.exp2()) }
    fn spec_exp_m1(x: Self) -> Self { F(x.0.exp_m1()) }
    fn spec_ln(x: Self) -> Self { F(x.0.ln()) }
    fn spec_ln_1p(x: Self) -> Self { F(x.0.ln_1p()) }
    fn spec_log2(x: Self) -> Self { F(x.0.log2()) }
    fn spec_log10(x: Self) -> Self { F(x.0.log10()) }
    fn spec_sin(x: Self) -> Self { F(x.0.sin()) }
    fn spec_cos(x: Self) -> Self { F(x.0.cos()) }
    fn spec_tan(x: Self) -> Self { F(x.0.tan()) }
    fn spec_asin(x: Self) -> Self { F(x.0.asin()) }
    fn spec_acos(x: Self) -> Self { F(x.0.acos()) }
    fn spec_atan(x: Self) -> Self { F(x.0.atan()) }
    fn spec_sinh(x: Self) -> Self { F(x.0.sinh()) }
    fn spec_cosh(x: Self) -> Self { F(x.0.cosh()) }
    fn spec_tanh(x: Self) -> Self { F(x.0.tanh()) }
    fn spec_asinh(x: Self) -> Self { F(x.0.asinh()) }
    fn spec_acosh(x: Self) -> Self { F(x.0.acosh()) }
    fn spec_atanh(x: Self) -> Self { F(x.0.atanh()) }
    fn ge(x: Self, y: Self) -> bool { RealField::spec_ge(x, y) }
    fn pi() -> Self { Self::spec_pi() }
    fn from_i32(n: i32) -> Self { RealField::spec_from_i32(n) }
    fn is_finite(x: Self) -> bool { RealField::spec_is_finite(x) }
    fn powi(x: Self, n: i32) -> Self { RealField::spec_powi(x, n) }
    fn mul_add(x: Self, a: Self, b: Self) -> Self { RealField::spec_mul_add(x, a, b) }
    fn atan2(y: Self, x: Self) -> Self { RealField::spec_atan2(y, x) }
    fn hypot(x: Self, y: Self) -> Self { RealField::spec_hypot(x, y) }
    fn powf(x: Self, y: Self) -> Self { RealField::spec_powf(x, y) }
    fn log(x: Self, base: Self) -> Self { RealField::spec_log(x, base) }
    fn abs(x: Self) -> Self { RealField::spec_abs(x) }
    fn floor(x: Self) -> Self { RealField::spec_floor(x) }
    fn ceil(x: Self) -> Self { RealField::spec_ceil(x) }
    fn round(x: Self) -> Self { RealField::spec_round(x) }
    fn trunc(x: Self) -> Self { RealField::spec_trunc(x) }
    fn fract(x: Self) -> Self { RealField::spec_fract(x) }
    fn sqrt(x: Self) -> Self { RealField::spec_sqrt(x) }
    fn cbrt(x: Self) -> Self { RealField::spec_cbrt(x) }
    fn exp(x: Self) -> Self { RealField::spec_exp(x) }
    fn exp2(x: Self) -> Self { RealField::spec_exp2(x) }
    fn exp_m1(x: Self) -> Self { RealField::spec_exp_m1(x) }
    fn ln(x: Self) -> Self { RealField::spec_ln(x) }
    fn ln_1p(x: Self) -> Self { RealField::spec_ln_1p(x) }
    fn log2(x: Self) -> Self { RealField::spec_log2(x) }
    fn log10(x: Self) -> Self { RealField::spec_log10(x) }
    fn sin(x: Self) -> Self { RealField::spec_sin(x) }
    fn cos(x: Self) -> Self { RealField::spec_cos(x) }
    fn tan(x: Self) -> Self { RealField::spec_tan(x) }
    fn asin(x: Self) -> Self { RealField::spec_asin(x) }
    fn acos(x: Self) -> Self { RealField::spec_acos(x) }
    fn atan(x: Self) -> Self { RealField::spec_atan(x) }
    fn sinh(x: Self) -> Self { RealField::spec_sinh(x) }
    fn cosh(x: Self) -> Self { RealField::spec_cosh(x) }
    fn tanh(x: Self) -> Self { RealField::spec_tanh(x) }
    fn asinh(x: Self) -> Self { RealField::spec_asinh(x) }
    fn acosh(x: Self) -> Self { RealField::spec_acosh(x) }
    fn atanh(x: Self) -> Self { RealField::spec_atanh(x) }
    fn sin_cos(x: Self) -> (Self, Self) { let (s, c) = x.0.sin_cos(); (F(s), F(c)) }
}

fn c(re: f64, im: f64) -> Complex<F> {
    Complex::new(F(re), F(im))
}

fn close(a: f64, b: f64, eps: f64) -> bool {
    (a - b).abs() <= eps * (1.0 + a.abs().max(b.abs()))
}

fn close_c(a: Complex<F>, b: Complex<F>, eps: f64) -> bool {
    close(a.re.0, b.re.0, eps) && close(a.im.0, b.im.0, eps)
}

fn samples() -> Vec<Complex<F>> {
    vec![
        c(1.0, 1.0),
        c(0.5, -0.25),
        c(-0.75, 0.3),
        c(-0.2, -0.9),
        c(2.0, 0.125),
        c(0.1, 1.5),
        c(-1.25, 2.0),
        c(3.0, -2.0),
    ]
}

fn nc(z: Complex<F>) -> Complex64 {
    Complex64::new(z.re.0, z.im.0)
}

fn agrees(ours: Complex<F>, theirs: Complex64, eps: f64) -> bool {
    close(ours.re.0, theirs.re, eps) && close(ours.im.0, theirs.im, eps)
}

const PI: f64 = std::f64::consts::PI;

#[test]
fn polar_round_trip() {
    for z in samples() {
        let (r, theta) = z.to_polar();
        assert!(close_c(complex_from_polar(r, theta), z, 1e-12));
    }
}

#[test]
fn scenario_one_plus_i() {
    let z = c(1.0, 1.0);
    assert!(close(z.modulus().0, 1.4142, 1e-4));
    assert!(close(z.argument().0, 0.7854, 1e-4));
    assert!(close(z.argument().0, std::f64::consts::FRAC_PI_4, 1e-15));
    let e = z.exp();
    assert!(close(e.re.0, 1.4687, 1e-4));
    assert!(close(e.im.0, 2.2874, 1e-4));
}

#[test]
fn sinc_of_zero_is_one() {
    assert_eq!(F(0.0).sinc(), F(1.0));
    assert_eq!(c(0.0, 0.0).sinc(), c(1.0, 0.0));
    assert_eq!(F(-0.0).sinhc(), F(1.0));
    assert_eq!(c(0.0, -0.0).sinhc(), c(1.0, 0.0));
    assert_eq!(F(0.0).cosc(), F(1.0));
    assert_eq!(c(0.0, 0.0).coshc(), c(1.0, 0.0));
}

#[test]
fn cardinal_functions_away_from_zero() {
    assert_eq!(F(2.0).sinc(), F(2.0f64.sin() / 2.0));
    assert_eq!(F(2.0).sinhc(), F(2.0f64.sinh() / 2.0));
    assert_eq!(F(2.0).cosc(), F(2.0f64.cos() / 2.0));
    assert_eq!(F(2.0).coshc(), F(2.0f64.cosh() / 2.0));
    let z = c(0.5, -0.25);
    assert_eq!(z.sinc(), z.sin().div(z));
    assert_eq!(z.coshc(), z.cosh().div(z));
}

#[test]
fn real_and_complex_agree_on_the_real_axis() {
    for x in [0.25, 1.0, 2.5, 0.75] {
        let z = Complex::<F>::from_real(F(x));
        assert_eq!(z, c(x, 0.0));
        assert!(close_c(z.exp(), c(x.exp(), 0.0), 1e-14));
        assert!(close_c(z.ln(), c(x.ln(), 0.0), 1e-14));
        assert!(close_c(z.sqrt(), c(x.sqrt(), 0.0), 1e-14));
        assert!(close_c(z.sin(), c(x.sin(), 0.0), 1e-14));
        assert!(close_c(z.cos(), c(x.cos(), 0.0), 1e-14));
        assert!(close_c(z.tan(), c(x.tan(), 0.0), 1e-14));
        assert!(close_c(z.sinh(), c(x.sinh(), 0.0), 1e-14));
        assert!(close_c(z.cosh(), c(x.cosh(), 0.0), 1e-14));
        assert!(close_c(z.tanh(), c(x.tanh(), 0.0), 1e-14));
        assert!(close_c(z.atan(), c(x.atan(), 0.0), 1e-14));
        assert!(close_c(z.asinh(), c(x.asinh(), 0.0), 1e-14));
        assert!(close_c(z.powf(F(1.5)), c(x.powf(1.5), 0.0), 1e-14));
        assert!(close_c(z.cbrt(), c(x.cbrt(), 0.0), 1e-14));
        assert!(close_c(z.exp2(), c(x.exp2(), 0.0), 1e-14));
        assert!(close_c(z.log2(), c(x.log2(), 0.0), 1e-14));
        assert!(close_c(z.log10(), c(x.log10(), 0.0), 1e-14));
        assert!(close_c(z.exp_m1(), c(x.exp_m1(), 0.0), 1e-14));
        assert!(close_c(z.ln_1p(), c(x.ln_1p(), 0.0), 1e-14));
        assert!(close(z.modulus().0, F(x).modulus().0, 1e-15));
        assert_eq!(z.argument(), F(x).argument());
        assert_eq!(z.imaginary(), F(x).imaginary());
        assert_eq!(z.real_part(), F(x).real_part());
    }
}

#[test]
fn exp_undoes_ln() {
    for z in samples() {
        assert!(close_c(z.ln().exp(), z, 1e-12));
    }
    assert!(close_c(c(-2.0, 0.0).ln().exp(), c(-2.0, 0.0), 1e-12));
}

#[test]
fn sin_undoes_asin() {
    for z in samples() {
        assert!(close_c(z.asin().sin(), z, 1e-12));
        assert!(close_c(z.acos().cos(), z, 1e-12));
        assert!(close_c(z.atan().tan(), z, 1e-12));
        assert!(close_c(z.asinh().sinh(), z, 1e-12));
        assert!(close_c(z.acosh().cosh(), z, 1e-12));
        assert!(close_c(z.atanh().tanh(), z, 1e-12));
    }
}

#[test]
fn pythagorean_identity() {
    for z in samples() {
        let s = z.sin();
        let k = z.cos();
        assert!(close_c(s.mul(s).add(k.mul(k)), c(1.0, 0.0), 1e-12));
        let (s2, k2) = z.sin_cos();
        assert_eq!((s2, k2), (s, k));
    }
}

#[test]
fn hyperbolic_pair_is_the_two_functions() {
    for z in samples() {
        assert_eq!(z.sinh_cosh(), (z.sinh(), z.cosh()));
        let h = z.cosh();
        let s = z.sinh();
        assert!(close_c(h.mul(h).sub(s.mul(s)), c(1.0, 0.0), 1e-12));
    }
    assert_eq!(F(0.5).sinh_cosh(), (F(0.5f64.sinh()), F(0.5f64.cosh())));
    assert_eq!(F(0.5).sin_cos(), (F(0.5f64.sin()), F(0.5f64.cos())));
}

#[test]
fn atan_at_its_poles() {
    let up = c(0.0, 1.0).atan();
    assert_eq!(up.re.0, 0.0);
    assert_eq!(up.im.0, f64::INFINITY);
    let down = c(0.0, -1.0).atan();
    assert_eq!(down.re.0, 0.0);
    assert_eq!(down.im.0, f64::NEG_INFINITY);
}

#[test]
fn atanh_at_its_poles() {
    let right = c(1.0, 0.0).atanh();
    assert_eq!(right.re.0, f64::INFINITY);
    assert_eq!(right.im.0, 0.0);
    let left = c(-1.0, 0.0).atanh();
    assert_eq!(left.re.0, f64::NEG_INFINITY);
    assert_eq!(left.im.0, 0.0);
}

#[test]
fn try_sqrt_on_reals_and_on_complex_numbers() {
    assert_eq!(F(4.0).try_sqrt(), Some(F(2.0)));
    assert_eq!(F(-1.0).try_sqrt(), None);
    assert_eq!(F(0.0).try_sqrt(), Some(F(0.0)));
    assert_eq!(F(f64::NAN).try_sqrt(), None);
    let r = c(-1.0, 0.0).try_sqrt();
    assert!(r.is_some());
    assert!(close_c(r.unwrap(), c(0.0, 1.0), 1e-15));
    assert_eq!(c(4.0, 0.0).try_sqrt(), Some(c(2.0, 0.0)));
    assert_eq!(c(-3.0, 2.0).try_sqrt(), Some(c(-3.0, 2.0).sqrt()));
}

#[test]
fn real_scalar_on_the_real_axis() {
    assert_eq!(F(3.0).argument(), F(0.0));
    assert_eq!(F(0.0).argument(), F(0.0));
    assert_eq!(F(-2.0).argument(), F(PI));
    assert_eq!(F(f64::NAN).argument(), F(PI));
    assert_eq!(F(-2.5).modulus(), F(2.5));
    assert_eq!(F(-2.5).abs(), F(2.5));
    assert_eq!(F(-2.5).norm1(), F(2.5));
    assert_eq!(F(-3.0).modulus_squared(), F(9.0));
    assert_eq!(F(-3.0).imaginary(), F(0.0));
    assert_eq!(F(-3.0).real_part(), F(-3.0));
    assert_eq!(F(-3.0).conjugate(), F(-3.0));
    assert_eq!(F::from_real(F(7.0)), F(7.0));
    assert_eq!(F(3.0).to_exp(), (F(3.0), F(1.0)));
    assert_eq!(F(-3.0).to_exp(), (F(3.0), F(-1.0)));
    assert_eq!(F(0.0).to_exp(), (F(0.0), F(1.0)));
    assert_eq!(F(-3.0).signum(), F(-1.0));
    assert_eq!(F(5.0).signum(), F(1.0));
    assert_eq!(F(-3.0).to_polar(), (F(3.0), F(PI)));
    assert_eq!(F(4.0).recip(), F(0.25));
    assert_eq!(F(4.0).scale(F(0.5)), F(2.0));
    assert_eq!(F(4.0).unscale(F(0.5)), F(8.0));
}

#[test]
fn real_scalar_forwards_to_its_primitives() {
    let x = 0.625f64;
    assert_eq!(F(-1.5).floor(), F(-2.0));
    assert_eq!(F(-1.5).ceil(), F(-1.0));
    assert_eq!(F(-1.5).round(), F(-2.0));
    assert_eq!(F(-1.5).trunc(), F(-1.0));
    assert_eq!(F(-1.5).fract(), F(-0.5));
    assert_eq!(F(2.0).mul_add(F(3.0), F(4.0)), F(10.0));
    assert_eq!(F(3.0).hypot(F(4.0)), F(5.0));
    assert_eq!(F(2.0).powi(10), F(1024.0));
    assert_eq!(F(2.0).powf(F(0.5)), F(2.0f64.powf(0.5)));
    assert_eq!(F(2.0).powc(F(0.5)), F(2.0f64.powf(0.5)));
    assert_eq!(F(9.0).sqrt(), F(3.0));
    assert_eq!(F(27.0).cbrt(), F(3.0));
    assert_eq!(F(8.0).log(F(2.0)), F(8.0f64.log(2.0)));
    assert_eq!(F(8.0).log2(), F(3.0));
    assert_eq!(F(1000.0).log10(), F(1000.0f64.log10()));
    assert_eq!(F(x).exp(), F(x.exp()));
    assert_eq!(F(x).exp2(), F(x.exp2()));
    assert_eq!(F(x).exp_m1(), F(x.exp_m1()));
    assert_eq!(F(x).ln(), F(x.ln()));
    assert_eq!(F(x).ln_1p(), F(x.ln_1p()));
    assert_eq!(F(x).sin(), F(x.sin()));
    assert_eq!(F(x).cos(), F(x.cos()));
    assert_eq!(F(x).tan(), F(x.tan()));
    assert_eq!(F(x).asin(), F(x.asin()));
    assert_eq!(F(x).acos(), F(x.acos()));
    assert_eq!(F(x).atan(), F(x.atan()));
    assert_eq!(F(x).sinh(), F(x.sinh()));
    assert_eq!(F(x).cosh(), F(x.cosh()));
    assert_eq!(F(x).tanh(), F(x.tanh()));
    assert_eq!(F(x).asinh(), F(x.asinh()));
    assert_eq!(F(2.0).acosh(), F(2.0f64.acosh()));
    assert_eq!(F(x).atanh(), F(x.atanh()));
    assert!(ComplexField::is_finite(&F(x)));
    assert!(!ComplexField::is_finite(&F(f64::INFINITY)));
    assert!(!ComplexField::is_finite(&F(f64::NAN)));
}

#[test]
fn complex_arithmetic_is_exact_on_small_integers() {
    let a = c(1.0, 2.0);
    let b = c(3.0, 4.0);
    assert_eq!(a.add(b), c(4.0, 6.0));
    assert_eq!(a.sub(b), c(-2.0, -2.0));
    assert_eq!(a.mul(b), c(-5.0, 10.0));
    assert_eq!(a.neg(), c(-1.0, -2.0));
    assert_eq!(c(-5.0, 10.0).div(b), a);
    assert_eq!(c(1.0, 0.0).div(c(0.0, 2.0)), c(0.0, -0.5));
    assert_eq!(c(0.0, 2.0).recip(), c(0.0, -0.5));
    assert_eq!(a.conjugate(), c(1.0, -2.0));
    assert_eq!(a.scale(F(2.0)), c(2.0, 4.0));
    assert_eq!(a.unscale(F(2.0)), c(0.5, 1.0));
    assert_eq!(a.mul_add(b, c(1.0, 1.0)), c(-4.0, 11.0));
    assert_eq!(Complex::<F>::zero(), c(0.0, 0.0));
    assert_eq!(Complex::<F>::one(), c(1.0, 0.0));
    assert_eq!(Complex::<F>::i(), c(0.0, 1.0));
    assert_eq!(Complex::<F>::i().mul(Complex::<F>::i()), c(-1.0, 0.0));
    assert!(a.equals(c(1.0, 2.0)));
    assert!(!a.equals(b));
    assert!(c(0.0, -0.0).is_zero());
    assert!(!c(0.0, 1.0).is_zero());
    assert!(!c(f64::NAN, 0.0).equals(c(f64::NAN, 0.0)));
}

#[test]
fn complex_parts_and_norms() {
    let z = c(3.0, -4.0);
    assert_eq!(z.real_part(), F(3.0));
    assert_eq!(z.imaginary(), F(-4.0));
    assert_eq!(z.modulus(), F(5.0));
    assert_eq!(z.abs(), F(5.0));
    assert_eq!(z.modulus_squared(), F(25.0));
    assert_eq!(z.norm1(), F(7.0));
    assert_eq!(z.argument(), F((-4.0f64).atan2(3.0)));
    assert_eq!(z.to_polar(), (F(5.0), F((-4.0f64).atan2(3.0))));
    assert_eq!(z.to_exp(), (F(5.0), c(0.6, -0.8)));
    assert_eq!(z.signum(), c(0.6, -0.8));
    assert_eq!(c(0.0, 0.0).to_exp(), (F(0.0), c(1.0, 0.0)));
    assert_eq!(c(0.0, 0.0).signum(), c(1.0, 0.0));
    assert_eq!(z.hypot(c(0.0, 12.0)), F(13.0));
    assert_eq!(c(1.5, -1.5).floor(), c(1.0, -2.0));
    assert_eq!(c(1.5, -1.5).ceil(), c(2.0, -1.0));
    assert_eq!(c(1.5, -1.5).round(), c(2.0, -2.0));
    assert_eq!(c(1.5, -1.5).trunc(), c(1.0, -1.0));
    assert_eq!(c(1.5, -1.5).fract(), c(0.5, -0.5));
    assert!(z.is_finite());
    assert!(!c(1.0, f64::INFINITY).is_finite());
    assert!(!c(f64::NAN, 1.0).is_finite());
}

#[test]
fn branch_cut_of_ln_and_sqrt_is_reached_from_above() {
    assert_eq!(c(-1.0, 0.0).ln(), c(0.0, PI));
    assert_eq!(c(-1.0, -0.0).ln(), c(0.0, -PI));
    assert_eq!(c(1.0, 0.0).ln(), c(0.0, 0.0));
    assert_eq!(c(-1.0, 0.0).argument(), F(PI));
    let above = c(-4.0, 0.0).sqrt();
    let below = c(-4.0, -0.0).sqrt();
    assert!(close_c(above, c(0.0, 2.0), 1e-15));
    assert!(close_c(below, c(0.0, -2.0), 1e-15));
    assert!(above.im.0 > 0.0 && below.im.0 < 0.0);
    assert_eq!(c(4.0, 0.0).sqrt(), c(2.0, 0.0));
    assert_eq!(c(0.0, 0.0).sqrt(), c(0.0, 0.0));
}

#[test]
fn inverse_functions_on_their_cuts() {
    let h = (2.0f64 + 3.0f64.sqrt()).ln();
    assert!(close_c(c(2.0, 0.0).asin(), c(PI / 2.0, -h), 1e-14));
    assert!(close_c(c(2.0, -0.0).asin(), c(PI / 2.0, -h), 1e-14));
    assert!(close_c(c(2.0, 0.0).acos(), c(0.0, h), 1e-14));
    assert!(close_c(c(-2.0, 0.0).asin(), c(-PI / 2.0, h), 1e-14));
    let q = 3.0f64.ln() / 2.0;
    assert!(close_c(c(0.0, 2.0).atan(), c(PI / 2.0, q), 1e-14));
    assert!(close_c(c(0.0, -2.0).atan(), c(-PI / 2.0, -q), 1e-14));
    assert!(close_c(c(2.0, 0.0).atanh(), c(q, -PI / 2.0), 1e-14));
    assert!(close_c(c(-2.0, 0.0).atanh(), c(-q, PI / 2.0), 1e-14));
    assert!(close_c(c(-1.0, 0.0).acosh(), c(0.0, PI), 1e-14));
    assert!(close_c(c(0.0, 0.0).acosh(), c(0.0, PI / 2.0), 1e-14));
}

#[test]
fn values_that_are_not_finite_pass_through() {
    let z = c(f64::NAN, 1.0);
    assert!(z.sin().re.0.is_nan());
    assert!(z.exp().re.0.is_nan());
    assert!(z.modulus().0.is_nan());
    assert!(!z.is_finite());
    assert_eq!(c(f64::INFINITY, 1.0).modulus(), F(f64::INFINITY));
    assert_eq!(c(f64::NEG_INFINITY, 0.0).exp(), c(0.0, 0.0));
    assert!(c(f64::INFINITY, 0.0).sqrt().re.0.is_infinite());
    assert!(F(f64::NAN).sin().0.is_nan());
    assert!(F(f64::NAN).sinc().0.is_nan());
    assert_eq!(F(f64::INFINITY).to_exp(), (F(f64::INFINITY), F(1.0)));
    let (m, u) = c(f64::NAN, 0.0).to_exp();
    assert!(m.0.is_nan() && u.re.0.is_nan());
    assert_eq!(c(0.0, 0.0).ln().re.0, f64::NEG_INFINITY);
    assert!(c(0.0, 0.0).recip().re.0.is_nan());
}

#[test]
fn modulus_is_zero_at_zero_only() {
    for z in samples() {
        assert!(z.modulus().0 > 0.0);
        assert!(z.modulus_squared().0 > 0.0);
        assert!(z.argument().0 > -PI && z.argument().0 <= PI);
        let (m, u) = z.to_exp();
        assert_eq!(m, z.modulus());
        assert!(close(u.modulus().0, 1.0, 1e-15));
    }
    assert_eq!(c(0.0, 0.0).modulus(), F(0.0));
    assert_eq!(c(-0.0, 0.0).modulus(), F(0.0));
    assert!(c(0.0, 1e-300).modulus().0 > 0.0);
    assert!(c(-1e-300, 0.0).modulus().0 > 0.0);
    assert_eq!(c(-1.0, 0.0).argument(), F(PI));
    assert_eq!(c(-1.0, -0.0).argument(), F(-PI));
    assert_eq!(c(0.0, 0.0).argument(), F(0.0));
}

#[test]
fn exp_is_the_polar_form() {
    assert_eq!(c(0.0, 0.0).exp(), c(1.0, 0.0));
    let z = c(0.5, 2.0);
    assert_eq!(z.exp(), complex_from_polar(F(0.5f64.exp()), F(2.0)));
    assert_eq!(z.exp(), c(0.5f64.exp() * 2.0f64.cos(), 0.5f64.exp() * 2.0f64.sin()));
    assert_eq!(complex_from_polar(F(2.0), F(0.0)), c(2.0, 0.0));
    assert_eq!(z.exp_m1(), z.exp().sub(c(1.0, 0.0)));
    assert_eq!(z.ln_1p(), c(1.5, 2.0).ln());
}

#[test]
fn powers_and_logarithms_follow_their_formulas() {
    let z = c(1.5, -0.5);
    let (r, t) = (z.modulus().0, z.argument().0);
    assert_eq!(z.powf(F(2.5)), complex_from_polar(F(r.powf(2.5)), F(t * 2.5)));
    assert_eq!(z.powi(3), z.powf(F(3.0)));
    assert_eq!(z.cbrt(), z.powf(F(1.0 / 3.0)));
    assert_eq!(z.log(F(3.0)), c(r.log(3.0), t / 3.0f64.ln()));
    assert_eq!(z.log2(), z.log(F(2.0)));
    assert_eq!(z.log10(), z.log(F(10.0)));
    let w = c(0.25, 0.75);
    assert_eq!(
        z.powc(w),
        complex_from_polar(F(r.powf(0.25) * (-0.75 * t).exp()), F(0.25 * t + 0.75 * r.ln()))
    );
    assert_eq!(w.exp2(), c(2.0, 0.0).powc(w));
    assert!(close_c(c(0.0, 2.0).powi(2), c(-4.0, 0.0), 1e-14));
    assert!(close_c(c(3.0, 0.0).exp2(), c(8.0, 0.0), 1e-14));
    assert!(close_c(c(8.0, 0.0).cbrt(), c(2.0, 0.0), 1e-14));
    assert!(close_c(c(1000.0, 0.0).log10(), c(3.0, 0.0), 1e-14));
}

#[test]
fn integer_power_matches_real_power() {
    for n in -6..=12 {
        for x in [0.5, 1.5, 3.0] {
            assert!(close(F(x).powi(n).0, F(x).powf(F(f64::from(n))).0, 1e-14));
        }
    }
    let z = c(1.25, -0.5);
    let mut p = c(1.0, 0.0);
    for n in 0..8 {
        assert!(close_c(z.powi(n), p, 1e-13));
        assert!(close_c(z.powi(-n), p.recip(), 1e-13));
        p = p.mul(z);
    }
}

#[test]
fn trigonometric_functions_follow_their_formulas() {
    let (a, b) = (0.75f64, -0.5f64);
    let z = c(a, b);
    assert_eq!(z.sin(), c(a.sin() * b.cosh(), a.cos() * b.sinh()));
    assert_eq!(z.cos(), c(a.cos() * b.cosh(), -a.sin() * b.sinh()));
    assert_eq!(z.sinh(), c(a.sinh() * b.cos(), a.cosh() * b.sin()));
    assert_eq!(z.cosh(), c(a.cosh() * b.cos(), a.sinh() * b.sin()));
    let d = (2.0 * a).cos() + (2.0 * b).cosh();
    assert_eq!(z.tan(), c((2.0 * a).sin() / d, (2.0 * b).sinh() / d));
    let e = (2.0 * a).cosh() + (2.0 * b).cos();
    assert_eq!(z.tanh(), c((2.0 * a).sinh() / e, (2.0 * b).sin() / e));
    let i = Complex::<F>::i();
    let one = Complex::<F>::one();
    let two = c(2.0, 0.0);
    assert_eq!(z.asin(), i.neg().mul(one.sub(z.mul(z)).sqrt().add(i.mul(z)).ln()));
    assert_eq!(z.acos(), i.neg().mul(i.mul(one.sub(z.mul(z)).sqrt()).add(z).ln()));
    assert_eq!(z.atan(), one.add(i.mul(z)).ln().sub(one.sub(i.mul(z)).ln()).div(two.mul(i)));
    assert_eq!(z.asinh(), z.add(one.add(z.mul(z)).sqrt()).ln());
    assert_eq!(
        z.acosh(),
        two.mul(z.add(one).div(two).sqrt().add(z.sub(one).div(two).sqrt()).ln())
    );
    assert_eq!(z.atanh(), one.add(z).ln().sub(one.sub(z).ln()).div(two));
}

#[test]
fn agrees_with_num_complex() {
    for z in samples() {
        let n = nc(z);
        let eps = 1e-12;
        assert!(close(z.modulus().0, n.norm(), eps));
        assert!(close(z.argument().0, n.arg(), eps));
        assert!(close(z.modulus_squared().0, n.norm_sqr(), eps));
        assert!(close(z.norm1().0, n.l1_norm(), eps));
        assert!(agrees(z.conjugate(), n.conj(), eps));
        assert!(agrees(z.recip(), n.inv(), eps));
        assert!(agrees(z.scale(F(1.5)), n.scale(1.5), eps));
        assert!(agrees(z.unscale(F(1.5)), n.unscale(1.5), eps));
        assert!(agrees(z.mul(c(0.5, 2.0)), n * Complex64::new(0.5, 2.0), eps));
        assert!(agrees(z.div(c(0.5, 2.0)), n / Complex64::new(0.5, 2.0), eps));
        assert!(agrees(z.exp(), n.exp(), eps));
        assert!(agrees(z.ln(), n.ln(), eps));
        assert!(agrees(z.sqrt(), n.sqrt(), eps));
        assert!(agrees(z.cbrt(), n.cbrt(), eps));
        assert!(agrees(z.powf(F(1.75)), n.powf(1.75), eps));
        assert!(agrees(z.powi(3), n.powi(3), eps));
        assert!(agrees(z.powc(c(0.5, -0.25)), n.powc(Complex64::new(0.5, -0.25)), eps));
        assert!(agrees(z.log(F(3.0)), n.log(3.0), eps));
        assert!(agrees(z.log2(), n.log2(), eps));
        assert!(agrees(z.log10(), n.log10(), eps));
        assert!(agrees(z.exp2(), n.exp2(), eps));
        assert!(agrees(z.sin(), n.sin(), eps));
        assert!(agrees(z.cos(), n.cos(), eps));
        assert!(agrees(z.tan(), n.tan(), eps));
        assert!(agrees(z.asin(), n.asin(), eps));
        assert!(agrees(z.acos(), n.acos(), eps));
        assert!(agrees(z.atan(), n.atan(), eps));
        assert!(agrees(z.sinh(), n.sinh(), eps));
        assert!(agrees(z.cosh(), n.cosh(), eps));
        assert!(agrees(z.tanh(), n.tanh(), eps));
        assert!(agrees(z.asinh(), n.asinh(), eps));
        assert!(agrees(z.acosh(), n.acosh(), eps));
        assert!(agrees(z.atanh(), n.atanh(), eps));
        let (r, theta) = z.to_polar();
        assert!(agrees(complex_from_polar(r, theta), Complex64::from_polar(r.0, theta.0), eps));
    }
}

#[test]
fn a_scalar_is_a_batch_of_one_lane() {
    let z = c(0.75, -0.5);
    assert_eq!(Complex::<F>::simd_zero(), c(0.0, 0.0));
    assert_eq!(Complex::<F>::simd_one(), c(1.0, 0.0));
    assert!(c(0.0, 0.0).is_simd_zero());
    assert!(!z.is_simd_zero());
    assert_eq!(Complex::<F>::from_simd_real(F(2.0)), c(2.0, 0.0));
    assert_eq!(z.simd_real(), F(0.75));
    assert_eq!(z.simd_imaginary(), F(-0.5));
    assert_eq!(z.simd_modulus(), z.modulus());
    assert_eq!(z.simd_argument(), z.argument());
    assert_eq!(z.simd_to_polar(), z.to_polar());
    assert_eq!(z.simd_to_exp(), z.to_exp());
    assert_eq!(z.simd_signum(), z.signum());
    assert_eq!(z.simd_sin(), z.sin());
    assert_eq!(z.simd_sin_cos(), z.sin_cos());
    assert_eq!(z.simd_sinh_cosh(), z.sinh_cosh());
    assert_eq!(z.simd_atan(), z.atan());
    assert_eq!(z.simd_powc(c(0.5, 0.5)), z.powc(c(0.5, 0.5)));
    assert_eq!(z.simd_powi(3), z.powi(3));
    assert_eq!(z.simd_log(F(2.0)), z.log(F(2.0)));
    assert_eq!(z.simd_mul_add(z, z), z.mul_add(z, z));
    assert_eq!(z.simd_hypot(z), z.hypot(z));
    assert_eq!(c(0.0, 0.0).simd_sinc(), c(1.0, 0.0));
    assert_eq!(z.simd_sinc(), z.sinc());
    assert_eq!(F(-2.0).simd_argument(), F(PI));
    assert_eq!(F(0.0).simd_sinc(), F(1.0));
    assert_eq!(F(9.0).simd_sqrt(), F(3.0));
    assert!(F(0.0).is_simd_zero());
}
