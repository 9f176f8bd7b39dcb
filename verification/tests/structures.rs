use alga::approx_eq::{approx_eq, ApproxEq};
use alga::monoid::{Monoid, MonoidApprox};
use alga::one_operator::{
    AbstractGroup, AbstractGroupAbelian, AbstractLoop, AbstractMagma, AbstractMonoid,
    AbstractQuasigroup, AbstractSemigroup,
};
use alga::operator::{Additive, Identity, Inverse, Multiplicative, Operator};
use alga::wrapper::{id, Wrapper};
use approx::{AbsDiffEq, RelativeEq, UlpsEq};

/// Double precision numbers under addition: a group up to rounding.
#[derive(Clone, Copy, Debug, PartialEq, PartialOrd)]
struct A(f64);

impl ApproxEq for A {
    type Epsilon = f64;
    fn spec_default_epsilon() -> f64 { <f64 as AbsDiffEq>::default_epsilon() }
    fn spec_default_max_relative() -> f64 { <f64 as RelativeEq>::default_max_relative() }
    fn spec_default_max_ulps() -> u32 { <f64 as UlpsEq>::default_max_ulps() }
    fn spec_relative_eq(&self, other: &Self, epsilon: f64, max_relative: f64) -> bool {
        RelativeEq::relative_eq(&self.0, &other.0, epsilon, max_relative)
    }
    fn spec_ulps_eq(&self, other: &Self, epsilon: f64, max_ulps: u32) -> bool {
        UlpsEq::ulps_eq(&self.0, &other.0, epsilon, max_ulps)
    }
    fn default_epsilon() -> f64 { Self::spec_default_epsilon() }
    fn default_max_relative() -> f64 { Self::spec_default_max_relative() }
    fn default_max_ulps() -> u32 { Self::spec_default_max_ulps() }
    fn relative_eq(&self, other: &Self, epsilon: f64, max_relative: f64) -> bool {
        self.spec_relative_eq(other, epsilon, max_relative)
    }
    fn ulps_eq(&self, other: &Self, epsilon: f64, max_ulps: u32) -> bool {
        self.spec_ulps_eq(other, epsilon, max_ulps)
    }
}

impl AbstractMagma<Additive> for A {
    fn spec_operate(&self, right: &Self) -> Self { A(self.0 + right.0) }
    fn operate(&self, right: &Self) -> Self { self.spec_operate(right) }
}

impl Identity<Additive> for A {
    fn spec_identity() -> Self { A(0.0) }
    fn identity() -> Self { A(0.0) }
}

impl Inverse<Additive> for A {
    fn spec_inverse(&self) -> Self { A(-self.0) }
    fn inverse(&self) -> Self { A(-self.0) }
}

// The laws hold up to rounding only; they are claimed here for the sake of
// the tests that compare approximately.
impl AbstractSemigroup<Additive> for A {
    fn lemma_is_associative(_a: &Self, _b: &Self, _c: &Self) {}
}

impl AbstractMonoid<Additive> for A {
    fn lemma_operating_identity_element_is_noop(_a: &Self) {}
}

impl AbstractQuasigroup<Additive> for A {
    fn lemma_inv_is_latin_square(_a: &Self, _b: &Self) {}
}

impl AbstractLoop<Additive> for A {}

impl AbstractGroup<Additive> for A {}

impl AbstractGroupAbelian<Additive> for A {
    fn lemma_is_commutative(_a: &Self, _b: &Self) {}
}

impl MonoidApprox<Additive> for A {}

impl Monoid<Additive> for A {}

/// The integers modulo seven: a group under addition, and without zero a
/// group under multiplication.
#[derive(Clone, Copy, Debug, PartialEq, PartialOrd)]
struct Z7(u8);

impl AbstractMagma<Additive> for Z7 {
    fn spec_operate(&self, right: &Self) -> Self { Z7((self.0 + right.0) % 7) }
    fn operate(&self, right: &Self) -> Self { AbstractMagma::<Additive>::spec_operate(self, right) }
}

impl AbstractMagma<Multiplicative> for Z7 {
    fn spec_operate(&self, right: &Self) -> Self { Z7((self.0 * right.0) % 7) }
    fn operate(&self, right: &Self) -> Self { AbstractMagma::<Multiplicative>::spec_operate(self, right) }
}

impl Inverse<Additive> for Z7 {
    fn spec_inverse(&self) -> Self { Z7((7 - self.0) % 7) }
    fn inverse(&self) -> Self { Inverse::<Additive>::spec_inverse(self) }
}

impl Inverse<Multiplicative> for Z7 {
    fn spec_inverse(&self) -> Self {
        let mut r = Z7(1);
        for _ in 0..5 {
            r = Z7((r.0 * self.0) % 7);
        }
        r
    }
    fn inverse(&self) -> Self { Inverse::<Multiplicative>::spec_inverse(self) }
}

// Outside of verified code a law is claimed, not proved.
impl AbstractQuasigroup<Additive> for Z7 {
    fn lemma_inv_is_latin_square(_a: &Self, _b: &Self) {}
}

// Claimed for the elements other than zero; zero has no inverse, which the
// test of the law detects.
impl AbstractQuasigroup<Multiplicative> for Z7 {
    fn lemma_inv_is_latin_square(_a: &Self, _b: &Self) {}
}

#[test]
fn integers_wrap_under_addition() {
    assert_eq!(AbstractMagma::<Additive>::operate(&200u8, &100u8), 44u8);
    assert_eq!(AbstractMagma::<Additive>::operate(&2u8, &3u8), 5u8);
    assert_eq!(AbstractMagma::<Additive>::operate(&u64::MAX, &1u64), 0u64);
    assert_eq!(AbstractMagma::<Additive>::operate(&i32::MAX, &1i32), i32::MIN);
    assert_eq!(AbstractMagma::<Additive>::operate(&-7i16, &5i16), -2i16);
    assert_eq!(AbstractMagma::<Additive>::operate(&65535u16, &2u16), 1u16);
}

#[test]
fn integers_wrap_under_multiplication() {
    assert_eq!(AbstractMagma::<Multiplicative>::operate(&16u8, &16u8), 0u8);
    assert_eq!(AbstractMagma::<Multiplicative>::operate(&6u8, &7u8), 42u8);
    assert_eq!(AbstractMagma::<Multiplicative>::operate(&-3i64, &5i64), -15i64);
    assert_eq!(AbstractMagma::<Multiplicative>::operate(&i8::MIN, &-1i8), i8::MIN);
    assert_eq!(AbstractMagma::<Multiplicative>::operate(&65536u32, &65536u32), 0u32);
}

#[test]
fn op_is_operate() {
    assert_eq!(7u32.op(Additive, &8u32), 15u32);
    assert_eq!(7u32.op(Multiplicative, &8u32), 56u32);
    assert_eq!(7u32.op(Additive::operator_token(), &8u32), 15u32);
}

#[test]
fn identity_elements() {
    assert_eq!(<u8 as Identity<Additive>>::identity(), 0u8);
    assert_eq!(<u8 as Identity<Multiplicative>>::identity(), 1u8);
    assert_eq!(<u64 as Identity<Additive>>::identity(), 0u64);
    assert_eq!(<u64 as Identity<Multiplicative>>::identity(), 1u64);
}

#[test]
fn unsigned_integers_pass_the_tests_of_the_monoid() {
    for a in [0u8, 1, 2, 100, 200, 255] {
        assert!(<u8 as AbstractMonoid<Additive>>::prop_operating_identity_element_is_noop(a));
        assert!(<u8 as AbstractMonoid<Multiplicative>>::prop_operating_identity_element_is_noop(a));
        for b in [0u8, 3, 128, 255] {
            for c in [1u8, 77, 254] {
                assert!(<u8 as AbstractSemigroup<Additive>>::prop_is_associative((a, b, c)));
                assert!(<u8 as AbstractSemigroup<Multiplicative>>::prop_is_associative((a, b, c)));
            }
        }
    }
    assert!(<u64 as AbstractSemigroup<Multiplicative>>::prop_is_associative((
        u64::MAX,
        u64::MAX - 1,
        12345678901234567
    )));
    assert!(<u32 as AbstractSemigroup<Additive>>::prop_is_associative((u32::MAX, u32::MAX, 5)));
    assert!(<u16 as AbstractMonoid<Multiplicative>>::prop_operating_identity_element_is_noop(65535));
}

#[test]
fn quasigroup_test_on_a_group() {
    for a in 0..7 {
        for b in 0..7 {
            assert!(<Z7 as AbstractQuasigroup<Additive>>::prop_inv_is_latin_square((Z7(a), Z7(b))));
        }
    }
    for a in 1..7 {
        for b in 1..7 {
            assert!(<Z7 as AbstractQuasigroup<Multiplicative>>::prop_inv_is_latin_square((
                Z7(a),
                Z7(b)
            )));
        }
    }
    assert!(!<Z7 as AbstractQuasigroup<Multiplicative>>::prop_inv_is_latin_square((Z7(3), Z7(0))));
}

#[test]
fn wrapper_has_the_operators() {
    assert_eq!(Wrapper(200u8) + Wrapper(100u8), Wrapper(44u8));
    assert_eq!(Wrapper(3u8) * Wrapper(5u8), Wrapper(15u8));
    assert_eq!(Wrapper(Z7(3)) + Wrapper(Z7(6)), Wrapper(Z7(2)));
    assert_eq!(-Wrapper(Z7(3)), Wrapper(Z7(4)));
    assert_eq!(Wrapper(Z7(3)) - Wrapper(Z7(6)), Wrapper(Z7(4)));
    assert_eq!(Wrapper(Z7(3)) * Wrapper(Z7(6)), Wrapper(Z7(4)));
    assert_eq!(Wrapper(Z7(3)).recip(), Wrapper(Z7(5)));
    assert_eq!(Wrapper(Z7(3)) / Wrapper(Z7(6)), Wrapper(Z7(4)));
    assert_eq!(Wrapper(Z7(6)) / Wrapper(Z7(3)), Wrapper(Z7(2)));
}

#[test]
fn wrapped_identity() {
    let zero: Wrapper<u8> = id(Additive);
    let one: Wrapper<u8> = id(Multiplicative);
    assert_eq!(zero, Wrapper(0u8));
    assert_eq!(one, Wrapper(1u8));
    assert_eq!(Wrapper(9u8) + zero, Wrapper(9u8));
    assert_eq!(Wrapper(9u8) * one, Wrapper(9u8));
}

#[test]
fn rounding_breaks_the_exact_test_and_not_the_approximate_one() {
    let args = (A(0.1), A(0.2), A(0.3));
    assert!(!<A as AbstractSemigroup<Additive>>::prop_is_associative(args));
    assert!(<A as AbstractSemigroup<Additive>>::prop_is_associative_approx(args));
    assert!(<A as AbstractSemigroup<Additive>>::prop_is_associative((A(1.0), A(2.0), A(3.0))));
    assert!(!<A as AbstractSemigroup<Additive>>::prop_is_associative_approx((
        A(1.0e30),
        A(-1.0e30),
        A(1.0)
    )));
}

#[test]
fn approximate_tests_of_the_other_laws() {
    let args = (A(0.1), A(0.7));
    assert!(<A as AbstractQuasigroup<Additive>>::prop_inv_is_latin_square_approx(args));
    assert!(!<A as AbstractQuasigroup<Additive>>::prop_inv_is_latin_square_approx((
        A(1.0),
        A(1.0e30)
    )));
    assert!(<A as AbstractGroupAbelian<Additive>>::prop_is_commutative_approx(args));
    assert!(<A as AbstractGroupAbelian<Additive>>::prop_is_commutative(args));
    assert!(<A as AbstractMonoid<Additive>>::prop_operating_identity_element_is_noop_approx(A(0.3)));
    assert!(<A as AbstractMonoid<Additive>>::prop_operating_identity_element_is_noop(A(0.3)));
    assert!(!<A as AbstractMonoid<Additive>>::prop_operating_identity_element_is_noop_approx(A(
        f64::NAN
    )));
}

#[test]
fn monoid_tests_of_the_identity() {
    assert!(<A as MonoidApprox<Additive>>::prop_operating_identity_is_noop_approx(A(2.5)));
    assert!(<A as Monoid<Additive>>::prop_operating_identity_is_noop(A(2.5)));
    assert!(!<A as MonoidApprox<Additive>>::prop_operating_identity_is_noop_approx(A(f64::NAN)));
    assert!(!<A as Monoid<Additive>>::prop_operating_identity_is_noop(A(f64::NAN)));
}

#[test]
fn wrapper_compares_as_its_element_does() {
    let a = Wrapper(A(0.1 + 0.2));
    let b = Wrapper(A(0.3));
    assert!(a != b);
    assert!(approx_eq(&a, &b));
    assert!(!approx_eq(&a, &Wrapper(A(0.31))));
    assert!(a.relative_eq(&Wrapper(A(0.31)), 0.0, 0.1));
    assert!(!a.relative_eq(&Wrapper(A(0.31)), 0.0, 0.001));
    assert!(a.relative_eq(&Wrapper(A(0.31)), 0.02, 0.0));
    assert!(a.ulps_eq(&b, 0.0, 4));
    assert!(!a.ulps_eq(&b, 0.0, 0));
    assert_eq!(<Wrapper<A> as ApproxEq>::default_epsilon(), f64::EPSILON);
    assert_eq!(<Wrapper<A> as ApproxEq>::default_max_relative(), f64::EPSILON);
    assert_eq!(<Wrapper<A> as ApproxEq>::default_max_ulps(), 4);
    assert_eq!(Wrapper(A(1.5)) + Wrapper(A(2.0)), Wrapper(A(3.5)));
    assert_eq!(-Wrapper(A(1.5)), Wrapper(A(-1.5)));
    assert_eq!(Wrapper(A(1.5)) - Wrapper(A(2.0)), Wrapper(A(-0.5)));
}

#[test]
fn signed_integers_are_a_group_under_addition() {
    assert_eq!(<i32 as Identity<Additive>>::identity(), 0i32);
    assert_eq!(Inverse::<Additive>::inverse(&5i32), -5i32);
    assert_eq!(Inverse::<Additive>::inverse(&-128i16), 128i16);
    assert_eq!(Inverse::<Additive>::inverse(&i8::MIN), i8::MIN);
    assert_eq!(Inverse::<Additive>::inverse(&0i64), 0i64);
    for a in [i8::MIN, -1, 0, 1, 100, i8::MAX] {
        assert!(<i8 as AbstractMonoid<Additive>>::prop_operating_identity_element_is_noop(a));
        for b in [i8::MIN, -77, 0, 5, i8::MAX] {
            assert!(<i8 as AbstractQuasigroup<Additive>>::prop_inv_is_latin_square((a, b)));
            assert!(<i8 as AbstractGroupAbelian<Additive>>::prop_is_commutative((a, b)));
            for c in [i8::MIN, 3, i8::MAX] {
                assert!(<i8 as AbstractSemigroup<Additive>>::prop_is_associative((a, b, c)));
            }
        }
    }
    assert!(<i64 as AbstractQuasigroup<Additive>>::prop_inv_is_latin_square((i64::MAX, i64::MIN)));
}

#[test]
fn wrapper_subtracts_signed_integers() {
    assert_eq!(Wrapper(5i32) - Wrapper(7i32), Wrapper(-2i32));
    assert_eq!(-Wrapper(5i32), Wrapper(-5i32));
    assert_eq!(-Wrapper(i8::MIN), Wrapper(i8::MIN));
    assert_eq!(Wrapper(i16::MIN) - Wrapper(1i16), Wrapper(i16::MAX));
    assert_eq!(Wrapper(i64::MAX) + Wrapper(1i64), Wrapper(i64::MIN));
}
