//! The primitive integers under addition and under multiplication.
//!
//! Both operators wrap around at the bounds of the type, so that every
//! integer type is closed under them. The unsigned integers are then the
//! integers modulo a power of two: a monoid under each operator. The signed
//! integers, where every element has a negative, are an abelian group under
//! addition.

use vstd::prelude::*;
use vstd::arithmetic::div_mod::lemma_mul_mod_noop_general;
use vstd::arithmetic::mul::lemma_mul_is_associative;
use crate::operator::{Additive, Identity, Inverse, Multiplicative};
use crate::one_operator::{
    AbstractGroup, AbstractGroupAbelian, AbstractLoop, AbstractMagma, AbstractMonoid,
    AbstractQuasigroup, AbstractSemigroup,
};

verus! {

/// Multiplication modulo `m` is associative.
pub proof fn lemma_mul_mod_is_associative(x: int, y: int, z: int, m: int)
    requires
        0 < m,
    ensures
        (((x * y) % m) * z) % m == (x * ((y * z) % m)) % m,
{
    lemma_mul_mod_noop_general(x * y, z, m);
    lemma_mul_mod_noop_general(x, y * z, m);
    lemma_mul_is_associative(x, y, z);
}

impl AbstractMagma<Additive> for u8 {
    open spec fn spec_operate(&self, right: &u8) -> u8 {
        vstd::wrapping::u8_specs::wrapping_add(*self, *right)
    }

    fn operate(&self, right: &u8) -> (r: u8) {
        self.wrapping_add(*right)
    }
}

impl AbstractMagma<Multiplicative> for u8 {
    open spec fn spec_operate(&self, right: &u8) -> u8 {
        vstd::wrapping::u8_specs::wrapping_mul(*self, *right)
    }

    fn operate(&self, right: &u8) -> (r: u8) {
        self.wrapping_mul(*right)
    }
}

impl AbstractMagma<Additive> for u16 {
    open spec fn spec_operate(&self, right: &u16) -> u16 {
        vstd::wrapping::u16_specs::wrapping_add(*self, *right)
    }

    fn operate(&self, right: &u16) -> (r: u16) {
        self.wrapping_add(*right)
    }
}

impl AbstractMagma<Multiplicative> for u16 {
    open spec fn spec_operate(&self, right: &u16) -> u16 {
        vstd::wrapping::u16_specs::wrapping_mul(*self, *right)
    }

    fn operate(&self, right: &u16) -> (r: u16) {
        self.wrapping_mul(*right)
    }
}

impl AbstractMagma<Additive> for u32 {
    open spec fn spec_operate(&self, right: &u32) -> u32 {
        vstd::wrapping::u32_specs::wrapping_add(*self, *right)
    }

    fn operate(&self, right: &u32) -> (r: u32) {
        self.wrapping_add(*right)
    }
}

impl AbstractMagma<Multiplicative> for u32 {
    open spec fn spec_operate(&self, right: &u32) -> u32 {
        vstd::wrapping::u32_specs::wrapping_mul(*self, *right)
    }

    fn operate(&self, right: &u32) -> (r: u32) {
        self.wrapping_mul(*right)
    }
}

impl AbstractMagma<Additive> for u64 {
    open spec fn spec_operate(&self, right: &u64) -> u64 {
        vstd::wrapping::u64_specs::wrapping_add(*self, *right)
    }

    fn operate(&self, right: &u64) -> (r: u64) {
        self.wrapping_add(*right)
    }
}

impl AbstractMagma<Multiplicative> for u64 {
    open spec fn spec_operate(&self, right: &u64) -> u64 {
        vstd::wrapping::u64_specs::wrapping_mul(*self, *right)
    }

    fn operate(&self, right: &u64) -> (r: u64) {
        self.wrapping_mul(*right)
    }
}

impl AbstractMagma<Additive> for i8 {
    open spec fn spec_operate(&self, right: &i8) -> i8 {
        vstd::wrapping::i8_specs::wrapping_add(*self, *right)
    }

    fn operate(&self, right: &i8) -> (r: i8) {
        self.wrapping_add(*right)
    }
}

impl AbstractMagma<Multiplicative> for i8 {
    open spec fn spec_operate(&self, right: &i8) -> i8 {
        vstd::wrapping::i8_specs::wrapping_mul(*self, *right)
    }

    fn operate(&self, right: &i8) -> (r: i8) {
        self.wrapping_mul(*right)
    }
}

impl AbstractMagma<Additive> for i16 {
    open spec fn spec_operate(&self, right: &i16) -> i16 {
        vstd::wrapping::i16_specs::wrapping_add(*self, *right)
    }

    fn operate(&self, right: &i16) -> (r: i16) {
        self.wrapping_add(*right)
    }
}

impl AbstractMagma<Multiplicative> for i16 {
    open spec fn spec_operate(&self, right: &i16) -> i16 {
        vstd::wrapping::i16_specs::wrapping_mul(*self, *right)
    }

    fn operate(&self, right: &i16) -> (r: i16) {
        self.wrapping_mul(*right)
    }
}

impl AbstractMagma<Additive> for i32 {
    open spec fn spec_operate(&self, right: &i32) -> i32 {
        vstd::wrapping::i32_specs::wrapping_add(*self, *right)
    }

    fn operate(&self, right: &i32) -> (r: i32) {
        self.wrapping_add(*right)
    }
}

impl AbstractMagma<Multiplicative> for i32 {
    open spec fn spec_operate(&self, right: &i32) -> i32 {
        vstd::wrapping::i32_specs::wrapping_mul(*self, *right)
    }

    fn operate(&self, right: &i32) -> (r: i32) {
        self.wrapping_mul(*right)
    }
}

impl AbstractMagma<Additive> for i64 {
    open spec fn spec_operate(&self, right: &i64) -> i64 {
        vstd::wrapping::i64_specs::wrapping_add(*self, *right)
    }

    fn operate(&self, right: &i64) -> (r: i64) {
        self.wrapping_add(*right)
    }
}

impl AbstractMagma<Multiplicative> for i64 {
    open spec fn spec_operate(&self, right: &i64) -> i64 {
        vstd::wrapping::i64_specs::wrapping_mul(*self, *right)
    }

    fn operate(&self, right: &i64) -> (r: i64) {
        self.wrapping_mul(*right)
    }
}

impl Identity<Additive> for u8 {
    open spec fn spec_identity() -> u8 {
        0
    }

    fn identity() -> (r: u8) {
        0
    }
}

impl AbstractSemigroup<Additive> for u8 {
    proof fn lemma_is_associative(a: &u8, b: &u8, c: &u8) {    }
}

impl AbstractMonoid<Additive> for u8 {
    proof fn lemma_operating_identity_element_is_noop(a: &u8) {
    }
}

impl Identity<Multiplicative> for u8 {
    open spec fn spec_identity() -> u8 {
        1
    }

    fn identity() -> (r: u8) {
        1
    }
}

impl AbstractSemigroup<Multiplicative> for u8 {
    proof fn lemma_is_associative(a: &u8, b: &u8, c: &u8) {
        lemma_mul_mod_is_associative(*a as int, *b as int, *c as int, 0x100);
    }
}

impl AbstractMonoid<Multiplicative> for u8 {
    proof fn lemma_operating_identity_element_is_noop(a: &u8) {
    }
}

impl Identity<Additive> for u16 {
    open spec fn spec_identity() -> u16 {
        0
    }

    fn identity() -> (r: u16) {
        0
    }
}

impl AbstractSemigroup<Additive> for u16 {
    proof fn lemma_is_associative(a: &u16, b: &u16, c: &u16) {    }
}

impl AbstractMonoid<Additive> for u16 {
    proof fn lemma_operating_identity_element_is_noop(a: &u16) {
    }
}

impl Identity<Multiplicative> for u16 {
    open spec fn spec_identity() -> u16 {
        1
    }

    fn identity() -> (r: u16) {
        1
    }
}

impl AbstractSemigroup<Multiplicative> for u16 {
    proof fn lemma_is_associative(a: &u16, b: &u16, c: &u16) {
        lemma_mul_mod_is_associative(*a as int, *b as int, *c as int, 0x1_0000);
    }
}

impl AbstractMonoid<Multiplicative> for u16 {
    proof fn lemma_operating_identity_element_is_noop(a: &u16) {
    }
}

impl Identity<Additive> for u32 {
    open spec fn spec_identity() -> u32 {
        0
    }

    fn identity() -> (r: u32) {
        0
    }
}

impl AbstractSemigroup<Additive> for u32 {
    proof fn lemma_is_associative(a: &u32, b: &u32, c: &u32) {    }
}

impl AbstractMonoid<Additive> for u32 {
    proof fn lemma_operating_identity_element_is_noop(a: &u32) {
    }
}

impl Identity<Multiplicative> for u32 {
    open spec fn spec_identity() -> u32 {
        1
    }

    fn identity() -> (r: u32) {
        1
    }
}

impl AbstractSemigroup<Multiplicative> for u32 {
    proof fn lemma_is_associative(a: &u32, b: &u32, c: &u32) {
        lemma_mul_mod_is_associative(*a as int, *b as int, *c as int, 0x1_0000_0000);
    }
}

impl AbstractMonoid<Multiplicative> for u32 {
    proof fn lemma_operating_identity_element_is_noop(a: &u32) {
    }
}

impl Identity<Additive> for u64 {
    open spec fn spec_identity() -> u64 {
        0
    }

    fn identity() -> (r: u64) {
        0
    }
}

impl AbstractSemigroup<Additive> for u64 {
    proof fn lemma_is_associative(a: &u64, b: &u64, c: &u64) {    }
}

impl AbstractMonoid<Additive> for u64 {
    proof fn lemma_operating_identity_element_is_noop(a: &u64) {
    }
}

impl Identity<Multiplicative> for u64 {
    open spec fn spec_identity() -> u64 {
        1
    }

    fn identity() -> (r: u64) {
        1
    }
}

impl AbstractSemigroup<Multiplicative> for u64 {
    proof fn lemma_is_associative(a: &u64, b: &u64, c: &u64) {
        lemma_mul_mod_is_associative(*a as int, *b as int, *c as int, 0x1_0000_0000_0000_0000);
    }
}

impl AbstractMonoid<Multiplicative> for u64 {
    proof fn lemma_operating_identity_element_is_noop(a: &u64) {
    }
}

impl Identity<Additive> for i8 {
    open spec fn spec_identity() -> i8 {
        0
    }

    fn identity() -> (r: i8) {
        0
    }
}

impl Inverse<Additive> for i8 {
    /// The negative, which wraps at the least value: that value is its own
    /// inverse.
    open spec fn spec_inverse(&self) -> i8 {
        vstd::wrapping::i8_specs::wrapping_sub(0, *self)
    }

    fn inverse(&self) -> (r: i8) {
        let zero: i8 = 0;
        zero.wrapping_sub(*self)
    }
}

impl AbstractSemigroup<Additive> for i8 {
    proof fn lemma_is_associative(a: &i8, b: &i8, c: &i8) {
    }
}

impl AbstractMonoid<Additive> for i8 {
    proof fn lemma_operating_identity_element_is_noop(a: &i8) {
    }
}

impl AbstractQuasigroup<Additive> for i8 {
    proof fn lemma_inv_is_latin_square(a: &i8, b: &i8) {
    }
}

impl AbstractLoop<Additive> for i8 {
}

impl AbstractGroup<Additive> for i8 {
}

impl AbstractGroupAbelian<Additive> for i8 {
    proof fn lemma_is_commutative(a: &i8, b: &i8) {
    }
}

impl Identity<Additive> for i16 {
    open spec fn spec_identity() -> i16 {
        0
    }

    fn identity() -> (r: i16) {
        0
    }
}

impl Inverse<Additive> for i16 {
    /// The negative, which wraps at the least value: that value is its own
    /// inverse.
    open spec fn spec_inverse(&self) -> i16 {
        vstd::wrapping::i16_specs::wrapping_sub(0, *self)
    }

    fn inverse(&self) -> (r: i16) {
        let zero: i16 = 0;
        zero.wrapping_sub(*self)
    }
}

impl AbstractSemigroup<Additive> for i16 {
    proof fn lemma_is_associative(a: &i16, b: &i16, c: &i16) {
    }
}

impl AbstractMonoid<Additive> for i16 {
    proof fn lemma_operating_identity_element_is_noop(a: &i16) {
    }
}

impl AbstractQuasigroup<Additive> for i16 {
    proof fn lemma_inv_is_latin_square(a: &i16, b: &i16) {
    }
}

impl AbstractLoop<Additive> for i16 {
}

impl AbstractGroup<Additive> for i16 {
}

impl AbstractGroupAbelian<Additive> for i16 {
    proof fn lemma_is_commutative(a: &i16, b: &i16) {
    }
}

impl Identity<Additive> for i32 {
    open spec fn spec_identity() -> i32 {
        0
    }

    fn identity() -> (r: i32) {
        0
    }
}

impl Inverse<Additive> for i32 {
    /// The negative, which wraps at the least value: that value is its own
    /// inverse.
    open spec fn spec_inverse(&self) -> i32 {
        vstd::wrapping::i32_specs::wrapping_sub(0, *self)
    }

    fn inverse(&self) -> (r: i32) {
        let zero: i32 = 0;
        zero.wrapping_sub(*self)
    }
}

impl AbstractSemigroup<Additive> for i32 {
    proof fn lemma_is_associative(a: &i32, b: &i32, c: &i32) {
    }
}

impl AbstractMonoid<Additive> for i32 {
    proof fn lemma_operating_identity_element_is_noop(a: &i32) {
    }
}

impl AbstractQuasigroup<Additive> for i32 {
    proof fn lemma_inv_is_latin_square(a: &i32, b: &i32) {
    }
}

impl AbstractLoop<Additive> for i32 {
}

impl AbstractGroup<Additive> for i32 {
}

impl AbstractGroupAbelian<Additive> for i32 {
    proof fn lemma_is_commutative(a: &i32, b: &i32) {
    }
}

impl Identity<Additive> for i64 {
    open spec fn spec_identity() -> i64 {
        0
    }

    fn identity() -> (r: i64) {
        0
    }
}

impl Inverse<Additive> for i64 {
    /// The negative, which wraps at the least value: that value is its own
    /// inverse.
    open spec fn spec_inverse(&self) -> i64 {
        vstd::wrapping::i64_specs::wrapping_sub(0, *self)
    }

    fn inverse(&self) -> (r: i64) {
        let zero: i64 = 0;
        zero.wrapping_sub(*self)
    }
}

impl AbstractSemigroup<Additive> for i64 {
    proof fn lemma_is_associative(a: &i64, b: &i64, c: &i64) {
    }
}

impl AbstractMonoid<Additive> for i64 {
    proof fn lemma_operating_identity_element_is_noop(a: &i64) {
    }
}

impl AbstractQuasigroup<Additive> for i64 {
    proof fn lemma_inv_is_latin_square(a: &i64, b: &i64) {
    }
}

impl AbstractLoop<Additive> for i64 {
}

impl AbstractGroup<Additive> for i64 {
}

impl AbstractGroupAbelian<Additive> for i64 {
    proof fn lemma_is_commutative(a: &i64, b: &i64) {
    }
}

} // verus!
