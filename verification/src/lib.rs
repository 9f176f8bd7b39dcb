//! Elementary functions over scalar fields, written once for real and for
//! complex scalars.
//!
//! A [`RealField`] supplies the primitive operations of a real scalar
//! together with the specification functions that name their results. On top
//! of it, [`ComplexField`] is the one interface that generic code is written
//! against: every real scalar has it, and so has every [`Complex`] number
//! built from real scalars. Each operation's contract states its result as a
//! formula over those primitives, which fixes the principal branch and the
//! treatment of poles and of zero modulus.

pub mod approx_eq;
pub mod field;
pub mod real_field;
pub mod complex_field;
pub mod real_scalar;
pub mod complex;
pub mod complex_elementary;
pub mod laws;
pub mod monoid;
pub mod operator;
pub mod one_operator;
pub mod one_operator_int;
pub mod simd;
pub mod subset;
pub mod subset_int;
pub mod wrapper;

pub use approx_eq::ApproxEq;
pub use complex::{complex_from_polar, Complex};
pub use complex_field::ComplexField;
pub use field::Field;
pub use monoid::{Monoid, MonoidApprox};
pub use one_operator::{
    AbstractGroup, AbstractGroupAbelian, AbstractLoop, AbstractMagma, AbstractMonoid,
    AbstractQuasigroup, AbstractSemigroup,
};
pub use operator::{Additive, Identity, Inverse, Multiplicative, Operator};
pub use real_field::RealField;
pub use simd::SimdComplexField;
pub use subset::{SubsetOf, SupersetOf};
pub use wrapper::{id, Wrapper};
