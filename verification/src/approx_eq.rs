//! Equality up to a tolerance.

use vstd::prelude::*;

verus! {

/// A type whose values can be compared up to a tolerance.
///
/// What counts as approximately equal is the type's own matter: the
/// specification functions name the answers, and the executable functions
/// return them.
pub trait ApproxEq: Sized {
    /// The type of the tolerances.
    type Epsilon;

    /// The absolute tolerance that is used where none is given.
    spec fn spec_default_epsilon() -> Self::Epsilon;

    fn default_epsilon() -> (r: Self::Epsilon)
        ensures
            r == Self::spec_default_epsilon(),
    ;

    /// The relative tolerance that is used where none is given.
    spec fn spec_default_max_relative() -> Self::Epsilon;

    fn default_max_relative() -> (r: Self::Epsilon)
        ensures
            r == Self::spec_default_max_relative(),
    ;

    /// The number of representable values that two values may lie apart
    /// where none is given.
    spec fn spec_default_max_ulps() -> u32;

    fn default_max_ulps() -> (r: u32)
        ensures
            r == Self::spec_default_max_ulps(),
    ;

    /// Whether `self` and `other` differ by at most `epsilon`, or by at
    /// most `max_relative` times the larger of the two.
    spec fn spec_relative_eq(
        &self,
        other: &Self,
        epsilon: Self::Epsilon,
        max_relative: Self::Epsilon,
    ) -> bool;

    fn relative_eq(&self, other: &Self, epsilon: Self::Epsilon, max_relative: Self::Epsilon) -> (b:
        bool)
        ensures
            b == self.spec_relative_eq(other, epsilon, max_relative),
    ;

    /// Whether `self` and `other` differ by at most `epsilon`, or lie at
    /// most `max_ulps` representable values apart.
    spec fn spec_ulps_eq(&self, other: &Self, epsilon: Self::Epsilon, max_ulps: u32) -> bool;

    fn ulps_eq(&self, other: &Self, epsilon: Self::Epsilon, max_ulps: u32) -> (b: bool)
        ensures
            b == self.spec_ulps_eq(other, epsilon, max_ulps),
    ;
}

/// Whether `a` and `b` are equal up to the tolerances that their type uses
/// where none is given.
pub open spec fn spec_approx_eq<M: ApproxEq>(a: &M, b: &M) -> bool {
    a.spec_relative_eq(b, M::spec_default_epsilon(), M::spec_default_max_relative())
}

/// Compares `a` and `b` up to the tolerances that their type uses where
/// none is given.
pub fn approx_eq<M: ApproxEq>(a: &M, b: &M) -> (r: bool)
    ensures
        r == spec_approx_eq(a, b),
{
    a.relative_eq(b, M::default_epsilon(), M::default_max_relative())
}

} // verus!
