//! Nested sets and the conversions between them.
//!
//! A set is a subset of another where an injective map, the inclusion,
//! takes each of its elements to an element of the other. The conversion
//! back is partial: it succeeds on the image of the inclusion.

use vstd::prelude::*;

verus! {

/// `Self` is a subset of `T`.
///
/// An implementation proves that the inclusion lands in the subset and that
/// converting back undoes it; the inclusion is therefore injective.
pub trait SubsetOf<T>: Sized {
    /// The inclusion: the element of `T` that equals `self`.
    spec fn spec_to_superset(&self) -> T;

    /// Whether `element` equals an element of `Self`.
    spec fn spec_is_in_subset(element: &T) -> bool;

    /// The element of `Self` that `element` is turned into when no test is
    /// made. It equals `element` where `element` is in the subset.
    spec fn spec_from_superset_unchecked(element: &T) -> Self;

    /// The image of the inclusion lies in the subset.
    proof fn lemma_inclusion_is_in_subset(x: &Self)
        ensures
            Self::spec_is_in_subset(&x.spec_to_superset()),
    ;

    /// Converting back undoes the inclusion.
    proof fn lemma_inclusion_is_undone(x: &Self)
        ensures
            Self::spec_from_superset_unchecked(&x.spec_to_superset()) == *x,
    ;

    /// On the subset, the inclusion undoes the conversion back.
    proof fn lemma_conversion_is_undone(element: &T)
        requires
            Self::spec_is_in_subset(element),
        ensures
            Self::spec_from_superset_unchecked(element).spec_to_superset() == *element,
    ;

    /// The inclusion map: converts `self` to the equal element of the
    /// superset.
    fn to_superset(&self) -> (r: T)
        ensures
            r == self.spec_to_superset(),
    ;

    /// The inverse of the inclusion: the element of `Self` that equals
    /// `element`, or `None` where there is none.
    fn from_superset(element: &T) -> (r: Option<Self>)
        ensures
            r == (if Self::spec_is_in_subset(element) {
                Some(Self::spec_from_superset_unchecked(element))
            } else {
                None
            }),
    {
        if Self::is_in_subset(element) {
            Some(Self::from_superset_unchecked(element))
        } else {
            None
        }
    }

    /// The conversion back without the test. Meant for an `element` that is
    /// known to be in the subset; on any other it still returns a value.
    fn from_superset_unchecked(element: &T) -> (r: Self)
        ensures
            r == Self::spec_from_superset_unchecked(element),
    ;

    /// Checks whether `element` is in the subset `Self`.
    fn is_in_subset(element: &T) -> (b: bool)
        ensures
            b == Self::spec_is_in_subset(element),
    ;
}

/// `Self` is a superset of `T`. Every type has this for each of its
/// subsets; implement [`SubsetOf`] to get it.
pub trait SupersetOf<T>: Sized {
    /// Whether `self` equals an element of `T`.
    spec fn spec_is_in_subset(&self) -> bool;

    /// The element of `T` that `self` is turned into when no test is made.
    spec fn spec_to_subset_unchecked(&self) -> T;

    /// The inclusion of `element` into `Self`.
    spec fn spec_from_subset(element: &T) -> Self;

    /// The inverse of the inclusion: the element of `T` that equals `self`,
    /// or `None` where there is none.
    fn to_subset(&self) -> (r: Option<T>)
        ensures
            r == (if self.spec_is_in_subset() {
                Some(self.spec_to_subset_unchecked())
            } else {
                None
            }),
    {
        if self.is_in_subset() {
            Some(self.to_subset_unchecked())
        } else {
            None
        }
    }

    /// Checks whether `self` is in the subset `T`.
    fn is_in_subset(&self) -> (b: bool)
        ensures
            b == self.spec_is_in_subset(),
    ;

    /// The conversion to the subset without the test.
    fn to_subset_unchecked(&self) -> (r: T)
        ensures
            r == self.spec_to_subset_unchecked(),
    ;

    /// The inclusion map: converts `element` to the equal element of
    /// `Self`.
    fn from_subset(element: &T) -> (r: Self)
        ensures
            r == Self::spec_from_subset(element),
    ;
}

impl<SS: SubsetOf<SP>, SP> SupersetOf<SS> for SP {
    open spec fn spec_is_in_subset(&self) -> bool {
        SS::spec_is_in_subset(self)
    }

    open spec fn spec_to_subset_unchecked(&self) -> SS {
        SS::spec_from_superset_unchecked(self)
    }

    open spec fn spec_from_subset(element: &SS) -> SP {
        element.spec_to_superset()
    }

    fn to_subset(&self) -> (r: Option<SS>) {
        SS::from_superset(self)
    }

    fn is_in_subset(&self) -> (b: bool) {
        SS::is_in_subset(self)
    }

    fn to_subset_unchecked(&self) -> (r: SS) {
        SS::from_superset_unchecked(self)
    }

    fn from_subset(element: &SS) -> (r: SP) {
        element.to_superset()
    }
}

/// Going into a superset and back gives the element that one started from.
pub proof fn lemma_subset_round_trip<SS: SubsetOf<SP>, SP>(x: &SS)
    ensures
        SupersetOf::<SS>::spec_is_in_subset(&SP::spec_from_subset(x)),
        SupersetOf::<SS>::spec_to_subset_unchecked(&SP::spec_from_subset(x)) == *x,
{
    SS::lemma_inclusion_is_in_subset(x);
    SS::lemma_inclusion_is_undone(x);
}

} // verus!
