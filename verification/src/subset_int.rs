//! The primitive integers as nested sets: each integer type is a subset of
//! itself and of every integer type that holds all of its values.

use vstd::prelude::*;
use crate::subset::SubsetOf;

verus! {

impl SubsetOf<u8> for u8 {
    open spec fn spec_to_superset(&self) -> u8 {
        *self
    }

    open spec fn spec_is_in_subset(element: &u8) -> bool {
        true
    }

    open spec fn spec_from_superset_unchecked(element: &u8) -> u8 {
        *element
    }

    proof fn lemma_inclusion_is_in_subset(x: &u8) {
    }

    proof fn lemma_inclusion_is_undone(x: &u8) {
    }

    proof fn lemma_conversion_is_undone(element: &u8) {
    }

    fn to_superset(&self) -> (r: u8) {
        *self
    }

    fn from_superset_unchecked(element: &u8) -> (r: u8) {
        *element
    }

    fn is_in_subset(element: &u8) -> (b: bool) {
        true
    }
}

impl SubsetOf<u16> for u8 {
    open spec fn spec_to_superset(&self) -> u16 {
        *self as u16
    }

    open spec fn spec_is_in_subset(element: &u16) -> bool {
        u8::MIN <= *element <= u8::MAX
    }

    open spec fn spec_from_superset_unchecked(element: &u16) -> u8 {
        *element as u8
    }

    proof fn lemma_inclusion_is_in_subset(x: &u8) {
    }

    proof fn lemma_inclusion_is_undone(x: &u8) {
    }

    proof fn lemma_conversion_is_undone(element: &u16) {
    }

    fn to_superset(&self) -> (r: u16) {
        *self as u16
    }

    fn from_superset_unchecked(element: &u16) -> (r: u8) {
        *element as u8
    }

    fn is_in_subset(element: &u16) -> (b: bool) {
        u8::MIN as u16 <= *element && *element <= u8::MAX as u16
    }
}

impl SubsetOf<u32> for u8 {
    open spec fn spec_to_superset(&self) -> u32 {
        *self as u32
    }

    open spec fn spec_is_in_subset(element: &u32) -> bool {
        u8::MIN <= *element <= u8::MAX
    }

    open spec fn spec_from_superset_unchecked(element: &u32) -> u8 {
        *element as u8
    }

    proof fn lemma_inclusion_is_in_subset(x: &u8) {
    }

    proof fn lemma_inclusion_is_undone(x: &u8) {
    }

    proof fn lemma_conversion_is_undone(element: &u32) {
    }

    fn to_superset(&self) -> (r: u32) {
        *self as u32
    }

    fn from_superset_unchecked(element: &u32) -> (r: u8) {
        *element as u8
    }

    fn is_in_subset(element: &u32) -> (b: bool) {
        u8::MIN as u32 <= *element && *element <= u8::MAX as u32
    }
}

impl SubsetOf<u64> for u8 {
    open spec fn spec_to_superset(&self) -> u64 {
        *self as u64
    }

    open spec fn spec_is_in_subset(element: &u64) -> bool {
        u8::MIN <= *element <= u8::MAX
    }

    open spec fn spec_from_superset_unchecked(element: &u64) -> u8 {
        *element as u8
    }

    proof fn lemma_inclusion_is_in_subset(x: &u8) {
    }

    proof fn lemma_inclusion_is_undone(x: &u8) {
    }

    proof fn lemma_conversion_is_undone(element: &u64) {
    }

    fn to_superset(&self) -> (r: u64) {
        *self as u64
    }

    fn from_superset_unchecked(element: &u64) -> (r: u8) {
        *element as u8
    }

    fn is_in_subset(element: &u64) -> (b: bool) {
        u8::MIN as u64 <= *element && *element <= u8::MAX as u64
    }
}

impl SubsetOf<usize> for u8 {
    open spec fn spec_to_superset(&self) -> usize {
        *self as usize
    }

    open spec fn spec_is_in_subset(element: &usize) -> bool {
        u8::MIN <= *element <= u8::MAX
    }

    open spec fn spec_from_superset_unchecked(element: &usize) -> u8 {
        *element as u8
    }

    proof fn lemma_inclusion_is_in_subset(x: &u8) {
    }

    proof fn lemma_inclusion_is_undone(x: &u8) {
    }

    proof fn lemma_conversion_is_undone(element: &usize) {
    }

    fn to_superset(&self) -> (r: usize) {
        *self as usize
    }

    fn from_superset_unchecked(element: &usize) -> (r: u8) {
        *element as u8
    }

    fn is_in_subset(element: &usize) -> (b: bool) {
        u8::MIN as usize <= *element && *element <= u8::MAX as usize
    }
}

impl SubsetOf<i16> for u8 {
    open spec fn spec_to_superset(&self) -> i16 {
        *self as i16
    }

    open spec fn spec_is_in_subset(element: &i16) -> bool {
        u8::MIN <= *element <= u8::MAX
    }

    open spec fn spec_from_superset_unchecked(element: &i16) -> u8 {
        *element as u8
    }

    proof fn lemma_inclusion_is_in_subset(x: &u8) {
    }

    proof fn lemma_inclusion_is_undone(x: &u8) {
    }

    proof fn lemma_conversion_is_undone(element: &i16) {
    }

    fn to_superset(&self) -> (r: i16) {
        *self as i16
    }

    fn from_superset_unchecked(element: &i16) -> (r: u8) {
        *element as u8
    }

    fn is_in_subset(element: &i16) -> (b: bool) {
        u8::MIN as i16 <= *element && *element <= u8::MAX as i16
    }
}

impl SubsetOf<i32> for u8 {
    open spec fn spec_to_superset(&self) -> i32 {
        *self as i32
    }

    open spec fn spec_is_in_subset(element: &i32) -> bool {
        u8::MIN <= *element <= u8::MAX
    }

    open spec fn spec_from_superset_unchecked(element: &i32) -> u8 {
        *element as u8
    }

    proof fn lemma_inclusion_is_in_subset(x: &u8) {
    }

    proof fn lemma_inclusion_is_undone(x: &u8) {
    }

    proof fn lemma_conversion_is_undone(element: &i32) {
    }

    fn to_superset(&self) -> (r: i32) {
        *self as i32
    }

    fn from_superset_unchecked(element: &i32) -> (r: u8) {
        *element as u8
    }

    fn is_in_subset(element: &i32) -> (b: bool) {
        u8::MIN as i32 <= *element && *element <= u8::MAX as i32
    }
}

impl SubsetOf<i64> for u8 {
    open spec fn spec_to_superset(&self) -> i64 {
        *self as i64
    }

    open spec fn spec_is_in_subset(element: &i64) -> bool {
        u8::MIN <= *element <= u8::MAX
    }

    open spec fn spec_from_superset_unchecked(element: &i64) -> u8 {
        *element as u8
    }

    proof fn lemma_inclusion_is_in_subset(x: &u8) {
    }

    proof fn lemma_inclusion_is_undone(x: &u8) {
    }

    proof fn lemma_conversion_is_undone(element: &i64) {
    }

    fn to_superset(&self) -> (r: i64) {
        *self as i64
    }

    fn from_superset_unchecked(element: &i64) -> (r: u8) {
        *element as u8
    }

    fn is_in_subset(element: &i64) -> (b: bool) {
        u8::MIN as i64 <= *element && *element <= u8::MAX as i64
    }
}

impl SubsetOf<isize> for u8 {
    open spec fn spec_to_superset(&self) -> isize {
        *self as isize
    }

    open spec fn spec_is_in_subset(element: &isize) -> bool {
        u8::MIN <= *element <= u8::MAX
    }

    open spec fn spec_from_superset_unchecked(element: &isize) -> u8 {
        *element as u8
    }

    proof fn lemma_inclusion_is_in_subset(x: &u8) {
    }

    proof fn lemma_inclusion_is_undone(x: &u8) {
    }

    proof fn lemma_conversion_is_undone(element: &isize) {
    }

    fn to_superset(&self) -> (r: isize) {
        *self as isize
    }

    fn from_superset_unchecked(element: &isize) -> (r: u8) {
        *element as u8
    }

    fn is_in_subset(element: &isize) -> (b: bool) {
        u8::MIN as isize <= *element && *element <= u8::MAX as isize
    }
}

impl SubsetOf<u16> for u16 {
    open spec fn spec_to_superset(&self) -> u16 {
        *self
    }

    open spec fn spec_is_in_subset(element: &u16) -> bool {
        true
    }

    open spec fn spec_from_superset_unchecked(element: &u16) -> u16 {
        *element
    }

    proof fn lemma_inclusion_is_in_subset(x: &u16) {
    }

    proof fn lemma_inclusion_is_undone(x: &u16) {
    }

    proof fn lemma_conversion_is_undone(element: &u16) {
    }

    fn to_superset(&self) -> (r: u16) {
        *self
    }

    fn from_superset_unchecked(element: &u16) -> (r: u16) {
        *element
    }

    fn is_in_subset(element: &u16) -> (b: bool) {
        true
    }
}

impl SubsetOf<u32> for u16 {
    open spec fn spec_to_superset(&self) -> u32 {
        *self as u32
    }

    open spec fn spec_is_in_subset(element: &u32) -> bool {
        u16::MIN <= *element <= u16::MAX
    }

    open spec fn spec_from_superset_unchecked(element: &u32) -> u16 {
        *element as u16
    }

    proof fn lemma_inclusion_is_in_subset(x: &u16) {
    }

    proof fn lemma_inclusion_is_undone(x: &u16) {
    }

    proof fn lemma_conversion_is_undone(element: &u32) {
    }

    fn to_superset(&self) -> (r: u32) {
        *self as u32
    }

    fn from_superset_unchecked(element: &u32) -> (r: u16) {
        *element as u16
    }

    fn is_in_subset(element: &u32) -> (b: bool) {
        u16::MIN as u32 <= *element && *element <= u16::MAX as u32
    }
}

impl SubsetOf<u64> for u16 {
    open spec fn spec_to_superset(&self) -> u64 {
        *self as u64
    }

    open spec fn spec_is_in_subset(element: &u64) -> bool {
        u16::MIN <= *element <= u16::MAX
    }

    open spec fn spec_from_superset_unchecked(element: &u64) -> u16 {
        *element as u16
    }

    proof fn lemma_inclusion_is_in_subset(x: &u16) {
    }

    proof fn lemma_inclusion_is_undone(x: &u16) {
    }

    proof fn lemma_conversion_is_undone(element: &u64) {
    }

    fn to_superset(&self) -> (r: u64) {
        *self as u64
    }

    fn from_superset_unchecked(element: &u64) -> (r: u16) {
        *element as u16
    }

    fn is_in_subset(element: &u64) -> (b: bool) {
        u16::MIN as u64 <= *element && *element <= u16::MAX as u64
    }
}

impl SubsetOf<usize> for u16 {
    open spec fn spec_to_superset(&self) -> usize {
        *self as usize
    }

    open spec fn spec_is_in_subset(element: &usize) -> bool {
        u16::MIN <= *element <= u16::MAX
    }

    open spec fn spec_from_superset_unchecked(element: &usize) -> u16 {
        *element as u16
    }

    proof fn lemma_inclusion_is_in_subset(x: &u16) {
    }

    proof fn lemma_inclusion_is_undone(x: &u16) {
    }

    proof fn lemma_conversion_is_undone(element: &usize) {
    }

    fn to_superset(&self) -> (r: usize) {
        *self as usize
    }

    fn from_superset_unchecked(element: &usize) -> (r: u16) {
        *element as u16
    }

    fn is_in_subset(element: &usize) -> (b: bool) {
        u16::MIN as usize <= *element && *element <= u16::MAX as usize
    }
}

impl SubsetOf<i32> for u16 {
    open spec fn spec_to_superset(&self) -> i32 {
        *self as i32
    }

    open spec fn spec_is_in_subset(element: &i32) -> bool {
        u16::MIN <= *element <= u16::MAX
    }

    open spec fn spec_from_superset_unchecked(element: &i32) -> u16 {
        *element as u16
    }

    proof fn lemma_inclusion_is_in_subset(x: &u16) {
    }

    proof fn lemma_inclusion_is_undone(x: &u16) {
    }

    proof fn lemma_conversion_is_undone(element: &i32) {
    }

    fn to_superset(&self) -> (r: i32) {
        *self as i32
    }

    fn from_superset_unchecked(element: &i32) -> (r: u16) {
        *element as u16
    }

    fn is_in_subset(element: &i32) -> (b: bool) {
        u16::MIN as i32 <= *element && *element <= u16::MAX as i32
    }
}

impl SubsetOf<i64> for u16 {
    open spec fn spec_to_superset(&self) -> i64 {
        *self as i64
    }

    open spec fn spec_is_in_subset(element: &i64) -> bool {
        u16::MIN <= *element <= u16::MAX
    }

    open spec fn spec_from_superset_unchecked(element: &i64) -> u16 {
        *element as u16
    }

    proof fn lemma_inclusion_is_in_subset(x: &u16) {
    }

    proof fn lemma_inclusion_is_undone(x: &u16) {
    }

    proof fn lemma_conversion_is_undone(element: &i64) {
    }

    fn to_superset(&self) -> (r: i64) {
        *self as i64
    }

    fn from_superset_unchecked(element: &i64) -> (r: u16) {
        *element as u16
    }

    fn is_in_subset(element: &i64) -> (b: bool) {
        u16::MIN as i64 <= *element && *element <= u16::MAX as i64
    }
}

impl SubsetOf<isize> for u16 {
    open spec fn spec_to_superset(&self) -> isize {
        *self as isize
    }

    open spec fn spec_is_in_subset(element: &isize) -> bool {
        u16::MIN <= *element <= u16::MAX
    }

    open spec fn spec_from_superset_unchecked(element: &isize) -> u16 {
        *element as u16
    }

    proof fn lemma_inclusion_is_in_subset(x: &u16) {
    }

    proof fn lemma_inclusion_is_undone(x: &u16) {
    }

    proof fn lemma_conversion_is_undone(element: &isize) {
    }

    fn to_superset(&self) -> (r: isize) {
        *self as isize
    }

    fn from_superset_unchecked(element: &isize) -> (r: u16) {
        *element as u16
    }

    fn is_in_subset(element: &isize) -> (b: bool) {
        u16::MIN as isize <= *element && *element <= u16::MAX as isize
    }
}

impl SubsetOf<u32> for u32 {
    open spec fn spec_to_superset(&self) -> u32 {
        *self
    }

    open spec fn spec_is_in_subset(element: &u32) -> bool {
        true
    }

    open spec fn spec_from_superset_unchecked(element: &u32) -> u32 {
        *element
    }

    proof fn lemma_inclusion_is_in_subset(x: &u32) {
    }

    proof fn lemma_inclusion_is_undone(x: &u32) {
    }

    proof fn lemma_conversion_is_undone(element: &u32) {
    }

    fn to_superset(&self) -> (r: u32) {
        *self
    }

    fn from_superset_unchecked(element: &u32) -> (r: u32) {
        *element
    }

    fn is_in_subset(element: &u32) -> (b: bool) {
        true
    }
}

impl SubsetOf<u64> for u32 {
    open spec fn spec_to_superset(&self) -> u64 {
        *self as u64
    }

    open spec fn spec_is_in_subset(element: &u64) -> bool {
        u32::MIN <= *element <= u32::MAX
    }

    open spec fn spec_from_superset_unchecked(element: &u64) -> u32 {
        *element as u32
    }

    proof fn lemma_inclusion_is_in_subset(x: &u32) {
    }

    proof fn lemma_inclusion_is_undone(x: &u32) {
    }

    proof fn lemma_conversion_is_undone(element: &u64) {
    }

    fn to_superset(&self) -> (r: u64) {
        *self as u64
    }

    fn from_superset_unchecked(element: &u64) -> (r: u32) {
        *element as u32
    }

    fn is_in_subset(element: &u64) -> (b: bool) {
        u32::MIN as u64 <= *element && *element <= u32::MAX as u64
    }
}

impl SubsetOf<usize> for u32 {
    open spec fn spec_to_superset(&self) -> usize {
        *self as usize
    }

    open spec fn spec_is_in_subset(element: &usize) -> bool {
        u32::MIN <= *element <= u32::MAX
    }

    open spec fn spec_from_superset_unchecked(element: &usize) -> u32 {
        *element as u32
    }

    proof fn lemma_inclusion_is_in_subset(x: &u32) {
    }

    proof fn lemma_inclusion_is_undone(x: &u32) {
    }

    proof fn lemma_conversion_is_undone(element: &usize) {
    }

    fn to_superset(&self) -> (r: usize) {
        *self as usize
    }

    fn from_superset_unchecked(element: &usize) -> (r: u32) {
        *element as u32
    }

    fn is_in_subset(element: &usize) -> (b: bool) {
        u32::MIN as usize <= *element && *element <= u32::MAX as usize
    }
}

impl SubsetOf<i64> for u32 {
    open spec fn spec_to_superset(&self) -> i64 {
        *self as i64
    }

    open spec fn spec_is_in_subset(element: &i64) -> bool {
        u32::MIN <= *element <= u32::MAX
    }

    open spec fn spec_from_superset_unchecked(element: &i64) -> u32 {
        *element as u32
    }

    proof fn lemma_inclusion_is_in_subset(x: &u32) {
    }

    proof fn lemma_inclusion_is_undone(x: &u32) {
    }

    proof fn lemma_conversion_is_undone(element: &i64) {
    }

    fn to_superset(&self) -> (r: i64) {
        *self as i64
    }

    fn from_superset_unchecked(element: &i64) -> (r: u32) {
        *element as u32
    }

    fn is_in_subset(element: &i64) -> (b: bool) {
        u32::MIN as i64 <= *element && *element <= u32::MAX as i64
    }
}

impl SubsetOf<u64> for u64 {
    open spec fn spec_to_superset(&self) -> u64 {
        *self
    }

    open spec fn spec_is_in_subset(element: &u64) -> bool {
        true
    }

    open spec fn spec_from_superset_unchecked(element: &u64) -> u64 {
        *element
    }

    proof fn lemma_inclusion_is_in_subset(x: &u64) {
    }

    proof fn lemma_inclusion_is_undone(x: &u64) {
    }

    proof fn lemma_conversion_is_undone(element: &u64) {
    }

    fn to_superset(&self) -> (r: u64) {
        *self
    }

    fn from_superset_unchecked(element: &u64) -> (r: u64) {
        *element
    }

    fn is_in_subset(element: &u64) -> (b: bool) {
        true
    }
}

impl SubsetOf<usize> for usize {
    open spec fn spec_to_superset(&self) -> usize {
        *self
    }

    open spec fn spec_is_in_subset(element: &usize) -> bool {
        true
    }

    open spec fn spec_from_superset_unchecked(element: &usize) -> usize {
        *element
    }

    proof fn lemma_inclusion_is_in_subset(x: &usize) {
    }

    proof fn lemma_inclusion_is_undone(x: &usize) {
    }

    proof fn lemma_conversion_is_undone(element: &usize) {
    }

    fn to_superset(&self) -> (r: usize) {
        *self
    }

    fn from_superset_unchecked(element: &usize) -> (r: usize) {
        *element
    }

    fn is_in_subset(element: &usize) -> (b: bool) {
        true
    }
}

impl SubsetOf<u64> for usize {
    open spec fn spec_to_superset(&self) -> u64 {
        *self as u64
    }

    open spec fn spec_is_in_subset(element: &u64) -> bool {
        usize::MIN <= *element <= usize::MAX
    }

    open spec fn spec_from_superset_unchecked(element: &u64) -> usize {
        *element as usize
    }

    proof fn lemma_inclusion_is_in_subset(x: &usize) {
    }

    proof fn lemma_inclusion_is_undone(x: &usize) {
    }

    proof fn lemma_conversion_is_undone(element: &u64) {
    }

    fn to_superset(&self) -> (r: u64) {
        *self as u64
    }

    fn from_superset_unchecked(element: &u64) -> (r: usize) {
        *element as usize
    }

    fn is_in_subset(element: &u64) -> (b: bool) {
        usize::MIN as u64 <= *element && *element <= usize::MAX as u64
    }
}

impl SubsetOf<i8> for i8 {
    open spec fn spec_to_superset(&self) -> i8 {
        *self
    }

    open spec fn spec_is_in_subset(element: &i8) -> bool {
        true
    }

    open spec fn spec_from_superset_unchecked(element: &i8) -> i8 {
        *element
    }

    proof fn lemma_inclusion_is_in_subset(x: &i8) {
    }

    proof fn lemma_inclusion_is_undone(x: &i8) {
    }

    proof fn lemma_conversion_is_undone(element: &i8) {
    }

    fn to_superset(&self) -> (r: i8) {
        *self
    }

    fn from_superset_unchecked(element: &i8) -> (r: i8) {
        *element
    }

    fn is_in_subset(element: &i8) -> (b: bool) {
        true
    }
}

impl SubsetOf<i16> for i8 {
    open spec fn spec_to_superset(&self) -> i16 {
        *self as i16
    }

    open spec fn spec_is_in_subset(element: &i16) -> bool {
        i8::MIN <= *element <= i8::MAX
    }

    open spec fn spec_from_superset_unchecked(element: &i16) -> i8 {
        *element as i8
    }

    proof fn lemma_inclusion_is_in_subset(x: &i8) {
    }

    proof fn lemma_inclusion_is_undone(x: &i8) {
    }

    proof fn lemma_conversion_is_undone(element: &i16) {
    }

    fn to_superset(&self) -> (r: i16) {
        *self as i16
    }

    fn from_superset_unchecked(element: &i16) -> (r: i8) {
        *element as i8
    }

    fn is_in_subset(element: &i16) -> (b: bool) {
        i8::MIN as i16 <= *element && *element <= i8::MAX as i16
    }
}

impl SubsetOf<i32> for i8 {
    open spec fn spec_to_superset(&self) -> i32 {
        *self as i32
    }

    open spec fn spec_is_in_subset(element: &i32) -> bool {
        i8::MIN <= *element <= i8::MAX
    }

    open spec fn spec_from_superset_unchecked(element: &i32) -> i8 {
        *element as i8
    }

    proof fn lemma_inclusion_is_in_subset(x: &i8) {
    }

    proof fn lemma_inclusion_is_undone(x: &i8) {
    }

    proof fn lemma_conversion_is_undone(element: &i32) {
    }

    fn to_superset(&self) -> (r: i32) {
        *self as i32
    }

    fn from_superset_unchecked(element: &i32) -> (r: i8) {
        *element as i8
    }

    fn is_in_subset(element: &i32) -> (b: bool) {
        i8::MIN as i32 <= *element && *element <= i8::MAX as i32
    }
}

impl SubsetOf<i64> for i8 {
    open spec fn spec_to_superset(&self) -> i64 {
        *self as i64
    }

    open spec fn spec_is_in_subset(element: &i64) -> bool {
        i8::MIN <= *element <= i8::MAX
    }

    open spec fn spec_from_superset_unchecked(element: &i64) -> i8 {
        *element as i8
    }

    proof fn lemma_inclusion_is_in_subset(x: &i8) {
    }

    proof fn lemma_inclusion_is_undone(x: &i8) {
    }

    proof fn lemma_conversion_is_undone(element: &i64) {
    }

    fn to_superset(&self) -> (r: i64) {
        *self as i64
    }

    fn from_superset_unchecked(element: &i64) -> (r: i8) {
        *element as i8
    }

    fn is_in_subset(element: &i64) -> (b: bool) {
        i8::MIN as i64 <= *element && *element <= i8::MAX as i64
    }
}

impl SubsetOf<isize> for i8 {
    open spec fn spec_to_superset(&self) -> isize {
        *self as isize
    }

    open spec fn spec_is_in_subset(element: &isize) -> bool {
        i8::MIN <= *element <= i8::MAX
    }

    open spec fn spec_from_superset_unchecked(element: &isize) -> i8 {
        *element as i8
    }

    proof fn lemma_inclusion_is_in_subset(x: &i8) {
    }

    proof fn lemma_inclusion_is_undone(x: &i8) {
    }

    proof fn lemma_conversion_is_undone(element: &isize) {
    }

    fn to_superset(&self) -> (r: isize) {
        *self as isize
    }

    fn from_superset_unchecked(element: &isize) -> (r: i8) {
        *element as i8
    }

    fn is_in_subset(element: &isize) -> (b: bool) {
        i8::MIN as isize <= *element && *element <= i8::MAX as isize
    }
}

impl SubsetOf<i16> for i16 {
    open spec fn spec_to_superset(&self) -> i16 {
        *self
    }

    open spec fn spec_is_in_subset(element: &i16) -> bool {
        true
    }

    open spec fn spec_from_superset_unchecked(element: &i16) -> i16 {
        *element
    }

    proof fn lemma_inclusion_is_in_subset(x: &i16) {
    }

    proof fn lemma_inclusion_is_undone(x: &i16) {
    }

    proof fn lemma_conversion_is_undone(element: &i16) {
    }

    fn to_superset(&self) -> (r: i16) {
        *self
    }

    fn from_superset_unchecked(element: &i16) -> (r: i16) {
        *element
    }

    fn is_in_subset(element: &i16) -> (b: bool) {
        true
    }
}

impl SubsetOf<i32> for i16 {
    open spec fn spec_to_superset(&self) -> i32 {
        *self as i32
    }

    open spec fn spec_is_in_subset(element: &i32) -> bool {
        i16::MIN <= *element <= i16::MAX
    }

    open spec fn spec_from_superset_unchecked(element: &i32) -> i16 {
        *element as i16
    }

    proof fn lemma_inclusion_is_in_subset(x: &i16) {
    }

    proof fn lemma_inclusion_is_undone(x: &i16) {
    }

    proof fn lemma_conversion_is_undone(element: &i32) {
    }

    fn to_superset(&self) -> (r: i32) {
        *self as i32
    }

    fn from_superset_unchecked(element: &i32) -> (r: i16) {
        *element as i16
    }

    fn is_in_subset(element: &i32) -> (b: bool) {
        i16::MIN as i32 <= *element && *element <= i16::MAX as i32
    }
}

impl SubsetOf<i64> for i16 {
    open spec fn spec_to_superset(&self) -> i64 {
        *self as i64
    }

    open spec fn spec_is_in_subset(element: &i64) -> bool {
        i16::MIN <= *element <= i16::MAX
    }

    open spec fn spec_from_superset_unchecked(element: &i64) -> i16 {
        *element as i16
    }

    proof fn lemma_inclusion_is_in_subset(x: &i16) {
    }

    proof fn lemma_inclusion_is_undone(x: &i16) {
    }

    proof fn lemma_conversion_is_undone(element: &i64) {
    }

    fn to_superset(&self) -> (r: i64) {
        *self as i64
    }

    fn from_superset_unchecked(element: &i64) -> (r: i16) {
        *element as i16
    }

    fn is_in_subset(element: &i64) -> (b: bool) {
        i16::MIN as i64 <= *element && *element <= i16::MAX as i64
    }
}

impl SubsetOf<isize> for i16 {
    open spec fn spec_to_superset(&self) -> isize {
        *self as isize
    }

    open spec fn spec_is_in_subset(element: &isize) -> bool {
        i16::MIN <= *element <= i16::MAX
    }

    open spec fn spec_from_superset_unchecked(element: &isize) -> i16 {
        *element as i16
    }

    proof fn lemma_inclusion_is_in_subset(x: &i16) {
    }

    proof fn lemma_inclusion_is_undone(x: &i16) {
    }

    proof fn lemma_conversion_is_undone(element: &isize) {
    }

    fn to_superset(&self) -> (r: isize) {
        *self as isize
    }

    fn from_superset_unchecked(element: &isize) -> (r: i16) {
        *element as i16
    }

    fn is_in_subset(element: &isize) -> (b: bool) {
        i16::MIN as isize <= *element && *element <= i16::MAX as isize
    }
}

impl SubsetOf<i32> for i32 {
    open spec fn spec_to_superset(&self) -> i32 {
        *self
    }

    open spec fn spec_is_in_subset(element: &i32) -> bool {
        true
    }

    open spec fn spec_from_superset_unchecked(element: &i32) -> i32 {
        *element
    }

    proof fn lemma_inclusion_is_in_subset(x: &i32) {
    }

    proof fn lemma_inclusion_is_undone(x: &i32) {
    }

    proof fn lemma_conversion_is_undone(element: &i32) {
    }

    fn to_superset(&self) -> (r: i32) {
        *self
    }

    fn from_superset_unchecked(element: &i32) -> (r: i32) {
        *element
    }

    fn is_in_subset(element: &i32) -> (b: bool) {
        true
    }
}

impl SubsetOf<i64> for i32 {
    open spec fn spec_to_superset(&self) -> i64 {
        *self as i64
    }

    open spec fn spec_is_in_subset(element: &i64) -> bool {
        i32::MIN <= *element <= i32::MAX
    }

    open spec fn spec_from_superset_unchecked(element: &i64) -> i32 {
        *element as i32
    }

    proof fn lemma_inclusion_is_in_subset(x: &i32) {
    }

    proof fn lemma_inclusion_is_undone(x: &i32) {
    }

    proof fn lemma_conversion_is_undone(element: &i64) {
    }

    fn to_superset(&self) -> (r: i64) {
        *self as i64
    }

    fn from_superset_unchecked(element: &i64) -> (r: i32) {
        *element as i32
    }

    fn is_in_subset(element: &i64) -> (b: bool) {
        i32::MIN as i64 <= *element && *element <= i32::MAX as i64
    }
}

impl SubsetOf<isize> for i32 {
    open spec fn spec_to_superset(&self) -> isize {
        *self as isize
    }

    open spec fn spec_is_in_subset(element: &isize) -> bool {
        i32::MIN <= *element <= i32::MAX
    }

    open spec fn spec_from_superset_unchecked(element: &isize) -> i32 {
        *element as i32
    }

    proof fn lemma_inclusion_is_in_subset(x: &i32) {
    }

    proof fn lemma_inclusion_is_undone(x: &i32) {
    }

    proof fn lemma_conversion_is_undone(element: &isize) {
    }

    fn to_superset(&self) -> (r: isize) {
        *self as isize
    }

    fn from_superset_unchecked(element: &isize) -> (r: i32) {
        *element as i32
    }

    fn is_in_subset(element: &isize) -> (b: bool) {
        i32::MIN as isize <= *element && *element <= i32::MAX as isize
    }
}

impl SubsetOf<i64> for i64 {
    open spec fn spec_to_superset(&self) -> i64 {
        *self
    }

    open spec fn spec_is_in_subset(element: &i64) -> bool {
        true
    }

    open spec fn spec_from_superset_unchecked(element: &i64) -> i64 {
        *element
    }

    proof fn lemma_inclusion_is_in_subset(x: &i64) {
    }

    proof fn lemma_inclusion_is_undone(x: &i64) {
    }

    proof fn lemma_conversion_is_undone(element: &i64) {
    }

    fn to_superset(&self) -> (r: i64) {
        *self
    }

    fn from_superset_unchecked(element: &i64) -> (r: i64) {
        *element
    }

    fn is_in_subset(element: &i64) -> (b: bool) {
        true
    }
}

impl SubsetOf<isize> for isize {
    open spec fn spec_to_superset(&self) -> isize {
        *self
    }

    open spec fn spec_is_in_subset(element: &isize) -> bool {
        true
    }

    open spec fn spec_from_superset_unchecked(element: &isize) -> isize {
        *element
    }

    proof fn lemma_inclusion_is_in_subset(x: &isize) {
    }

    proof fn lemma_inclusion_is_undone(x: &isize) {
    }

    proof fn lemma_conversion_is_undone(element: &isize) {
    }

    fn to_superset(&self) -> (r: isize) {
        *self
    }

    fn from_superset_unchecked(element: &isize) -> (r: isize) {
        *element
    }

    fn is_in_subset(element: &isize) -> (b: bool) {
        true
    }
}

impl SubsetOf<i64> for isize {
    open spec fn spec_to_superset(&self) -> i64 {
        *self as i64
    }

    open spec fn spec_is_in_subset(element: &i64) -> bool {
        isize::MIN <= *element <= isize::MAX
    }

    open spec fn spec_from_superset_unchecked(element: &i64) -> isize {
        *element as isize
    }

    proof fn lemma_inclusion_is_in_subset(x: &isize) {
    }

    proof fn lemma_inclusion_is_undone(x: &isize) {
    }

    proof fn lemma_conversion_is_undone(element: &i64) {
    }

    fn to_superset(&self) -> (r: i64) {
        *self as i64
    }

    fn from_superset_unchecked(element: &i64) -> (r: isize) {
        *element as isize
    }

    fn is_in_subset(element: &i64) -> (b: bool) {
        isize::MIN as i64 <= *element && *element <= isize::MAX as i64
    }
}

} // verus!
