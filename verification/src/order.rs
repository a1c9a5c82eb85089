//! The order of units and of values: only those of one dimension are comparable.

use vstd::prelude::*;
use core::cmp::Ordering;
use crate::number::Number;
use crate::units::{Unit, Value};

verus! {

/// How two numbers compare: by which is less, or as equal; `None` where neither is less and
/// they do not compare as equal.
pub open spec fn number_order<N: Number>(a: N, b: N) -> Option<Ordering> {
    if a.spec_less(b) {
        Some(Ordering::Less)
    } else if b.spec_less(a) {
        Some(Ordering::Greater)
    } else if a.spec_same(b) {
        Some(Ordering::Equal)
    } else {
        None
    }
}

/// How two units compare: units of one dimension as their factors do, others not at all.
pub open spec fn unit_order<N: Number>(a: Unit<N>, b: Unit<N>) -> Option<Ordering> {
    if a.dimension == b.dimension {
        number_order(a.factor, b.factor)
    } else {
        None
    }
}

/// The magnitude of `a` in the unit of `b`.
pub open spec fn in_unit_of<N: Number>(a: Value<N>, b: Value<N>) -> N {
    a.0.spec_times(a.1.factor.spec_over(b.1.factor))
}

/// How two values compare: values of one dimension as their magnitudes do once the left one
/// is expressed in the unit of the right one, others not at all.
pub open spec fn value_order<N: Number>(a: Value<N>, b: Value<N>) -> Option<Ordering> {
    if a.1.dimension == b.1.dimension {
        number_order(in_unit_of(a, b), b.0)
    } else {
        None
    }
}

/// Compares two numbers.
pub fn compare_numbers<N: Number>(a: N, b: N) -> (r: Option<Ordering>)
    ensures
        r == number_order(a, b),
{
    if a.less(b) {
        Some(Ordering::Less)
    } else if b.less(a) {
        Some(Ordering::Greater)
    } else if a.same(b) {
        Some(Ordering::Equal)
    } else {
        None
    }
}

impl<N: Number> Unit<N> {
    /// Compares two units by their factors; units of different dimensions are not
    /// comparable.
    pub fn partial_cmp(&self, other: &Self) -> (r: Option<Ordering>)
        ensures
            r == unit_order(*self, *other),
            self.dimension != other.dimension ==> r is None,
    {
        if self.dimension == other.dimension {
            compare_numbers(self.factor, other.factor)
        } else {
            None
        }
    }
}

impl<N: Number> Value<N> {
    /// Compares two values in a common unit; values of different dimensions are not
    /// comparable.
    pub fn partial_cmp(&self, other: &Self) -> (r: Option<Ordering>)
        ensures
            r == value_order(*self, *other),
            self.1.dimension != other.1.dimension ==> r is None,
    {
        if self.1.dimension == other.1.dimension {
            let factor = self.1.factor.over(other.1.factor);
            compare_numbers(self.0.times(factor), other.0)
        } else {
            None
        }
    }
}

} // verus!
