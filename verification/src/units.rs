//! Units and values: a unit pairs a dimension with a scale factor, a value pairs a
//! magnitude with a unit.

use vstd::prelude::*;
use vstd::std_specs::ops::{AddSpecImpl, DivSpecImpl, MulSpecImpl, SubSpecImpl};
use core::ops::{Add, Div, Mul, Sub};
use crate::dimensions::{lemma_add_nul, lemma_scale_one, lemma_sub_self, Dimension};
use crate::number::Number;

verus! {

/// What can go wrong when units are read or values are combined.
#[derive(Debug, PartialEq, Eq, Structural, Copy, Clone)]
pub enum UnitError {
    /// A symbol does not name a unit of the system.
    UnknownUnit,
    /// The text behind a symbol is not a whole number that fits an exponent.
    MalformedExponent,
    /// The text of a value does not start with a number.
    MalformedValue,
    /// Two quantities of different dimension were to be added, subtracted or converted.
    DimensionMismatch,
}

/// A unit
#[derive(Debug, PartialEq, Copy)]
pub struct Unit<N: Number> {
    /// Dimensions of this unit
    pub dimension: Dimension,
    /// The number to multiply it by to get it in terms of base units
    pub factor: N,
}

impl<N: Number> Clone for Unit<N> {
    fn clone(&self) -> (r: Self)
        ensures
            r == *self,
    {
        *self
    }
}

impl<N: Number> Unit<N> {
    /// The unit of a dimensionless quantity: no dimension, factor one.
    pub open spec fn identity() -> Self {
        Unit { dimension: Dimension::nul(), factor: N::spec_one() }
    }

    /// The product of two units: dimensions add, factors multiply.
    pub open spec fn compose(self, rhs: Self) -> Self {
        Unit {
            dimension: self.dimension.plus(rhs.dimension),
            factor: self.factor.spec_times(rhs.factor),
        }
    }

    /// The quotient of two units: dimensions subtract, factors divide.
    pub open spec fn invert_combine(self, rhs: Self) -> Self {
        Unit {
            dimension: self.dimension.minus(rhs.dimension),
            factor: self.factor.spec_over(rhs.factor),
        }
    }

    /// The unit raised to the power `n`: the dimension is scaled by `n`, the factor raised
    /// to it.
    pub open spec fn power(self, n: i16) -> Self {
        Unit { dimension: self.dimension.scaled(n), factor: self.factor.spec_powi(n as i32) }
    }

    /// Creates a new unit with the given dimension
    ///
    /// Will assume to be made of base units
    pub fn new(dimension: Dimension) -> (r: Self)
        ensures
            r == (Unit { dimension, factor: N::spec_one() }),
    {
        Unit { factor: N::one(), dimension }
    }

    /// Creates a new unit with the given dimension and factor
    ///
    /// Factor is the number to multiply it by to get it in terms of base units
    pub fn with_factor(dimension: Dimension, factor: N) -> (r: Self)
        ensures
            r == (Unit { dimension, factor }),
    {
        Unit { factor, dimension }
    }
}

/// A unit divided by itself is the unit of a dimensionless quantity, wherever its factor
/// divided by itself is one.
pub proof fn lemma_unit_over_itself<N: Number>(u: Unit<N>)
    requires
        u.factor.spec_over(u.factor) == N::spec_one(),
    ensures
        u.invert_combine(u) == Unit::<N>::identity(),
{
    lemma_sub_self(u.dimension);
}

/// A unit raised to the power one and multiplied onto the unit of a dimensionless quantity
/// is itself, wherever its factor to the power one is the factor, and one times the factor
/// is the factor.
pub proof fn lemma_first_power_onto_identity<N: Number>(u: Unit<N>)
    requires
        u.factor.spec_powi(1) == u.factor,
        N::spec_one().spec_times(u.factor) == u.factor,
    ensures
        Unit::<N>::identity().compose(u.power(1)) == u,
{
    lemma_scale_one(u.dimension);
    lemma_add_nul(u.dimension);
}

/// Converting a value into a unit twice gives what converting it once gives, wherever the
/// factor of that unit divided by itself is one, and the converted magnitude times one is
/// itself.
pub proof fn lemma_convert_twice<N: Number>(v: Value<N>, u: Unit<N>)
    requires
        u.factor.spec_over(u.factor) == N::spec_one(),
        v.converted(u).0.spec_times(N::spec_one()) == v.converted(u).0,
    ensures
        v.converted(u).converted(u) == v.converted(u),
{
}

/// Adding a value in the unit of the left operand adds the magnitudes, and the sum keeps
/// that unit, wherever a factor compares as equal to itself.
pub proof fn lemma_sum_in_one_unit<N: Number>(a: Value<N>, b: Value<N>)
    requires
        a.1 == b.1,
        a.1.factor.spec_same(a.1.factor),
    ensures
        a.sum(b) == Value(a.0.spec_plus(b.0), a.1),
        a.difference(b) == Value(a.0.spec_minus(b.0), a.1),
{
}

impl<N: Number> AddSpecImpl for Unit<N> {
    open spec fn obeys_add_spec() -> bool {
        true
    }

    open spec fn add_req(self, rhs: Unit<N>) -> bool {
        true
    }

    open spec fn add_spec(self, rhs: Unit<N>) -> Unit<N> {
        self.compose(rhs)
    }
}

/// `a + b` is the unit of a product of a quantity in `a` and one in `b`.
impl<N: Number> Add for Unit<N> {
    type Output = Unit<N>;

    fn add(self, rhs: Unit<N>) -> (r: Unit<N>) {
        Unit { factor: self.factor.times(rhs.factor), dimension: self.dimension + rhs.dimension }
    }
}

impl<N: Number> SubSpecImpl for Unit<N> {
    open spec fn obeys_sub_spec() -> bool {
        true
    }

    open spec fn sub_req(self, rhs: Unit<N>) -> bool {
        true
    }

    open spec fn sub_spec(self, rhs: Unit<N>) -> Unit<N> {
        self.invert_combine(rhs)
    }
}

/// `a - b` is the unit of a quotient of a quantity in `a` by one in `b`.
impl<N: Number> Sub for Unit<N> {
    type Output = Unit<N>;

    fn sub(self, rhs: Unit<N>) -> (r: Unit<N>) {
        Unit { factor: self.factor.over(rhs.factor), dimension: self.dimension - rhs.dimension }
    }
}

impl<N: Number> MulSpecImpl<i16> for Unit<N> {
    open spec fn obeys_mul_spec() -> bool {
        true
    }

    open spec fn mul_req(self, rhs: i16) -> bool {
        true
    }

    open spec fn mul_spec(self, rhs: i16) -> Unit<N> {
        self.power(rhs)
    }
}

/// `a * n` is the unit `a` raised to the power `n`.
impl<N: Number> Mul<i16> for Unit<N> {
    type Output = Unit<N>;

    fn mul(self, rhs: i16) -> (r: Unit<N>) {
        Unit { factor: self.factor.powi(rhs as i32), dimension: rhs * self.dimension }
    }
}

/// A floating value with an associated unit.
///
/// Will only allow addition and subtraction with values of the same dimensions.
/// Unit will change accordingly when performing mathematical operations.
#[derive(Debug, PartialEq, Copy)]
pub struct Value<N: Number>(pub N, pub Unit<N>);

impl<N: Number> Clone for Value<N> {
    fn clone(&self) -> (r: Self)
        ensures
            r == *self,
    {
        *self
    }
}

impl<N: Number> Value<N> {
    /// The magnitude of `rhs` expressed in the unit of `self`: unchanged where the two
    /// factors compare as equal, else multiplied by the ratio of the factor of `rhs` to that
    /// of `self`.
    pub open spec fn rescaled(self, rhs: Self) -> N {
        if self.1.factor.spec_same(rhs.1.factor) {
            rhs.0
        } else {
            rhs.1.factor.spec_over(self.1.factor).spec_times(rhs.0)
        }
    }

    /// The sum of two values of one dimension, in the unit of `self`.
    pub open spec fn sum(self, rhs: Self) -> Self {
        Value(self.0.spec_plus(self.rescaled(rhs)), self.1)
    }

    /// The difference of two values of one dimension, in the unit of `self`.
    pub open spec fn difference(self, rhs: Self) -> Self {
        Value(self.0.spec_minus(self.rescaled(rhs)), self.1)
    }

    /// The product of two values: magnitudes multiply, units compose.
    pub open spec fn product(self, rhs: Self) -> Self {
        Value(self.0.spec_times(rhs.0), self.1.compose(rhs.1))
    }

    /// The quotient of two values: magnitudes divide, units combine inversely.
    pub open spec fn quotient(self, rhs: Self) -> Self {
        Value(self.0.spec_over(rhs.0), self.1.invert_combine(rhs.1))
    }

    /// The value expressed in the unit `unit`, which has the dimension of its own unit.
    pub open spec fn converted(self, unit: Unit<N>) -> Self {
        Value(self.0.spec_times(self.1.factor.spec_over(unit.factor)), unit)
    }

    fn rescale(self, rhs: Self) -> (r: N)
        ensures
            r == self.rescaled(rhs),
    {
        if self.1.factor.same(rhs.1.factor) {
            rhs.0
        } else {
            rhs.1.factor.over(self.1.factor).times(rhs.0)
        }
    }

    /// The sum of two values, in the unit of `self`; an error where their dimensions differ.
    pub fn checked_add(self, rhs: Self) -> (r: Result<Self, UnitError>)
        ensures
            self.1.dimension == rhs.1.dimension ==> r == Ok::<Self, UnitError>(self.sum(rhs)),
            self.1.dimension != rhs.1.dimension ==> r == Err::<Self, UnitError>(
                UnitError::DimensionMismatch,
            ),
    {
        if self.1.dimension == rhs.1.dimension {
            Ok(self + rhs)
        } else {
            Err(UnitError::DimensionMismatch)
        }
    }

    /// The difference of two values, in the unit of `self`; an error where their dimensions
    /// differ.
    pub fn checked_sub(self, rhs: Self) -> (r: Result<Self, UnitError>)
        ensures
            self.1.dimension == rhs.1.dimension ==> r == Ok::<Self, UnitError>(
                self.difference(rhs),
            ),
            self.1.dimension != rhs.1.dimension ==> r == Err::<Self, UnitError>(
                UnitError::DimensionMismatch,
            ),
    {
        if self.1.dimension == rhs.1.dimension {
            Ok(self - rhs)
        } else {
            Err(UnitError::DimensionMismatch)
        }
    }
}

impl<N: Number> AddSpecImpl for Value<N> {
    open spec fn obeys_add_spec() -> bool {
        true
    }

    open spec fn add_req(self, rhs: Value<N>) -> bool {
        self.1.dimension == rhs.1.dimension
    }

    open spec fn add_spec(self, rhs: Value<N>) -> Value<N> {
        self.sum(rhs)
    }
}

/// `a + b` asks that `a` and `b` have one dimension.
impl<N: Number> Add for Value<N> {
    type Output = Value<N>;

    fn add(self, rhs: Value<N>) -> (r: Value<N>) {
        Value(self.0.plus(self.rescale(rhs)), self.1)
    }
}

impl<N: Number> SubSpecImpl for Value<N> {
    open spec fn obeys_sub_spec() -> bool {
        true
    }

    open spec fn sub_req(self, rhs: Value<N>) -> bool {
        self.1.dimension == rhs.1.dimension
    }

    open spec fn sub_spec(self, rhs: Value<N>) -> Value<N> {
        self.difference(rhs)
    }
}

/// `a - b` asks that `a` and `b` have one dimension.
impl<N: Number> Sub for Value<N> {
    type Output = Value<N>;

    fn sub(self, rhs: Value<N>) -> (r: Value<N>) {
        Value(self.0.minus(self.rescale(rhs)), self.1)
    }
}

impl<N: Number> MulSpecImpl for Value<N> {
    open spec fn obeys_mul_spec() -> bool {
        true
    }

    open spec fn mul_req(self, rhs: Value<N>) -> bool {
        true
    }

    open spec fn mul_spec(self, rhs: Value<N>) -> Value<N> {
        self.product(rhs)
    }
}

impl<N: Number> Mul for Value<N> {
    type Output = Value<N>;

    fn mul(self, rhs: Value<N>) -> (r: Value<N>) {
        Value(self.0.times(rhs.0), self.1 + rhs.1)
    }
}

impl<N: Number> DivSpecImpl for Value<N> {
    open spec fn obeys_div_spec() -> bool {
        true
    }

    open spec fn div_req(self, rhs: Value<N>) -> bool {
        true
    }

    open spec fn div_spec(self, rhs: Value<N>) -> Value<N> {
        self.quotient(rhs)
    }
}

impl<N: Number> Div for Value<N> {
    type Output = Value<N>;

    fn div(self, rhs: Value<N>) -> (r: Value<N>) {
        Value(self.0.over(rhs.0), self.1 - rhs.1)
    }
}

impl<N: Number> MulSpecImpl<N> for Value<N> {
    open spec fn obeys_mul_spec() -> bool {
        true
    }

    open spec fn mul_req(self, rhs: N) -> bool {
        true
    }

    open spec fn mul_spec(self, rhs: N) -> Value<N> {
        Value(self.0.spec_times(rhs), self.1)
    }
}

/// A value times a bare number: the magnitude is scaled, the unit stays.
impl<N: Number> Mul<N> for Value<N> {
    type Output = Value<N>;

    fn mul(self, rhs: N) -> (r: Value<N>) {
        Value(self.0.times(rhs), self.1)
    }
}

impl<N: Number> DivSpecImpl<N> for Value<N> {
    open spec fn obeys_div_spec() -> bool {
        true
    }

    open spec fn div_req(self, rhs: N) -> bool {
        true
    }

    open spec fn div_spec(self, rhs: N) -> Value<N> {
        Value(self.0.spec_over(rhs), self.1)
    }
}

/// A value divided by a bare number: the magnitude is scaled, the unit stays.
impl<N: Number> Div<N> for Value<N> {
    type Output = Value<N>;

    fn div(self, rhs: N) -> (r: Value<N>) {
        Value(self.0.over(rhs), self.1)
    }
}

} // verus!
