//! The numbers that magnitudes and scale factors are made of.

use vstd::prelude::*;

verus! {

/// A number type with the operations of an ordered field, a power by an integer, and
/// conversions from and to text.
///
/// Every operation is a function of its arguments: the spec function beside each method
/// names its result, and the contracts of this crate are stated over those names. Nothing
/// else is assumed of them; where a law of this crate needs an identity of arithmetic, such
/// as that a number divided by itself is one, the law asks for it.
///
/// An implementation that is verified defines each spec function and proves its method
/// against it. One that is not verified, such as a wrapper of a machine float, writes the
/// methods alone: what this crate proves then holds of it as far as each of its methods
/// returns the same result for the same arguments.
pub trait Number: Copy {
    /// The number one.
    open spec fn spec_one() -> Self {
        arbitrary()
    }

    /// The number that stands for the integer `n`.
    open spec fn spec_from_i32(n: i32) -> Self {
        arbitrary()
    }

    /// The sum of two numbers.
    open spec fn spec_plus(self, rhs: Self) -> Self {
        arbitrary()
    }

    /// The difference of two numbers.
    open spec fn spec_minus(self, rhs: Self) -> Self {
        arbitrary()
    }

    /// The product of two numbers.
    open spec fn spec_times(self, rhs: Self) -> Self {
        arbitrary()
    }

    /// The quotient of two numbers.
    open spec fn spec_over(self, rhs: Self) -> Self {
        arbitrary()
    }

    /// The number raised to the power `n`.
    open spec fn spec_powi(self, n: i32) -> Self {
        arbitrary()
    }

    /// The absolute value of the number.
    open spec fn spec_abs(self) -> Self {
        arbitrary()
    }

    /// Whether the number is less than `rhs`.
    open spec fn spec_less(self, rhs: Self) -> bool {
        arbitrary()
    }

    /// Whether the two numbers compare as equal.
    open spec fn spec_same(self, rhs: Self) -> bool {
        arbitrary()
    }

    /// The number that `text` denotes, if it denotes one.
    open spec fn spec_parse(text: Seq<char>) -> Option<Self> {
        arbitrary()
    }

    /// The number written out as text.
    open spec fn spec_render(self) -> Seq<char> {
        arbitrary()
    }

    fn one() -> (r: Self)
        ensures
            r == Self::spec_one(),
    ;

    fn from_i32(n: i32) -> (r: Self)
        ensures
            r == Self::spec_from_i32(n),
    ;

    fn plus(self, rhs: Self) -> (r: Self)
        ensures
            r == self.spec_plus(rhs),
    ;

    fn minus(self, rhs: Self) -> (r: Self)
        ensures
            r == self.spec_minus(rhs),
    ;

    fn times(self, rhs: Self) -> (r: Self)
        ensures
            r == self.spec_times(rhs),
    ;

    fn over(self, rhs: Self) -> (r: Self)
        ensures
            r == self.spec_over(rhs),
    ;

    fn powi(self, n: i32) -> (r: Self)
        ensures
            r == self.spec_powi(n),
    ;

    fn abs(self) -> (r: Self)
        ensures
            r == self.spec_abs(),
    ;

    fn less(self, rhs: Self) -> (r: bool)
        ensures
            r == self.spec_less(rhs),
    ;

    fn same(self, rhs: Self) -> (r: bool)
        ensures
            r == self.spec_same(rhs),
    ;

    fn parse(text: &str) -> (r: Option<Self>)
        ensures
            r == Self::spec_parse(text@),
    ;

    fn render(self) -> (r: String)
        ensures
            r@ == self.spec_render(),
    ;
}

} // verus!
