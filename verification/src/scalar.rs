//! The number type that the integrators compute with.
//!
//! The solvers are generic over [`Scalar`], a number with the handful of
//! operations that fixed-step integration needs. The trait itself promises
//! nothing about what an operation returns. The contracts of this crate are
//! stated against an [`Arithmetic`] instead: a table of mathematical
//! functions, one for every operation. A number type *implements* an
//! arithmetic when each of its operations returns what the function of that
//! name gives, and every result of this crate is fixed, for every arithmetic
//! that the number type implements, as an expression over these functions.
use vstd::prelude::*;

verus! {

/// A real number as a machine represents it, typically an IEEE 754 double
/// behind a newtype.
///
/// Every operation is total: it returns a value on all arguments and never
/// panics. Division by zero, overflow and undefined results are expressed as
/// values of the type itself (infinities, not-a-number), as floating point
/// does.
pub trait Scalar: Copy {
    /// The value of a non-negative whole number, rounded if it has to be.
    fn from_count(n: u64) -> Self;

    /// The largest whole number that is not above `self`. Values below zero
    /// and values that are not numbers give `0`; values beyond the range of
    /// `usize` give `usize::MAX`.
    fn floor_count(self) -> usize;

    /// `self + rhs`.
    fn plus(self, rhs: Self) -> Self;

    /// `self - rhs`.
    fn minus(self, rhs: Self) -> Self;

    /// `self * rhs`.
    fn times(self, rhs: Self) -> Self;

    /// `self / rhs`.
    fn over(self, rhs: Self) -> Self;

    /// The absolute value of `self`.
    fn magnitude(self) -> Self;

    /// `self` raised to the whole power `n`.
    fn powi(self, n: i32) -> Self;

    /// The base-10 logarithm of `self`.
    fn log10(self) -> Self;

    /// Whether `self < rhs`.
    fn less_than(self, rhs: Self) -> bool;

    /// Whether `self == rhs` as numbers.
    fn equals(self, rhs: Self) -> bool;
}

/// The operations of a number type as mathematical functions.
#[verifier::reject_recursive_types(T)]
pub ghost struct Arithmetic<T> {
    /// The value of a whole number.
    pub of_count: spec_fn(u64) -> T,
    /// Rounding down to a count.
    pub floor: spec_fn(T) -> usize,
    /// Addition.
    pub plus: spec_fn(T, T) -> T,
    /// Subtraction.
    pub minus: spec_fn(T, T) -> T,
    /// Multiplication.
    pub times: spec_fn(T, T) -> T,
    /// Division.
    pub over: spec_fn(T, T) -> T,
    /// The absolute value.
    pub magnitude: spec_fn(T) -> T,
    /// Raising to a whole power.
    pub powi: spec_fn(T, i32) -> T,
    /// The base-10 logarithm.
    pub log10: spec_fn(T) -> T,
    /// The order `<`.
    pub less: spec_fn(T, T) -> bool,
    /// Equality of numbers.
    pub equal: spec_fn(T, T) -> bool,
}

impl<T> Arithmetic<T> {
    /// The value of the whole number `n`.
    pub open spec fn count(self, n: u64) -> T {
        (self.of_count)(n)
    }

    /// `a`, rounded down to a count.
    pub open spec fn floor_of(self, a: T) -> usize {
        (self.floor)(a)
    }

    /// `a + b`.
    pub open spec fn sum(self, a: T, b: T) -> T {
        (self.plus)(a, b)
    }

    /// `a - b`.
    pub open spec fn difference(self, a: T, b: T) -> T {
        (self.minus)(a, b)
    }

    /// `a * b`.
    pub open spec fn product(self, a: T, b: T) -> T {
        (self.times)(a, b)
    }

    /// `a / b`.
    pub open spec fn quotient(self, a: T, b: T) -> T {
        (self.over)(a, b)
    }

    /// `|a|`.
    pub open spec fn magnitude_of(self, a: T) -> T {
        (self.magnitude)(a)
    }

    /// `a` to the power `n`.
    pub open spec fn power(self, a: T, n: i32) -> T {
        (self.powi)(a, n)
    }

    /// The base-10 logarithm of `a`.
    pub open spec fn log10_of(self, a: T) -> T {
        (self.log10)(a)
    }

    /// Whether `a < b`.
    pub open spec fn is_less(self, a: T, b: T) -> bool {
        (self.less)(a, b)
    }

    /// Whether `a == b` as numbers.
    pub open spec fn is_equal(self, a: T, b: T) -> bool {
        (self.equal)(a, b)
    }

    /// The fraction `num / den` of two whole numbers.
    pub open spec fn ratio(self, num: u64, den: u64) -> T {
        self.quotient(self.count(num), self.count(den))
    }
}

/// The number type `T` implements the arithmetic `m`: conversion, the four
/// basic operations, the absolute value and the comparisons return, on all
/// arguments, what the functions of `m` give.
///
/// A type can implement an arithmetic only if these operations are
/// deterministic, as those of IEEE 754 are.
pub open spec fn implements<T: Scalar>(m: Arithmetic<T>) -> bool {
    &&& forall|n: u64, r: T| #[trigger] call_ensures(T::from_count, (n,), r) ==> r == m.count(n)
    &&& forall|a: T, r: usize| #[trigger]
        call_ensures(T::floor_count, (a,), r) ==> r == m.floor_of(a)
    &&& forall|a: T, b: T, r: T| #[trigger] call_ensures(T::plus, (a, b), r) ==> r == m.sum(a, b)
    &&& forall|a: T, b: T, r: T| #[trigger]
        call_ensures(T::minus, (a, b), r) ==> r == m.difference(a, b)
    &&& forall|a: T, b: T, r: T| #[trigger]
        call_ensures(T::times, (a, b), r) ==> r == m.product(a, b)
    &&& forall|a: T, b: T, r: T| #[trigger]
        call_ensures(T::over, (a, b), r) ==> r == m.quotient(a, b)
    &&& forall|a: T, r: T| #[trigger]
        call_ensures(T::magnitude, (a,), r) ==> r == m.magnitude_of(a)
    &&& forall|a: T, b: T, r: bool| #[trigger]
        call_ensures(T::less_than, (a, b), r) ==> r == m.is_less(a, b)
    &&& forall|a: T, b: T, r: bool| #[trigger]
        call_ensures(T::equals, (a, b), r) ==> r == m.is_equal(a, b)
}

/// Raising to a whole power returns what `m` gives. Kept apart from
/// [`implements`] because platforms differ in how they round it.
pub open spec fn implements_powi<T: Scalar>(m: Arithmetic<T>) -> bool {
    forall|a: T, n: i32, r: T| #[trigger] call_ensures(T::powi, (a, n), r) ==> r == m.power(a, n)
}

/// The base-10 logarithm returns what `m` gives. Kept apart from
/// [`implements`] because platforms differ in how they round it.
pub open spec fn implements_log10<T: Scalar>(m: Arithmetic<T>) -> bool {
    forall|a: T, r: T| #[trigger] call_ensures(T::log10, (a,), r) ==> r == m.log10_of(a)
}

/// The arithmetic of `T` is deterministic: there is an arithmetic that `T`
/// implements.
pub open spec fn deterministic<T: Scalar>() -> bool {
    exists|m: Arithmetic<T>| implements(m)
}

/// The fraction `num / den` of two whole numbers, as the division of `T`
/// rounds it.
pub fn ratio<T: Scalar>(num: u64, den: u64) -> (r: T)
    ensures
        forall|m: Arithmetic<T>| #[trigger] implements(m) ==> r == m.ratio(num, den),
{
    T::from_count(num).over(T::from_count(den))
}

} // verus!
