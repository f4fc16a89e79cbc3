//! The numeric-capability bound for span element types.
//!
//! A [`Span`](crate::Span) can be parameterized by any fixed-width integer
//! type. The [`RustNumber`] trait captures exactly what a span needs from
//! such a type: a mathematical view (`as_num`), the bounds of the domain,
//! a zero value, addition, a successor step, and the comparison operators,
//! each with a contract stated over the mathematical view.

use vstd::prelude::*;

verus! {

/// A capability placeholder that every type satisfies.
///
/// It stands where an environment-dependent formatting capability would
/// otherwise be demanded of span element types, so that the element bound
/// asks nothing beyond the numeric operations themselves.
pub trait Dummy {

}

impl<T> Dummy for T {

}

/// The capability bound for span element types: the ten fixed-width
/// integer types of the language.
///
/// Every operation is specified against `as_num`, the injective embedding
/// of the type into the mathematical integers, so that code generic over
/// `RustNumber` can be verified once for all element types.
pub trait RustNumber: Sized + Copy + Dummy {
    /// The value as a mathematical integer.
    spec fn as_num(self) -> int;

    /// The smallest value of the domain, as a mathematical integer.
    spec fn min_num() -> int;

    /// The largest value of the domain, as a mathematical integer.
    spec fn max_num() -> int;

    /// Every value lies between the domain's bounds.
    proof fn lemma_in_bounds(self)
        ensures
            Self::min_num() <= self.as_num() <= Self::max_num(),
    ;

    /// The embedding into the integers is injective: values with the same
    /// mathematical image are the same value.
    proof fn lemma_as_num_injective(a: Self, b: Self)
        requires
            a.as_num() == b.as_num(),
        ensures
            a == b,
    ;

    /// The domain's zero, the default value of every element type.
    fn zero_num() -> (r: Self)
        ensures
            r.as_num() == 0,
    ;

    /// Addition within the domain; the caller shows the sum stays in bounds.
    fn add_num(self, other: Self) -> (r: Self)
        requires
            Self::min_num() <= self.as_num() + other.as_num() <= Self::max_num(),
        ensures
            r.as_num() == self.as_num() + other.as_num(),
    ;

    /// The successor of a value that is not the domain's maximum.
    fn succ_num(self) -> (r: Self)
        requires
            self.as_num() + 1 <= Self::max_num(),
        ensures
            r.as_num() == self.as_num() + 1,
    ;

    /// Strict order test.
    fn lt_num(self, other: Self) -> (r: bool)
        ensures
            r == (self.as_num() < other.as_num()),
    ;

    /// Non-strict order test.
    fn le_num(self, other: Self) -> (r: bool)
        ensures
            r == (self.as_num() <= other.as_num()),
    ;

    /// Equality test.
    fn eq_num(self, other: Self) -> (r: bool)
        ensures
            r == (self.as_num() == other.as_num()),
    ;
}

impl RustNumber for u8 {
    open spec fn as_num(self) -> int {
        self as int
    }

    open spec fn min_num() -> int {
        u8::MIN as int
    }

    open spec fn max_num() -> int {
        u8::MAX as int
    }

    proof fn lemma_in_bounds(self) {
    }

    proof fn lemma_as_num_injective(a: Self, b: Self) {
    }

    fn zero_num() -> (r: Self) {
        0
    }

    fn add_num(self, other: Self) -> (r: Self) {
        self + other
    }

    fn succ_num(self) -> (r: Self) {
        self + 1
    }

    fn lt_num(self, other: Self) -> (r: bool) {
        self < other
    }

    fn le_num(self, other: Self) -> (r: bool) {
        self <= other
    }

    fn eq_num(self, other: Self) -> (r: bool) {
        self == other
    }
}

impl RustNumber for u16 {
    open spec fn as_num(self) -> int {
        self as int
    }

    open spec fn min_num() -> int {
        u16::MIN as int
    }

    open spec fn max_num() -> int {
        u16::MAX as int
    }

    proof fn lemma_in_bounds(self) {
    }

    proof fn lemma_as_num_injective(a: Self, b: Self) {
    }

    fn zero_num() -> (r: Self) {
        0
    }

    fn add_num(self, other: Self) -> (r: Self) {
        self + other
    }

    fn succ_num(self) -> (r: Self) {
        self + 1
    }

    fn lt_num(self, other: Self) -> (r: bool) {
        self < other
    }

    fn le_num(self, other: Self) -> (r: bool) {
        self <= other
    }

    fn eq_num(self, other: Self) -> (r: bool) {
        self == other
    }
}

impl RustNumber for u32 {
    open spec fn as_num(self) -> int {
        self as int
    }

    open spec fn min_num() -> int {
        u32::MIN as int
    }

    open spec fn max_num() -> int {
        u32::MAX as int
    }

    proof fn lemma_in_bounds(self) {
    }

    proof fn lemma_as_num_injective(a: Self, b: Self) {
    }

    fn zero_num() -> (r: Self) {
        0
    }

    fn add_num(self, other: Self) -> (r: Self) {
        self + other
    }

    fn succ_num(self) -> (r: Self) {
        self + 1
    }

    fn lt_num(self, other: Self) -> (r: bool) {
        self < other
    }

    fn le_num(self, other: Self) -> (r: bool) {
        self <= other
    }

    fn eq_num(self, other: Self) -> (r: bool) {
        self == other
    }
}

impl RustNumber for u64 {
    open spec fn as_num(self) -> int {
        self as int
    }

    open spec fn min_num() -> int {
        u64::MIN as int
    }

    open spec fn max_num() -> int {
        u64::MAX as int
    }

    proof fn lemma_in_bounds(self) {
    }

    proof fn lemma_as_num_injective(a: Self, b: Self) {
    }

    fn zero_num() -> (r: Self) {
        0
    }

    fn add_num(self, other: Self) -> (r: Self) {
        self + other
    }

    fn succ_num(self) -> (r: Self) {
        self + 1
    }

    fn lt_num(self, other: Self) -> (r: bool) {
        self < other
    }

    fn le_num(self, other: Self) -> (r: bool) {
        self <= other
    }

    fn eq_num(self, other: Self) -> (r: bool) {
        self == other
    }
}

impl RustNumber for usize {
    open spec fn as_num(self) -> int {
        self as int
    }

    open spec fn min_num() -> int {
        usize::MIN as int
    }

    open spec fn max_num() -> int {
        usize::MAX as int
    }

    proof fn lemma_in_bounds(self) {
    }

    proof fn lemma_as_num_injective(a: Self, b: Self) {
    }

    fn zero_num() -> (r: Self) {
        0
    }

    fn add_num(self, other: Self) -> (r: Self) {
        self + other
    }

    fn succ_num(self) -> (r: Self) {
        self + 1
    }

    fn lt_num(self, other: Self) -> (r: bool) {
        self < other
    }

    fn le_num(self, other: Self) -> (r: bool) {
        self <= other
    }

    fn eq_num(self, other: Self) -> (r: bool) {
        self == other
    }
}

impl RustNumber for i8 {
    open spec fn as_num(self) -> int {
        self as int
    }

    open spec fn min_num() -> int {
        i8::MIN as int
    }

    open spec fn max_num() -> int {
        i8::MAX as int
    }

    proof fn lemma_in_bounds(self) {
    }

    proof fn lemma_as_num_injective(a: Self, b: Self) {
    }

    fn zero_num() -> (r: Self) {
        0
    }

    fn add_num(self, other: Self) -> (r: Self) {
        self + other
    }

    fn succ_num(self) -> (r: Self) {
        self + 1
    }

    fn lt_num(self, other: Self) -> (r: bool) {
        self < other
    }

    fn le_num(self, other: Self) -> (r: bool) {
        self <= other
    }

    fn eq_num(self, other: Self) -> (r: bool) {
        self == other
    }
}

impl RustNumber for i16 {
    open spec fn as_num(self) -> int {
        self as int
    }

    open spec fn min_num() -> int {
        i16::MIN as int
    }

    open spec fn max_num() -> int {
        i16::MAX as int
    }

    proof fn lemma_in_bounds(self) {
    }

    proof fn lemma_as_num_injective(a: Self, b: Self) {
    }

    fn zero_num() -> (r: Self) {
        0
    }

    fn add_num(self, other: Self) -> (r: Self) {
        self + other
    }

    fn succ_num(self) -> (r: Self) {
        self + 1
    }

    fn lt_num(self, other: Self) -> (r: bool) {
        self < other
    }

    fn le_num(self, other: Self) -> (r: bool) {
        self <= other
    }

    fn eq_num(self, other: Self) -> (r: bool) {
        self == other
    }
}

impl RustNumber for i32 {
    open spec fn as_num(self) -> int {
        self as int
    }

    open spec fn min_num() -> int {
        i32::MIN as int
    }

    open spec fn max_num() -> int {
        i32::MAX as int
    }

    proof fn lemma_in_bounds(self) {
    }

    proof fn lemma_as_num_injective(a: Self, b: Self) {
    }

    fn zero_num() -> (r: Self) {
        0
    }

    fn add_num(self, other: Self) -> (r: Self) {
        self + other
    }

    fn succ_num(self) -> (r: Self) {
        self + 1
    }

    fn lt_num(self, other: Self) -> (r: bool) {
        self < other
    }

    fn le_num(self, other: Self) -> (r: bool) {
        self <= other
    }

    fn eq_num(self, other: Self) -> (r: bool) {
        self == other
    }
}

impl RustNumber for i64 {
    open spec fn as_num(self) -> int {
        self as int
    }

    open spec fn min_num() -> int {
        i64::MIN as int
    }

    open spec fn max_num() -> int {
        i64::MAX as int
    }

    proof fn lemma_in_bounds(self) {
    }

    proof fn lemma_as_num_injective(a: Self, b: Self) {
    }

    fn zero_num() -> (r: Self) {
        0
    }

    fn add_num(self, other: Self) -> (r: Self) {
        self + other
    }

    fn succ_num(self) -> (r: Self) {
        self + 1
    }

    fn lt_num(self, other: Self) -> (r: bool) {
        self < other
    }

    fn le_num(self, other: Self) -> (r: bool) {
        self <= other
    }

    fn eq_num(self, other: Self) -> (r: bool) {
        self == other
    }
}

impl RustNumber for isize {
    open spec fn as_num(self) -> int {
        self as int
    }

    open spec fn min_num() -> int {
        isize::MIN as int
    }

    open spec fn max_num() -> int {
        isize::MAX as int
    }

    proof fn lemma_in_bounds(self) {
    }

    proof fn lemma_as_num_injective(a: Self, b: Self) {
    }

    fn zero_num() -> (r: Self) {
        0
    }

    fn add_num(self, other: Self) -> (r: Self) {
        self + other
    }

    fn succ_num(self) -> (r: Self) {
        self + 1
    }

    fn lt_num(self, other: Self) -> (r: bool) {
        self < other
    }

    fn le_num(self, other: Self) -> (r: bool) {
        self <= other
    }

    fn eq_num(self, other: Self) -> (r: bool) {
        self == other
    }
}

} // verus!
