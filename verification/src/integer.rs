//! The generic integer storage behind a duration count: the arithmetic and
//! bound queries every storage type supplies, its implementations for the
//! fixed-width integers, and the transient wrapper that scales a raw count by
//! a period.

use crate::arith::{lemma_trunc_div_bounds, trunc_div};
use crate::period::Period;
use vstd::prelude::*;

verus! {

/// The capability a storage type offers: bounds, the four arithmetic
/// operators (division truncating toward zero), and the small queries the
/// rest of the crate needs. Each value is abstracted as the mathematical
/// integer `as_int`.
pub trait IntTrait: Sized + Copy {
    /// The mathematical integer this value stands for.
    spec fn as_int(self) -> int;

    /// The smallest representable value, as a mathematical integer.
    spec fn spec_min() -> int;

    /// The largest representable value, as a mathematical integer.
    spec fn spec_max() -> int;

    /// Every value lies between the bounds, and the bounds enclose zero.
    proof fn in_range(self)
        ensures
            Self::spec_min() <= self.as_int() <= Self::spec_max(),
            Self::spec_min() <= 0 < Self::spec_max(),
    ;

    /// The smallest representable value.
    fn min_value() -> (r: Self)
        ensures
            r.as_int() == Self::spec_min(),
    ;

    /// The largest representable value.
    fn max_value() -> (r: Self)
        ensures
            r.as_int() == Self::spec_max(),
    ;

    /// Brings a ratio part into the storage type.
    fn from_i32(v: i32) -> (r: Self)
        requires
            Self::spec_min() <= v as int <= Self::spec_max(),
        ensures
            r.as_int() == v as int,
    ;

    /// Exact addition; the sum must be representable.
    fn add(self, rhs: Self) -> (r: Self)
        requires
            Self::spec_min() <= self.as_int() + rhs.as_int() <= Self::spec_max(),
        ensures
            r.as_int() == self.as_int() + rhs.as_int(),
    ;

    /// Exact subtraction; the difference must be representable.
    fn sub(self, rhs: Self) -> (r: Self)
        requires
            Self::spec_min() <= self.as_int() - rhs.as_int() <= Self::spec_max(),
        ensures
            r.as_int() == self.as_int() - rhs.as_int(),
    ;

    /// Exact multiplication; the product must be representable.
    fn mul(self, rhs: Self) -> (r: Self)
        requires
            Self::spec_min() <= self.as_int() * rhs.as_int() <= Self::spec_max(),
        ensures
            r.as_int() == self.as_int() * rhs.as_int(),
    ;

    /// Division by a positive divisor, truncating toward zero.
    fn div(self, rhs: Self) -> (r: Self)
        requires
            rhs.as_int() >= 1,
        ensures
            r.as_int() == trunc_div(self.as_int(), rhs.as_int()),
    ;

    /// Whether the value is below zero.
    fn is_neg(self) -> (b: bool)
        ensures
            b == (self.as_int() < 0),
    ;

    /// The magnitude of the value; it always fits in 64 unsigned bits.
    fn abs_u64(self) -> (r: u64)
        ensures
            r as int == if self.as_int() >= 0 {
                self.as_int()
            } else {
                -self.as_int()
            },
    ;
}

impl IntTrait for i32 {
    open spec fn as_int(self) -> int {
        self as int
    }

    open spec fn spec_min() -> int {
        i32::MIN as int
    }

    open spec fn spec_max() -> int {
        i32::MAX as int
    }

    proof fn in_range(self) {
    }

    fn min_value() -> Self {
        i32::MIN
    }

    fn max_value() -> Self {
        i32::MAX
    }

    fn from_i32(v: i32) -> Self {
        v
    }

    fn add(self, rhs: Self) -> Self {
        self + rhs
    }

    fn sub(self, rhs: Self) -> Self {
        self - rhs
    }

    fn mul(self, rhs: Self) -> Self {
        self * rhs
    }

    fn div(self, rhs: Self) -> (r: Self) {
        proof {
            lemma_trunc_div_bounds(self as int, rhs as int);
        }
        match self.checked_div(rhs) {
            Some(q) => q,
            // A positive divisor makes checked division succeed on every
            // representable dividend, so this arm is unreachable.
            None => 0,
        }
    }

    fn is_neg(self) -> bool {
        self < 0
    }

    fn abs_u64(self) -> u64 {
        if self >= 0 {
            self as u64
        } else {
            (-(self as i64)) as u64
        }
    }
}

impl IntTrait for i64 {
    open spec fn as_int(self) -> int {
        self as int
    }

    open spec fn spec_min() -> int {
        i64::MIN as int
    }

    open spec fn spec_max() -> int {
        i64::MAX as int
    }

    proof fn in_range(self) {
    }

    fn min_value() -> Self {
        i64::MIN
    }

    fn max_value() -> Self {
        i64::MAX
    }

    fn from_i32(v: i32) -> Self {
        v as i64
    }

    fn add(self, rhs: Self) -> Self {
        self + rhs
    }

    fn sub(self, rhs: Self) -> Self {
        self - rhs
    }

    fn mul(self, rhs: Self) -> Self {
        self * rhs
    }

    fn div(self, rhs: Self) -> (r: Self) {
        proof {
            lemma_trunc_div_bounds(self as int, rhs as int);
        }
        match self.checked_div(rhs) {
            Some(q) => q,
            // A positive divisor makes checked division succeed on every
            // representable dividend, so this arm is unreachable.
            None => 0,
        }
    }

    fn is_neg(self) -> bool {
        self < 0
    }

    fn abs_u64(self) -> u64 {
        if self >= 0 {
            self as u64
        } else {
            // `-self` itself can overflow at the smallest value, so negate
            // `self + 1` (always representable) and put the 1 back after.
            ((-(self + 1)) as u64) + 1
        }
    }
}

impl IntTrait for u32 {
    open spec fn as_int(self) -> int {
        self as int
    }

    open spec fn spec_min() -> int {
        0
    }

    open spec fn spec_max() -> int {
        u32::MAX as int
    }

    proof fn in_range(self) {
    }

    fn min_value() -> Self {
        0
    }

    fn max_value() -> Self {
        u32::MAX
    }

    fn from_i32(v: i32) -> Self {
        v as u32
    }

    fn add(self, rhs: Self) -> Self {
        self + rhs
    }

    fn sub(self, rhs: Self) -> Self {
        self - rhs
    }

    fn mul(self, rhs: Self) -> Self {
        self * rhs
    }

    fn div(self, rhs: Self) -> Self {
        self / rhs
    }

    fn is_neg(self) -> bool {
        false
    }

    fn abs_u64(self) -> u64 {
        self as u64
    }
}

impl IntTrait for u64 {
    open spec fn as_int(self) -> int {
        self as int
    }

    open spec fn spec_min() -> int {
        0
    }

    open spec fn spec_max() -> int {
        u64::MAX as int
    }

    proof fn in_range(self) {
    }

    fn min_value() -> Self {
        0
    }

    fn max_value() -> Self {
        u64::MAX
    }

    fn from_i32(v: i32) -> Self {
        v as u64
    }

    fn add(self, rhs: Self) -> Self {
        self + rhs
    }

    fn sub(self, rhs: Self) -> Self {
        self - rhs
    }

    fn mul(self, rhs: Self) -> Self {
        self * rhs
    }

    fn div(self, rhs: Self) -> Self {
        self / rhs
    }

    fn is_neg(self) -> bool {
        false
    }

    fn abs_u64(self) -> u64 {
        self
    }
}

/// A transient wrapper around one storage value: it exists only so that a raw
/// count can be multiplied or divided by a period inside a conversion, and is
/// discarded immediately after.
pub struct Integer<T: IntTrait>(pub T);

impl<T: IntTrait> Integer<T> {
    /// Scales the wrapped count up by the ratio: multiply by the numerator,
    /// then divide by the denominator, so that the division truncates as
    /// little as possible.
    pub fn mul(self, rhs: Period) -> (r: Self)
        requires
            rhs.wf(),
            rhs.numer as int <= T::spec_max(),
            rhs.denom as int <= T::spec_max(),
            T::spec_min() <= self.0.as_int() * rhs.numer as int <= T::spec_max(),
        ensures
            r.0.as_int() == trunc_div(self.0.as_int() * rhs.numer as int, rhs.denom as int),
    {
        proof {
            self.0.in_range();
        }
        let n = T::from_i32(rhs.numer());
        let d = T::from_i32(rhs.denom());
        Integer(self.0.mul(n).div(d))
    }

    /// Scales the wrapped count down by the ratio: multiply by the
    /// denominator, then divide by the numerator.
    pub fn div(self, rhs: Period) -> (r: Self)
        requires
            rhs.wf(),
            rhs.numer as int <= T::spec_max(),
            rhs.denom as int <= T::spec_max(),
            T::spec_min() <= self.0.as_int() * rhs.denom as int <= T::spec_max(),
        ensures
            r.0.as_int() == trunc_div(self.0.as_int() * rhs.denom as int, rhs.numer as int),
    {
        proof {
            self.0.in_range();
        }
        let n = T::from_i32(rhs.numer());
        let d = T::from_i32(rhs.denom());
        Integer(self.0.mul(d).div(n))
    }
}

} // verus!
