//! Conservative integer arithmetic.
//!
//! Every operation either returns the exact mathematical result or fails with
//! an overflow error; none of them wraps silently. Saturating addition is the
//! one exception, and it says so in its name and contract.

use vstd::prelude::*;
use crate::any_metric::ScalarType;
use crate::error::{Error, ErrorVariant, Fallible};

verus! {

/// `x` pushed into the closed interval `[lo, hi]`.
pub open spec fn clamp(x: int, lo: int, hi: int) -> int {
    if x < lo {
        lo
    } else if x > hi {
        hi
    } else {
        x
    }
}

/// The closed family of primitive integer types that carry data and distances.
pub trait Number: Copy + Sized {
    /// The mathematical value of `self`.
    spec fn int_value(&self) -> int;

    /// The smallest representable value.
    spec fn min_int() -> int;

    /// The largest representable value.
    spec fn max_int() -> int;

    /// Every value lies in the representable range, which itself lies inside the
    /// range shared by `i64` and `u64`.
    proof fn lemma_range(x: Self)
        ensures
            Self::min_int() <= x.int_value() <= Self::max_int(),
            -0x8000_0000_0000_0000 <= Self::min_int() <= 0,
            0 < Self::max_int() <= 0xFFFF_FFFF_FFFF_FFFF,
            Self::max_int() - Self::min_int() <= 0xFFFF_FFFF_FFFF_FFFF,
    ;

    /// The value of `x`, where `x` is representable.
    spec fn from_int(x: int) -> Self;

    /// A value is determined by its mathematical value.
    proof fn lemma_from_int(x: Self)
        ensures
            Self::from_int(x.int_value()) == x,
    ;

    /// The tag of the type.
    spec fn tag() -> ScalarType;

    /// The tag of the type.
    fn scalar_type() -> (r: ScalarType)
        ensures
            r == Self::tag(),
    ;

    /// Zero.
    fn zero() -> (r: Self)
        ensures
            r.int_value() == 0,
    ;

    /// The value in a type wide enough for every member of the family.
    fn widen(&self) -> (r: i128)
        ensures
            r == self.int_value(),
    ;

    /// Addition that sticks at the representable limits.
    fn sat_add(&self, other: &Self) -> (r: Self)
        ensures
            r.int_value() == clamp(
                self.int_value() + other.int_value(),
                Self::min_int(),
                Self::max_int(),
            ),
    ;

    /// Exact subtraction that fails on overflow.
    fn inf_sub(&self, other: &Self) -> (r: Fallible<Self>)
        ensures
            r is Ok <==> Self::min_int() <= self.int_value() - other.int_value() <= Self::max_int(),
            r matches Ok(v) ==> v.int_value() == self.int_value() - other.int_value(),
            r matches Err(e) ==> e.variant == ErrorVariant::Overflow,
    ;

    /// Exact multiplication that fails on overflow.
    fn inf_mul(&self, other: &Self) -> (r: Fallible<Self>)
        ensures
            r is Ok <==> Self::min_int() <= self.int_value() * other.int_value() <= Self::max_int(),
            r matches Ok(v) ==> v.int_value() == self.int_value() * other.int_value(),
            r matches Err(e) ==> e.variant == ErrorVariant::Overflow,
    ;

    /// Exact addition that fails on overflow.
    fn inf_add(&self, other: &Self) -> (r: Fallible<Self>)
        ensures
            r is Ok <==> Self::min_int() <= self.int_value() + other.int_value() <= Self::max_int(),
            r matches Ok(v) ==> v.int_value() == self.int_value() + other.int_value(),
            r matches Err(e) ==> e.variant == ErrorVariant::Overflow,
    ;
}

/// The overflow error of the arithmetic layer.
fn overflow() -> (e: Error)
    ensures
        e.variant == ErrorVariant::Overflow,
{
    Error::new(ErrorVariant::Overflow, "arithmetic overflow")
}

impl Number for i32 {
    open spec fn int_value(&self) -> int {
        *self as int
    }

    open spec fn min_int() -> int {
        i32::MIN as int
    }

    open spec fn max_int() -> int {
        i32::MAX as int
    }

    proof fn lemma_range(x: Self) {
    }

    open spec fn from_int(x: int) -> Self {
        x as i32
    }

    open spec fn tag() -> ScalarType {
        ScalarType::I32
    }

    fn scalar_type() -> (r: ScalarType) {
        ScalarType::I32
    }

    proof fn lemma_from_int(x: Self) {
    }

    fn zero() -> (r: Self) {
        0
    }

    fn widen(&self) -> (r: i128) {
        *self as i128
    }

    fn sat_add(&self, other: &Self) -> (r: Self) {
        let s: i128 = *self as i128 + *other as i128;
        if s > i32::MAX as i128 {
            i32::MAX
        } else if s < i32::MIN as i128 {
            i32::MIN
        } else {
            s as i32
        }
    }

    fn inf_add(&self, other: &Self) -> (r: Fallible<Self>) {
        match self.checked_add(*other) {
            Some(v) => Ok(v),
            None => Err(overflow()),
        }
    }

    fn inf_sub(&self, other: &Self) -> (r: Fallible<Self>) {
        match self.checked_sub(*other) {
            Some(v) => Ok(v),
            None => Err(overflow()),
        }
    }

    fn inf_mul(&self, other: &Self) -> (r: Fallible<Self>) {
        match self.checked_mul(*other) {
            Some(v) => Ok(v),
            None => Err(overflow()),
        }
    }
}

impl Number for i64 {
    open spec fn int_value(&self) -> int {
        *self as int
    }

    open spec fn min_int() -> int {
        i64::MIN as int
    }

    open spec fn max_int() -> int {
        i64::MAX as int
    }

    proof fn lemma_range(x: Self) {
    }

    open spec fn from_int(x: int) -> Self {
        x as i64
    }

    open spec fn tag() -> ScalarType {
        ScalarType::I64
    }

    fn scalar_type() -> (r: ScalarType) {
        ScalarType::I64
    }

    proof fn lemma_from_int(x: Self) {
    }

    fn zero() -> (r: Self) {
        0
    }

    fn widen(&self) -> (r: i128) {
        *self as i128
    }

    fn sat_add(&self, other: &Self) -> (r: Self) {
        let s: i128 = *self as i128 + *other as i128;
        if s > i64::MAX as i128 {
            i64::MAX
        } else if s < i64::MIN as i128 {
            i64::MIN
        } else {
            s as i64
        }
    }

    fn inf_add(&self, other: &Self) -> (r: Fallible<Self>) {
        match self.checked_add(*other) {
            Some(v) => Ok(v),
            None => Err(overflow()),
        }
    }

    fn inf_sub(&self, other: &Self) -> (r: Fallible<Self>) {
        match self.checked_sub(*other) {
            Some(v) => Ok(v),
            None => Err(overflow()),
        }
    }

    fn inf_mul(&self, other: &Self) -> (r: Fallible<Self>) {
        match self.checked_mul(*other) {
            Some(v) => Ok(v),
            None => Err(overflow()),
        }
    }
}

impl Number for u32 {
    open spec fn int_value(&self) -> int {
        *self as int
    }

    open spec fn min_int() -> int {
        u32::MIN as int
    }

    open spec fn max_int() -> int {
        u32::MAX as int
    }

    proof fn lemma_range(x: Self) {
    }

    open spec fn from_int(x: int) -> Self {
        x as u32
    }

    open spec fn tag() -> ScalarType {
        ScalarType::U32
    }

    fn scalar_type() -> (r: ScalarType) {
        ScalarType::U32
    }

    proof fn lemma_from_int(x: Self) {
    }

    fn zero() -> (r: Self) {
        0
    }

    fn widen(&self) -> (r: i128) {
        *self as i128
    }

    fn sat_add(&self, other: &Self) -> (r: Self) {
        let s: i128 = *self as i128 + *other as i128;
        if s > u32::MAX as i128 {
            u32::MAX
        } else if s < u32::MIN as i128 {
            u32::MIN
        } else {
            s as u32
        }
    }

    fn inf_add(&self, other: &Self) -> (r: Fallible<Self>) {
        match self.checked_add(*other) {
            Some(v) => Ok(v),
            None => Err(overflow()),
        }
    }

    fn inf_sub(&self, other: &Self) -> (r: Fallible<Self>) {
        match self.checked_sub(*other) {
            Some(v) => Ok(v),
            None => Err(overflow()),
        }
    }

    fn inf_mul(&self, other: &Self) -> (r: Fallible<Self>) {
        match self.checked_mul(*other) {
            Some(v) => Ok(v),
            None => Err(overflow()),
        }
    }
}

impl Number for u64 {
    open spec fn int_value(&self) -> int {
        *self as int
    }

    open spec fn min_int() -> int {
        u64::MIN as int
    }

    open spec fn max_int() -> int {
        u64::MAX as int
    }

    proof fn lemma_range(x: Self) {
    }

    open spec fn from_int(x: int) -> Self {
        x as u64
    }

    open spec fn tag() -> ScalarType {
        ScalarType::U64
    }

    fn scalar_type() -> (r: ScalarType) {
        ScalarType::U64
    }

    proof fn lemma_from_int(x: Self) {
    }

    fn zero() -> (r: Self) {
        0
    }

    fn widen(&self) -> (r: i128) {
        *self as i128
    }

    fn sat_add(&self, other: &Self) -> (r: Self) {
        let s: i128 = *self as i128 + *other as i128;
        if s > u64::MAX as i128 {
            u64::MAX
        } else if s < u64::MIN as i128 {
            u64::MIN
        } else {
            s as u64
        }
    }

    fn inf_add(&self, other: &Self) -> (r: Fallible<Self>) {
        match self.checked_add(*other) {
            Some(v) => Ok(v),
            None => Err(overflow()),
        }
    }

    fn inf_sub(&self, other: &Self) -> (r: Fallible<Self>) {
        match self.checked_sub(*other) {
            Some(v) => Ok(v),
            None => Err(overflow()),
        }
    }

    fn inf_mul(&self, other: &Self) -> (r: Fallible<Self>) {
        match self.checked_mul(*other) {
            Some(v) => Ok(v),
            None => Err(overflow()),
        }
    }
}

} // verus!
