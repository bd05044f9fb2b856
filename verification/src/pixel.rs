//! The numeric pixel representations that grids are generic over.
//!
//! A pixel type supplies a zero value, an additive combination, value
//! equality (used for comparisons against a no-data sentinel), and
//! conversions to and from the wide exchange integers that cross the
//! compute-engine boundary.

use vstd::prelude::*;

verus! {

/// The value `v` brought back into the inclusive range `lo..=hi` by adding
/// or subtracting one range width.  This is what wrapping machine addition
/// does to the sum of two values that each lie in the range.
pub open spec fn wrap_val(v: int, lo: int, hi: int) -> int {
    if v > hi {
        v - (hi - lo + 1)
    } else if v < lo {
        v + (hi - lo + 1)
    } else {
        v
    }
}

/// Saturation of `v` into the inclusive range `lo..=hi`.
pub open spec fn saturate_val(v: int, lo: int, hi: int) -> int {
    if v < lo {
        lo
    } else if v > hi {
        hi
    } else {
        v
    }
}

/// A numeric pixel representation.  All grid, tile, stream and compositor
/// code is generic over this trait rather than special-cased per
/// representation.
pub trait Pixel: Sized + Copy {
    /// The mathematical value this pixel stands for.
    spec fn val(self) -> int;

    /// The smallest value of the representation.
    spec fn min_val() -> int;

    /// The largest value of the representation.
    spec fn max_val() -> int;

    /// Every pixel value lies within the representation's bounds, the
    /// bounds fit in the exchange integer, and zero is representable.
    proof fn lemma_val_in_range(self)
        ensures
            Self::min_val() <= self.val() <= Self::max_val(),
            i128::MIN <= Self::min_val() <= 0,
            0 <= Self::max_val() <= i128::MAX,
            Self::min_val() < Self::max_val(),
    ;

    /// Two pixels are the same exactly when their values are.
    proof fn lemma_val_injective(self, other: Self)
        ensures
            (self.val() == other.val()) <==> (self == other),
    ;

    /// The additive identity, used to seed output grids.
    fn zero() -> (r: Self)
        ensures
            r.val() == 0,
    ;

    /// Value equality, as used against a no-data sentinel.
    fn eq_px(self, other: Self) -> (r: bool)
        ensures
            r == (self.val() == other.val()),
    ;

    /// Additive combination, wrapping at the representation's bounds.
    fn add_px(self, other: Self) -> (r: Self)
        ensures
            r.val() == wrap_val(self.val() + other.val(), Self::min_val(), Self::max_val()),
    ;

    /// Widening to the exchange integer of the compute-engine boundary.
    fn widen(self) -> (r: i128)
        ensures
            r == self.val(),
    ;

    /// Narrowing an exchange value back, failing when it is out of range.
    fn narrow(v: i128) -> (r: Option<Self>)
        ensures
            r is Some <==> Self::min_val() <= v <= Self::max_val(),
            r matches Some(p) ==> p.val() == v,
    ;

    /// Narrowing an exchange value back, saturating at the bounds.
    fn narrow_saturating(v: i128) -> (r: Self)
        ensures
            r.val() == saturate_val(v as int, Self::min_val(), Self::max_val()),
    ;
}

impl Pixel for u8 {
    open spec fn val(self) -> int {
        self as int
    }

    open spec fn min_val() -> int {
        u8::MIN as int
    }

    open spec fn max_val() -> int {
        u8::MAX as int
    }

    proof fn lemma_val_in_range(self) {
    }

    proof fn lemma_val_injective(self, other: Self) {
    }

    fn zero() -> Self {
        0u8
    }

    fn eq_px(self, other: Self) -> bool {
        self == other
    }

    fn add_px(self, other: Self) -> Self {
        self.wrapping_add(other)
    }

    fn widen(self) -> i128 {
        self as i128
    }

    fn narrow(v: i128) -> Option<Self> {
        if 0 <= v && v <= u8::MAX as i128 {
            Some(v as u8)
        } else {
            None
        }
    }

    fn narrow_saturating(v: i128) -> Self {
        if v < 0 {
            0u8
        } else if v > u8::MAX as i128 {
            u8::MAX
        } else {
            v as u8
        }
    }
}

impl Pixel for u16 {
    open spec fn val(self) -> int {
        self as int
    }

    open spec fn min_val() -> int {
        u16::MIN as int
    }

    open spec fn max_val() -> int {
        u16::MAX as int
    }

    proof fn lemma_val_in_range(self) {
    }

    proof fn lemma_val_injective(self, other: Self) {
    }

    fn zero() -> Self {
        0u16
    }

    fn eq_px(self, other: Self) -> bool {
        self == other
    }

    fn add_px(self, other: Self) -> Self {
        self.wrapping_add(other)
    }

    fn widen(self) -> i128 {
        self as i128
    }

    fn narrow(v: i128) -> Option<Self> {
        if 0 <= v && v <= u16::MAX as i128 {
            Some(v as u16)
        } else {
            None
        }
    }

    fn narrow_saturating(v: i128) -> Self {
        if v < 0 {
            0u16
        } else if v > u16::MAX as i128 {
            u16::MAX
        } else {
            v as u16
        }
    }
}

impl Pixel for u32 {
    open spec fn val(self) -> int {
        self as int
    }

    open spec fn min_val() -> int {
        u32::MIN as int
    }

    open spec fn max_val() -> int {
        u32::MAX as int
    }

    proof fn lemma_val_in_range(self) {
    }

    proof fn lemma_val_injective(self, other: Self) {
    }

    fn zero() -> Self {
        0u32
    }

    fn eq_px(self, other: Self) -> bool {
        self == other
    }

    fn add_px(self, other: Self) -> Self {
        self.wrapping_add(other)
    }

    fn widen(self) -> i128 {
        self as i128
    }

    fn narrow(v: i128) -> Option<Self> {
        if 0 <= v && v <= u32::MAX as i128 {
            Some(v as u32)
        } else {
            None
        }
    }

    fn narrow_saturating(v: i128) -> Self {
        if v < 0 {
            0u32
        } else if v > u32::MAX as i128 {
            u32::MAX
        } else {
            v as u32
        }
    }
}

impl Pixel for u64 {
    open spec fn val(self) -> int {
        self as int
    }

    open spec fn min_val() -> int {
        u64::MIN as int
    }

    open spec fn max_val() -> int {
        u64::MAX as int
    }

    proof fn lemma_val_in_range(self) {
    }

    proof fn lemma_val_injective(self, other: Self) {
    }

    fn zero() -> Self {
        0u64
    }

    fn eq_px(self, other: Self) -> bool {
        self == other
    }

    fn add_px(self, other: Self) -> Self {
        self.wrapping_add(other)
    }

    fn widen(self) -> i128 {
        self as i128
    }

    fn narrow(v: i128) -> Option<Self> {
        if 0 <= v && v <= u64::MAX as i128 {
            Some(v as u64)
        } else {
            None
        }
    }

    fn narrow_saturating(v: i128) -> Self {
        if v < 0 {
            0u64
        } else if v > u64::MAX as i128 {
            u64::MAX
        } else {
            v as u64
        }
    }
}

impl Pixel for i8 {
    open spec fn val(self) -> int {
        self as int
    }

    open spec fn min_val() -> int {
        i8::MIN as int
    }

    open spec fn max_val() -> int {
        i8::MAX as int
    }

    proof fn lemma_val_in_range(self) {
    }

    proof fn lemma_val_injective(self, other: Self) {
    }

    fn zero() -> Self {
        0i8
    }

    fn eq_px(self, other: Self) -> bool {
        self == other
    }

    fn add_px(self, other: Self) -> Self {
        self.wrapping_add(other)
    }

    fn widen(self) -> i128 {
        self as i128
    }

    fn narrow(v: i128) -> Option<Self> {
        if i8::MIN as i128 <= v && v <= i8::MAX as i128 {
            Some(v as i8)
        } else {
            None
        }
    }

    fn narrow_saturating(v: i128) -> Self {
        if v < i8::MIN as i128 {
            i8::MIN
        } else if v > i8::MAX as i128 {
            i8::MAX
        } else {
            v as i8
        }
    }
}

impl Pixel for i16 {
    open spec fn val(self) -> int {
        self as int
    }

    open spec fn min_val() -> int {
        i16::MIN as int
    }

    open spec fn max_val() -> int {
        i16::MAX as int
    }

    proof fn lemma_val_in_range(self) {
    }

    proof fn lemma_val_injective(self, other: Self) {
    }

    fn zero() -> Self {
        0i16
    }

    fn eq_px(self, other: Self) -> bool {
        self == other
    }

    fn add_px(self, other: Self) -> Self {
        self.wrapping_add(other)
    }

    fn widen(self) -> i128 {
        self as i128
    }

    fn narrow(v: i128) -> Option<Self> {
        if i16::MIN as i128 <= v && v <= i16::MAX as i128 {
            Some(v as i16)
        } else {
            None
        }
    }

    fn narrow_saturating(v: i128) -> Self {
        if v < i16::MIN as i128 {
            i16::MIN
        } else if v > i16::MAX as i128 {
            i16::MAX
        } else {
            v as i16
        }
    }
}

impl Pixel for i32 {
    open spec fn val(self) -> int {
        self as int
    }

    open spec fn min_val() -> int {
        i32::MIN as int
    }

    open spec fn max_val() -> int {
        i32::MAX as int
    }

    proof fn lemma_val_in_range(self) {
    }

    proof fn lemma_val_injective(self, other: Self) {
    }

    fn zero() -> Self {
        0i32
    }

    fn eq_px(self, other: Self) -> bool {
        self == other
    }

    fn add_px(self, other: Self) -> Self {
        self.wrapping_add(other)
    }

    fn widen(self) -> i128 {
        self as i128
    }

    fn narrow(v: i128) -> Option<Self> {
        if i32::MIN as i128 <= v && v <= i32::MAX as i128 {
            Some(v as i32)
        } else {
            None
        }
    }

    fn narrow_saturating(v: i128) -> Self {
        if v < i32::MIN as i128 {
            i32::MIN
        } else if v > i32::MAX as i128 {
            i32::MAX
        } else {
            v as i32
        }
    }
}

impl Pixel for i64 {
    open spec fn val(self) -> int {
        self as int
    }

    open spec fn min_val() -> int {
        i64::MIN as int
    }

    open spec fn max_val() -> int {
        i64::MAX as int
    }

    proof fn lemma_val_in_range(self) {
    }

    proof fn lemma_val_injective(self, other: Self) {
    }

    fn zero() -> Self {
        0i64
    }

    fn eq_px(self, other: Self) -> bool {
        self == other
    }

    fn add_px(self, other: Self) -> Self {
        self.wrapping_add(other)
    }

    fn widen(self) -> i128 {
        self as i128
    }

    fn narrow(v: i128) -> Option<Self> {
        if i64::MIN as i128 <= v && v <= i64::MAX as i128 {
            Some(v as i64)
        } else {
            None
        }
    }

    fn narrow_saturating(v: i128) -> Self {
        if v < i64::MIN as i128 {
            i64::MIN
        } else if v > i64::MAX as i128 {
            i64::MAX
        } else {
            v as i64
        }
    }
}

} // verus!
