//! Per-width implementations of [`Signed`].
//!
//! Each supported width is a mechanical instantiation: the spec model maps
//! values to mathematical integers, and every method is the native operation
//! of that width.

use vstd::prelude::*;

use crate::absolute::Absolute;
use crate::Signed;

verus! {

impl Signed for i32 {
    type Unsigned = u32;

    const ZERO: i32 = 0;

    open spec fn sval(self) -> int {
        self as int
    }

    open spec fn uval(u: u32) -> int {
        u as int
    }

    open spec fn min_val() -> int {
        i32::MIN as int
    }

    open spec fn max_val() -> int {
        i32::MAX as int
    }

    proof fn lemma_range(self) {
    }

    proof fn lemma_zero() {
    }

    proof fn lemma_uval_injective(u1: u32, u2: u32) {
    }

    fn get_absolute(&mut self) -> (r: Absolute<'_, i32>) {
        Absolute { num: self }
    }

    fn abs_diff(self, other: Self) -> (r: u32) {
        let (hi, lo) = if self >= other {
            (self, other)
        } else {
            (other, self)
        };
        if lo >= 0 || hi < 0 {
            (hi - lo) as u32
        } else {
            (hi as u32) + ((-(lo + 1)) as u32 + 1)
        }
    }

    fn abs(self) -> (r: Self) {
        if self < 0 {
            -self
        } else {
            self
        }
    }

    fn is_positive(self) -> (r: bool) {
        self > 0
    }

    fn is_negative(self) -> (r: bool) {
        self < 0
    }

    fn signum(self) -> (r: Self) {
        if self < 0 {
            -1
        } else if self == 0 {
            0
        } else {
            1
        }
    }

    fn add_in_place(&mut self, rhs: Self) {
        *self = *self + rhs;
    }

    fn sub_in_place(&mut self, rhs: Self) {
        *self = *self - rhs;
    }
}

impl Signed for i8 {
    type Unsigned = u8;

    const ZERO: i8 = 0;

    open spec fn sval(self) -> int {
        self as int
    }

    open spec fn uval(u: u8) -> int {
        u as int
    }

    open spec fn min_val() -> int {
        i8::MIN as int
    }

    open spec fn max_val() -> int {
        i8::MAX as int
    }

    proof fn lemma_range(self) {
    }

    proof fn lemma_zero() {
    }

    proof fn lemma_uval_injective(u1: u8, u2: u8) {
    }

    fn get_absolute(&mut self) -> (r: Absolute<'_, i8>) {
        Absolute { num: self }
    }

    fn abs_diff(self, other: Self) -> (r: u8) {
        let (hi, lo) = if self >= other {
            (self, other)
        } else {
            (other, self)
        };
        if lo >= 0 || hi < 0 {
            (hi - lo) as u8
        } else {
            (hi as u8) + ((-(lo + 1)) as u8 + 1)
        }
    }

    fn abs(self) -> (r: Self) {
        if self < 0 {
            -self
        } else {
            self
        }
    }

    fn is_positive(self) -> (r: bool) {
        self > 0
    }

    fn is_negative(self) -> (r: bool) {
        self < 0
    }

    fn signum(self) -> (r: Self) {
        if self < 0 {
            -1
        } else if self == 0 {
            0
        } else {
            1
        }
    }

    fn add_in_place(&mut self, rhs: Self) {
        *self = *self + rhs;
    }

    fn sub_in_place(&mut self, rhs: Self) {
        *self = *self - rhs;
    }
}

impl Signed for i16 {
    type Unsigned = u16;

    const ZERO: i16 = 0;

    open spec fn sval(self) -> int {
        self as int
    }

    open spec fn uval(u: u16) -> int {
        u as int
    }

    open spec fn min_val() -> int {
        i16::MIN as int
    }

    open spec fn max_val() -> int {
        i16::MAX as int
    }

    proof fn lemma_range(self) {
    }

    proof fn lemma_zero() {
    }

    proof fn lemma_uval_injective(u1: u16, u2: u16) {
    }

    fn get_absolute(&mut self) -> (r: Absolute<'_, i16>) {
        Absolute { num: self }
    }

    fn abs_diff(self, other: Self) -> (r: u16) {
        let (hi, lo) = if self >= other {
            (self, other)
        } else {
            (other, self)
        };
        if lo >= 0 || hi < 0 {
            (hi - lo) as u16
        } else {
            (hi as u16) + ((-(lo + 1)) as u16 + 1)
        }
    }

    fn abs(self) -> (r: Self) {
        if self < 0 {
            -self
        } else {
            self
        }
    }

    fn is_positive(self) -> (r: bool) {
        self > 0
    }

    fn is_negative(self) -> (r: bool) {
        self < 0
    }

    fn signum(self) -> (r: Self) {
        if self < 0 {
            -1
        } else if self == 0 {
            0
        } else {
            1
        }
    }

    fn add_in_place(&mut self, rhs: Self) {
        *self = *self + rhs;
    }

    fn sub_in_place(&mut self, rhs: Self) {
        *self = *self - rhs;
    }
}

impl Signed for i64 {
    type Unsigned = u64;

    const ZERO: i64 = 0;

    open spec fn sval(self) -> int {
        self as int
    }

    open spec fn uval(u: u64) -> int {
        u as int
    }

    open spec fn min_val() -> int {
        i64::MIN as int
    }

    open spec fn max_val() -> int {
        i64::MAX as int
    }

    proof fn lemma_range(self) {
    }

    proof fn lemma_zero() {
    }

    proof fn lemma_uval_injective(u1: u64, u2: u64) {
    }

    fn get_absolute(&mut self) -> (r: Absolute<'_, i64>) {
        Absolute { num: self }
    }

    fn abs_diff(self, other: Self) -> (r: u64) {
        let (hi, lo) = if self >= other {
            (self, other)
        } else {
            (other, self)
        };
        if lo >= 0 || hi < 0 {
            (hi - lo) as u64
        } else {
            (hi as u64) + ((-(lo + 1)) as u64 + 1)
        }
    }

    fn abs(self) -> (r: Self) {
        if self < 0 {
            -self
        } else {
            self
        }
    }

    fn is_positive(self) -> (r: bool) {
        self > 0
    }

    fn is_negative(self) -> (r: bool) {
        self < 0
    }

    fn signum(self) -> (r: Self) {
        if self < 0 {
            -1
        } else if self == 0 {
            0
        } else {
            1
        }
    }

    fn add_in_place(&mut self, rhs: Self) {
        *self = *self + rhs;
    }

    fn sub_in_place(&mut self, rhs: Self) {
        *self = *self - rhs;
    }
}

impl Signed for i128 {
    type Unsigned = u128;

    const ZERO: i128 = 0;

    open spec fn sval(self) -> int {
        self as int
    }

    open spec fn uval(u: u128) -> int {
        u as int
    }

    open spec fn min_val() -> int {
        i128::MIN as int
    }

    open spec fn max_val() -> int {
        i128::MAX as int
    }

    proof fn lemma_range(self) {
    }

    proof fn lemma_zero() {
    }

    proof fn lemma_uval_injective(u1: u128, u2: u128) {
    }

    fn get_absolute(&mut self) -> (r: Absolute<'_, i128>) {
        Absolute { num: self }
    }

    fn abs_diff(self, other: Self) -> (r: u128) {
        let (hi, lo) = if self >= other {
            (self, other)
        } else {
            (other, self)
        };
        if lo >= 0 || hi < 0 {
            (hi - lo) as u128
        } else {
            (hi as u128) + ((-(lo + 1)) as u128 + 1)
        }
    }

    fn abs(self) -> (r: Self) {
        if self < 0 {
            -self
        } else {
            self
        }
    }

    fn is_positive(self) -> (r: bool) {
        self > 0
    }

    fn is_negative(self) -> (r: bool) {
        self < 0
    }

    fn signum(self) -> (r: Self) {
        if self < 0 {
            -1
        } else if self == 0 {
            0
        } else {
            1
        }
    }

    fn add_in_place(&mut self, rhs: Self) {
        *self = *self + rhs;
    }

    fn sub_in_place(&mut self, rhs: Self) {
        *self = *self - rhs;
    }
}

} // verus!
