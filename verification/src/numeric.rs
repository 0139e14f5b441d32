//! The machine integers as matrix elements.
//!
//! An integer stands for itself. A sum, a difference or a product is defined
//! where it lies in the range of the type.

use crate::matrix_traits::{MatrixElem, MatrixZeroOne};
use vstd::prelude::*;

verus! {

impl MatrixElem for u8 {
    type Value = int;

    open spec fn value(&self) -> int {
        *self as int
    }

    open spec fn can_add(a: int, b: int) -> bool {
        u8::MIN <= a + b <= u8::MAX
    }

    open spec fn add_value(a: int, b: int) -> int {
        a + b
    }

    open spec fn can_sub(a: int, b: int) -> bool {
        u8::MIN <= a - b <= u8::MAX
    }

    open spec fn sub_value(a: int, b: int) -> int {
        a - b
    }

    open spec fn can_mul(a: int, b: int) -> bool {
        u8::MIN <= a * b <= u8::MAX
    }

    open spec fn mul_value(a: int, b: int) -> int {
        a * b
    }

    proof fn clone_keeps_value(source: Self, copy: Self) {
    }

    fn add(self, rhs: Self) -> (sum: Self) {
        self + rhs
    }

    fn sub(self, rhs: Self) -> (difference: Self) {
        self - rhs
    }

    fn mul(self, rhs: Self) -> (product: Self) {
        self * rhs
    }
}

impl MatrixZeroOne for u8 {
    open spec fn zero_value(&self) -> bool {
        *self == 0
    }

    open spec fn one_value(&self) -> bool {
        *self == 1
    }

    fn zero() -> (z: Self) {
        0
    }

    fn is_zero(&self) -> (b: bool) {
        *self == 0
    }

    fn one() -> (o: Self) {
        1
    }

    fn is_one(&self) -> (b: bool) {
        *self == 1
    }
}

impl MatrixElem for u16 {
    type Value = int;

    open spec fn value(&self) -> int {
        *self as int
    }

    open spec fn can_add(a: int, b: int) -> bool {
        u16::MIN <= a + b <= u16::MAX
    }

    open spec fn add_value(a: int, b: int) -> int {
        a + b
    }

    open spec fn can_sub(a: int, b: int) -> bool {
        u16::MIN <= a - b <= u16::MAX
    }

    open spec fn sub_value(a: int, b: int) -> int {
        a - b
    }

    open spec fn can_mul(a: int, b: int) -> bool {
        u16::MIN <= a * b <= u16::MAX
    }

    open spec fn mul_value(a: int, b: int) -> int {
        a * b
    }

    proof fn clone_keeps_value(source: Self, copy: Self) {
    }

    fn add(self, rhs: Self) -> (sum: Self) {
        self + rhs
    }

    fn sub(self, rhs: Self) -> (difference: Self) {
        self - rhs
    }

    fn mul(self, rhs: Self) -> (product: Self) {
        self * rhs
    }
}

impl MatrixZeroOne for u16 {
    open spec fn zero_value(&self) -> bool {
        *self == 0
    }

    open spec fn one_value(&self) -> bool {
        *self == 1
    }

    fn zero() -> (z: Self) {
        0
    }

    fn is_zero(&self) -> (b: bool) {
        *self == 0
    }

    fn one() -> (o: Self) {
        1
    }

    fn is_one(&self) -> (b: bool) {
        *self == 1
    }
}

impl MatrixElem for u32 {
    type Value = int;

    open spec fn value(&self) -> int {
        *self as int
    }

    open spec fn can_add(a: int, b: int) -> bool {
        u32::MIN <= a + b <= u32::MAX
    }

    open spec fn add_value(a: int, b: int) -> int {
        a + b
    }

    open spec fn can_sub(a: int, b: int) -> bool {
        u32::MIN <= a - b <= u32::MAX
    }

    open spec fn sub_value(a: int, b: int) -> int {
        a - b
    }

    open spec fn can_mul(a: int, b: int) -> bool {
        u32::MIN <= a * b <= u32::MAX
    }

    open spec fn mul_value(a: int, b: int) -> int {
        a * b
    }

    proof fn clone_keeps_value(source: Self, copy: Self) {
    }

    fn add(self, rhs: Self) -> (sum: Self) {
        self + rhs
    }

    fn sub(self, rhs: Self) -> (difference: Self) {
        self - rhs
    }

    fn mul(self, rhs: Self) -> (product: Self) {
        self * rhs
    }
}

impl MatrixZeroOne for u32 {
    open spec fn zero_value(&self) -> bool {
        *self == 0
    }

    open spec fn one_value(&self) -> bool {
        *self == 1
    }

    fn zero() -> (z: Self) {
        0
    }

    fn is_zero(&self) -> (b: bool) {
        *self == 0
    }

    fn one() -> (o: Self) {
        1
    }

    fn is_one(&self) -> (b: bool) {
        *self == 1
    }
}

impl MatrixElem for u64 {
    type Value = int;

    open spec fn value(&self) -> int {
        *self as int
    }

    open spec fn can_add(a: int, b: int) -> bool {
        u64::MIN <= a + b <= u64::MAX
    }

    open spec fn add_value(a: int, b: int) -> int {
        a + b
    }

    open spec fn can_sub(a: int, b: int) -> bool {
        u64::MIN <= a - b <= u64::MAX
    }

    open spec fn sub_value(a: int, b: int) -> int {
        a - b
    }

    open spec fn can_mul(a: int, b: int) -> bool {
        u64::MIN <= a * b <= u64::MAX
    }

    open spec fn mul_value(a: int, b: int) -> int {
        a * b
    }

    proof fn clone_keeps_value(source: Self, copy: Self) {
    }

    fn add(self, rhs: Self) -> (sum: Self) {
        self + rhs
    }

    fn sub(self, rhs: Self) -> (difference: Self) {
        self - rhs
    }

    fn mul(self, rhs: Self) -> (product: Self) {
        self * rhs
    }
}

impl MatrixZeroOne for u64 {
    open spec fn zero_value(&self) -> bool {
        *self == 0
    }

    open spec fn one_value(&self) -> bool {
        *self == 1
    }

    fn zero() -> (z: Self) {
        0
    }

    fn is_zero(&self) -> (b: bool) {
        *self == 0
    }

    fn one() -> (o: Self) {
        1
    }

    fn is_one(&self) -> (b: bool) {
        *self == 1
    }
}

impl MatrixElem for usize {
    type Value = int;

    open spec fn value(&self) -> int {
        *self as int
    }

    open spec fn can_add(a: int, b: int) -> bool {
        usize::MIN <= a + b <= usize::MAX
    }

    open spec fn add_value(a: int, b: int) -> int {
        a + b
    }

    open spec fn can_sub(a: int, b: int) -> bool {
        usize::MIN <= a - b <= usize::MAX
    }

    open spec fn sub_value(a: int, b: int) -> int {
        a - b
    }

    open spec fn can_mul(a: int, b: int) -> bool {
        usize::MIN <= a * b <= usize::MAX
    }

    open spec fn mul_value(a: int, b: int) -> int {
        a * b
    }

    proof fn clone_keeps_value(source: Self, copy: Self) {
    }

    fn add(self, rhs: Self) -> (sum: Self) {
        self + rhs
    }

    fn sub(self, rhs: Self) -> (difference: Self) {
        self - rhs
    }

    fn mul(self, rhs: Self) -> (product: Self) {
        self * rhs
    }
}

impl MatrixZeroOne for usize {
    open spec fn zero_value(&self) -> bool {
        *self == 0
    }

    open spec fn one_value(&self) -> bool {
        *self == 1
    }

    fn zero() -> (z: Self) {
        0
    }

    fn is_zero(&self) -> (b: bool) {
        *self == 0
    }

    fn one() -> (o: Self) {
        1
    }

    fn is_one(&self) -> (b: bool) {
        *self == 1
    }
}

impl MatrixElem for i8 {
    type Value = int;

    open spec fn value(&self) -> int {
        *self as int
    }

    open spec fn can_add(a: int, b: int) -> bool {
        i8::MIN <= a + b <= i8::MAX
    }

    open spec fn add_value(a: int, b: int) -> int {
        a + b
    }

    open spec fn can_sub(a: int, b: int) -> bool {
        i8::MIN <= a - b <= i8::MAX
    }

    open spec fn sub_value(a: int, b: int) -> int {
        a - b
    }

    open spec fn can_mul(a: int, b: int) -> bool {
        i8::MIN <= a * b <= i8::MAX
    }

    open spec fn mul_value(a: int, b: int) -> int {
        a * b
    }

    proof fn clone_keeps_value(source: Self, copy: Self) {
    }

    fn add(self, rhs: Self) -> (sum: Self) {
        self + rhs
    }

    fn sub(self, rhs: Self) -> (difference: Self) {
        self - rhs
    }

    fn mul(self, rhs: Self) -> (product: Self) {
        self * rhs
    }
}

impl MatrixZeroOne for i8 {
    open spec fn zero_value(&self) -> bool {
        *self == 0
    }

    open spec fn one_value(&self) -> bool {
        *self == 1
    }

    fn zero() -> (z: Self) {
        0
    }

    fn is_zero(&self) -> (b: bool) {
        *self == 0
    }

    fn one() -> (o: Self) {
        1
    }

    fn is_one(&self) -> (b: bool) {
        *self == 1
    }
}

impl MatrixElem for i16 {
    type Value = int;

    open spec fn value(&self) -> int {
        *self as int
    }

    open spec fn can_add(a: int, b: int) -> bool {
        i16::MIN <= a + b <= i16::MAX
    }

    open spec fn add_value(a: int, b: int) -> int {
        a + b
    }

    open spec fn can_sub(a: int, b: int) -> bool {
        i16::MIN <= a - b <= i16::MAX
    }

    open spec fn sub_value(a: int, b: int) -> int {
        a - b
    }

    open spec fn can_mul(a: int, b: int) -> bool {
        i16::MIN <= a * b <= i16::MAX
    }

    open spec fn mul_value(a: int, b: int) -> int {
        a * b
    }

    proof fn clone_keeps_value(source: Self, copy: Self) {
    }

    fn add(self, rhs: Self) -> (sum: Self) {
        self + rhs
    }

    fn sub(self, rhs: Self) -> (difference: Self) {
        self - rhs
    }

    fn mul(self, rhs: Self) -> (product: Self) {
        self * rhs
    }
}

impl MatrixZeroOne for i16 {
    open spec fn zero_value(&self) -> bool {
        *self == 0
    }

    open spec fn one_value(&self) -> bool {
        *self == 1
    }

    fn zero() -> (z: Self) {
        0
    }

    fn is_zero(&self) -> (b: bool) {
        *self == 0
    }

    fn one() -> (o: Self) {
        1
    }

    fn is_one(&self) -> (b: bool) {
        *self == 1
    }
}

impl MatrixElem for i32 {
    type Value = int;

    open spec fn value(&self) -> int {
        *self as int
    }

    open spec fn can_add(a: int, b: int) -> bool {
        i32::MIN <= a + b <= i32::MAX
    }

    open spec fn add_value(a: int, b: int) -> int {
        a + b
    }

    open spec fn can_sub(a: int, b: int) -> bool {
        i32::MIN <= a - b <= i32::MAX
    }

    open spec fn sub_value(a: int, b: int) -> int {
        a - b
    }

    open spec fn can_mul(a: int, b: int) -> bool {
        i32::MIN <= a * b <= i32::MAX
    }

    open spec fn mul_value(a: int, b: int) -> int {
        a * b
    }

    proof fn clone_keeps_value(source: Self, copy: Self) {
    }

    fn add(self, rhs: Self) -> (sum: Self) {
        self + rhs
    }

    fn sub(self, rhs: Self) -> (difference: Self) {
        self - rhs
    }

    fn mul(self, rhs: Self) -> (product: Self) {
        self * rhs
    }
}

impl MatrixZeroOne for i32 {
    open spec fn zero_value(&self) -> bool {
        *self == 0
    }

    open spec fn one_value(&self) -> bool {
        *self == 1
    }

    fn zero() -> (z: Self) {
        0
    }

    fn is_zero(&self) -> (b: bool) {
        *self == 0
    }

    fn one() -> (o: Self) {
        1
    }

    fn is_one(&self) -> (b: bool) {
        *self == 1
    }
}

impl MatrixElem for i64 {
    type Value = int;

    open spec fn value(&self) -> int {
        *self as int
    }

    open spec fn can_add(a: int, b: int) -> bool {
        i64::MIN <= a + b <= i64::MAX
    }

    open spec fn add_value(a: int, b: int) -> int {
        a + b
    }

    open spec fn can_sub(a: int, b: int) -> bool {
        i64::MIN <= a - b <= i64::MAX
    }

    open spec fn sub_value(a: int, b: int) -> int {
        a - b
    }

    open spec fn can_mul(a: int, b: int) -> bool {
        i64::MIN <= a * b <= i64::MAX
    }

    open spec fn mul_value(a: int, b: int) -> int {
        a * b
    }

    proof fn clone_keeps_value(source: Self, copy: Self) {
    }

    fn add(self, rhs: Self) -> (sum: Self) {
        self + rhs
    }

    fn sub(self, rhs: Self) -> (difference: Self) {
        self - rhs
    }

    fn mul(self, rhs: Self) -> (product: Self) {
        self * rhs
    }
}

impl MatrixZeroOne for i64 {
    open spec fn zero_value(&self) -> bool {
        *self == 0
    }

    open spec fn one_value(&self) -> bool {
        *self == 1
    }

    fn zero() -> (z: Self) {
        0
    }

    fn is_zero(&self) -> (b: bool) {
        *self == 0
    }

    fn one() -> (o: Self) {
        1
    }

    fn is_one(&self) -> (b: bool) {
        *self == 1
    }
}

impl MatrixElem for isize {
    type Value = int;

    open spec fn value(&self) -> int {
        *self as int
    }

    open spec fn can_add(a: int, b: int) -> bool {
        isize::MIN <= a + b <= isize::MAX
    }

    open spec fn add_value(a: int, b: int) -> int {
        a + b
    }

    open spec fn can_sub(a: int, b: int) -> bool {
        isize::MIN <= a - b <= isize::MAX
    }

    open spec fn sub_value(a: int, b: int) -> int {
        a - b
    }

    open spec fn can_mul(a: int, b: int) -> bool {
        isize::MIN <= a * b <= isize::MAX
    }

    open spec fn mul_value(a: int, b: int) -> int {
        a * b
    }

    proof fn clone_keeps_value(source: Self, copy: Self) {
    }

    fn add(self, rhs: Self) -> (sum: Self) {
        self + rhs
    }

    fn sub(self, rhs: Self) -> (difference: Self) {
        self - rhs
    }

    fn mul(self, rhs: Self) -> (product: Self) {
        self * rhs
    }
}

impl MatrixZeroOne for isize {
    open spec fn zero_value(&self) -> bool {
        *self == 0
    }

    open spec fn one_value(&self) -> bool {
        *self == 1
    }

    fn zero() -> (z: Self) {
        0
    }

    fn is_zero(&self) -> (b: bool) {
        *self == 0
    }

    fn one() -> (o: Self) {
        1
    }

    fn is_one(&self) -> (b: bool) {
        *self == 1
    }
}

} // verus!
