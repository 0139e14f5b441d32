//! The operators `+`, `-` and `*` on matrices.
//!
//! An operator is defined where the method it stands for is: on matrices
//! whose shapes fit, with every element operation defined.

use crate::algebra::{
    can_add_grids, can_multiply_grids, can_scale_grid, can_sub_grids, difference_grid,
    product_grid, scaled_grid, sum_grid,
};
use crate::matrix::{has_shape, Matrix};
use crate::matrix_traits::MatrixElem;
use vstd::prelude::*;

verus! {

impl<T: Clone + MatrixElem> vstd::std_specs::ops::AddSpecImpl for Matrix<T> {
    open spec fn obeys_add_spec() -> bool {
        false
    }

    open spec fn add_req(self, rhs: Matrix<T>) -> bool {
        &&& self.spec_height() == rhs.spec_height()
        &&& self.spec_width() == rhs.spec_width()
        &&& can_add_grids::<T>(self.values(), rhs.values())
    }

    open spec fn add_spec(self, rhs: Matrix<T>) -> Matrix<T> {
        arbitrary()
    }
}

impl<T: Clone + MatrixElem> std::ops::Add for Matrix<T> {
    type Output = Matrix<T>;

    /// `self + rhs`, cell by cell.
    fn add(self, rhs: Matrix<T>) -> (sum: Matrix<T>)
        ensures
            sum.spec_height() == self.spec_height(),
            sum.spec_width() == self.spec_width(),
            sum.values() == sum_grid::<T>(self.values(), rhs.values()),
    {
        self.add_matrix(&rhs)
    }
}

impl<T: Clone + MatrixElem> vstd::std_specs::ops::SubSpecImpl for Matrix<T> {
    open spec fn obeys_sub_spec() -> bool {
        false
    }

    open spec fn sub_req(self, rhs: Matrix<T>) -> bool {
        &&& self.spec_height() == rhs.spec_height()
        &&& self.spec_width() == rhs.spec_width()
        &&& can_sub_grids::<T>(self.values(), rhs.values())
    }

    open spec fn sub_spec(self, rhs: Matrix<T>) -> Matrix<T> {
        arbitrary()
    }
}

impl<T: Clone + MatrixElem> std::ops::Sub for Matrix<T> {
    type Output = Matrix<T>;

    /// `self - rhs`, cell by cell.
    fn sub(self, rhs: Matrix<T>) -> (difference: Matrix<T>)
        ensures
            difference.spec_height() == self.spec_height(),
            difference.spec_width() == self.spec_width(),
            difference.values() == difference_grid::<T>(self.values(), rhs.values()),
    {
        self.sub_matrix(&rhs)
    }
}

impl<T: Clone + MatrixElem> vstd::std_specs::ops::MulSpecImpl<T> for Matrix<T> {
    open spec fn obeys_mul_spec() -> bool {
        false
    }

    open spec fn mul_req(self, rhs: T) -> bool {
        can_scale_grid::<T>(self.values(), rhs.value())
    }

    open spec fn mul_spec(self, rhs: T) -> Matrix<T> {
        arbitrary()
    }
}

impl<T: Clone + MatrixElem> std::ops::Mul<T> for Matrix<T> {
    type Output = Matrix<T>;

    /// `self` with every cell multiplied by `rhs`.
    fn mul(self, rhs: T) -> (scaled: Matrix<T>)
        ensures
            scaled.spec_height() == self.spec_height(),
            scaled.spec_width() == self.spec_width(),
            scaled.values() == scaled_grid::<T>(self.values(), rhs.value()),
    {
        self.mul_scalar(&rhs)
    }
}

impl<T: Clone + MatrixElem> vstd::std_specs::ops::MulSpecImpl for Matrix<T> {
    open spec fn obeys_mul_spec() -> bool {
        false
    }

    open spec fn mul_req(self, rhs: Matrix<T>) -> bool {
        &&& self.spec_width() == rhs.spec_height()
        &&& can_multiply_grids::<T>(self.values(), rhs.values())
    }

    open spec fn mul_spec(self, rhs: Matrix<T>) -> Matrix<T> {
        arbitrary()
    }
}

impl<T: Clone + MatrixElem> std::ops::Mul for Matrix<T> {
    type Output = Matrix<T>;

    /// The matrix product `self * rhs`.
    fn mul(self, rhs: Matrix<T>) -> (product: Matrix<T>)
        ensures
            has_shape(product@, self.spec_height(), rhs.spec_width()),
            product.values() == product_grid::<T>(self.values(), rhs.values()),
    {
        self.mul_matrix(&rhs)
    }
}

impl<T: Clone + MatrixElem> vstd::std_specs::ops::MulSpecImpl for &Matrix<T> {
    open spec fn obeys_mul_spec() -> bool {
        false
    }

    open spec fn mul_req(self, rhs: &Matrix<T>) -> bool {
        &&& self.spec_width() == rhs.spec_height()
        &&& can_multiply_grids::<T>(self.values(), rhs.values())
    }

    open spec fn mul_spec(self, rhs: &Matrix<T>) -> Matrix<T> {
        arbitrary()
    }
}

impl<T: Clone + MatrixElem> std::ops::Mul for &Matrix<T> {
    type Output = Matrix<T>;

    /// The matrix product `self * rhs`, which leaves both operands in place.
    fn mul(self, rhs: &Matrix<T>) -> (product: Matrix<T>)
        ensures
            has_shape(product@, self.spec_height(), rhs.spec_width()),
            product.values() == product_grid::<T>(self.values(), rhs.values()),
    {
        self.mul_matrix(rhs)
    }
}

} // verus!
