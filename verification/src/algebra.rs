//! Element-wise algebra and matrix multiplication.
//!
//! The results are stated over the values that the elements stand for: a
//! matrix of elements is read as a grid of values, and sums and products are
//! functions on such grids.

use crate::matrix::{grid_width, has_shape, Matrix};
use crate::matrix_traits::{MatrixElem, MatrixZeroOne};
use vstd::prelude::*;

verus! {

/// The values that the elements of `grid` stand for.
pub open spec fn values<T: MatrixElem>(grid: Seq<Seq<T>>) -> Seq<Seq<T::Value>> {
    Seq::new(grid.len(), |i: int| Seq::new(grid[i].len(), |j: int| grid[i][j].value()))
}

/// The column `j` of `grid`, from the top down.
pub open spec fn column<A>(grid: Seq<Seq<A>>, j: int) -> Seq<A> {
    Seq::new(grid.len(), |k: int| grid[k][j])
}

/// Every cell of `a` can be added to the cell of `b` at the same place.
pub open spec fn can_add_grids<T: MatrixElem>(
    a: Seq<Seq<T::Value>>,
    b: Seq<Seq<T::Value>>,
) -> bool {
    forall|i: int, j: int|
        0 <= i < a.len() && 0 <= j < a[i].len() ==> #[trigger] T::can_add(a[i][j], b[i][j])
}

/// The cell-wise sum of two grids of one shape.
pub open spec fn sum_grid<T: MatrixElem>(a: Seq<Seq<T::Value>>, b: Seq<Seq<T::Value>>) -> Seq<
    Seq<T::Value>,
> {
    Seq::new(a.len(), |i: int| Seq::new(a[i].len(), |j: int| T::add_value(a[i][j], b[i][j])))
}

/// From every cell of `a` the cell of `b` at the same place can be subtracted.
pub open spec fn can_sub_grids<T: MatrixElem>(
    a: Seq<Seq<T::Value>>,
    b: Seq<Seq<T::Value>>,
) -> bool {
    forall|i: int, j: int|
        0 <= i < a.len() && 0 <= j < a[i].len() ==> #[trigger] T::can_sub(a[i][j], b[i][j])
}

/// The cell-wise difference of two grids of one shape.
pub open spec fn difference_grid<T: MatrixElem>(
    a: Seq<Seq<T::Value>>,
    b: Seq<Seq<T::Value>>,
) -> Seq<Seq<T::Value>> {
    Seq::new(a.len(), |i: int| Seq::new(a[i].len(), |j: int| T::sub_value(a[i][j], b[i][j])))
}

/// Every cell of `a` can be multiplied by `factor`.
pub open spec fn can_scale_grid<T: MatrixElem>(a: Seq<Seq<T::Value>>, factor: T::Value) -> bool {
    forall|i: int, j: int|
        0 <= i < a.len() && 0 <= j < a[i].len() ==> #[trigger] T::can_mul(a[i][j], factor)
}

/// `a` with every cell multiplied by `factor`, the cell on the left.
pub open spec fn scaled_grid<T: MatrixElem>(a: Seq<Seq<T::Value>>, factor: T::Value) -> Seq<
    Seq<T::Value>,
> {
    Seq::new(a.len(), |i: int| Seq::new(a[i].len(), |j: int| T::mul_value(a[i][j], factor)))
}

/// The inner product of the first `n` terms of `xs` and `ys`, for `n` of at
/// least 1: it starts from the first product and adds the others to it one by
/// one, so that no additive identity is needed.
pub open spec fn inner_product<T: MatrixElem>(
    xs: Seq<T::Value>,
    ys: Seq<T::Value>,
    n: nat,
) -> T::Value
    decreases n,
{
    if n <= 1 {
        T::mul_value(xs[0], ys[0])
    } else {
        T::add_value(
            inner_product::<T>(xs, ys, (n - 1) as nat),
            T::mul_value(xs[n - 1], ys[n - 1]),
        )
    }
}

/// Every product and every sum that `inner_product` takes is defined.
pub open spec fn can_inner_product<T: MatrixElem>(
    xs: Seq<T::Value>,
    ys: Seq<T::Value>,
    n: nat,
) -> bool
    decreases n,
{
    if n <= 1 {
        T::can_mul(xs[0], ys[0])
    } else {
        &&& can_inner_product::<T>(xs, ys, (n - 1) as nat)
        &&& T::can_mul(xs[n - 1], ys[n - 1])
        &&& T::can_add(
            inner_product::<T>(xs, ys, (n - 1) as nat),
            T::mul_value(xs[n - 1], ys[n - 1]),
        )
    }
}

/// The matrix product of `a` and `b`, where `a` has as many columns as `b`
/// has rows: the cell `(i, j)` is the inner product of row `i` of `a` and
/// column `j` of `b`.
pub open spec fn product_grid<T: MatrixElem>(a: Seq<Seq<T::Value>>, b: Seq<Seq<T::Value>>) -> Seq<
    Seq<T::Value>,
> {
    Seq::new(
        a.len(),
        |i: int|
            Seq::new(
                grid_width(b),
                |j: int| inner_product::<T>(a[i], column(b, j), grid_width(a)),
            ),
    )
}

/// Every cell of `product_grid` is defined.
pub open spec fn can_multiply_grids<T: MatrixElem>(
    a: Seq<Seq<T::Value>>,
    b: Seq<Seq<T::Value>>,
) -> bool {
    forall|i: int, j: int|
        0 <= i < a.len() && 0 <= j < grid_width(b) ==> #[trigger] can_inner_product::<T>(
            a[i],
            column(b, j),
            grid_width(a),
        )
}

/// `row` with `factor` times the cell of `pivot_row` subtracted from each
/// cell from column `from` on; the cells before it stay.
pub open spec fn reduced_row<T: MatrixElem>(
    row: Seq<T::Value>,
    pivot_row: Seq<T::Value>,
    factor: T::Value,
    from: int,
) -> Seq<T::Value> {
    Seq::new(
        row.len(),
        |j: int|
            if from <= j {
                T::sub_value(row[j], T::mul_value(factor, pivot_row[j]))
            } else {
                row[j]
            },
    )
}

/// Every product and every difference that `reduced_row` takes is defined.
pub open spec fn can_reduce_row<T: MatrixElem>(
    row: Seq<T::Value>,
    pivot_row: Seq<T::Value>,
    factor: T::Value,
    from: int,
) -> bool {
    forall|j: int|
        from <= j < row.len() ==> T::can_mul(factor, #[trigger] pivot_row[j]) && T::can_sub(
            row[j],
            T::mul_value(factor, pivot_row[j]),
        )
}

/// What is left of `start` after the products `xs[k] * ys[k]` have been
/// subtracted from it one by one, for `k` from `from` up to `to - 1`.
pub open spec fn residual<T: MatrixElem>(
    start: T::Value,
    xs: Seq<T::Value>,
    ys: Seq<T::Value>,
    from: int,
    to: int,
) -> T::Value
    decreases to - from,
{
    if to <= from {
        start
    } else {
        T::sub_value(residual::<T>(start, xs, ys, from, to - 1), T::mul_value(xs[to - 1], ys[to - 1]))
    }
}

/// Every product and every difference that `residual` takes is defined.
pub open spec fn can_residual<T: MatrixElem>(
    start: T::Value,
    xs: Seq<T::Value>,
    ys: Seq<T::Value>,
    from: int,
    to: int,
) -> bool
    decreases to - from,
{
    if to <= from {
        true
    } else {
        &&& can_residual::<T>(start, xs, ys, from, to - 1)
        &&& T::can_mul(xs[to - 1], ys[to - 1])
        &&& T::can_sub(
            residual::<T>(start, xs, ys, from, to - 1),
            T::mul_value(xs[to - 1], ys[to - 1]),
        )
    }
}

/// What is left of `start` after the products `xs[k] * ys[k]` have been
/// subtracted from it one by one, for `k` from `to - 1` down to `from`.
pub open spec fn residual_rev<T: MatrixElem>(
    start: T::Value,
    xs: Seq<T::Value>,
    ys: Seq<T::Value>,
    from: int,
    to: int,
) -> T::Value
    decreases to - from,
{
    if to <= from {
        start
    } else {
        residual_rev::<T>(
            T::sub_value(start, T::mul_value(xs[to - 1], ys[to - 1])),
            xs,
            ys,
            from,
            to - 1,
        )
    }
}

/// Every product and every difference that `residual_rev` takes is defined.
pub open spec fn can_residual_rev<T: MatrixElem>(
    start: T::Value,
    xs: Seq<T::Value>,
    ys: Seq<T::Value>,
    from: int,
    to: int,
) -> bool
    decreases to - from,
{
    if to <= from {
        true
    } else {
        &&& T::can_mul(xs[to - 1], ys[to - 1])
        &&& T::can_sub(start, T::mul_value(xs[to - 1], ys[to - 1]))
        &&& can_residual_rev::<T>(
            T::sub_value(start, T::mul_value(xs[to - 1], ys[to - 1])),
            xs,
            ys,
            from,
            to - 1,
        )
    }
}

/// `grid` is square, with the multiplicative identity on its diagonal and the
/// additive identity everywhere else.
pub open spec fn identity_grid<T: MatrixZeroOne>(grid: Seq<Seq<T>>) -> bool {
    &&& has_shape(grid, grid.len(), grid.len())
    &&& forall|i: int, j: int|
        0 <= i < grid.len() && 0 <= j < grid.len() ==> if i == j {
            (#[trigger] grid[i][j]).one_value()
        } else {
            grid[i][j].zero_value()
        }
}

impl<T: MatrixZeroOne> Matrix<T> {
    /// Whether the matrix is square with ones on the diagonal and zeros
    /// elsewhere.
    pub fn is_identity(&self) -> (b: bool)
        ensures
            b == identity_grid(self@),
    {
        let height = self.height();
        let width = self.width();
        if height != width {
            assert(!identity_grid(self@)) by {
                if self@.len() > 0 {
                    assert(self@[0].len() == width);
                }
            }
            return false;
        }
        for row_index in 0..height
            invariant
                height == width,
                has_shape(self@, height as nat, width as nat),
                forall|i: int, j: int|
                    0 <= i < row_index && 0 <= j < width ==> if i == j {
                        (#[trigger] self@[i][j]).one_value()
                    } else {
                        self@[i][j].zero_value()
                    },
        {
            for col_index in 0..width
                invariant
                    height == width,
                    row_index < height,
                    has_shape(self@, height as nat, width as nat),
                    forall|i: int, j: int|
                        0 <= i < row_index && 0 <= j < width ==> if i == j {
                            (#[trigger] self@[i][j]).one_value()
                        } else {
                            self@[i][j].zero_value()
                        },
                    forall|j: int|
                        0 <= j < col_index ==> if row_index == j {
                            (#[trigger] self@[row_index as int][j]).one_value()
                        } else {
                            self@[row_index as int][j].zero_value()
                        },
            {
                let fitting = if row_index == col_index {
                    self.rows(row_index)[col_index].is_one()
                } else {
                    self.rows(row_index)[col_index].is_zero()
                };
                if !fitting {
                    assert(!identity_grid(self@)) by {
                        let cell = self@[row_index as int][col_index as int];
                        assert(!(if row_index == col_index {
                            cell.one_value()
                        } else {
                            cell.zero_value()
                        }));
                    }
                    return false;
                }
            }
        }
        true
    }

    /// The identity matrix of `size` rows and columns.
    pub fn identity(size: usize) -> (m: Matrix<T>)
        ensures
            m@.len() == size,
            identity_grid(m@),
    {
        let mut rows: Vec<Vec<T>> = Vec::new();
        for vert_index in 0..size
            invariant
                rows@.len() == vert_index,
                forall|i: int| 0 <= i < vert_index ==> (#[trigger] rows@[i])@.len() == size,
                forall|i: int, j: int|
                    0 <= i < vert_index && 0 <= j < size ==> if i == j {
                        (#[trigger] rows@[i]@[j]).one_value()
                    } else {
                        rows@[i]@[j].zero_value()
                    },
        {
            let mut row: Vec<T> = Vec::new();
            for horr_index in 0..size
                invariant
                    vert_index < size,
                    row@.len() == horr_index,
                    forall|j: int|
                        0 <= j < horr_index ==> if vert_index == j {
                            (#[trigger] row@[j]).one_value()
                        } else {
                            row@[j].zero_value()
                        },
            {
                if vert_index == horr_index {
                    row.push(T::one());
                } else {
                    row.push(T::zero());
                }
            }
            rows.push(row);
        }
        Matrix::from_rows(rows)
    }
}

impl<T: Clone + MatrixElem> Matrix<T> {
    /// The values that the elements of the matrix stand for.
    pub open spec fn values(&self) -> Seq<Seq<T::Value>> {
        values(self@)
    }

    /// A clone of the cell at `(row_index, col_index)`, which stands for the
    /// same value.
    fn cell(&self, row_index: usize, col_index: usize) -> (element: T)
        requires
            row_index < self.spec_height(),
            col_index < self.spec_width(),
        ensures
            element.value() == self.values()[row_index as int][col_index as int],
    {
        let _ = self.width();
        let element = self.get(row_index, col_index);
        proof {
            T::clone_keeps_value(self@[row_index as int][col_index as int], element);
        }
        element
    }

    /// The cell-wise sum `self + rhs` of two matrices of one shape.
    pub fn add_matrix(&self, rhs: &Matrix<T>) -> (sum: Matrix<T>)
        requires
            self.spec_height() == rhs.spec_height(),
            self.spec_width() == rhs.spec_width(),
            can_add_grids::<T>(self.values(), rhs.values()),
        ensures
            sum.spec_height() == self.spec_height(),
            sum.spec_width() == self.spec_width(),
            sum.values() == sum_grid::<T>(self.values(), rhs.values()),
    {
        let height = self.height();
        let width = self.width();
        let _ = rhs.width();
        let mut rows: Vec<Vec<T>> = Vec::new();
        for row_index in 0..height
            invariant
                has_shape(self@, height as nat, width as nat),
                has_shape(rhs@, height as nat, width as nat),
                height == self.spec_height(),
                width == self.spec_width() == rhs.spec_width(),
                can_add_grids::<T>(self.values(), rhs.values()),
                rows@.len() == row_index,
                forall|i: int| 0 <= i < row_index ==> (#[trigger] rows@[i])@.len() == width,
                forall|i: int, j: int|
                    0 <= i < row_index && 0 <= j < width ==> (#[trigger] rows@[i]@[j]).value()
                        == T::add_value(self@[i][j].value(), rhs@[i][j].value()),
        {
            let mut row: Vec<T> = Vec::new();
            for col_index in 0..width
                invariant
                    has_shape(self@, height as nat, width as nat),
                    has_shape(rhs@, height as nat, width as nat),
                    height == self.spec_height(),
                    width == self.spec_width() == rhs.spec_width(),
                    row_index < height,
                    can_add_grids::<T>(self.values(), rhs.values()),
                    row@.len() == col_index,
                    forall|j: int|
                        0 <= j < col_index ==> (#[trigger] row@[j]).value() == T::add_value(
                            self@[row_index as int][j].value(),
                            rhs@[row_index as int][j].value(),
                        ),
            {
                let left = self.cell(row_index, col_index);
                let right = rhs.cell(row_index, col_index);
                assert(T::can_add(
                    self.values()[row_index as int][col_index as int],
                    rhs.values()[row_index as int][col_index as int],
                ));
                row.push(left.add(right));
            }
            rows.push(row);
        }
        let sum = Matrix::from_rows(rows);
        assert(sum.values() =~~= sum_grid::<T>(self.values(), rhs.values()));
        sum
    }

    /// The cell-wise difference `self - rhs` of two matrices of one shape.
    pub fn sub_matrix(&self, rhs: &Matrix<T>) -> (difference: Matrix<T>)
        requires
            self.spec_height() == rhs.spec_height(),
            self.spec_width() == rhs.spec_width(),
            can_sub_grids::<T>(self.values(), rhs.values()),
        ensures
            difference.spec_height() == self.spec_height(),
            difference.spec_width() == self.spec_width(),
            difference.values() == difference_grid::<T>(self.values(), rhs.values()),
    {
        let height = self.height();
        let width = self.width();
        let _ = rhs.width();
        let mut rows: Vec<Vec<T>> = Vec::new();
        for row_index in 0..height
            invariant
                has_shape(self@, height as nat, width as nat),
                has_shape(rhs@, height as nat, width as nat),
                height == self.spec_height(),
                width == self.spec_width() == rhs.spec_width(),
                can_sub_grids::<T>(self.values(), rhs.values()),
                rows@.len() == row_index,
                forall|i: int| 0 <= i < row_index ==> (#[trigger] rows@[i])@.len() == width,
                forall|i: int, j: int|
                    0 <= i < row_index && 0 <= j < width ==> (#[trigger] rows@[i]@[j]).value()
                        == T::sub_value(self@[i][j].value(), rhs@[i][j].value()),
        {
            let mut row: Vec<T> = Vec::new();
            for col_index in 0..width
                invariant
                    has_shape(self@, height as nat, width as nat),
                    has_shape(rhs@, height as nat, width as nat),
                    height == self.spec_height(),
                    width == self.spec_width() == rhs.spec_width(),
                    row_index < height,
                    can_sub_grids::<T>(self.values(), rhs.values()),
                    row@.len() == col_index,
                    forall|j: int|
                        0 <= j < col_index ==> (#[trigger] row@[j]).value() == T::sub_value(
                            self@[row_index as int][j].value(),
                            rhs@[row_index as int][j].value(),
                        ),
            {
                let left = self.cell(row_index, col_index);
                let right = rhs.cell(row_index, col_index);
                assert(T::can_sub(
                    self.values()[row_index as int][col_index as int],
                    rhs.values()[row_index as int][col_index as int],
                ));
                row.push(left.sub(right));
            }
            rows.push(row);
        }
        let difference = Matrix::from_rows(rows);
        assert(difference.values() =~~= difference_grid::<T>(self.values(), rhs.values()));
        difference
    }

    /// The matrix product `self * rhs`, where `self` has as many columns as
    /// `rhs` has rows.
    pub fn mul_matrix(&self, rhs: &Matrix<T>) -> (product: Matrix<T>)
        requires
            self.spec_width() == rhs.spec_height(),
            can_multiply_grids::<T>(self.values(), rhs.values()),
        ensures
            has_shape(product@, self.spec_height(), rhs.spec_width()),
            product.values() == product_grid::<T>(self.values(), rhs.values()),
    {
        let height = self.height();
        let inner = self.width();
        let width = rhs.width();
        let _ = rhs.height();
        let mut rows: Vec<Vec<T>> = Vec::new();
        for vert_index in 0..height
            invariant
                has_shape(self@, height as nat, inner as nat),
                has_shape(rhs@, inner as nat, width as nat),
                height == self.spec_height(),
                inner == self.spec_width() == rhs.spec_height(),
                width == rhs.spec_width(),
                can_multiply_grids::<T>(self.values(), rhs.values()),
                rows@.len() == vert_index,
                forall|i: int| 0 <= i < vert_index ==> (#[trigger] rows@[i])@.len() == width,
                forall|i: int, j: int|
                    0 <= i < vert_index && 0 <= j < width ==> (#[trigger] rows@[i]@[j]).value()
                        == inner_product::<T>(
                        self.values()[i],
                        column(rhs.values(), j),
                        inner as nat,
                    ),
        {
            let mut row: Vec<T> = Vec::new();
            for horr_index in 0..width
                invariant
                    has_shape(self@, height as nat, inner as nat),
                    has_shape(rhs@, inner as nat, width as nat),
                    height == self.spec_height(),
                    inner == self.spec_width() == rhs.spec_height(),
                    width == rhs.spec_width(),
                    vert_index < height,
                    can_multiply_grids::<T>(self.values(), rhs.values()),
                    row@.len() == horr_index,
                    forall|j: int|
                        0 <= j < horr_index ==> (#[trigger] row@[j]).value() == inner_product::<T>(
                            self.values()[vert_index as int],
                            column(rhs.values(), j),
                            inner as nat,
                        ),
            {
                let ghost xs = self.values()[vert_index as int];
                let ghost ys = column(rhs.values(), horr_index as int);
                assert(grid_width(rhs.values()) == width) by {
                    assert(rhs@[0].len() == width);
                }
                assert(grid_width(self.values()) == inner) by {
                    assert(self@[0].len() == inner);
                }
                assert(can_inner_product::<T>(xs, ys, inner as nat));
                proof {
                    lemma_can_inner_product_prefix::<T>(xs, ys, inner as nat, 1);
                }
                // The cell starts from its first product, so that no zero is needed.
                let mut new_val = self.cell(vert_index, 0).mul(rhs.cell(0, horr_index));
                for i in 1..inner
                    invariant
                        has_shape(self@, height as nat, inner as nat),
                        has_shape(rhs@, inner as nat, width as nat),
                        height == self.spec_height(),
                        inner == self.spec_width() == rhs.spec_height(),
                        width == rhs.spec_width(),
                        vert_index < height,
                        horr_index < width,
                        xs == self.values()[vert_index as int],
                        ys == column(rhs.values(), horr_index as int),
                        can_inner_product::<T>(xs, ys, inner as nat),
                        new_val.value() == inner_product::<T>(xs, ys, i as nat),
                {
                    proof {
                        lemma_can_inner_product_prefix::<T>(xs, ys, inner as nat, (i + 1) as nat);
                    }
                    new_val = new_val.add(self.cell(vert_index, i).mul(rhs.cell(i, horr_index)));
                }
                row.push(new_val);
            }
            rows.push(row);
        }
        let product = Matrix::from_rows(rows);
        assert(product.values() =~~= product_grid::<T>(self.values(), rhs.values()));
        product
    }

    /// The matrix with every cell multiplied by `rhs`, the cell on the left.
    pub fn mul_scalar(&self, rhs: &T) -> (scaled: Matrix<T>)
        requires
            can_scale_grid::<T>(self.values(), rhs.value()),
        ensures
            scaled.spec_height() == self.spec_height(),
            scaled.spec_width() == self.spec_width(),
            scaled.values() == scaled_grid::<T>(self.values(), rhs.value()),
    {
        let height = self.height();
        let width = self.width();
        let mut rows: Vec<Vec<T>> = Vec::new();
        for vert_index in 0..height
            invariant
                has_shape(self@, height as nat, width as nat),
                height == self.spec_height(),
                width == self.spec_width(),
                can_scale_grid::<T>(self.values(), rhs.value()),
                rows@.len() == vert_index,
                forall|i: int| 0 <= i < vert_index ==> (#[trigger] rows@[i])@.len() == width,
                forall|i: int, j: int|
                    0 <= i < vert_index && 0 <= j < width ==> (#[trigger] rows@[i]@[j]).value()
                        == T::mul_value(self@[i][j].value(), rhs.value()),
        {
            let mut row: Vec<T> = Vec::new();
            for horr_index in 0..width
                invariant
                    has_shape(self@, height as nat, width as nat),
                    height == self.spec_height(),
                    width == self.spec_width(),
                    vert_index < height,
                    can_scale_grid::<T>(self.values(), rhs.value()),
                    row@.len() == horr_index,
                    forall|j: int|
                        0 <= j < horr_index ==> (#[trigger] row@[j]).value() == T::mul_value(
                            self@[vert_index as int][j].value(),
                            rhs.value(),
                        ),
            {
                let factor = rhs.clone();
                proof {
                    T::clone_keeps_value(*rhs, factor);
                }
                assert(T::can_mul(
                    self.values()[vert_index as int][horr_index as int],
                    rhs.value(),
                ));
                row.push(self.cell(vert_index, horr_index).mul(factor));
            }
            rows.push(row);
        }
        let scaled = Matrix::from_rows(rows);
        assert(scaled.values() =~~= scaled_grid::<T>(self.values(), rhs.value()));
        scaled
    }

    /// The elementary row operation of elimination: subtracts `factor`
    /// times the row `pivot` from the row `target`, in the columns from
    /// `from_col` on. Every other row stays as it is, and so do the cells of
    /// `target` before `from_col`.
    pub fn sub_scaled_row(&mut self, target: usize, pivot: usize, factor: &T, from_col: usize)
        requires
            target < old(self).spec_height(),
            pivot < old(self).spec_height(),
            target != pivot,
            can_reduce_row::<T>(
                old(self).values()[target as int],
                old(self).values()[pivot as int],
                factor.value(),
                from_col as int,
            ),
        ensures
            final(self)@.len() == old(self)@.len(),
            forall|i: int|
                0 <= i < old(self)@.len() && i != target ==> final(self)@[i] == old(self)@[i],
            final(self)@[target as int].len() == old(self)@[target as int].len(),
            forall|j: int|
                0 <= j < from_col && j < old(self).spec_width() ==> final(self)@[target as int][j]
                    == old(self)@[target as int][j],
            final(self).values() == old(self).values().update(
                target as int,
                reduced_row::<T>(
                    old(self).values()[target as int],
                    old(self).values()[pivot as int],
                    factor.value(),
                    from_col as int,
                ),
            ),
    {
        let height = self.height();
        let width = self.width();
        let ghost before = self@;
        let ghost row = self.values()[target as int];
        let ghost pivot_row = self.values()[pivot as int];
        if from_col < width {
            for col_index in from_col..width
                invariant
                    from_col <= col_index,
                    target < height,
                    pivot < height,
                    target != pivot,
                    has_shape(before, height as nat, width as nat),
                    has_shape(self@, height as nat, width as nat),
                    height == self.spec_height(),
                    width == self.spec_width(),
                    row == values(before)[target as int],
                    pivot_row == values(before)[pivot as int],
                    can_reduce_row::<T>(row, pivot_row, factor.value(), from_col as int),
                    forall|i: int| 0 <= i < height && i != target ==> self@[i] == before[i],
                    forall|j: int|
                        0 <= j < width && !(from_col <= j < col_index) ==> self@[target as int][j]
                            == before[target as int][j],
                    forall|j: int|
                        from_col <= j < col_index ==> (#[trigger] self@[target as int][j]).value()
                            == T::sub_value(row[j], T::mul_value(factor.value(), pivot_row[j])),
            {
                let scale = factor.clone();
                proof {
                    T::clone_keeps_value(*factor, scale);
                }
                let ghost j = col_index as int;
                assert(self@[target as int][j] == before[target as int][j]);
                assert(self@[pivot as int] == before[pivot as int]);
                assert(pivot_row[j] == before[pivot as int][j].value());
                assert(row[j] == before[target as int][j].value());
                let value = self.cell(target, col_index).sub(
                    scale.mul(self.cell(pivot, col_index)),
                );
                self.set(target, col_index, value);
            }
        }
        assert(self.values() =~~= old(self).values().update(
            target as int,
            reduced_row::<T>(row, pivot_row, factor.value(), from_col as int),
        ));
    }

    /// The step of forward substitution: what is left of `start` after the
    /// terms that are solved already have been subtracted from it. The term
    /// of column `k` is the product of the solved `solved[k][0]` and the
    /// coefficient `self[row][k]`; the columns are taken from `from` up to
    /// `to - 1`.
    pub fn subtract_solved(
        &self,
        row: usize,
        solved: &Matrix<T>,
        from: usize,
        to: usize,
        start: T,
    ) -> (rest: T)
        requires
            row < self.spec_height(),
            to <= self.spec_width(),
            to <= solved.spec_height(),
            solved.spec_width() >= 1,
            can_residual::<T>(
                start.value(),
                column(solved.values(), 0),
                self.values()[row as int],
                from as int,
                to as int,
            ),
        ensures
            rest.value() == residual::<T>(
                start.value(),
                column(solved.values(), 0),
                self.values()[row as int],
                from as int,
                to as int,
            ),
    {
        let _ = self.width();
        let _ = solved.width();
        let ghost first = start.value();
        let ghost xs = column(solved.values(), 0);
        let ghost ys = self.values()[row as int];
        let mut rest = start;
        if from < to {
            for col in from..to
                invariant
                    from <= col <= to,
                    row < self.spec_height(),
                    to <= self.spec_width(),
                    to <= solved.spec_height(),
                    solved.spec_width() >= 1,
                    has_shape(self@, self.spec_height(), self.spec_width()),
                    has_shape(solved@, solved.spec_height(), solved.spec_width()),
                    xs == column(solved.values(), 0),
                    ys == self.values()[row as int],
                    can_residual::<T>(first, xs, ys, from as int, to as int),
                    rest.value() == residual::<T>(first, xs, ys, from as int, col as int),
            {
                proof {
                    lemma_can_residual_prefix::<T>(first, xs, ys, from as int, to as int, col + 1);
                }
                rest = rest.sub(solved.cell(col, 0).mul(self.cell(row, col)));
            }
        }
        rest
    }

    /// The step of backward substitution: as `subtract_solved`, with the
    /// columns taken from `to - 1` down to `from`.
    pub fn subtract_solved_rev(
        &self,
        row: usize,
        solved: &Matrix<T>,
        from: usize,
        to: usize,
        start: T,
    ) -> (rest: T)
        requires
            row < self.spec_height(),
            to <= self.spec_width(),
            to <= solved.spec_height(),
            solved.spec_width() >= 1,
            can_residual_rev::<T>(
                start.value(),
                column(solved.values(), 0),
                self.values()[row as int],
                from as int,
                to as int,
            ),
        ensures
            rest.value() == residual_rev::<T>(
                start.value(),
                column(solved.values(), 0),
                self.values()[row as int],
                from as int,
                to as int,
            ),
    {
        let _ = self.width();
        let _ = solved.width();
        let ghost xs = column(solved.values(), 0);
        let ghost ys = self.values()[row as int];
        let ghost first = start.value();
        let mut rest = start;
        let mut col = to;
        while col > from
            invariant
                col <= to,
                row < self.spec_height(),
                to <= self.spec_width(),
                to <= solved.spec_height(),
                solved.spec_width() >= 1,
                has_shape(self@, self.spec_height(), self.spec_width()),
                has_shape(solved@, solved.spec_height(), solved.spec_width()),
                xs == column(solved.values(), 0),
                ys == self.values()[row as int],
                can_residual_rev::<T>(rest.value(), xs, ys, from as int, col as int),
                residual_rev::<T>(rest.value(), xs, ys, from as int, col as int) == residual_rev::<
                    T,
                >(first, xs, ys, from as int, to as int),
            decreases col,
        {
            col = col - 1;
            rest = rest.sub(solved.cell(col, 0).mul(self.cell(row, col)));
        }
        rest
    }

    /// The inner product of two single-row matrices of one width.
    pub fn dot(&self, other: &Matrix<T>) -> (product: T)
        requires
            self.spec_height() == 1,
            other.spec_height() == 1,
            self.spec_width() == other.spec_width(),
            self.spec_width() >= 1,
            can_inner_product::<T>(self.values()[0], other.values()[0], self.spec_width()),
        ensures
            product.value() == inner_product::<T>(
                self.values()[0],
                other.values()[0],
                self.spec_width(),
            ),
    {
        let width = self.width();
        let _ = other.width();
        let ghost xs = self.values()[0];
        let ghost ys = other.values()[0];
        proof {
            lemma_can_inner_product_prefix::<T>(xs, ys, width as nat, 1);
        }
        let mut ret = self.cell(0, 0).mul(other.cell(0, 0));
        for i in 1..width
            invariant
                self.spec_height() == 1,
                other.spec_height() == 1,
                width == self.spec_width() == other.spec_width(),
                xs == self.values()[0],
                ys == other.values()[0],
                can_inner_product::<T>(xs, ys, width as nat),
                ret.value() == inner_product::<T>(xs, ys, i as nat),
        {
            proof {
                lemma_can_inner_product_prefix::<T>(xs, ys, width as nat, (i + 1) as nat);
            }
            ret = ret.add(self.cell(0, i).mul(other.cell(0, i)));
        }
        ret
    }
}

/// Where the inner product of `n` terms is defined, so is that of the first
/// `m` of them.
pub proof fn lemma_can_inner_product_prefix<T: MatrixElem>(
    xs: Seq<T::Value>,
    ys: Seq<T::Value>,
    n: nat,
    m: nat,
)
    requires
        can_inner_product::<T>(xs, ys, n),
        1 <= m <= n,
    ensures
        can_inner_product::<T>(xs, ys, m),
    decreases n,
{
    if m < n {
        lemma_can_inner_product_prefix::<T>(xs, ys, (n - 1) as nat, m);
    }
}

/// Where the residual over the columns from `from` up to `to - 1` is defined,
/// so is the one that stops before `mid`.
pub proof fn lemma_can_residual_prefix<T: MatrixElem>(
    start: T::Value,
    xs: Seq<T::Value>,
    ys: Seq<T::Value>,
    from: int,
    to: int,
    mid: int,
)
    requires
        can_residual::<T>(start, xs, ys, from, to),
        from <= mid <= to,
    ensures
        can_residual::<T>(start, xs, ys, from, mid),
    decreases to - mid,
{
    if mid < to {
        lemma_can_residual_prefix::<T>(start, xs, ys, from, to - 1, mid);
    }
}

} // verus!
