//! Laws that relate the operations to each other.

use crate::algebra::{
    can_inner_product, can_multiply_grids, column, inner_product, product_grid, values,
};
use crate::matrix::{cloned_grid, grid_width, has_shape, rectangular, transposed, Matrix};
use crate::matrix_traits::MatrixElem;
use vstd::prelude::*;

verus! {

/// Clones of elements stand for the same values: a grid that was cloned cell
/// by cell from another has the values of that grid.
pub proof fn lemma_cloned_grid_keeps_values<T: MatrixElem>(source: Seq<Seq<T>>, copy: Seq<Seq<T>>)
    requires
        cloned_grid(source, copy),
    ensures
        values(copy) == values(source),
{
    assert forall|i: int, j: int| 0 <= i < source.len() && 0 <= j < source[i].len() implies (
    #[trigger] copy[i][j]).value() == source[i][j].value() by {
        T::clone_keeps_value(source[i][j], copy[i][j]);
    }
    assert(values(copy) =~~= values(source));
}

/// Reading the values of a grid and exchanging its rows and columns can be
/// done in either order.
pub proof fn lemma_values_of_transposed<T: MatrixElem>(grid: Seq<Seq<T>>)
    requires
        rectangular(grid),
    ensures
        values(transposed(grid)) == transposed(values(grid)),
{
    assert(values(transposed(grid)) =~~= transposed(values(grid)));
}

/// The shape of a product: for `A` with as many columns as `B` has rows,
/// `A * B` has the height of `A` and the width of `B`, whatever the elements
/// are and whether or not their sums and products are defined.
pub proof fn lemma_product_shape<T: MatrixElem>(a: Seq<Seq<T::Value>>, b: Seq<Seq<T::Value>>)
    requires
        grid_width(a) == b.len(),
    ensures
        product_grid::<T>(a, b).len() == a.len(),
        grid_width(product_grid::<T>(a, b)) == grid_width(b),
        has_shape(product_grid::<T>(a, b), a.len(), grid_width(b)),
{
}

/// The shape of a product, read on matrices: for `a` with as many columns as
/// `b` has rows, a matrix that stands for the product of their values has the
/// height of `a` and the width of `b`.
pub proof fn lemma_matrix_product_shape<T: Clone + MatrixElem>(
    a: Matrix<T>,
    b: Matrix<T>,
    product: Matrix<T>,
)
    requires
        a.spec_width() == b.spec_height(),
        product.values() == product_grid::<T>(a.values(), b.values()),
    ensures
        product.spec_height() == a.spec_height(),
        product.spec_width() == b.spec_width(),
{
    lemma_product_shape::<T>(a.values(), b.values());
    assert(values(product@).len() == product@.len());
    if product@.len() > 0 {
        assert(values(product@)[0].len() == product@[0].len());
    }
    if b@.len() > 0 {
        assert(values(b@)[0].len() == b@[0].len());
    }
    if a@.len() > 0 {
        assert(values(a@)[0].len() == a@[0].len());
    }
}

/// Where the product of elements does not depend on their order, neither
/// does the inner product of two sequences.
pub proof fn lemma_inner_product_commutes<T: MatrixElem>(
    xs: Seq<T::Value>,
    ys: Seq<T::Value>,
    n: nat,
)
    requires
        forall|x: T::Value, y: T::Value| #[trigger] T::mul_value(x, y) == T::mul_value(y, x),
    ensures
        inner_product::<T>(xs, ys, n) == inner_product::<T>(ys, xs, n),
    decreases n,
{
    if n > 1 {
        lemma_inner_product_commutes::<T>(xs, ys, (n - 1) as nat);
    }
}

/// Where in addition the product of two elements is defined in either order
/// or in none, the same holds of the inner product.
pub proof fn lemma_can_inner_product_commutes<T: MatrixElem>(
    xs: Seq<T::Value>,
    ys: Seq<T::Value>,
    n: nat,
)
    requires
        forall|x: T::Value, y: T::Value| #[trigger] T::mul_value(x, y) == T::mul_value(y, x),
        forall|x: T::Value, y: T::Value| #[trigger] T::can_mul(x, y) == T::can_mul(y, x),
    ensures
        can_inner_product::<T>(xs, ys, n) == can_inner_product::<T>(ys, xs, n),
    decreases n,
{
    if n > 1 {
        lemma_can_inner_product_commutes::<T>(xs, ys, (n - 1) as nat);
        lemma_inner_product_commutes::<T>(xs, ys, (n - 1) as nat);
    }
}

/// The transpose of a product is the product of the transposes in reverse
/// order: `(A * B)ᵗ == Bᵗ * Aᵗ`, for `A` with as many columns as `B` has rows,
/// over elements whose product does not depend on the order of its factors.
///
/// A `B` with rows but without columns is left out: its transpose has no rows
/// at all, so that `Bᵗ * Aᵗ` cannot be formed.
pub proof fn lemma_transpose_of_product<T: MatrixElem>(
    a: Seq<Seq<T::Value>>,
    b: Seq<Seq<T::Value>>,
)
    requires
        rectangular(a),
        rectangular(b),
        grid_width(a) == b.len(),
        b.len() > 0 ==> grid_width(b) > 0,
        forall|x: T::Value, y: T::Value| #[trigger] T::mul_value(x, y) == T::mul_value(y, x),
    ensures
        grid_width(transposed(b)) == transposed(a).len(),
        transposed(product_grid::<T>(a, b)) == product_grid::<T>(transposed(b), transposed(a)),
{
    let left = transposed(product_grid::<T>(a, b));
    let right = product_grid::<T>(transposed(b), transposed(a));
    let inner = grid_width(a);
    if a.len() > 0 && b.len() > 0 {
        assert(transposed(a).len() == inner);
        assert(transposed(b).len() == grid_width(b));
        assert(grid_width(transposed(b)) == b.len());
        assert(grid_width(transposed(a)) == a.len());
        assert(product_grid::<T>(a, b)[0].len() == grid_width(b));
        assert(left.len() == right.len());
        assert forall|j: int, i: int| 0 <= j < grid_width(b) && 0 <= i < a.len() implies left[j][i]
            == #[trigger] right[j][i] by {
            assert(transposed(b)[j] =~= column(b, j));
            assert(column(transposed(a), i) =~= a[i]);
            lemma_inner_product_commutes::<T>(a[i], column(b, j), inner);
        }
        assert(left =~~= right);
    } else {
        assert(left =~~= right);
    }
}

/// Where `A * B` is defined, so is `Bᵗ * Aᵗ`, over elements whose product does
/// not depend on the order of its factors and is defined in either order or
/// in none.
pub proof fn lemma_transposed_product_defined<T: MatrixElem>(
    a: Seq<Seq<T::Value>>,
    b: Seq<Seq<T::Value>>,
)
    requires
        rectangular(a),
        rectangular(b),
        grid_width(a) == b.len(),
        b.len() > 0 ==> grid_width(b) > 0,
        forall|x: T::Value, y: T::Value| #[trigger] T::mul_value(x, y) == T::mul_value(y, x),
        forall|x: T::Value, y: T::Value| #[trigger] T::can_mul(x, y) == T::can_mul(y, x),
        can_multiply_grids::<T>(a, b),
    ensures
        can_multiply_grids::<T>(transposed(b), transposed(a)),
{
    let inner = grid_width(a);
    if a.len() > 0 && b.len() > 0 {
        assert(grid_width(transposed(b)) == b.len());
        assert(grid_width(transposed(a)) == a.len());
        assert forall|j: int, i: int|
            0 <= j < transposed(b).len() && 0 <= i < grid_width(
                transposed(a),
            ) implies #[trigger] can_inner_product::<T>(
            transposed(b)[j],
            column(transposed(a), i),
            grid_width(transposed(b)),
        ) by {
            assert(transposed(b)[j] =~= column(b, j));
            assert(column(transposed(a), i) =~= a[i]);
            assert(can_inner_product::<T>(a[i], column(b, j), inner));
            lemma_can_inner_product_commutes::<T>(a[i], column(b, j), inner);
        }
    }
}

/// The law of the transposed product, read on what `mul_matrix` and
/// `transpose` hand out: where `product` is `a * b`, `reverse` is `bᵗ * aᵗ`,
/// and each matrix marked `transposed` is the transpose of the one it is
/// named after, `product_transposed` and `reverse` stand for the same values.
pub proof fn lemma_transpose_of_matrix_product<T: Clone + MatrixElem>(
    a: Matrix<T>,
    b: Matrix<T>,
    product: Matrix<T>,
    product_transposed: Matrix<T>,
    a_transposed: Matrix<T>,
    b_transposed: Matrix<T>,
    reverse: Matrix<T>,
)
    requires
        rectangular(a@),
        rectangular(b@),
        rectangular(product@),
        a.spec_width() == b.spec_height(),
        b.spec_height() > 0 ==> b.spec_width() > 0,
        forall|x: T::Value, y: T::Value| #[trigger] T::mul_value(x, y) == T::mul_value(y, x),
        product.values() == product_grid::<T>(a.values(), b.values()),
        cloned_grid(transposed(product@), product_transposed@),
        cloned_grid(transposed(a@), a_transposed@),
        cloned_grid(transposed(b@), b_transposed@),
        reverse.values() == product_grid::<T>(b_transposed.values(), a_transposed.values()),
    ensures
        b_transposed.spec_width() == a_transposed.spec_height(),
        product_transposed.values() == reverse.values(),
{
    lemma_transpose_of_product::<T>(a.values(), b.values());
    lemma_cloned_grid_keeps_values::<T>(transposed(product@), product_transposed@);
    lemma_cloned_grid_keeps_values::<T>(transposed(a@), a_transposed@);
    lemma_cloned_grid_keeps_values::<T>(transposed(b@), b_transposed@);
    lemma_values_of_transposed::<T>(product@);
    lemma_values_of_transposed::<T>(a@);
    lemma_values_of_transposed::<T>(b@);
    if b@.len() > 0 {
        assert(b_transposed@[0].len() == transposed(b@)[0].len());
    }
}

} // verus!
