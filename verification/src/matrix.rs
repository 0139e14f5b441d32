//! The dense matrix container: a rectangular, row-major grid of elements.

use crate::bounds::Span;
use vstd::prelude::*;

verus! {

/// Every row of `grid` is as long as its first row.
pub open spec fn rectangular<A>(grid: Seq<Seq<A>>) -> bool {
    forall|i: int| 0 <= i < grid.len() ==> (#[trigger] grid[i]).len() == grid[0].len()
}

/// The number of columns of `grid`: the length of its first row, 0 without rows.
pub open spec fn grid_width<A>(grid: Seq<Seq<A>>) -> nat {
    if grid.len() == 0 {
        0
    } else {
        grid[0].len()
    }
}

/// `grid` has `height` rows of `width` cells each.
pub open spec fn has_shape<A>(grid: Seq<Seq<A>>, height: nat, width: nat) -> bool {
    &&& grid.len() == height
    &&& forall|i: int| 0 <= i < height ==> (#[trigger] grid[i]).len() == width
}

/// `grid` with rows and columns exchanged. A grid without columns has no
/// transposed rows, whatever its height.
pub open spec fn transposed<A>(grid: Seq<Seq<A>>) -> Seq<Seq<A>> {
    Seq::new(grid_width(grid), |j: int| Seq::new(grid.len(), |i: int| grid[i][j]))
}

/// The `height` by `width` block of `grid` whose top left cell is `(top, left)`.
pub open spec fn block<A>(grid: Seq<Seq<A>>, top: int, left: int, height: nat, width: nat) -> Seq<
    Seq<A>,
> {
    Seq::new(height, |i: int| Seq::new(width, |j: int| grid[top + i][left + j]))
}

/// `after` is `before` with a clone of each cell of `patch` written over it
/// from `(top, left)` on; every other cell is unchanged.
pub open spec fn patched<T: Clone>(
    before: Seq<Seq<T>>,
    patch: Seq<Seq<T>>,
    top: int,
    left: int,
    after: Seq<Seq<T>>,
) -> bool {
    &&& after.len() == before.len()
    &&& forall|i: int| 0 <= i < before.len() ==> (#[trigger] after[i]).len() == before[i].len()
    &&& forall|i: int, j: int|
        0 <= i < before.len() && 0 <= j < before[i].len() ==> if top <= i < top + patch.len()
            && left <= j < left + grid_width(patch) {
            cloned(patch[i - top][j - left], #[trigger] after[i][j])
        } else {
            after[i][j] == before[i][j]
        }
}

/// `to` has the shape of `from`, and each of its cells is a clone of the cell
/// of `from` at the same place.
pub open spec fn cloned_grid<T: Clone>(from: Seq<Seq<T>>, to: Seq<Seq<T>>) -> bool {
    &&& to.len() == from.len()
    &&& forall|i: int| 0 <= i < from.len() ==> (#[trigger] to[i]).len() == from[i].len()
    &&& forall|i: int, j: int|
        0 <= i < from.len() && 0 <= j < from[i].len() ==> cloned(from[i][j], #[trigger] to[i][j])
}

/// The grid that a vector of rows holds.
pub open spec fn rows_grid<T>(rows: Seq<Vec<T>>) -> Seq<Seq<T>> {
    Seq::new(rows.len(), |i: int| rows[i]@)
}

/// A dense matrix: `height` rows of `width` elements each, stored row by row.
pub struct Matrix<T> {
    rows: Vec<Vec<T>>,
}

impl<T> View for Matrix<T> {
    type V = Seq<Seq<T>>;

    closed spec fn view(&self) -> Seq<Seq<T>> {
        rows_grid(self.rows@)
    }
}

impl<T> Matrix<T> {
    #[verifier::type_invariant]
    spec fn well_formed(&self) -> bool {
        rectangular(rows_grid(self.rows@))
    }

    /// The number of rows.
    pub open spec fn spec_height(&self) -> nat {
        self@.len()
    }

    /// The number of columns.
    pub open spec fn spec_width(&self) -> nat {
        grid_width(self@)
    }

    /// The matrix without rows.
    pub fn new() -> (m: Matrix<T>)
        ensures
            m@ == Seq::<Seq<T>>::empty(),
    {
        let m = Matrix { rows: Vec::new() };
        assert(m@ =~= Seq::<Seq<T>>::empty());
        m
    }

    /// Wraps rows of equal length.
    pub(crate) fn from_rows(rows: Vec<Vec<T>>) -> (m: Matrix<T>)
        requires
            rectangular(rows_grid(rows@)),
        ensures
            m@ == rows_grid(rows@),
    {
        Matrix { rows }
    }

    /// The row at `index`.
    pub(crate) fn rows(&self, index: usize) -> (row: &Vec<T>)
        requires
            index < self.spec_height(),
        ensures
            row@ == self@[index as int],
            row@.len() == self.spec_width(),
    {
        proof {
            use_type_invariant(self);
            assert(self@[index as int].len() == self@[0].len());
        }
        &self.rows[index]
    }

    /// Whether the matrix has no rows.
    pub fn is_empty(&self) -> (empty: bool)
        ensures
            empty == (self@.len() == 0),
    {
        self.rows.len() == 0
    }

    /// The number of rows. Every row has `width` cells.
    pub fn height(&self) -> (height: usize)
        ensures
            height == self.spec_height(),
            has_shape(self@, self.spec_height(), self.spec_width()),
    {
        proof {
            use_type_invariant(self);
        }
        self.rows.len()
    }

    /// The number of columns: the length of every row, and 0 where there
    /// is no row.
    pub fn width(&self) -> (width: usize)
        ensures
            width == self.spec_width(),
            has_shape(self@, self.spec_height(), self.spec_width()),
    {
        proof {
            use_type_invariant(self);
        }
        if self.is_empty() {
            return 0;
        }
        self.rows[0].len()
    }

    /// Overwrites the cell at `(row_index, col_index)`.
    pub fn set(&mut self, row_index: usize, col_index: usize, value: T)
        requires
            row_index < old(self).spec_height(),
            col_index < old(self).spec_width(),
        ensures
            final(self)@ == old(self)@.update(
                row_index as int,
                old(self)@[row_index as int].update(col_index as int, value),
            ),
    {
        proof {
            use_type_invariant(&*self);
        }
        let ghost before = self@;
        let mut rows: Vec<Vec<T>> = Vec::new();
        core::mem::swap(&mut self.rows, &mut rows);
        assert(rows_grid(rows@) == before);
        assert(before[row_index as int].len() == before[0].len());
        assert(rows@[row_index as int]@ == before[row_index as int]);
        rows[row_index][col_index] = value;
        proof {
            let after = rows_grid(rows@);
            assert forall|i: int| 0 <= i < after.len() implies (#[trigger] after[i]).len()
                == after[0].len() by {
                assert(before[i].len() == before[0].len());
            }
            assert(after =~= before.update(
                row_index as int,
                before[row_index as int].update(col_index as int, value),
            ));
        }
        self.rows = rows;
    }

    /// Exchanges the rows at `first` and `second`.
    pub fn swap_rows(&mut self, first: usize, second: usize)
        requires
            first < old(self).spec_height(),
            second < old(self).spec_height(),
        ensures
            final(self)@ == old(self)@.update(first as int, old(self)@[second as int]).update(
                second as int,
                old(self)@[first as int],
            ),
    {
        if first == second {
            assert(self@ =~= old(self)@.update(first as int, old(self)@[second as int]).update(
                second as int,
                old(self)@[first as int],
            ));
            return ;
        }
        proof {
            use_type_invariant(&*self);
        }
        let ghost before = self@;
        let mut rows: Vec<Vec<T>> = Vec::new();
        core::mem::swap(&mut self.rows, &mut rows);
        let ghost held = rows@;
        assert(rows_grid(held) == before);
        let mut carried: Vec<T> = Vec::new();
        rows.set_and_swap(first, &mut carried);
        assert(carried == held[first as int]);
        rows.set_and_swap(second, &mut carried);
        rows.set_and_swap(first, &mut carried);
        proof {
            let after = rows_grid(rows@);
            assert(rows@ =~= held.update(first as int, held[second as int]).update(
                second as int,
                held[first as int],
            ));
            assert(before[first as int].len() == before[0].len());
            assert(before[second as int].len() == before[0].len());
            assert forall|i: int| 0 <= i < after.len() implies (#[trigger] after[i]).len()
                == after[0].len() by {
                assert(before[i].len() == before[0].len());
                assert(held[i]@ == before[i]);
            }
            assert(after =~= before.update(first as int, before[second as int]).update(
                second as int,
                before[first as int],
            ));
        }
        self.rows = rows;
    }
}

impl<T: Clone> Matrix<T> {
    /// The `height` by `width` matrix whose every cell is a clone of `value`.
    pub fn new_fill(height: usize, width: usize, value: T) -> (m: Matrix<T>)
        ensures
            has_shape(m@, height as nat, width as nat),
            forall|i: int, j: int|
                0 <= i < height && 0 <= j < width ==> cloned(value, #[trigger] m@[i][j]),
    {
        let mut rows: Vec<Vec<T>> = Vec::new();
        for row_index in 0..height
            invariant
                rows@.len() == row_index,
                forall|i: int| 0 <= i < row_index ==> (#[trigger] rows@[i])@.len() == width,
                forall|i: int, j: int|
                    0 <= i < row_index && 0 <= j < width ==> cloned(value, #[trigger] rows@[i]@[j]),
        {
            let mut row: Vec<T> = Vec::new();
            for col_index in 0..width
                invariant
                    row@.len() == col_index,
                    forall|j: int| 0 <= j < col_index ==> cloned(value, #[trigger] row@[j]),
            {
                row.push(value.clone());
            }
            rows.push(row);
        }
        Matrix::from_rows(rows)
    }

    /// A clone of the cell at `(row_index, col_index)`.
    pub fn get(&self, row_index: usize, col_index: usize) -> (value: T)
        requires
            row_index < self.spec_height(),
            col_index < self.spec_width(),
        ensures
            cloned(self@[row_index as int][col_index as int], value),
    {
        self.rows(row_index)[col_index].clone()
    }

    /// The matrix with rows and columns exchanged.
    pub fn transpose(self) -> (t: Matrix<T>)
        ensures
            cloned_grid(transposed(self@), t@),
    {
        let height = self.height();
        let width = self.width();
        let mut rows: Vec<Vec<T>> = Vec::new();
        for column_index in 0..width
            invariant
                height == self.spec_height(),
                width == self.spec_width(),
                has_shape(self@, height as nat, width as nat),
                rows@.len() == column_index,
                forall|j: int| 0 <= j < column_index ==> (#[trigger] rows@[j])@.len() == height,
                forall|j: int, i: int|
                    0 <= j < column_index && 0 <= i < height ==> cloned(
                        self@[i][j],
                        #[trigger] rows@[j]@[i],
                    ),
        {
            let mut row: Vec<T> = Vec::new();
            for row_index in 0..height
                invariant
                    height == self.spec_height(),
                    width == self.spec_width(),
                    column_index < width,
                    has_shape(self@, height as nat, width as nat),
                    row@.len() == row_index,
                    forall|i: int|
                        0 <= i < row_index ==> cloned(
                            self@[i][column_index as int],
                            #[trigger] row@[i],
                        ),
            {
                row.push(self.rows(row_index)[column_index].clone());
            }
            rows.push(row);
        }
        Matrix::from_rows(rows)
    }

    /// The block of the rows in `rows` and the columns in `cols`, as a matrix
    /// of its own.
    pub fn cut(&self, rows: Span, cols: Span) -> (part: Matrix<T>)
        requires
            rows.fits(self.spec_height()),
            cols.fits(self.spec_width()),
        ensures
            cloned_grid(
                block(
                    self@,
                    rows.first(),
                    cols.first(),
                    rows.count(self.spec_height()),
                    cols.count(self.spec_width()),
                ),
                part@,
            ),
    {
        let (row_start, row_end) = rows.resolve(self.height()).unwrap();
        let (col_start, col_end) = cols.resolve(self.width()).unwrap();
        let height = row_end - row_start + 1;
        let width = col_end - col_start + 1;
        let mut ret: Vec<Vec<T>> = Vec::new();
        for row_index in 0..height
            invariant
                has_shape(self@, self.spec_height(), self.spec_width()),
                row_start + height == row_end + 1 <= self.spec_height(),
                col_start + width == col_end + 1 <= self.spec_width(),
                ret@.len() == row_index,
                forall|i: int| 0 <= i < row_index ==> (#[trigger] ret@[i])@.len() == width,
                forall|i: int, j: int|
                    0 <= i < row_index && 0 <= j < width ==> cloned(
                        self@[row_start + i][col_start + j],
                        #[trigger] ret@[i]@[j],
                    ),
        {
            let mut row: Vec<T> = Vec::new();
            for col_index in 0..width
                invariant
                    has_shape(self@, self.spec_height(), self.spec_width()),
                    row_start + height == row_end + 1 <= self.spec_height(),
                    col_start + width == col_end + 1 <= self.spec_width(),
                    row_index < height,
                    row@.len() == col_index,
                    forall|j: int|
                        0 <= j < col_index ==> cloned(
                            self@[row_start + row_index][col_start + j],
                            #[trigger] row@[j],
                        ),
            {
                row.push(self.rows(row_index + row_start)[col_index + col_start].clone());
            }
            ret.push(row);
        }
        Matrix::from_rows(ret)
    }

    /// Writes a clone of each cell of `source` over the cells of `self`
    /// from `(row_offset, col_offset)` on.
    pub fn set_matrix(&mut self, source: &Matrix<T>, row_offset: usize, col_offset: usize)
        requires
            row_offset + source.spec_height() <= old(self).spec_height(),
            col_offset + source.spec_width() <= old(self).spec_width(),
        ensures
            patched(old(self)@, source@, row_offset as int, col_offset as int, final(self)@),
    {
        let height = source.height();
        let width = source.width();
        let ghost before = self@;
        let limit_height = self.height();
        let limit_width = self.width();
        for row_index in 0..height
            invariant
                height == source.spec_height(),
                width == source.spec_width(),
                has_shape(source@, height as nat, width as nat),
                row_offset + height <= before.len() == limit_height,
                col_offset + width <= grid_width(before) == limit_width,
                rectangular(before),
                self@.len() == before.len(),
                forall|i: int| 0 <= i < before.len() ==> (#[trigger] self@[i]).len() == before[i].len(),
                forall|i: int, j: int|
                    0 <= i < before.len() && 0 <= j < before[i].len() ==> if row_offset <= i
                        < row_offset + row_index && col_offset <= j < col_offset + width {
                        cloned(source@[i - row_offset][j - col_offset], #[trigger] self@[i][j])
                    } else {
                        self@[i][j] == before[i][j]
                    },
        {
            for col_index in 0..width
                invariant
                    height == source.spec_height(),
                    width == source.spec_width(),
                    row_index < height,
                    has_shape(source@, height as nat, width as nat),
                    row_offset + height <= before.len() == limit_height,
                    col_offset + width <= grid_width(before) == limit_width,
                    rectangular(before),
                    self@.len() == before.len(),
                    forall|i: int|
                        0 <= i < before.len() ==> (#[trigger] self@[i]).len() == before[i].len(),
                    forall|i: int, j: int|
                        0 <= i < before.len() && 0 <= j < before[i].len() ==> if (row_offset <= i
                            < row_offset + row_index && col_offset <= j < col_offset + width) || (i
                            == row_offset + row_index && col_offset <= j < col_offset + col_index) {
                            cloned(source@[i - row_offset][j - col_offset], #[trigger] self@[i][j])
                        } else {
                            self@[i][j] == before[i][j]
                        },
            {
                let value = source.get(row_index, col_index);
                assert(self@[0].len() == before[0].len());
                assert(before[row_offset + row_index].len() == before[0].len());
                self.set(row_offset + row_index, col_offset + col_index, value);
            }
        }
    }
}

impl<T: Clone> Clone for Matrix<T> {
    /// An independent matrix of the same shape, cell by cell a clone.
    fn clone(&self) -> (copy: Matrix<T>)
        ensures
            cloned_grid(self@, copy@),
    {
        let height = self.height();
        let width = self.width();
        let mut rows: Vec<Vec<T>> = Vec::new();
        for row_index in 0..height
            invariant
                height == self.spec_height(),
                width == self.spec_width(),
                has_shape(self@, height as nat, width as nat),
                rows@.len() == row_index,
                forall|i: int| 0 <= i < row_index ==> (#[trigger] rows@[i])@.len() == width,
                forall|i: int, j: int|
                    0 <= i < row_index && 0 <= j < width ==> cloned(
                        self@[i][j],
                        #[trigger] rows@[i]@[j],
                    ),
        {
            let mut row: Vec<T> = Vec::new();
            for col_index in 0..width
                invariant
                    height == self.spec_height(),
                    width == self.spec_width(),
                    row_index < height,
                    has_shape(self@, height as nat, width as nat),
                    row@.len() == col_index,
                    forall|j: int|
                        0 <= j < col_index ==> cloned(self@[row_index as int][j], #[trigger] row@[j]),
            {
                row.push(self.rows(row_index)[col_index].clone());
            }
            rows.push(row);
        }
        Matrix::from_rows(rows)
    }
}

/// The grid that an array of rows holds.
pub open spec fn array_grid<T, const M: usize, const N: usize>(arr: [[T; M]; N]) -> Seq<Seq<T>> {
    Seq::new(N as nat, |i: int| arr@[i]@)
}

impl<T: Clone, const M: usize, const N: usize> vstd::std_specs::convert::FromSpecImpl<[[T; M]; N]> for Matrix<T> {
    open spec fn obeys_from_spec() -> bool {
        false
    }

    open spec fn from_spec(arr: [[T; M]; N]) -> Self {
        arbitrary()
    }
}

/// `Vec::from` on an array: the vector holds the items of the array, moved
/// into it in their order.
#[verifier::external_body]
fn vec_from_array<A, const L: usize>(items: [A; L]) -> (v: Vec<A>)
    ensures
        v@ == items@,
{
    Vec::from(items)
}

impl<T: Clone, const M: usize, const N: usize> From<[[T; M]; N]> for Matrix<T> {
    /// The matrix of `N` rows and `M` columns that holds the cells of `arr`.
    fn from(arr: [[T; M]; N]) -> (m: Matrix<T>)
        ensures
            m@ == array_grid(arr),
    {
        let mut rows: Vec<Vec<T>> = Vec::new();
        let given = vec_from_array(arr);
        for row in it: given
            invariant
                it.seq() == arr@,
                rows@.len() == it.index(),
                forall|i: int| 0 <= i < it.index() ==> (#[trigger] rows@[i])@ == arr@[i]@,
        {
            rows.push(vec_from_array(row));
        }
        assert(rows_grid(rows@) =~= array_grid(arr));
        Matrix::from_rows(rows)
    }
}

/// Construction from text: each cell of the source becomes an owned string.
pub trait FromStr<T>: Sized {
    fn from_str(source: T) -> Self;
}

impl<const M: usize, const N: usize> FromStr<[[&str; M]; N]> for Matrix<String> {
    /// The matrix of `N` rows and `M` columns whose cells hold the texts of
    /// `arr`.
    fn from_str(arr: [[&str; M]; N]) -> (m: Matrix<String>)
        ensures
            has_shape(m@, N as nat, M as nat),
            forall|i: int, j: int|
                0 <= i < N && 0 <= j < M ==> (#[trigger] m@[i][j])@ == arr@[i]@[j]@,
    {
        let mut rows: Vec<Vec<String>> = Vec::new();
        for row_index in 0..N
            invariant
                rows@.len() == row_index,
                forall|i: int| 0 <= i < row_index ==> (#[trigger] rows@[i])@.len() == M,
                forall|i: int, j: int|
                    0 <= i < row_index && 0 <= j < M ==> (#[trigger] rows@[i]@[j])@
                        == arr@[i]@[j]@,
        {
            let mut row: Vec<String> = Vec::new();
            for col_index in 0..M
                invariant
                    row_index < N,
                    row@.len() == col_index,
                    forall|j: int|
                        0 <= j < col_index ==> (#[trigger] row@[j])@ == arr@[row_index as int]@[j]@,
            {
                row.push(arr[row_index][col_index].to_owned());
            }
            rows.push(row);
        }
        Matrix::from_rows(rows)
    }
}

} // verus!
