//! The ways in which an operation can be refused, and the checks that tell
//! before the operation is tried.
//!
//! The operations themselves demand fitting arguments. A caller that cannot
//! promise them asks the check of the operation first, and gets either leave
//! to go on or the reason why not, with a message that names the offending
//! dimensions.

use crate::bounds::{Bound, Span};
use crate::matrix::Matrix;
use crate::text::{decimal_text, signed_decimal};
use vstd::prelude::*;
use vstd::string::StringExecFns;

verus! {

/// Why an operation cannot be carried out on the matrices it was given.
#[derive(Clone, Copy, Debug, PartialEq, Eq)]
pub enum MatrixError {
    /// A sum of matrices of different heights.
    AddHeights { left: usize, right: usize },
    /// A sum of matrices of one height and different widths.
    AddWidths { left: usize, right: usize },
    /// A difference of matrices of different heights.
    SubHeights { left: usize, right: usize },
    /// A difference of matrices of one height and different widths.
    SubWidths { left: usize, right: usize },
    /// A product in which the left matrix has not as many columns as the
    /// right one has rows.
    MulShapes { left_width: usize, right_height: usize },
    /// An inner product of matrices that are not both single rows.
    DotNotVectors { left_height: usize, right_height: usize },
    /// An inner product of single rows of different lengths.
    DotLengths { left_width: usize, right_width: usize },
    /// A block whose rows, from `first` to `last`, are not all among the rows
    /// 0 to `limit` of the matrix, or are none at all.
    RowsOutOfBounds { first: i128, last: i128, limit: i128 },
    /// A block whose columns, from `first` to `last`, are not all among the
    /// columns 0 to `limit` of the matrix, or are none at all.
    ColumnsOutOfBounds { first: i128, last: i128, limit: i128 },
    /// A right-hand side of a linear system that is not a single column.
    NotColumnVector { height: usize, width: usize },
    /// An inverse of a matrix that is not square.
    NotSquare { height: usize, width: usize },
    /// An orthogonal factor from no reflectors at all.
    NoReflectors,
}

/// `head`, `first` in decimal, `middle`, `second` in decimal, `tail`.
pub open spec fn two_number_message(
    head: Seq<char>,
    first: int,
    middle: Seq<char>,
    second: int,
    tail: Seq<char>,
) -> Seq<char> {
    head + signed_decimal(first) + middle + signed_decimal(second) + tail
}

/// The message that says which index range was asked for and which one the
/// matrix has.
pub open spec fn range_message(head: Seq<char>, first: int, last: int, limit: int) -> Seq<char> {
    head + signed_decimal(first) + ", "@ + signed_decimal(last) + "] / [0, "@ + signed_decimal(
        limit,
    ) + "]"@
}

impl MatrixError {
    /// The message of the error.
    pub open spec fn message_text(self) -> Seq<char> {
        match self {
            MatrixError::AddHeights { left, right } => two_number_message(
                "Can't add matrices A+B: A.height ("@,
                left as int,
                ") != B.height ("@,
                right as int,
                ")"@,
            ),
            MatrixError::AddWidths { left, right } => two_number_message(
                "Can't add matrices A+B: A.width ("@,
                left as int,
                ") != B.width ("@,
                right as int,
                ")"@,
            ),
            MatrixError::SubHeights { left, right } => two_number_message(
                "Can't subtract matrices A-B: A.height ("@,
                left as int,
                ") != B.height ("@,
                right as int,
                ")"@,
            ),
            MatrixError::SubWidths { left, right } => two_number_message(
                "Can't subtract matrices A-B: A.width ("@,
                left as int,
                ") != B.width ("@,
                right as int,
                ")"@,
            ),
            MatrixError::MulShapes { left_width, right_height } => two_number_message(
                "Can't multiply matrices AxB: A.width ("@,
                left_width as int,
                ") != B.height ("@,
                right_height as int,
                ")"@,
            ),
            MatrixError::DotNotVectors { left_height, right_height } => two_number_message(
                "Dot operation only allowed on vectors! Matrix A has dim="@,
                left_height as int,
                ", Matrix B has dim="@,
                right_height as int,
                ""@,
            ),
            MatrixError::DotLengths { left_width, right_width } => two_number_message(
                "Dot operation only allowed on vectors of the same length. Vector A length="@,
                left_width as int,
                ", Vector B length="@,
                right_width as int,
                ""@,
            ),
            MatrixError::RowsOutOfBounds { first, last, limit } => range_message(
                "Row index out of bounds: ["@,
                first as int,
                last as int,
                limit as int,
            ),
            MatrixError::ColumnsOutOfBounds { first, last, limit } => range_message(
                "Column index out of bounds: ["@,
                first as int,
                last as int,
                limit as int,
            ),
            MatrixError::NotColumnVector { height, width } => two_number_message(
                "b must be in form of a column vector, b=["@,
                height as int,
                ","@,
                width as int,
                "]"@,
            ),
            MatrixError::NotSquare { height, width } => two_number_message(
                "Cannot inverse a non-square matrix! A=["@,
                height as int,
                ","@,
                width as int,
                "]"@,
            ),
            MatrixError::NoReflectors => "Can't compute Q from a vector of H reflectors, vector is empty"@,
        }
    }

    /// The message of the error, as text.
    pub fn message(&self) -> (text: String)
        ensures
            text@ == self.message_text(),
    {
        match *self {
            MatrixError::AddHeights { left, right } => two_numbers(
                "Can't add matrices A+B: A.height (",
                left as i128,
                ") != B.height (",
                right as i128,
                ")",
            ),
            MatrixError::AddWidths { left, right } => two_numbers(
                "Can't add matrices A+B: A.width (",
                left as i128,
                ") != B.width (",
                right as i128,
                ")",
            ),
            MatrixError::SubHeights { left, right } => two_numbers(
                "Can't subtract matrices A-B: A.height (",
                left as i128,
                ") != B.height (",
                right as i128,
                ")",
            ),
            MatrixError::SubWidths { left, right } => two_numbers(
                "Can't subtract matrices A-B: A.width (",
                left as i128,
                ") != B.width (",
                right as i128,
                ")",
            ),
            MatrixError::MulShapes { left_width, right_height } => two_numbers(
                "Can't multiply matrices AxB: A.width (",
                left_width as i128,
                ") != B.height (",
                right_height as i128,
                ")",
            ),
            MatrixError::DotNotVectors { left_height, right_height } => two_numbers(
                "Dot operation only allowed on vectors! Matrix A has dim=",
                left_height as i128,
                ", Matrix B has dim=",
                right_height as i128,
                "",
            ),
            MatrixError::DotLengths { left_width, right_width } => two_numbers(
                "Dot operation only allowed on vectors of the same length. Vector A length=",
                left_width as i128,
                ", Vector B length=",
                right_width as i128,
                "",
            ),
            MatrixError::RowsOutOfBounds { first, last, limit } => range_numbers(
                "Row index out of bounds: [",
                first,
                last,
                limit,
            ),
            MatrixError::ColumnsOutOfBounds { first, last, limit } => range_numbers(
                "Column index out of bounds: [",
                first,
                last,
                limit,
            ),
            MatrixError::NotColumnVector { height, width } => two_numbers(
                "b must be in form of a column vector, b=[",
                height as i128,
                ",",
                width as i128,
                "]",
            ),
            MatrixError::NotSquare { height, width } => two_numbers(
                "Cannot inverse a non-square matrix! A=[",
                height as i128,
                ",",
                width as i128,
                "]",
            ),
            MatrixError::NoReflectors => String::from_str(
                "Can't compute Q from a vector of H reflectors, vector is empty",
            ),
        }
    }
}

fn two_numbers(head: &str, first: i128, middle: &str, second: i128, tail: &str) -> (text: String)
    ensures
        text@ == two_number_message(head@, first as int, middle@, second as int, tail@),
{
    let mut text = String::from_str(head);
    text.append(decimal_text(first).as_str());
    text.append(middle);
    text.append(decimal_text(second).as_str());
    text.append(tail);
    text
}

fn range_numbers(head: &str, first: i128, last: i128, limit: i128) -> (text: String)
    ensures
        text@ == range_message(head@, first as int, last as int, limit as int),
{
    let mut text = String::from_str(head);
    text.append(decimal_text(first).as_str());
    text.append(", ");
    text.append(decimal_text(last).as_str());
    text.append("] / [0, ");
    text.append(decimal_text(limit).as_str());
    text.append("]");
    text
}

/// What stands in the way of `span` on an axis of `len` indices: the first
/// and the last index asked for and the last index there is, or `None` where
/// the span fits.
fn span_misfit(span: Span, len: usize) -> (misfit: Option<(i128, i128, i128)>)
    ensures
        misfit is None <==> span.fits(len as nat),
        misfit matches Some((first, last, limit)) ==> first == span.first() && last == span.last(
            len as nat,
        ) && limit == len - 1,
{
    match span.resolve(len) {
        Some(_) => None,
        None => {
            let first: i128 = match span.start {
                Bound::Included(x) => x as i128,
                Bound::Excluded(x) => x as i128 + 1,
                Bound::Unbounded => 0,
            };
            let last: i128 = match span.end {
                Bound::Included(x) => x as i128,
                Bound::Excluded(x) => x as i128 - 1,
                Bound::Unbounded => len as i128 - 1,
            };
            Some((first, last, len as i128 - 1))
        },
    }
}

impl<T> Matrix<T> {
    /// Whether `self + rhs` can be taken: the shapes are equal. A difference
    /// in height is reported before one in width.
    pub fn check_add(&self, rhs: &Matrix<T>) -> (checked: Result<(), MatrixError>)
        ensures
            checked is Ok <==> self.spec_height() == rhs.spec_height() && self.spec_width()
                == rhs.spec_width(),
            self.spec_height() != rhs.spec_height() ==> checked == Err::<(), MatrixError>(
                MatrixError::AddHeights { left: self.spec_height() as usize, right: rhs.spec_height() as usize },
            ),
            self.spec_height() == rhs.spec_height() && self.spec_width() != rhs.spec_width()
                ==> checked == Err::<(), MatrixError>(
                MatrixError::AddWidths { left: self.spec_width() as usize, right: rhs.spec_width() as usize },
            ),
    {
        if self.height() != rhs.height() {
            return Err(MatrixError::AddHeights { left: self.height(), right: rhs.height() });
        }
        if self.width() != rhs.width() {
            return Err(MatrixError::AddWidths { left: self.width(), right: rhs.width() });
        }
        Ok(())
    }

    /// Whether `self - rhs` can be taken: the shapes are equal. A difference
    /// in height is reported before one in width.
    pub fn check_sub(&self, rhs: &Matrix<T>) -> (checked: Result<(), MatrixError>)
        ensures
            checked is Ok <==> self.spec_height() == rhs.spec_height() && self.spec_width()
                == rhs.spec_width(),
            self.spec_height() != rhs.spec_height() ==> checked == Err::<(), MatrixError>(
                MatrixError::SubHeights { left: self.spec_height() as usize, right: rhs.spec_height() as usize },
            ),
            self.spec_height() == rhs.spec_height() && self.spec_width() != rhs.spec_width()
                ==> checked == Err::<(), MatrixError>(
                MatrixError::SubWidths { left: self.spec_width() as usize, right: rhs.spec_width() as usize },
            ),
    {
        if self.height() != rhs.height() {
            return Err(MatrixError::SubHeights { left: self.height(), right: rhs.height() });
        }
        if self.width() != rhs.width() {
            return Err(MatrixError::SubWidths { left: self.width(), right: rhs.width() });
        }
        Ok(())
    }

    /// Whether `self * rhs` can be taken: `self` has as many columns as `rhs`
    /// has rows.
    pub fn check_mul(&self, rhs: &Matrix<T>) -> (checked: Result<(), MatrixError>)
        ensures
            checked is Ok <==> self.spec_width() == rhs.spec_height(),
            self.spec_width() != rhs.spec_height() ==> checked == Err::<(), MatrixError>(
                MatrixError::MulShapes {
                    left_width: self.spec_width() as usize,
                    right_height: rhs.spec_height() as usize,
                },
            ),
    {
        if self.width() != rhs.height() {
            return Err(
                MatrixError::MulShapes { left_width: self.width(), right_height: rhs.height() },
            );
        }
        Ok(())
    }

    /// Whether the inner product of `self` and `other` can be taken: both are
    /// single rows, of one length that is not 0. Operands that are not
    /// single rows are reported before a difference in length.
    pub fn check_dot(&self, other: &Matrix<T>) -> (checked: Result<(), MatrixError>)
        ensures
            checked is Ok <==> self.spec_height() == 1 && other.spec_height() == 1
                && self.spec_width() == other.spec_width() && self.spec_width() >= 1,
            self.spec_height() != 1 || other.spec_height() != 1 ==> checked == Err::<
                (),
                MatrixError,
            >(
                MatrixError::DotNotVectors {
                    left_height: self.spec_height() as usize,
                    right_height: other.spec_height() as usize,
                },
            ),
            self.spec_height() == 1 && other.spec_height() == 1 && (self.spec_width()
                != other.spec_width() || self.spec_width() == 0) ==> checked == Err::<
                (),
                MatrixError,
            >(
                MatrixError::DotLengths {
                    left_width: self.spec_width() as usize,
                    right_width: other.spec_width() as usize,
                },
            ),
    {
        if self.height() != 1 || other.height() != 1 {
            return Err(
                MatrixError::DotNotVectors {
                    left_height: self.height(),
                    right_height: other.height(),
                },
            );
        }
        if self.width() != other.width() || self.width() == 0 {
            return Err(
                MatrixError::DotLengths { left_width: self.width(), right_width: other.width() },
            );
        }
        Ok(())
    }

    /// Whether the block of `rows` and `cols` can be cut: each span holds at
    /// least one index and stays inside the matrix. Rows that do not fit are
    /// reported before columns that do not.
    pub fn check_cut(&self, rows: Span, cols: Span) -> (checked: Result<(), MatrixError>)
        ensures
            checked is Ok <==> rows.fits(self.spec_height()) && cols.fits(self.spec_width()),
            !rows.fits(self.spec_height()) ==> checked == Err::<(), MatrixError>(
                MatrixError::RowsOutOfBounds {
                    first: rows.first() as i128,
                    last: rows.last(self.spec_height()) as i128,
                    limit: (self.spec_height() - 1) as i128,
                },
            ),
            rows.fits(self.spec_height()) && !cols.fits(self.spec_width()) ==> checked == Err::<
                (),
                MatrixError,
            >(
                MatrixError::ColumnsOutOfBounds {
                    first: cols.first() as i128,
                    last: cols.last(self.spec_width()) as i128,
                    limit: (self.spec_width() - 1) as i128,
                },
            ),
    {
        if let Some((first, last, limit)) = span_misfit(rows, self.height()) {
            return Err(MatrixError::RowsOutOfBounds { first, last, limit });
        }
        if let Some((first, last, limit)) = span_misfit(cols, self.width()) {
            return Err(MatrixError::ColumnsOutOfBounds { first, last, limit });
        }
        Ok(())
    }

    /// Whether the matrix is a single column, as the right-hand side of a
    /// linear system has to be.
    pub fn check_column_vector(&self) -> (checked: Result<(), MatrixError>)
        ensures
            checked is Ok <==> self.spec_width() == 1,
            self.spec_width() != 1 ==> checked == Err::<(), MatrixError>(
                MatrixError::NotColumnVector {
                    height: self.spec_height() as usize,
                    width: self.spec_width() as usize,
                },
            ),
    {
        if self.width() != 1 {
            return Err(
                MatrixError::NotColumnVector { height: self.height(), width: self.width() },
            );
        }
        Ok(())
    }

    /// Whether the matrix is square, as a matrix with an inverse has to be.
    pub fn check_square(&self) -> (checked: Result<(), MatrixError>)
        ensures
            checked is Ok <==> self.spec_height() == self.spec_width(),
            self.spec_height() != self.spec_width() ==> checked == Err::<(), MatrixError>(
                MatrixError::NotSquare {
                    height: self.spec_height() as usize,
                    width: self.spec_width() as usize,
                },
            ),
    {
        if self.height() != self.width() {
            return Err(MatrixError::NotSquare { height: self.height(), width: self.width() });
        }
        Ok(())
    }
}

} // verus!
