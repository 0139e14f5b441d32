//! A generic dense-matrix library.
//!
//! A matrix is a rectangular grid of elements. Its algebra (sums,
//! differences, products, the row operations of elimination) is stated and
//! proved over the values that the elements stand for, so that it holds of
//! machine integers, of symbolic text and of any other element type that
//! supplies the arithmetic. Beside it stand the rules by which elimination
//! chooses and counts pivots, the checks that tell whether the arguments of
//! an operation fit, and matrices as text.

pub mod algebra;
pub mod bounds;
pub mod errors;
pub mod laws;
pub mod matrix;
pub mod matrix_traits;
pub mod numeric;
pub mod operators;
pub mod pivoting;
pub mod qr_factorization;
pub mod text;

pub use bounds::{Bound, Span};
pub use errors::MatrixError;
pub use matrix::{FromStr, Matrix};
pub use matrix_traits::{MatrixElem, MatrixZeroOne};
pub use qr_factorization::QRResult;
