use mm::bounds::{Bound, Span};
use mm::matrix::{FromStr, Matrix};
use mm::matrix_traits::{MatrixElem, MatrixZeroOne};

/// A floating-point element.
#[derive(Clone, Copy, Debug, PartialEq)]
struct Real(f64);

impl MatrixElem for Real {
    type Value = f64;

    fn value(&self) -> f64 {
        self.0
    }

    fn can_add(_: f64, _: f64) -> bool {
        true
    }

    fn add_value(a: f64, b: f64) -> f64 {
        a + b
    }

    fn can_sub(_: f64, _: f64) -> bool {
        true
    }

    fn sub_value(a: f64, b: f64) -> f64 {
        a - b
    }

    fn can_mul(_: f64, _: f64) -> bool {
        true
    }

    fn mul_value(a: f64, b: f64) -> f64 {
        a * b
    }

    fn clone_keeps_value(_: Self, _: Self) {}

    fn add(self, rhs: Self) -> Self {
        Real(self.0 + rhs.0)
    }

    fn sub(self, rhs: Self) -> Self {
        Real(self.0 - rhs.0)
    }

    fn mul(self, rhs: Self) -> Self {
        Real(self.0 * rhs.0)
    }
}

impl MatrixZeroOne for Real {
    fn zero_value(&self) -> bool {
        self.0 == 0.
    }

    fn one_value(&self) -> bool {
        self.0 == 1.
    }

    fn zero() -> Self {
        Real(0.)
    }

    fn is_zero(&self) -> bool {
        self.0 == 0.
    }

    fn one() -> Self {
        Real(1.)
    }

    fn is_one(&self) -> bool {
        self.0 == 1.
    }
}

impl std::fmt::Display for Real {
    fn fmt(&self, f: &mut std::fmt::Formatter<'_>) -> std::fmt::Result {
        std::fmt::Display::fmt(&self.0, f)
    }
}

/// The matrix of the floating-point numbers in `arr`.
fn reals<const M: usize, const N: usize>(arr: [[f64; M]; N]) -> Matrix<Real> {
    Matrix::from(arr.map(|row| row.map(Real)))
}

fn full() -> Span {
    Span { start: Bound::Unbounded, end: Bound::Unbounded }
}

#[test]
fn matrix_display_precision() {
    let m = reals([[1.33333333]]);
    assert_eq!(m.to_text(Some(4)).unwrap(), "1.3333");
}

#[test]
fn matrix_add_matrices1() {
    let m = Matrix::from([[1, 1], [1, 1]]);
    let n = Matrix::from([[2, 2], [2, 2]]);
    assert_eq!((m + n).to_text(None).unwrap(), "3,3\n3,3");
}

#[test]
fn matrix_add_matrices2() {
    let m = Matrix::from_str([["a", "b", "c"]]);
    let n = Matrix::from_str([["d", "e", "f"]]);
    assert_eq!((m + n).to_text(None).unwrap(), "a+d,b+e,c+f");
}

#[test]
fn matrix_mul_matrices2x2_numbers() {
    let m = Matrix::from([[4, 3], [2, 1]]);
    let n = Matrix::new_fill(2, 2, 2);
    assert_eq!((m * n).to_text(None).unwrap(), "14,14\n6,6");
}

#[test]
fn matrix_mul_matrices2x2_letters() {
    let m = Matrix::from_str([["a", "b"], ["c", "d"]]);
    let n = Matrix::from_str([["e", "f"], ["g", "h"]]);
    assert_eq!((m * n).to_text(None).unwrap(), "ae+bg,af+bh\nce+dg,cf+dh");
}

#[test]
fn matrix_mul_matrices3x1() {
    let m = Matrix::from_str([["a", "b", "c"], ["m", "n", "o"], ["r", "s", "t"]]);
    let n = Matrix::from_str([["x", "y", "z"]]).transpose();
    assert_eq!((m * n).to_text(None).unwrap(), "ax+by+cz\nmx+ny+oz\nrx+sy+tz");
}

#[test]
fn matrix_mul_matrices_float() {
    let m = Matrix::new_fill(1, 10, Real(3.));
    let n = Matrix::new_fill(10, 1, Real(1. / 3.));
    let p = m * n;
    assert_eq!(p.height(), 1);
    assert_eq!(p.width(), 1);

    let m = Matrix::new_fill(10, 1, Real(3.));
    let n = Matrix::new_fill(1, 10, Real(1. / 3.));
    let p = m * n;
    assert_eq!(p.height(), 10);
    assert_eq!(p.width(), 10);
}

#[test]
fn matrix_from() {
    let m = Matrix::from([[1, 2, 3], [1, 2, 3]]);
    assert_eq!(m.to_text(None).unwrap(), "1,2,3\n1,2,3");
}

#[test]
fn matrix_transpose_1() {
    let m = Matrix::from_str([["a", "b", "c"], ["d", "e", "f"]]);
    assert_eq!(m.transpose().to_text(None).unwrap(), "a,d\nb,e\nc,f");
}

#[test]
fn matrix_transpose_2() {
    let m = Matrix::from([[1, 2, 3]]);
    let transposed = m.transpose();
    assert_eq!(transposed.to_text(None).unwrap(), "1\n2\n3");
    assert_eq!(transposed.height(), 3);
    assert_eq!(transposed.width(), 1);
}

#[test]
fn matrix_is_identity_not_squared() {
    let m = Matrix::from([[1, 0, 0]]);
    assert!(!m.is_identity());
}

#[test]
fn matrix_is_identity_1() {
    let m = Matrix::from([[1, 2, 3], [2, 1, 3], [2, 3, 1]]);
    assert!(!m.is_identity());
}

#[test]
fn matrix_is_identity_2() {
    let m = Matrix::from([[1, 0, 0], [0, 1, 0], [0, 0, 1]]);
    assert!(m.is_identity());
}

#[test]
fn matrix_new_identity() {
    let m: Matrix<u32> = Matrix::identity(3);
    assert_eq!(m.to_text(None).unwrap(), "1,0,0\n0,1,0\n0,0,1");
    assert!(m.is_identity());
}

#[test]
fn matrix_transpose_of_product() {
    // transpose of a product equals a reverse product of transposes
    let m = Matrix::from([[1, 2, 3], [4, 5, 6], [7, 8, 9]]);
    let n = Matrix::from([[5, 3, 5], [7, 3, 1], [8, 8, 8]]);
    assert_eq!(
        (&m * &n).transpose().to_text(None).unwrap(),
        (n.transpose() * m.transpose()).to_text(None).unwrap()
    );
}

#[test]
fn matrix_dot_product() {
    let m = Matrix::from([[1, 3, 5, 6]]);
    let n = Matrix::from([[6, 5, 4, 3]]);
    assert_eq!(m.dot(&n), 59);
}

#[test]
fn matrix_mul_scalar() {
    let m = Matrix::from([[-4, -3, -2], [-1, 0, 1], [2, 3, 4]]);
    assert_eq!((m * 2).to_text(None).unwrap(), "-8,-6,-4\n-2,0,2\n4,6,8");
}

#[test]
fn matrix_cut() {
    let m = Matrix::from([[-4, -3, -2], [-1, 0, 1], [2, 3, 4]]);
    let n = Matrix::from([[-1, 0, 1], [2, 3, 4]]);
    let c = m.cut(
        Span { start: Bound::Included(1), end: Bound::Unbounded },
        Span { start: Bound::Unbounded, end: Bound::Included(2) },
    );
    assert_eq!(n.to_text(None).unwrap(), c.to_text(None).unwrap());
}

#[test]
fn matrix_cut_2() {
    let a = reals([[-1., -1., 1.], [1., 3., 3.], [-1., -1., 5.], [1., 3., 7.]]);
    let y = a.cut(full(), Span { start: Bound::Included(0), end: Bound::Excluded(1) });
    let b = reals([[-1., 1., -1., 1.]]).transpose();
    assert_eq!(y.to_text(None).unwrap(), b.to_text(None).unwrap());
}

#[test]
fn matrix_set() {
    let mut m = Matrix::from([[-4, -3, -2], [-1, 0, 1], [2, 3, 4]]);
    m.set(1, 0, 3);
    let n = Matrix::from([[-4, -3, -2], [3, 0, 1], [2, 3, 4]]);
    assert_eq!(m.to_text(None).unwrap(), n.to_text(None).unwrap());
}

#[test]
fn matrix_mul_matrices_bad_sizes() {
    let m = Matrix::new_fill(4, 5, Real(3.));
    let n = Matrix::new_fill(6, 7, Real(1. / 3.));
    let refused = m.check_mul(&n).unwrap_err();
    assert_eq!(refused.message(), "Can't multiply matrices AxB: A.width (5) != B.height (6)");
}

#[test]
fn matrix_dot_product_different_sizes() {
    let m = Matrix::from([[1, 2, 3]]);
    let n = Matrix::from([[1, 2]]);
    let refused = m.check_dot(&n).unwrap_err();
    assert_eq!(
        refused.message(),
        "Dot operation only allowed on vectors of the same length. Vector A length=3, Vector B length=2"
    );
}

#[test]
fn matrix_dot_product_matrix() {
    let m = Matrix::from([[1, 2, 3], [1, 2, 3]]);
    let n = Matrix::from([[1, 2, 3], [1, 2, 3]]);
    let refused = m.check_dot(&n).unwrap_err();
    assert_eq!(
        refused.message(),
        "Dot operation only allowed on vectors! Matrix A has dim=2, Matrix B has dim=2"
    );
}

#[test]
fn matrix_cut_bad_index() {
    let m = Matrix::from([[-4, -3, -2], [-1, 0, 1], [2, 3, 4]]);
    let refused = m
        .check_cut(full(), Span { start: Bound::Included(3), end: Bound::Excluded(2) })
        .unwrap_err();
    assert_eq!(refused.message(), "Column index out of bounds: [3, 1] / [0, 2]");
}
