//! What a QR factorization hands out, and the orthogonal factor as the
//! product of its reflectors.

use crate::algebra::{can_multiply_grids, product_grid};
use crate::errors::MatrixError;
use crate::laws::lemma_cloned_grid_keeps_values;
use crate::matrix::Matrix;
use crate::matrix_traits::MatrixElem;
use vstd::prelude::*;

verus! {

/// The result of a QR factorization: the upper-trapezoidal factor `r`, and
/// in `h` the full-size reflectors in the order in which they were applied.
pub struct QRResult<T> {
    pub r: Matrix<T>,
    pub h: Vec<Matrix<T>>,
}

/// The number of columns of the product of the first `n` of `ms`, for `n` of
/// at least 1, where the shapes fit.
pub open spec fn chain_width<T>(ms: Seq<Matrix<T>>, n: nat) -> nat {
    if n <= 1 {
        ms[0].spec_width()
    } else if ms[0].spec_height() == 0 {
        0
    } else {
        ms[n - 1].spec_width()
    }
}

/// In the product `ms[0] * ms[1] * ...`, taken from the left, the factor
/// `ms[k]` has as many rows as the product before it has columns.
pub open spec fn chain_fits_at<T>(ms: Seq<Matrix<T>>, k: int) -> bool {
    chain_width(ms, k as nat) == ms[k].spec_height()
}

/// `ms` is not empty, and the shapes of its matrices fit for the product
/// `ms[0] * ms[1] * ...`.
pub open spec fn chain_fits<T>(ms: Seq<Matrix<T>>) -> bool {
    &&& ms.len() > 0
    &&& forall|k: int| 1 <= k < ms.len() ==> #[trigger] chain_fits_at(ms, k)
}

/// The grids of values of a sequence of matrices.
pub open spec fn value_grids<T: Clone + MatrixElem>(ms: Seq<Matrix<T>>) -> Seq<Seq<Seq<T::Value>>> {
    Seq::new(ms.len(), |i: int| ms[i].values())
}

/// The product of the first `n` of `grids`, for `n` of at least 1, taken from
/// the left: `((g0 * g1) * g2) * ...`.
pub open spec fn chain_product<T: MatrixElem>(grids: Seq<Seq<Seq<T::Value>>>, n: nat) -> Seq<
    Seq<T::Value>,
>
    decreases n,
{
    if n <= 1 {
        grids[0]
    } else {
        product_grid::<T>(chain_product::<T>(grids, (n - 1) as nat), grids[n - 1])
    }
}

/// Every cell of every product that `chain_product` takes is defined.
pub open spec fn can_chain<T: MatrixElem>(grids: Seq<Seq<Seq<T::Value>>>, n: nat) -> bool
    decreases n,
{
    if n <= 1 {
        true
    } else {
        &&& can_chain::<T>(grids, (n - 1) as nat)
        &&& can_multiply_grids::<T>(chain_product::<T>(grids, (n - 1) as nat), grids[n - 1])
    }
}

/// Where the product of `n` grids is defined, so is that of the first `m`.
pub proof fn lemma_can_chain_prefix<T: MatrixElem>(grids: Seq<Seq<Seq<T::Value>>>, n: nat, m: nat)
    requires
        can_chain::<T>(grids, n),
        1 <= m <= n,
    ensures
        can_chain::<T>(grids, m),
    decreases n,
{
    if m < n {
        lemma_can_chain_prefix::<T>(grids, (n - 1) as nat, m);
    }
}

/// Whether the product `hs[0] * hs[1] * ...` can be taken: there is at least
/// one matrix, and each has as many rows as the product before it has
/// columns. The first factor that does not fit is reported.
pub fn check_reflectors<T>(hs: &Vec<Matrix<T>>) -> (checked: Result<(), MatrixError>)
    ensures
        checked is Ok <==> chain_fits(hs@),
        hs@.len() == 0 <==> checked == Err::<(), MatrixError>(MatrixError::NoReflectors),
        hs@.len() > 0 && !chain_fits(hs@) ==> exists|k: int|
            1 <= k < hs@.len() && !chain_fits_at(hs@, k) && (forall|e: int|
                1 <= e < k ==> #[trigger] chain_fits_at(hs@, e)) && checked == Err::<
                (),
                MatrixError,
            >(
                MatrixError::MulShapes {
                    left_width: chain_width(hs@, k as nat) as usize,
                    right_height: hs@[k].spec_height() as usize,
                },
            ),
{
    if hs.len() == 0 {
        return Err(MatrixError::NoReflectors);
    }
    let height = hs[0].height();
    let mut width = hs[0].width();
    for index in 1..hs.len()
        invariant
            hs@.len() > 0,
            height == hs@[0].spec_height(),
            width == chain_width(hs@, index as nat),
            forall|e: int| 1 <= e < index ==> #[trigger] chain_fits_at(hs@, e),
    {
        if width != hs[index].height() {
            assert(!chain_fits_at(hs@, index as int));
            return Err(
                MatrixError::MulShapes { left_width: width, right_height: hs[index].height() },
            );
        }
        width = if height == 0 {
            0
        } else {
            hs[index].width()
        };
    }
    Ok(())
}

/// The product `hs[0] * hs[1] * ... * hs[n-1]` of a sequence of reflectors
/// that is not empty, multiplied from the left in the order of the sequence.
pub fn q_from_reflectors<T: Clone + MatrixElem>(hs: &Vec<Matrix<T>>) -> (q: Matrix<T>)
    requires
        chain_fits(hs@),
        can_chain::<T>(value_grids(hs@), hs@.len()),
    ensures
        q.spec_height() == hs@[0].spec_height(),
        q.spec_width() == chain_width(hs@, hs@.len()),
        q.values() == chain_product::<T>(value_grids(hs@), hs@.len()),
{
    let ghost grids = value_grids(hs@);
    let mut res = hs[0].clone();
    proof {
        lemma_cloned_grid_keeps_values::<T>(hs@[0]@, res@);
    }
    let _ = hs[0].width();
    let _ = res.width();
    assert(res.spec_width() == hs@[0].spec_width()) by {
        if res@.len() > 0 {
            assert(res@[0].len() == hs@[0]@[0].len());
        }
    }
    for index in 1..hs.len()
        invariant
            grids == value_grids(hs@),
            chain_fits(hs@),
            can_chain::<T>(grids, hs@.len()),
            res.spec_height() == hs@[0].spec_height(),
            res.spec_width() == chain_width(hs@, index as nat),
            res.values() == chain_product::<T>(grids, index as nat),
    {
        proof {
            lemma_can_chain_prefix::<T>(grids, hs@.len(), (index + 1) as nat);
            assert(grids[index as int] == hs@[index as int].values());
            assert(chain_fits_at(hs@, index as int));
        }
        let _ = hs[index].width();
        res = res.mul_matrix(&hs[index]);
        let _ = res.width();
    }
    res
}

} // verus!
