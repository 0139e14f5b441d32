//! The rules of elimination that are decided on whole numbers and truth
//! values: which row becomes the pivot, and how the pivots of a reduced
//! matrix are counted.
//!
//! The magnitudes of the entries come as keys, whole numbers that are
//! ordered as the magnitudes are and equal where they are; whether an entry
//! is negligible comes as a truth value.

use crate::matrix::{grid_width, has_shape, Matrix};
use vstd::prelude::*;

verus! {

/// The largest of the first `n` keys, and 0 where there is none.
pub open spec fn largest_key(keys: Seq<u64>, n: nat) -> u64
    decreases n,
{
    if n == 0 {
        0
    } else {
        let before = largest_key(keys, (n - 1) as nat);
        if keys[n - 1] > before {
            keys[n - 1]
        } else {
            before
        }
    }
}

/// The first index at which `keys` holds `key`.
pub open spec fn first_index_of(keys: Seq<u64>, key: u64) -> int {
    choose|i: int|
        0 <= i < keys.len() && keys[i] == key && forall|e: int| 0 <= e < i ==> keys[e] != key
}

/// The choice of the pivot among candidate rows: `keys[i]` is the magnitude
/// of the candidate in the row `first_row + i`. The pivot is the candidate of
/// the largest magnitude, and among several of that magnitude the first one.
/// Where no magnitude is above 0 there is no pivot, and the choice is the
/// row 0 with the magnitude 0.
pub open spec fn pivot_choice(keys: Seq<u64>, first_row: int) -> (int, u64) {
    let key = largest_key(keys, keys.len());
    if key == 0 {
        (0, 0)
    } else {
        (first_row + first_index_of(keys, key), key)
    }
}

/// No key among the first `n` is above the largest of them, and where that
/// is above 0 it stands among them.
pub proof fn lemma_largest_key(keys: Seq<u64>, n: nat)
    requires
        n <= keys.len(),
    ensures
        forall|i: int| 0 <= i < n ==> keys[i] <= largest_key(keys, n),
        largest_key(keys, n) > 0 ==> exists|i: int| 0 <= i < n && keys[i] == largest_key(keys, n),
    decreases n,
{
    if n > 0 {
        lemma_largest_key(keys, (n - 1) as nat);
        let before = largest_key(keys, (n - 1) as nat);
        if keys[n - 1] > before {
            assert(keys[n - 1] == largest_key(keys, n));
        } else if before > 0 {
            let i = choose|i: int| 0 <= i < n - 1 && keys[i] == before;
            assert(keys[i] == largest_key(keys, n));
        }
    }
}

/// The row of the pivot and its magnitude, chosen among the candidates whose
/// magnitudes are `magnitudes`, the first of them in the row `first_row`.
pub fn pivot_row(magnitudes: &Vec<u64>, first_row: usize) -> (pivot: (usize, u64))
    requires
        first_row + magnitudes@.len() <= usize::MAX,
    ensures
        pivot.0 == pivot_choice(magnitudes@, first_row as int).0,
        pivot.1 == pivot_choice(magnitudes@, first_row as int).1,
        pivot.1 == largest_key(magnitudes@, magnitudes@.len()),
        forall|i: int| 0 <= i < magnitudes@.len() ==> magnitudes@[i] <= pivot.1,
        pivot.1 > 0 ==> first_row <= pivot.0 < first_row + magnitudes@.len(),
        pivot.1 > 0 ==> magnitudes@[pivot.0 - first_row] == pivot.1,
        pivot.1 > 0 ==> forall|i: int| 0 <= i < pivot.0 - first_row ==> magnitudes@[i] < pivot.1,
{
    let mut biggest: (usize, u64) = (0, 0);
    for offset in 0..magnitudes.len()
        invariant
            first_row + magnitudes@.len() <= usize::MAX,
            biggest.1 == largest_key(magnitudes@, offset as nat),
            biggest.1 == 0 ==> biggest.0 == 0,
            biggest.1 > 0 ==> first_row <= biggest.0 < first_row + offset,
            biggest.1 > 0 ==> magnitudes@[biggest.0 - first_row] == biggest.1,
            biggest.1 > 0 ==> forall|i: int|
                0 <= i < biggest.0 - first_row ==> magnitudes@[i] < biggest.1,
    {
        proof {
            lemma_largest_key(magnitudes@, offset as nat);
        }
        if magnitudes[offset] > biggest.1 {
            biggest = (first_row + offset, magnitudes[offset]);
        }
    }
    proof {
        let keys = magnitudes@;
        lemma_largest_key(keys, keys.len());
        if biggest.1 > 0 {
            let found = biggest.0 - first_row;
            let first = first_index_of(keys, biggest.1);
            assert(0 <= found < keys.len() && keys[found] == biggest.1 && forall|e: int|
                0 <= e < found ==> keys[e] != biggest.1);
            assert(0 <= first < keys.len() && keys[first] == biggest.1 && forall|e: int|
                0 <= e < first ==> keys[e] != biggest.1);
            assert(first == found) by {
                if first < found {
                    assert(keys[first] != biggest.1);
                }
                if found < first {
                    assert(keys[found] != biggest.1);
                }
            }
        }
    }
    biggest
}

/// The count of pivots on the way down the diagonal of a reduced matrix,
/// from the column `col` on with `count` pivots so far. `grid` tells of each
/// entry whether it is negligible. At each column the entry in the row of
/// the count so far is looked at: where it is not negligible it counts as a
/// pivot. The count is `None` where that entry is not in the matrix, which
/// is when every row holds a pivot and columns are left.
pub open spec fn diagonal_count(grid: Seq<Seq<bool>>, col: int, count: int) -> Option<int>
    decreases grid_width(grid) - col,
{
    if col >= grid_width(grid) {
        Some(count)
    } else if count >= grid.len() {
        None
    } else if grid[count][col] {
        diagonal_count(grid, col + 1, count)
    } else {
        diagonal_count(grid, col + 1, count + 1)
    }
}

/// The number of pivots that the walk down the diagonal of a reduced matrix
/// counts, where `negligible` tells of each entry whether it is negligible;
/// `None` where the walk leaves the matrix.
pub fn count_pivots(negligible: &Matrix<bool>) -> (pivots: Option<usize>)
    ensures
        pivots is Some <==> diagonal_count(negligible@, 0, 0) is Some,
        pivots matches Some(count) ==> diagonal_count(negligible@, 0, 0) == Some(count as int),
{
    let height = negligible.height();
    let width = negligible.width();
    let mut rank: usize = 0;
    for col in 0..width
        invariant
            height == negligible.spec_height(),
            width == negligible.spec_width(),
            has_shape(negligible@, height as nat, width as nat),
            rank <= col,
            rank <= height,
            diagonal_count(negligible@, col as int, rank as int) == diagonal_count(
                negligible@,
                0,
                0,
            ),
    {
        if rank >= height {
            return None;
        }
        // If we stumble upon 0, don't increase rank
        let skipped = negligible.get(rank, col);
        if !skipped {
            rank += 1;
        }
    }
    Some(rank)
}

} // verus!
