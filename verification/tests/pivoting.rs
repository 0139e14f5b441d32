use mm::pivoting::{count_pivots, pivot_row};
use mm::Matrix;

#[test]
fn pivot_is_the_largest_magnitude() {
    assert_eq!(pivot_row(&vec![3, 9, 4], 0), (1, 9));
    assert_eq!(pivot_row(&vec![9, 3, 4], 0), (0, 9));
    assert_eq!(pivot_row(&vec![3, 4, 9], 0), (2, 9));
}

#[test]
fn pivot_of_equal_magnitudes_is_the_first() {
    assert_eq!(pivot_row(&vec![2, 7, 7, 7], 0), (1, 7));
    assert_eq!(pivot_row(&vec![5, 5], 0), (0, 5));
}

#[test]
fn pivot_row_counts_from_the_first_candidate_row() {
    assert_eq!(pivot_row(&vec![3, 9, 4], 2), (3, 9));
    assert_eq!(pivot_row(&vec![1], 6), (6, 1));
}

#[test]
fn no_pivot_where_no_magnitude_is_above_zero() {
    assert_eq!(pivot_row(&vec![0, 0, 0], 4), (0, 0));
    assert_eq!(pivot_row(&vec![], 4), (0, 0));
    assert_eq!(pivot_row(&vec![], 0), (0, 0));
}

#[test]
fn pivot_takes_the_largest_key_there_is() {
    assert_eq!(pivot_row(&vec![1, u64::MAX, 0], 1), (2, u64::MAX));
}

#[test]
fn pivots_on_the_diagonal_are_counted() {
    // nothing negligible on the diagonal of a 3 by 3 matrix
    let negligible = Matrix::from([[false, true, true], [true, false, true], [true, true, false]]);
    assert_eq!(count_pivots(&negligible), Some(3));
}

#[test]
fn a_negligible_entry_holds_the_count_back() {
    // the second column has no pivot: the third is looked at in the second row
    let negligible = Matrix::from([
        [false, false, true, false],
        [true, true, false, false],
        [true, true, true, true],
    ]);
    assert_eq!(count_pivots(&negligible), Some(2));
}

#[test]
fn a_matrix_of_negligible_entries_has_no_pivot() {
    assert_eq!(count_pivots(&Matrix::new_fill(3, 4, true)), Some(0));
}

#[test]
fn the_empty_matrix_has_no_pivot() {
    assert_eq!(count_pivots(&Matrix::new()), Some(0));
    assert_eq!(count_pivots(&Matrix::new_fill(3, 0, false)), Some(0));
}

#[test]
fn the_count_looks_at_the_row_of_the_count_only() {
    // the pivot of the second column stands in the first row, where the walk
    // does not look any more
    let negligible = Matrix::from([[false, false], [true, true]]);
    assert_eq!(count_pivots(&negligible), Some(1));
}

#[test]
fn the_walk_leaves_a_wide_matrix_whose_rows_all_hold_pivots() {
    let negligible = Matrix::from([[false, true, true], [true, false, true]]);
    assert_eq!(count_pivots(&negligible), None);
    // with the last column reached as the last row is counted, it stays inside
    let square = Matrix::from([[false, true], [true, false]]);
    assert_eq!(count_pivots(&square), Some(2));
}
