use mm::{Bound, FromStr, Matrix, Span};

fn span(start: Bound, end: Bound) -> Span {
    Span { start, end }
}

fn full() -> Span {
    span(Bound::Unbounded, Bound::Unbounded)
}

#[test]
fn new_matrix_is_empty() {
    let m: Matrix<i32> = Matrix::new();
    assert!(m.is_empty());
    assert_eq!(m.height(), 0);
    assert_eq!(m.width(), 0);
    assert_eq!(m.to_text(None).unwrap(), "");
}

#[test]
fn new_fill_sets_every_cell() {
    let m = Matrix::new_fill(2, 3, 7u8);
    assert!(!m.is_empty());
    assert_eq!(m.height(), 2);
    assert_eq!(m.width(), 3);
    for row in 0..2 {
        for col in 0..3 {
            assert_eq!(m.get(row, col), 7);
        }
    }
}

#[test]
fn new_fill_without_rows_has_no_width() {
    let m = Matrix::new_fill(0, 5, 1i64);
    assert!(m.is_empty());
    assert_eq!(m.height(), 0);
    assert_eq!(m.width(), 0);
}

#[test]
fn new_fill_without_columns_keeps_its_rows() {
    let m = Matrix::new_fill(3, 0, 1i64);
    assert!(!m.is_empty());
    assert_eq!(m.height(), 3);
    assert_eq!(m.width(), 0);
    assert_eq!(m.to_text(None).unwrap(), "\n\n");
}

#[test]
fn from_array_keeps_rows_and_columns() {
    let m = Matrix::from([[1u16, 2, 3], [4, 5, 6]]);
    assert_eq!(m.height(), 2);
    assert_eq!(m.width(), 3);
    assert_eq!(m.get(0, 0), 1);
    assert_eq!(m.get(0, 2), 3);
    assert_eq!(m.get(1, 0), 4);
    assert_eq!(m.get(1, 2), 6);
}

#[test]
fn from_str_owns_the_texts() {
    let m = Matrix::from_str([["x", "yz"], ["", "w"]]);
    assert_eq!(m.height(), 2);
    assert_eq!(m.width(), 2);
    assert_eq!(m.get(0, 1), "yz");
    assert_eq!(m.get(1, 0), "");
    assert_eq!(m.to_text(None).unwrap(), "x,yz\n,w");
}

#[test]
fn set_changes_one_cell_only() {
    let mut m = Matrix::from([[1, 2], [3, 4]]);
    m.set(0, 1, 9);
    assert_eq!(m.to_text(None).unwrap(), "1,9\n3,4");
    m.set(1, 0, -1);
    assert_eq!(m.to_text(None).unwrap(), "1,9\n-1,4");
}

#[test]
fn get_hands_out_a_copy() {
    let m = Matrix::from_str([["a"]]);
    let mut taken = m.get(0, 0);
    taken.push('!');
    assert_eq!(taken, "a!");
    assert_eq!(m.get(0, 0), "a");
}

#[test]
fn clone_is_independent() {
    let m = Matrix::from([[1, 2], [3, 4]]);
    let mut copy = m.clone();
    copy.set(0, 0, 100);
    assert_eq!(m.to_text(None).unwrap(), "1,2\n3,4");
    assert_eq!(copy.to_text(None).unwrap(), "100,2\n3,4");
}

#[test]
fn swap_rows_exchanges_whole_rows() {
    let mut m = Matrix::from([[1, 2], [3, 4], [5, 6]]);
    m.swap_rows(0, 2);
    assert_eq!(m.to_text(None).unwrap(), "5,6\n3,4\n1,2");
    m.swap_rows(2, 0);
    assert_eq!(m.to_text(None).unwrap(), "1,2\n3,4\n5,6");
}

#[test]
fn swap_rows_with_itself_changes_nothing() {
    let mut m = Matrix::from([[1, 2], [3, 4]]);
    m.swap_rows(1, 1);
    assert_eq!(m.to_text(None).unwrap(), "1,2\n3,4");
}

#[test]
fn transpose_exchanges_rows_and_columns() {
    let m = Matrix::from([[1, 2, 3], [4, 5, 6]]);
    let t = m.transpose();
    assert_eq!(t.height(), 3);
    assert_eq!(t.width(), 2);
    assert_eq!(t.to_text(None).unwrap(), "1,4\n2,5\n3,6");
}

#[test]
fn transpose_twice_gives_the_matrix_back() {
    let m = Matrix::from([[1, 2, 3], [4, 5, 6]]);
    assert_eq!(m.clone().transpose().transpose().to_text(None).unwrap(), m.to_text(None).unwrap());
}

#[test]
fn transpose_of_rows_without_columns_is_empty() {
    let m = Matrix::new_fill(3, 0, 0u8);
    let t = m.transpose();
    assert!(t.is_empty());
    assert_eq!(t.width(), 0);
}

#[test]
fn transpose_of_the_empty_matrix_is_empty() {
    let m: Matrix<u8> = Matrix::new();
    assert!(m.transpose().is_empty());
}

#[test]
fn cut_takes_the_block_between_the_bounds() {
    let m = Matrix::from([[1, 2, 3, 4], [5, 6, 7, 8], [9, 10, 11, 12]]);
    let c = m.cut(
        span(Bound::Included(1), Bound::Included(2)),
        span(Bound::Included(1), Bound::Excluded(3)),
    );
    assert_eq!(c.to_text(None).unwrap(), "6,7\n10,11");
}

#[test]
fn cut_resolves_excluded_bounds() {
    let m = Matrix::from([[1, 2, 3, 4], [5, 6, 7, 8], [9, 10, 11, 12]]);
    // An excluded start x stands for x + 1, an excluded end x for x - 1.
    let c = m.cut(
        span(Bound::Excluded(0), Bound::Excluded(2)),
        span(Bound::Excluded(1), Bound::Unbounded),
    );
    assert_eq!(c.to_text(None).unwrap(), "7,8");
}

#[test]
fn cut_of_everything_is_a_copy() {
    let m = Matrix::from([[1, 2], [3, 4]]);
    assert_eq!(m.cut(full(), full()).to_text(None).unwrap(), m.to_text(None).unwrap());
}

#[test]
fn cut_of_one_cell() {
    let m = Matrix::from([[1, 2], [3, 4]]);
    let c = m.cut(
        span(Bound::Included(1), Bound::Included(1)),
        span(Bound::Included(0), Bound::Included(0)),
    );
    assert_eq!(c.height(), 1);
    assert_eq!(c.width(), 1);
    assert_eq!(c.get(0, 0), 3);
}

#[test]
fn cut_leaves_the_matrix_as_it_was() {
    let m = Matrix::from([[1, 2], [3, 4]]);
    let mut c = m.cut(full(), span(Bound::Included(1), Bound::Unbounded));
    c.set(0, 0, 50);
    assert_eq!(m.to_text(None).unwrap(), "1,2\n3,4");
    assert_eq!(c.to_text(None).unwrap(), "50\n4");
}

#[test]
fn set_matrix_overwrites_the_block_and_nothing_else() {
    let mut m = Matrix::new_fill(3, 3, 0);
    let patch = Matrix::from([[1, 2], [3, 4]]);
    m.set_matrix(&patch, 0, 0);
    assert_eq!(m.to_text(None).unwrap(), "1,2,0\n3,4,0\n0,0,0");
    m.set_matrix(&patch, 1, 1);
    assert_eq!(m.to_text(None).unwrap(), "1,2,0\n3,1,2\n0,3,4");
}

#[test]
fn set_matrix_of_the_whole_size_replaces_everything() {
    let mut m = Matrix::new_fill(2, 2, 0);
    let patch = Matrix::from([[1, 2], [3, 4]]);
    m.set_matrix(&patch, 0, 0);
    assert_eq!(m.to_text(None).unwrap(), patch.to_text(None).unwrap());
}

#[test]
fn set_matrix_of_an_empty_source_changes_nothing() {
    let mut m = Matrix::from([[1, 2], [3, 4]]);
    let patch: Matrix<i32> = Matrix::new();
    m.set_matrix(&patch, 2, 2);
    assert_eq!(m.to_text(None).unwrap(), "1,2\n3,4");
}

#[test]
fn span_resolves_to_its_first_and_last_index() {
    assert_eq!(full().resolve(3), Some((0, 2)));
    assert_eq!(span(Bound::Included(1), Bound::Unbounded).resolve(3), Some((1, 2)));
    assert_eq!(span(Bound::Unbounded, Bound::Included(2)).resolve(3), Some((0, 2)));
    assert_eq!(span(Bound::Included(0), Bound::Excluded(1)).resolve(3), Some((0, 0)));
    assert_eq!(span(Bound::Excluded(0), Bound::Excluded(3)).resolve(3), Some((1, 2)));
    assert_eq!(span(Bound::Included(2), Bound::Included(2)).resolve(3), Some((2, 2)));
}

#[test]
fn span_that_is_empty_or_leaves_the_axis_does_not_resolve() {
    // reversed
    assert_eq!(span(Bound::Included(3), Bound::Excluded(2)).resolve(3), None);
    assert_eq!(span(Bound::Included(2), Bound::Included(1)).resolve(3), None);
    // empty
    assert_eq!(span(Bound::Included(1), Bound::Excluded(1)).resolve(3), None);
    assert_eq!(span(Bound::Unbounded, Bound::Excluded(0)).resolve(3), None);
    // past the end
    assert_eq!(span(Bound::Unbounded, Bound::Included(3)).resolve(3), None);
    assert_eq!(span(Bound::Included(3), Bound::Unbounded).resolve(3), None);
    assert_eq!(span(Bound::Excluded(2), Bound::Unbounded).resolve(3), None);
    assert_eq!(span(Bound::Excluded(usize::MAX), Bound::Unbounded).resolve(3), None);
    // nothing to take from
    assert_eq!(full().resolve(0), None);
}
