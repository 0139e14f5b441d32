use mm::text::{decimal_text, join_cells};
use mm::{FromStr, Matrix};

fn strings(rows: Vec<Vec<&str>>) -> Vec<Vec<String>> {
    rows.into_iter().map(|row| row.into_iter().map(String::from).collect()).collect()
}

#[test]
fn decimal_of_small_numbers() {
    assert_eq!(decimal_text(0), "0");
    assert_eq!(decimal_text(7), "7");
    assert_eq!(decimal_text(9), "9");
    assert_eq!(decimal_text(10), "10");
    assert_eq!(decimal_text(1234567890), "1234567890");
}

#[test]
fn decimal_of_negative_numbers() {
    assert_eq!(decimal_text(-1), "-1");
    assert_eq!(decimal_text(-10), "-10");
    assert_eq!(decimal_text(-305), "-305");
}

#[test]
fn decimal_of_the_extremes() {
    assert_eq!(decimal_text(i128::MAX), "170141183460469231731687303715884105727");
    assert_eq!(decimal_text(i128::MIN), "-170141183460469231731687303715884105728");
    assert_eq!(decimal_text(u64::MAX as i128), "18446744073709551615");
}

#[test]
fn join_separates_cells_by_commas_and_rows_by_line_breaks() {
    assert_eq!(join_cells(&strings(vec![vec!["a", "b"], vec!["c", "d"]])), "a,b\nc,d");
    assert_eq!(join_cells(&strings(vec![vec!["a", "b", "c"]])), "a,b,c");
    assert_eq!(join_cells(&strings(vec![vec!["a"], vec!["b"], vec!["c"]])), "a\nb\nc");
}

#[test]
fn join_of_one_cell_is_the_cell() {
    assert_eq!(join_cells(&strings(vec![vec!["only"]])), "only");
}

#[test]
fn join_of_nothing_is_empty() {
    assert_eq!(join_cells(&strings(vec![])), "");
    assert_eq!(join_cells(&strings(vec![vec![]])), "");
}

#[test]
fn join_keeps_empty_cells_and_rows() {
    assert_eq!(join_cells(&strings(vec![vec!["", ""], vec![""]])), ",\n");
    assert_eq!(join_cells(&strings(vec![vec![], vec!["x"], vec![]])), "\nx\n");
}

#[test]
fn join_takes_rows_of_different_lengths() {
    assert_eq!(join_cells(&strings(vec![vec!["a"], vec!["b", "c", "d"]])), "a\nb,c,d");
}

#[test]
fn cell_texts_have_the_shape_of_the_matrix() {
    let m = Matrix::from([[1, 20, 300], [-4, 5, 6]]);
    let cells = m.cell_texts(None).unwrap();
    assert_eq!(cells, strings(vec![vec!["1", "20", "300"], vec!["-4", "5", "6"]]));
}

#[test]
fn cell_texts_follow_the_precision() {
    let m = Matrix::from([[1.5f32, 2.25], [0.125, -3.0]]);
    assert_eq!(m.cell_texts(Some(1)).unwrap(), strings(vec![vec!["1.5", "2.2"], vec!["0.1", "-3.0"]]));
    assert_eq!(m.cell_texts(Some(0)).unwrap(), strings(vec![vec!["2", "2"], vec!["0", "-3"]]));
    assert_eq!(m.cell_texts(None).unwrap(), strings(vec![vec!["1.5", "2.25"], vec!["0.125", "-3"]]));
}

#[test]
fn to_text_with_a_precision() {
    let m = Matrix::from([[1.0f64, 0.5], [0.25, 2.0]]);
    assert_eq!(m.to_text(Some(2)).unwrap(), "1.00,0.50\n0.25,2.00");
    assert_eq!(m.to_text(None).unwrap(), "1,0.5\n0.25,2");
}

#[test]
fn to_text_of_strings_is_not_cut_without_a_precision() {
    let m = Matrix::from_str([["abc", "de"]]);
    assert_eq!(m.to_text(None).unwrap(), "abc,de");
    // A precision on text keeps that many characters.
    assert_eq!(m.to_text(Some(2)).unwrap(), "ab,de");
}

/// An element that shows itself only where it is not negative.
#[derive(Clone)]
struct Fussy(i32);

impl std::fmt::Display for Fussy {
    fn fmt(&self, f: &mut std::fmt::Formatter<'_>) -> std::fmt::Result {
        if self.0 < 0 {
            return Err(std::fmt::Error);
        }
        std::fmt::Display::fmt(&self.0, f)
    }
}

#[test]
fn to_text_of_elements_that_show_themselves() {
    let m = Matrix::from([[Fussy(1), Fussy(2)], [Fussy(3), Fussy(4)]]);
    assert_eq!(m.to_text(None), Some("1,2\n3,4".to_string()));
    assert_eq!(m.to_text(Some(3)), Some("1,2\n3,4".to_string()));
}

#[test]
fn to_text_hands_on_the_failure_of_an_element() {
    let m = Matrix::from([[Fussy(1), Fussy(2)], [Fussy(-3), Fussy(4)]]);
    assert_eq!(m.to_text(None), None);
    assert_eq!(m.to_text(Some(2)), None);
    assert_eq!(m.cell_texts(None), None);
    assert_eq!(m.cell_texts(Some(0)), None);
}

#[test]
fn to_text_of_a_matrix_without_cells_cannot_fail() {
    let empty: Matrix<Fussy> = Matrix::new();
    assert_eq!(empty.to_text(None), Some(String::new()));
    assert_eq!(empty.cell_texts(Some(1)), Some(vec![]));
}

#[test]
fn to_text_takes_the_largest_precision_of_a_formatter() {
    let m = Matrix::from([[7u8]]);
    assert_eq!(m.to_text(Some(65535)), Some("7".to_string()));
    let text = Matrix::from([[0.5f64]]).to_text(Some(65535)).unwrap();
    assert_eq!(text.len(), 2 + 65535);
    assert!(text.starts_with("0.5000"));
}
