use mm::{MatrixElem, MatrixZeroOne};

#[test]
fn strings_add_with_a_plus_sign() {
    assert_eq!("a".to_string().add("b".to_string()), "a+b");
    assert_eq!("a+b".to_string().add("c".to_string()), "a+b+c");
    assert_eq!("".to_string().add("".to_string()), "+");
}

#[test]
fn strings_multiply_by_standing_side_by_side() {
    assert_eq!("a".to_string().mul("b".to_string()), "ab");
    assert_eq!("ab".to_string().mul("".to_string()), "ab");
}

#[test]
fn strings_subtract_a_term_that_was_added() {
    // `+b` is taken out first
    assert_eq!("a+b".to_string().sub("b".to_string()), "a");
    // else `b+`
    assert_eq!("b+a".to_string().sub("b".to_string()), "a");
    // else the difference is written out
    assert_eq!("a".to_string().sub("b".to_string()), "a-b");
}

#[test]
fn strings_subtract_the_first_match_only() {
    assert_eq!("a+b+b".to_string().sub("b".to_string()), "a+b");
    assert_eq!("b+b+a".to_string().sub("b".to_string()), "b+a");
    assert_eq!("x+ab+a".to_string().sub("a".to_string()), "xb+a");
}

#[test]
fn strings_prefer_the_leading_plus() {
    // both `+b` and `b+` occur: `+b` goes
    assert_eq!("b+a+b".to_string().sub("b".to_string()), "b+a");
}

#[test]
fn strings_undo_an_addition() {
    let sum = "x".to_string().add("y".to_string());
    assert_eq!(sum.sub("y".to_string()), "x");
}

#[test]
fn integers_add_subtract_and_multiply() {
    assert_eq!(MatrixElem::add(3u8, 4u8), 7);
    assert_eq!(MatrixElem::sub(9u16, 4u16), 5);
    assert_eq!(MatrixElem::mul(6u32, 7u32), 42);
    assert_eq!(MatrixElem::add(u64::MAX - 1, 1u64), u64::MAX);
    assert_eq!(MatrixElem::mul(3usize, 5usize), 15);
    assert_eq!(MatrixElem::add(-3i8, 4i8), 1);
    assert_eq!(MatrixElem::sub(-3i16, 4i16), -7);
    assert_eq!(MatrixElem::mul(-6i32, 7i32), -42);
    assert_eq!(MatrixElem::sub(i64::MIN + 1, 1i64), i64::MIN);
    assert_eq!(MatrixElem::mul(-1isize, -1isize), 1);
}

#[test]
fn integers_have_zero_and_one() {
    assert_eq!(<u8 as MatrixZeroOne>::zero(), 0);
    assert_eq!(<u8 as MatrixZeroOne>::one(), 1);
    assert_eq!(<i64 as MatrixZeroOne>::zero(), 0);
    assert_eq!(<i64 as MatrixZeroOne>::one(), 1);
    assert_eq!(<usize as MatrixZeroOne>::one(), 1);
    assert_eq!(<isize as MatrixZeroOne>::zero(), 0);
}

#[test]
fn integers_know_zero_and_one() {
    assert!(0u16.is_zero());
    assert!(!1u16.is_zero());
    assert!(1u32.is_one());
    assert!(!2u32.is_one());
    assert!(0i8.is_zero());
    assert!(!(-1i8).is_zero());
    assert!(1i32.is_one());
    assert!(!(-1i32).is_one());
    assert!(!0u64.is_one());
    assert!(!1i16.is_zero());
}
