use matrix_builder::text::{append_decimal, append_truth};
use matrix_builder::MatrixError;

fn decimal(n: u128) -> String {
    let mut out = String::new();
    append_decimal(&mut out, n);
    out
}

#[test]
fn decimal_of_zero_is_one_digit() {
    assert_eq!("0", decimal(0));
}

#[test]
fn decimal_of_single_digits() {
    let digits = ["0", "1", "2", "3", "4", "5", "6", "7", "8", "9"];
    for d in 0..10u128 {
        assert_eq!(digits[d as usize], decimal(d));
    }
}

#[test]
fn decimal_has_the_most_significant_digit_first() {
    assert_eq!("10", decimal(10));
    assert_eq!("1234567890", decimal(1234567890));
    assert_eq!("100000", decimal(100000));
    assert_eq!("18446744073709551615", decimal(u64::MAX as u128));
}

#[test]
fn decimal_of_the_largest_number() {
    assert_eq!("340282366920938463463374607431768211455", decimal(u128::MAX));
    assert_eq!(format!("{}", u128::MAX), decimal(u128::MAX));
}

#[test]
fn decimal_is_appended_to_what_stands_there() {
    let mut out = String::from("n = ");
    append_decimal(&mut out, 42);
    append_decimal(&mut out, 7);
    assert_eq!("n = 427", out);
}

#[test]
fn truth_is_spelled_out() {
    let mut out = String::from("it is ");
    append_truth(&mut out, true);
    out.push_str(", not ");
    append_truth(&mut out, false);
    assert_eq!("it is true, not false", out);
}

#[test]
fn forbidden_names_the_length_and_then_the_index() {
    match MatrixError::forbidden(12, 40) {
        MatrixError::ForbiddenIndexing(message) => {
            assert_eq!("Forbidden indexing: the len of matrix is 12 but the index is 40", message)
        }
        MatrixError::OutOfBoundIndexing(_) => panic!("the other kind"),
    }
}

#[test]
fn out_of_bound_names_the_length_and_then_the_offset() {
    match MatrixError::out_of_bound_at(8, 96) {
        MatrixError::OutOfBoundIndexing(message) => {
            assert_eq!("Out of bound indexing: len is 8 but the index is 96", message)
        }
        MatrixError::ForbiddenIndexing(_) => panic!("the other kind"),
    }
}

#[test]
fn out_of_bound_names_the_length_and_then_the_verdict() {
    match MatrixError::out_of_bound_verdict(3, true) {
        MatrixError::OutOfBoundIndexing(message) => {
            assert_eq!("Out of bound indexing: len is 3 but the index is true", message)
        }
        MatrixError::ForbiddenIndexing(_) => panic!("the other kind"),
    }
    match MatrixError::out_of_bound_verdict(0, false) {
        MatrixError::OutOfBoundIndexing(message) => {
            assert_eq!("Out of bound indexing: len is 0 but the index is false", message)
        }
        MatrixError::ForbiddenIndexing(_) => panic!("the other kind"),
    }
}

#[test]
fn an_error_shows_its_kind_and_message() {
    let shown = format!("{:?}", MatrixError::forbidden(4, 9));
    assert_eq!(
        "ForbiddenIndexing(\"Forbidden indexing: the len of matrix is 4 but the index is 9\")",
        shown
    );
}
