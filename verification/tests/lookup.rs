use matrix_builder::{Matrix, MatrixBlocky, MatrixColMajor, MatrixError, MatrixRowMajor};

fn three_by_four() -> Vec<Vec<i32>> {
    vec![vec![1, 2, 3, 4], vec![5, 6, 7, 8], vec![9, 10, 11, 12]]
}

fn square(side: usize) -> Vec<Vec<usize>> {
    let mut rows = Vec::new();
    for i in 0..side {
        let mut row = Vec::new();
        for j in 0..side {
            row.push(i * side + j + 1);
        }
        rows.push(row);
    }
    rows
}

fn forbidden_message<T>(r: Result<T, MatrixError>) -> String {
    match r {
        Err(MatrixError::ForbiddenIndexing(message)) => message,
        Err(MatrixError::OutOfBoundIndexing(message)) => {
            panic!("a storage violation: {}", message)
        }
        Ok(_) => panic!("an element"),
    }
}

fn out_of_bound_message<T>(r: Result<T, MatrixError>) -> String {
    match r {
        Err(MatrixError::OutOfBoundIndexing(message)) => message,
        Err(MatrixError::ForbiddenIndexing(message)) => {
            panic!("a shape violation: {}", message)
        }
        Ok(_) => panic!("an element"),
    }
}

#[test]
fn row_major_returns_every_element_of_the_rectangle() {
    let arr = three_by_four();
    let m = MatrixRowMajor::new(&arr);
    for i in 0..3 {
        for j in 0..4 {
            assert_eq!(arr[i][j], m.get(i, j).unwrap());
        }
    }
}

#[test]
fn col_major_returns_every_element_of_the_rectangle() {
    let arr = three_by_four();
    let m = MatrixColMajor::new(&arr);
    for i in 0..3 {
        for j in 0..4 {
            assert_eq!(arr[i][j], m.get(i, j).unwrap());
        }
    }
}

#[test]
fn blocky_returns_every_element_of_an_even_square() {
    let arr = square(6);
    let m = MatrixBlocky::new(&arr);
    for i in 0..6 {
        for j in 0..6 {
            assert_eq!(arr[i][j], m.get(i, j).unwrap());
        }
    }
}

#[test]
fn blocky_of_side_two_has_one_element_per_quadrant() {
    let arr = vec![vec![10, 20], vec![30, 40]];
    let m = MatrixBlocky::new(&arr);
    assert_eq!(10, m.get(0, 0).unwrap());
    assert_eq!(20, m.get(0, 1).unwrap());
    assert_eq!(30, m.get(1, 0).unwrap());
    assert_eq!(40, m.get(1, 1).unwrap());
}

#[test]
fn the_three_layouts_agree_on_a_square() {
    let arr = square(8);
    let row = MatrixRowMajor::new(&arr);
    let col = MatrixColMajor::new(&arr);
    let block = MatrixBlocky::new(&arr);
    for i in 0..8 {
        for j in 0..8 {
            let expected = arr[i][j];
            assert_eq!(expected, row.get(i, j).unwrap());
            assert_eq!(expected, col.get(i, j).unwrap());
            assert_eq!(expected, block.get(i, j).unwrap());
        }
    }
}

#[test]
fn row_major_of_three_rows_and_four_columns() {
    let m = MatrixRowMajor::new(&three_by_four());
    assert_eq!(6, m.get(1, 1).unwrap());
    assert_eq!(1, m.get(0, 0).unwrap());
    assert_eq!(12, m.get(2, 3).unwrap());
    assert!(m.get(5, 9).is_err());
    assert!(matches!(m.get(5, 9), Err(MatrixError::ForbiddenIndexing(_))));
}

#[test]
fn row_major_column_equal_to_stride_passes_the_shape_check() {
    let m = MatrixRowMajor::new(&three_by_four());
    // Offsets 4 and 8 are the first elements of the next rows.
    assert_eq!(5, m.get(0, 4).unwrap());
    assert_eq!(9, m.get(1, 4).unwrap());
    // Offset 12 is the length of the buffer.
    assert!(matches!(m.get(2, 4), Err(MatrixError::OutOfBoundIndexing(_))));
    assert!(matches!(m.get(3, 4), Err(MatrixError::OutOfBoundIndexing(_))));
}

#[test]
fn col_major_row_equal_to_stride_passes_the_shape_check() {
    let m = MatrixColMajor::new(&three_by_four());
    // Offset 3 is the first element of the second column.
    assert_eq!(2, m.get(3, 0).unwrap());
    assert_eq!(4, m.get(3, 2).unwrap());
    // Offset 12 is the length of the buffer.
    assert!(matches!(m.get(3, 3), Err(MatrixError::OutOfBoundIndexing(_))));
}

#[test]
fn row_major_column_beyond_stride_is_forbidden() {
    let m = MatrixRowMajor::new(&three_by_four());
    assert_eq!(
        "Forbidden indexing: the len of matrix is 4 but the index is 5",
        forbidden_message(m.get(0, 5))
    );
    assert_eq!(
        "Forbidden indexing: the len of matrix is 4 but the index is 9",
        forbidden_message(m.get(5, 9))
    );
    assert_eq!(
        format!("Forbidden indexing: the len of matrix is 4 but the index is {}", usize::MAX),
        forbidden_message(m.get(usize::MAX, usize::MAX))
    );
}

#[test]
fn col_major_row_beyond_stride_is_forbidden() {
    let m = MatrixColMajor::new(&three_by_four());
    assert_eq!(
        "Forbidden indexing: the len of matrix is 4 but the index is 3",
        forbidden_message(m.get(4, 0))
    );
    assert_eq!(
        "Forbidden indexing: the len of matrix is 5 but the index is 3",
        forbidden_message(m.get(5, 9))
    );
}

#[test]
fn row_major_offset_past_the_buffer_is_out_of_bound() {
    let m = MatrixRowMajor::new(&three_by_four());
    assert_eq!(
        "Out of bound indexing: len is 4 but the index is true",
        out_of_bound_message(m.get(3, 1))
    );
    assert_eq!(
        "Out of bound indexing: len is 4 but the index is true",
        out_of_bound_message(m.get(3, 0))
    );
    assert_eq!(
        "Out of bound indexing: len is 4 but the index is true",
        out_of_bound_message(m.get(usize::MAX, 4))
    );
}

#[test]
fn col_major_offset_past_the_buffer_is_out_of_bound() {
    let m = MatrixColMajor::new(&three_by_four());
    assert_eq!(
        "Out of bound indexing: len is 3 but the index is 21",
        out_of_bound_message(m.get(0, 7))
    );
    assert_eq!(
        "Out of bound indexing: len is 3 but the index is 12",
        out_of_bound_message(m.get(3, 3))
    );
    assert_eq!(
        "Out of bound indexing: len is 3 but the index is 12",
        out_of_bound_message(m.get(0, 4))
    );
}

#[test]
fn col_major_offset_wider_than_the_machine_word_is_out_of_bound() {
    let m = MatrixColMajor::new(&three_by_four());
    let offset: u128 = (usize::MAX as u128) * 3 + 2;
    assert_eq!(
        format!("Out of bound indexing: len is 3 but the index is {}", offset),
        out_of_bound_message(m.get(2, usize::MAX))
    );
}

#[test]
fn an_error_never_passes_for_an_element() {
    let m = MatrixRowMajor::new(&three_by_four());
    let r = m.get(5, 9);
    assert!(r.is_err());
    assert_eq!(0, r.unwrap_or_default());
}

#[test]
fn blocky_forwards_the_failure_of_the_quadrant() {
    // Rows of three elements: the right quadrants hold one column only, and
    // their stride is 1.
    let arr = vec![vec![1, 2, 3], vec![4, 5, 6], vec![7, 8, 9], vec![10, 11, 12]];
    let m = MatrixBlocky::new(&arr);
    assert_eq!(1, m.get(0, 0).unwrap());
    assert_eq!(5, m.get(1, 1).unwrap());
    assert_eq!(3, m.get(0, 2).unwrap());
    assert_eq!(6, m.get(1, 2).unwrap());
    assert_eq!(12, m.get(3, 2).unwrap());
    // Column 3 is column 1 of the top right quadrant: offset 1, the second row.
    assert_eq!(6, m.get(0, 3).unwrap());
    // Row 1, column 1 of that quadrant: offset 2 of a buffer of 2.
    assert_eq!(
        "Out of bound indexing: len is 1 but the index is true",
        out_of_bound_message(m.get(1, 3))
    );
}

#[test]
fn blocky_selects_the_quadrant_by_both_quotients() {
    let arr = square(4);
    let m = MatrixBlocky::new(&arr);
    // Row 0, column 6: quadrant 0 * 2 + 3, the bottom right one, at (0, 0).
    assert_eq!(arr[2][2], m.get(0, 6).unwrap());
    // Row 1, column 5: quadrant 0 * 2 + 2, the bottom left one, at (1, 1).
    assert_eq!(arr[3][1], m.get(1, 5).unwrap());
}

#[test]
fn blocky_of_odd_side_leaves_out_the_last_row_and_column() {
    let arr = square(5);
    let m = MatrixBlocky::new(&arr);
    for i in 0..4 {
        for j in 0..4 {
            assert_eq!(arr[i][j], m.get(i, j).unwrap());
        }
    }
}

#[test]
fn default_row_major_has_no_element() {
    let m: MatrixRowMajor<i32> = MatrixRowMajor::default();
    assert_eq!(
        "Out of bound indexing: len is 0 but the index is true",
        out_of_bound_message(m.get(0, 0))
    );
    assert_eq!(
        "Forbidden indexing: the len of matrix is 0 but the index is 1",
        forbidden_message(m.get(0, 1))
    );
}

#[test]
fn default_col_major_has_no_element() {
    let m: MatrixColMajor<i32> = MatrixColMajor::default();
    assert_eq!(
        "Out of bound indexing: len is 0 but the index is 0",
        out_of_bound_message(m.get(0, 0))
    );
    assert_eq!(
        "Forbidden indexing: the len of matrix is 1 but the index is 0",
        forbidden_message(m.get(1, 0))
    );
}

#[test]
fn default_blocky_can_be_made() {
    let m: MatrixBlocky<i32> = MatrixBlocky::default();
    drop(m);
}

#[test]
fn get_copies_the_element_out() {
    let arr = vec![vec!['a', 'b'], vec!['c', 'd']];
    let m = MatrixRowMajor::new(&arr);
    assert_eq!('d', m.get(1, 1).unwrap());
    assert_eq!('d', m.get(1, 1).unwrap());
    assert_eq!('a', arr[0][0]);
}
