use concurrency::matrix::{labelled_layout, layout};
use concurrency::{multiply, Error, Matrix, Operands};

#[test]
fn test_multiply() -> Result<(), Error> {
    let a = Matrix::new([1, 2, 3, 4, 5, 6], 2, 3);
    let b = Matrix::new([1, 2, 3, 4, 5, 6], 3, 2);
    let c = multiply(&a, &b)?;
    assert_eq!(c.row(), 2);
    assert_eq!(c.col(), 2);
    assert_eq!(c.data(), &vec![22, 28, 49, 64]);
    assert_eq!(
        c.debug_string(),
        "Matrix { row: 2, col: 2, data: {22 28, 49 64} }"
    );

    Ok(())
}

#[test]
fn test_display() -> Result<(), Error> {
    let a = Matrix::new([1, 2, 3, 4, 5, 6], 2, 3);
    assert_eq!(a.to_string(), "{1 2 3, 4 5 6}");
    Ok(())
}

#[test]
fn multiply_refuses_inner_dimensions_that_differ() {
    let a = Matrix::new([1, 2, 3, 4, 5, 6], 2, 3);
    let b = Matrix::new([1, 2, 3, 4], 2, 2);
    let r = multiply(&a, &b);
    assert!(matches!(r, Err(Error::DimensionMismatch(Operands::Matrices))));
    let r = multiply(&b, &b);
    assert!(r.is_ok());
    let wide = Matrix::new(vec![0i64; 6], 1, 6);
    let tall = Matrix::new(vec![0i64; 5], 5, 1);
    assert_eq!(
        multiply(&wide, &tall).err(),
        Some(Error::DimensionMismatch(Operands::Matrices))
    );
}

#[test]
fn multiply_by_identity_keeps_the_matrix() {
    let a = Matrix::new(vec![3i64, -1, 4, 1, -5, 9], 2, 3);
    let id3 = Matrix::new(vec![1i64, 0, 0, 0, 1, 0, 0, 0, 1], 3, 3);
    let id2 = Matrix::new(vec![1i64, 0, 0, 1], 2, 2);
    let right = multiply(&a, &id3).unwrap();
    assert_eq!((right.row(), right.col()), (2, 3));
    assert_eq!(right.data(), a.data());
    let left = multiply(&id2, &a).unwrap();
    assert_eq!((left.row(), left.col()), (2, 3));
    assert_eq!(left.data(), a.data());
}

#[test]
fn multiply_is_not_commutative() {
    let a = Matrix::new(vec![1u32, 2, 3, 4], 2, 2);
    let b = Matrix::new(vec![0u32, 1, 1, 0], 2, 2);
    assert_eq!(multiply(&a, &b).unwrap().data(), &vec![2, 1, 4, 3]);
    assert_eq!(multiply(&b, &a).unwrap().data(), &vec![3, 4, 1, 2]);
}

#[test]
fn multiply_cell_is_row_times_column() {
    // 2x3 times 3x4
    let a = Matrix::new(vec![1i64, 2, 3, 4, 5, 6], 2, 3);
    let b = Matrix::new(vec![7i64, 8, 9, 10, 11, 12, 13, 14, 15, 16, 17, 18], 3, 4);
    let c = multiply(&a, &b).unwrap();
    assert_eq!((c.row(), c.col()), (2, 4));
    for i in 0..2 {
        for j in 0..4 {
            let mut sum = 0i64;
            for k in 0..3 {
                sum += a.data()[i * 3 + k] * b.data()[k * 4 + j];
            }
            assert_eq!(c.data()[i * 4 + j], sum);
        }
    }
    assert_eq!(c.data(), &vec![74, 80, 86, 92, 173, 188, 203, 218]);
}

#[test]
fn multiply_over_an_empty_inner_dimension_gives_zeros() {
    let a: Matrix<i32> = Matrix::new(Vec::new(), 2, 0);
    let b: Matrix<i32> = Matrix::new(Vec::new(), 0, 3);
    let c = multiply(&a, &b).unwrap();
    assert_eq!((c.row(), c.col()), (2, 3));
    assert_eq!(c.data(), &vec![0; 6]);
    let e: Matrix<i32> = Matrix::new(Vec::new(), 3, 0);
    let d = multiply(&b, &e).unwrap();
    assert_eq!((d.row(), d.col()), (0, 0));
    assert!(d.data().is_empty());
    assert!(multiply(&b, &a).is_err());
}

#[test]
fn multiply_one_by_one() {
    let a = Matrix::new([6u8], 1, 1);
    let b = Matrix::new([7u8], 1, 1);
    let c = multiply(&a, &b).unwrap();
    assert_eq!(c.data(), &vec![42u8]);
    assert_eq!(c.to_string(), "{42}");
}

#[test]
fn multiply_leaves_its_operands_alone() {
    let a = Matrix::new([1, 2, 3, 4, 5, 6], 2, 3);
    let b = Matrix::new([1, 2, 3, 4, 5, 6], 3, 2);
    let _ = multiply(&a, &b).unwrap();
    assert_eq!(a.data(), &vec![1, 2, 3, 4, 5, 6]);
    assert_eq!((a.row(), a.col()), (2, 3));
    assert_eq!(b.data(), &vec![1, 2, 3, 4, 5, 6]);
    assert_eq!((b.row(), b.col()), (3, 2));
}

#[test]
fn new_keeps_what_it_is_given() {
    let from_array = Matrix::new([1u8, 2, 3, 4], 2, 2);
    let from_vec = Matrix::new(vec![1u8, 2, 3, 4], 2, 2);
    assert_eq!(from_array.data(), from_vec.data());
    assert_eq!(from_array.data(), &vec![1u8, 2, 3, 4]);
    let unchecked = Matrix::new(vec![1u8, 2, 3], 5, 7);
    assert_eq!((unchecked.row(), unchecked.col()), (5, 7));
    assert_eq!(unchecked.data().len(), 3);
}

#[test]
fn display_of_small_and_empty_matrices() {
    assert_eq!(Matrix::<i32>::new(Vec::new(), 0, 0).to_string(), "{}");
    assert_eq!(Matrix::<i32>::new(Vec::new(), 0, 3).to_string(), "{}");
    assert_eq!(Matrix::<i32>::new(Vec::new(), 3, 0).to_string(), "{, , }");
    assert_eq!(Matrix::new([7], 1, 1).to_string(), "{7}");
    assert_eq!(Matrix::new([1, 2, 3], 1, 3).to_string(), "{1 2 3}");
    assert_eq!(Matrix::new([1, 2, 3], 3, 1).to_string(), "{1, 2, 3}");
    assert_eq!(Matrix::new([-1, 20, -300, 4000], 2, 2).to_string(), "{-1 20, -300 4000}");
    assert_eq!(Matrix::new(["a", "b", "c", "d"], 2, 2).to_string(), "{a b, c d}");
}

#[test]
fn debug_string_names_the_dimensions() {
    let a = Matrix::new([1, 2, 3, 4, 5, 6], 2, 3);
    assert_eq!(a.debug_string(), "Matrix { row: 2, col: 3, data: {1 2 3, 4 5 6} }");
    let empty = Matrix::<u8>::new(Vec::new(), 0, 0);
    assert_eq!(empty.debug_string(), "Matrix { row: 0, col: 0, data: {} }");
    let long = Matrix::new(vec![0u8; 12], 12, 1);
    assert_eq!(
        long.debug_string(),
        "Matrix { row: 12, col: 1, data: {0, 0, 0, 0, 0, 0, 0, 0, 0, 0, 0, 0} }"
    );
}

#[test]
fn layout_of_given_cells() {
    let cells: Vec<String> = ["x", "", "yy", "z"].iter().map(|s| s.to_string()).collect();
    assert_eq!(layout(&cells, 2, 2), "{x , yy z}");
    assert_eq!(layout(&cells, 1, 4), "{x  yy z}");
    assert_eq!(layout(&cells, 4, 1), "{x, , yy, z}");
    assert_eq!(layout(&Vec::new(), 0, 0), "{}");
    assert_eq!(
        labelled_layout(&cells, 2, 2),
        "Matrix { row: 2, col: 2, data: {x , yy z} }"
    );
}
