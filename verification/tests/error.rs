use concurrency::{dot_product, multiply, Error, Matrix, Operands, Vector};

#[test]
fn error_says_which_dimensions_disagree() {
    assert_eq!(
        Error::DimensionMismatch(Operands::Matrices).to_string(),
        "Matrix dimensions mismatch: a.col != b.row"
    );
    assert_eq!(
        Error::DimensionMismatch(Operands::Vectors).to_string(),
        "Vector dimensions mismatch: a.len() != b.len()"
    );
}

#[test]
fn errors_of_the_two_operations_differ() {
    let m = multiply(&Matrix::new([1, 2], 1, 2), &Matrix::new([1, 2], 1, 2)).err();
    let v = dot_product(Vector::new([1]), Vector::new([1, 2])).err();
    assert_eq!(m, Some(Error::DimensionMismatch(Operands::Matrices)));
    assert_eq!(v, Some(Error::DimensionMismatch(Operands::Vectors)));
    assert_ne!(m, v);
}
