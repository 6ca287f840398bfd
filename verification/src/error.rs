//! The error that arithmetic on operands of incompatible shape reports.

use vstd::prelude::*;

verus! {

/// The kind of operands whose shapes disagreed.
#[derive(Debug, Clone, Copy, PartialEq, Eq, Structural)]
pub enum Operands {
    /// Two matrices: the column count of the left one differs from the row
    /// count of the right one.
    Matrices,
    /// Two vectors of different lengths.
    Vectors,
}

#[derive(Debug, Clone, Copy, PartialEq, Eq, Structural)]
pub enum Error {
    /// An operation was asked to combine operands whose dimensions do not fit.
    DimensionMismatch(Operands),
}

impl Error {
    /// The text that describes this error to a person.
    pub open spec fn description(self) -> Seq<char> {
        match self {
            Error::DimensionMismatch(Operands::Matrices) => "Matrix dimensions mismatch: a.col != b.row"@,
            Error::DimensionMismatch(Operands::Vectors) => "Vector dimensions mismatch: a.len() != b.len()"@,
        }
    }

    /// Renders the error as its description.
    pub fn to_string(&self) -> (text: String)
        ensures
            text@ == self.description(),
    {
        match self {
            Error::DimensionMismatch(Operands::Matrices) => "Matrix dimensions mismatch: a.col != b.row".to_owned(),
            Error::DimensionMismatch(Operands::Vectors) => "Vector dimensions mismatch: a.len() != b.len()".to_owned(),
        }
    }
}

} // verus!
