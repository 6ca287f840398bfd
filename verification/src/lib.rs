//! Small numeric and bookkeeping utilities: a dense row-major matrix with
//! multiplication, a vector with a dot product, and a shared counter map.

pub mod convert;
pub mod error;
pub mod inner_product;
pub mod matrix;
pub mod metrics;
pub mod text;
pub mod vector;

pub use error::{Error, Operands};
pub use matrix::{multiply, Matrix};
pub use metrics::Metrics;
pub use vector::{dot_product, Vector};
