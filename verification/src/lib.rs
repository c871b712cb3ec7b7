//! Dense two-dimensional arrays kept in flat buffers, under three storage
//! layouts: row-major, column-major and four row-major quadrants.
//!
//! A matrix is built once from a rectangle of rows and then only read. Each
//! layout maps a row and a column to an offset in its buffer in its own way,
//! and refuses with a [`MatrixError`] what it cannot answer.

pub mod agreement;
pub mod blocky;
pub mod col_major;
pub mod error;
pub mod matrix;
pub mod row_major;
pub mod strided;
pub mod text;

pub use blocky::MatrixBlocky;
pub use col_major::MatrixColMajor;
pub use error::MatrixError;
pub use matrix::Matrix;
pub use row_major::MatrixRowMajor;
