//! A fixed-size, row-major two-dimensional array over one contiguous buffer.
//!
//! [`grid`] holds the mathematical model, [`Grid`](grid::Grid), with the
//! addressing formula and the laws it obeys; [`twodarray`] holds the
//! executable container, [`Array2D`], whose contracts are stated over that model.

pub mod grid;
pub mod twodarray;

pub use crate::twodarray::{Array2D, INVALID_COLUMN, INVALID_ROW, OVERSIZED_INPUT};
