//! Residuals of the fixed cubic model `a*x^3 + b*x^2` against a built-in
//! five-point dataset, for use as the objective of an external
//! least-squares solver.

pub mod dataset;
pub mod residual;

pub use dataset::{data_point, x_value, y_value, DATA_LEN};
pub use residual::{evaluate, initial_guess, EvalError};
