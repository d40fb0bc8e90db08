//! Black-Scholes pricing of European options as differentiable expressions,
//! and the calibration loop that recovers implied volatility from observed
//! prices by gradient descent on those expressions.
//!
//! The numeric work (evaluating an [`formula::Expr`], differentiating it and
//! applying an optimizer update) belongs to a computation-graph backend that
//! the caller supplies as the `step` of [`solver::implied_volatility`].

pub mod formula;
pub mod shape;
pub mod solver;

pub use formula::{
    d1, d2, mean_squared_loss, price, price_call_option, price_put_option, Expr, Payoff,
};
pub use shape::{check_batch_shapes, shape_to_vec, shapes_match, BatchInput, ShapeMismatch};
pub use solver::{implied_call_volatility, implied_put_volatility, implied_volatility};
