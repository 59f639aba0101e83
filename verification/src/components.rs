//! Common building blocks for problem-dependent code.

pub mod coverage;
pub mod selection_control;

pub use coverage::{Coverage, Position};
pub use selection_control::SelectionControl;
