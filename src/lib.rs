//! Risk-equation evaluation for cardiovascular outcomes, with every decision
//! that precedes the floating-point arithmetic stated and proved: range checks
//! on measurements, sex parsing, the coefficient catalogue, the selection and
//! order of the weighted terms of the linear predictor, and batch handling.
pub mod batch;
pub mod coefficients;
pub mod engine;
pub mod error;
pub mod reading;
pub mod risk;
pub mod sex;
pub mod validation;
