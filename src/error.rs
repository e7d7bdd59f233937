//! Failures of a risk evaluation.
use vstd::prelude::*;

verus! {

/// A validated measurement.
#[derive(Clone, Copy, Debug, PartialEq, Eq, Structural)]
pub enum Field {
    Age,
    TotalCholesterol,
    HdlCholesterol,
    SystolicBp,
    Bmi,
    Egfr,
}

/// Why an evaluation produced no risk.
#[derive(Clone, Debug, PartialEq, Eq)]
pub enum RiskError {
    /// The sex was neither "male" nor "female", in any letter case.
    InvalidSex { value: String },
    /// The first measurement found outside its closed interval, with the
    /// interval's ends in tenths of the measurement's unit.
    OutOfRange { field: Field, low_tenths: i64, high_tenths: i64 },
    /// A numeric batch was not a two-dimensional array of rows of eleven.
    InvalidBatchShape,
}

} // verus!
