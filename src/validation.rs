//! Clinical ranges of the measurements that every equation accepts.
use crate::error::{Field, RiskError};
use crate::reading::{lemma_bounds_are_monotone, lemma_equal_value_is_strict, Reading};
use vstd::prelude::*;

verus! {

/// The prediction window of an equation.
#[derive(Clone, Copy, Debug, PartialEq, Eq, Structural)]
pub enum Horizon {
    TenYear,
    ThirtyYear,
}

/// Lower end of a field's closed interval, in tenths of its unit.
pub open spec fn low_tenths(field: Field, horizon: Horizon) -> int {
    match field {
        Field::Age => 300,
        Field::TotalCholesterol => 1300,
        Field::HdlCholesterol => 200,
        Field::SystolicBp => 900,
        Field::Bmi => 185,
        Field::Egfr => 150,
    }
}

/// Upper end of a field's closed interval, in tenths of its unit. Only the
/// age bound depends on the horizon.
///
/// The BMI bound 39.9 is compared exactly; no double lies between 39.9 and
/// the double nearest to it, which is below it, so the outcome agrees with a
/// floating-point comparison against the literal.
pub open spec fn high_tenths(field: Field, horizon: Horizon) -> int {
    match field {
        Field::Age => if horizon == Horizon::TenYear { 790 } else { 590 },
        Field::TotalCholesterol => 3200,
        Field::HdlCholesterol => 1000,
        Field::SystolicBp => 2000,
        Field::Bmi => 399,
        Field::Egfr => 1400,
    }
}

/// The reading lies in the field's interval for the horizon.
pub open spec fn in_range(r: Reading, field: Field, horizon: Horizon) -> bool {
    r.at_least_spec(low_tenths(field, horizon)) && r.at_most_spec(high_tenths(field, horizon))
}

/// The first field, in the order age, total cholesterol, HDL cholesterol,
/// systolic blood pressure, BMI, eGFR, whose reading is out of range.
pub open spec fn first_out_of_range(
    age: Reading,
    total_cholesterol: Reading,
    hdl_cholesterol: Reading,
    systolic_bp: Reading,
    bmi: Reading,
    egfr: Reading,
    horizon: Horizon,
) -> Option<Field> {
    if !in_range(age, Field::Age, horizon) {
        Some(Field::Age)
    } else if !in_range(total_cholesterol, Field::TotalCholesterol, horizon) {
        Some(Field::TotalCholesterol)
    } else if !in_range(hdl_cholesterol, Field::HdlCholesterol, horizon) {
        Some(Field::HdlCholesterol)
    } else if !in_range(systolic_bp, Field::SystolicBp, horizon) {
        Some(Field::SystolicBp)
    } else if !in_range(bmi, Field::Bmi, horizon) {
        Some(Field::Bmi)
    } else if !in_range(egfr, Field::Egfr, horizon) {
        Some(Field::Egfr)
    } else {
        None
    }
}

/// The error that reports `field` out of range for `horizon`.
pub open spec fn out_of_range_error(field: Field, horizon: Horizon) -> RiskError {
    RiskError::OutOfRange {
        field,
        low_tenths: low_tenths(field, horizon) as i64,
        high_tenths: high_tenths(field, horizon) as i64,
    }
}

/// The outcome of validation: the first violation, or success.
pub open spec fn validation_outcome(
    age: Reading,
    total_cholesterol: Reading,
    hdl_cholesterol: Reading,
    systolic_bp: Reading,
    bmi: Reading,
    egfr: Reading,
    horizon: Horizon,
) -> Result<(), RiskError> {
    match first_out_of_range(age, total_cholesterol, hdl_cholesterol, systolic_bp, bmi, egfr, horizon) {
        Some(field) => Err(out_of_range_error(field, horizon)),
        None => Ok(()),
    }
}

/// Checks one reading against its field's interval.
fn check_field(r: &Reading, field: Field, horizon: Horizon) -> (res: Result<(), RiskError>)
    requires
        r.wf(),
    ensures
        res == (if in_range(*r, field, horizon) {
            Ok(())
        } else {
            Err(out_of_range_error(field, horizon))
        }),
{
    let (low, high): (i64, i64) = match field {
        Field::Age => (300, if horizon == Horizon::TenYear { 790 } else { 590 }),
        Field::TotalCholesterol => (1300, 3200),
        Field::HdlCholesterol => (200, 1000),
        Field::SystolicBp => (900, 2000),
        Field::Bmi => (185, 399),
        Field::Egfr => (150, 1400),
    };
    if r.within(low, high) {
        Ok(())
    } else {
        Err(RiskError::OutOfRange { field, low_tenths: low, high_tenths: high })
    }
}

/// Age check of the ten-year equations: 30 to 79 years.
fn validate_10_yr_age(age: &Reading) -> (res: Result<(), RiskError>)
    requires
        age.wf(),
    ensures
        res == (if in_range(*age, Field::Age, Horizon::TenYear) {
            Ok(())
        } else {
            Err(out_of_range_error(Field::Age, Horizon::TenYear))
        }),
{
    check_field(age, Field::Age, Horizon::TenYear)
}

/// Age check of the thirty-year equations: 30 to 59 years.
fn validate_30_yr_age(age: &Reading) -> (res: Result<(), RiskError>)
    requires
        age.wf(),
    ensures
        res == (if in_range(*age, Field::Age, Horizon::ThirtyYear) {
            Ok(())
        } else {
            Err(out_of_range_error(Field::Age, Horizon::ThirtyYear))
        }),
{
    check_field(age, Field::Age, Horizon::ThirtyYear)
}

/// Checks every measurement against its interval for the horizon, stopping at
/// the first one out of range. BMI and eGFR are checked whether or not an
/// equation reads them.
pub fn validate_input(
    age: &Reading,
    total_cholesterol: &Reading,
    hdl_cholesterol: &Reading,
    systolic_bp: &Reading,
    bmi: &Reading,
    egfr: &Reading,
    horizon: Horizon,
) -> (res: Result<(), RiskError>)
    requires
        age.wf(),
        total_cholesterol.wf(),
        hdl_cholesterol.wf(),
        systolic_bp.wf(),
        bmi.wf(),
        egfr.wf(),
    ensures
        res == validation_outcome(
            *age,
            *total_cholesterol,
            *hdl_cholesterol,
            *systolic_bp,
            *bmi,
            *egfr,
            horizon,
        ),
{
    let age_check = match horizon {
        Horizon::TenYear => validate_10_yr_age(age),
        Horizon::ThirtyYear => validate_30_yr_age(age),
    };
    if age_check.is_err() {
        return age_check;
    }
    let checks = check_field(total_cholesterol, Field::TotalCholesterol, horizon);
    if checks.is_err() {
        return checks;
    }
    let checks = check_field(hdl_cholesterol, Field::HdlCholesterol, horizon);
    if checks.is_err() {
        return checks;
    }
    let checks = check_field(systolic_bp, Field::SystolicBp, horizon);
    if checks.is_err() {
        return checks;
    }
    let checks = check_field(bmi, Field::Bmi, horizon);
    if checks.is_err() {
        return checks;
    }
    check_field(egfr, Field::Egfr, horizon)
}

/// Age bounds are inclusive: an age equal to either end of the horizon's
/// interval never fails validation on age, and an age one year outside
/// either end fails it on age, whatever the other measurements.
pub proof fn lemma_age_bounds_are_inclusive(
    age: Reading,
    total_cholesterol: Reading,
    hdl_cholesterol: Reading,
    systolic_bp: Reading,
    bmi: Reading,
    egfr: Reading,
    horizon: Horizon,
)
    ensures
        age.equals_spec(low_tenths(Field::Age, horizon)) || age.equals_spec(
            high_tenths(Field::Age, horizon),
        ) ==> first_out_of_range(
            age,
            total_cholesterol,
            hdl_cholesterol,
            systolic_bp,
            bmi,
            egfr,
            horizon,
        ) != Some(Field::Age),
        age.equals_spec(low_tenths(Field::Age, horizon) - 10) || age.equals_spec(
            high_tenths(Field::Age, horizon) + 10,
        ) ==> validation_outcome(
            age,
            total_cholesterol,
            hdl_cholesterol,
            systolic_bp,
            bmi,
            egfr,
            horizon,
        ) == Err::<(), RiskError>(out_of_range_error(Field::Age, horizon)),
{
    let low = low_tenths(Field::Age, horizon);
    let high = high_tenths(Field::Age, horizon);
    lemma_bounds_are_monotone(age, low, high);
    lemma_bounds_are_monotone(age, high, low);
    lemma_equal_value_is_strict(age, low - 10, low);
    lemma_equal_value_is_strict(age, high + 10, high);
}

} // verus!
