//! Evaluation of many patients, each independently and in input order.
use crate::coefficients::Family;
use crate::engine::Indicators;
use crate::error::RiskError;
use crate::reading::{reading_of_bits, Reading};
use crate::risk::{
    evaluates_to,
    patient_risk_terms,
    risk_terms,
    text_outcome,
    Evaluation,
    Measurements,
    PatientInputs,
};
use crate::sex::Sex;
use crate::validation::Horizon;
use vstd::prelude::*;

verus! {

/// Columns of a row of a numeric batch: sex, age, total cholesterol, HDL
/// cholesterol, systolic blood pressure, diabetes, smoking, BMI, eGFR,
/// hypertension treatment, cholesterol treatment.
pub const ROW_WIDTH: usize = 11;

/// A patient of an explicit batch, with the sex as text.
#[derive(Clone, Debug)]
pub struct PatientRecord {
    pub sex: String,
    pub measurements: Measurements,
    pub indicators: Indicators,
}

/// The patient that a row of doubles, given by their bit patterns, encodes:
/// a sex column equal to 1 means male and any other value female; an
/// indicator column is present when it is unequal to zero.
pub open spec fn row_patient(row: Seq<u64>) -> PatientInputs {
    PatientInputs {
        sex: if reading_of_bits(row[0]).equals_spec(10) {
            Sex::Male
        } else {
            Sex::Female
        },
        measurements: Measurements {
            age: reading_of_bits(row[1]),
            total_cholesterol: reading_of_bits(row[2]),
            hdl_cholesterol: reading_of_bits(row[3]),
            systolic_bp: reading_of_bits(row[4]),
            bmi: reading_of_bits(row[7]),
            egfr: reading_of_bits(row[8]),
        },
        indicators: Indicators {
            has_diabetes: reading_of_bits(row[5]).is_nonzero_spec(),
            current_smoker: reading_of_bits(row[6]).is_nonzero_spec(),
            on_htn_meds: reading_of_bits(row[9]).is_nonzero_spec(),
            on_cholesterol_meds: reading_of_bits(row[10]).is_nonzero_spec(),
        },
    }
}

/// The row of index `i` of a row-major batch.
pub open spec fn row_of(data: Seq<u64>, i: int) -> Seq<u64> {
    data.subrange(i * ROW_WIDTH, i * ROW_WIDTH + ROW_WIDTH)
}

/// The slot of a numeric batch: empty, standing for not-a-number, when the
/// patient fails validation; else the evaluation.
pub open spec fn slot_outcome(
    slot: Option<Evaluation>,
    family: Family,
    horizon: Horizon,
    p: PatientInputs,
) -> bool {
    match p.measurements.validation(horizon) {
        Err(_) => slot is None,
        Ok(_) => slot matches Some(ev) && evaluates_to(ev, family, horizon, p.sex, p.indicators),
    }
}

/// The shape of a numeric batch is that of rows of eleven columns.
pub open spec fn valid_shape(shape: Seq<usize>) -> bool {
    shape.len() == 2 && shape[1] == ROW_WIDTH
}

/// Decodes the row that starts at `start`.
pub fn decode_row(data: &Vec<u64>, start: usize) -> (r: PatientInputs)
    requires
        start + ROW_WIDTH <= data@.len(),
    ensures
        r == row_patient(data@.subrange(start as int, start + ROW_WIDTH)),
        r.measurements.wf(),
{
    let len = data.len();
    assert(start + ROW_WIDTH <= len);
    let sex = if Reading::from_bits(data[start]).equals(10) {
        Sex::Male
    } else {
        Sex::Female
    };
    let measurements = Measurements::from_bits(
        data[start + 1],
        data[start + 2],
        data[start + 3],
        data[start + 4],
        data[start + 7],
        data[start + 8],
    );
    let indicators = Indicators {
        has_diabetes: Reading::from_bits(data[start + 5]).is_nonzero(),
        current_smoker: Reading::from_bits(data[start + 6]).is_nonzero(),
        on_htn_meds: Reading::from_bits(data[start + 9]).is_nonzero(),
        on_cholesterol_meds: Reading::from_bits(data[start + 10]).is_nonzero(),
    };
    let r = PatientInputs { sex, measurements, indicators };
    assert(r == row_patient(data@.subrange(start as int, start + ROW_WIDTH)));
    r
}

/// Evaluates every record of an explicit batch on its own: a failing record
/// yields its error in its place and does not stop the others.
pub fn batch_risk_terms(family: Family, horizon: Horizon, records: &Vec<PatientRecord>) -> (r: Vec<
    Result<Evaluation, RiskError>,
>)
    requires
        forall|i: int| 0 <= i < records@.len() ==> (#[trigger] records@[i]).measurements.wf(),
    ensures
        r@.len() == records@.len(),
        forall|i: int|
            0 <= i < records@.len() ==> text_outcome(
                #[trigger] r@[i],
                family,
                horizon,
                records@[i].sex@,
                records@[i].measurements,
                records@[i].indicators,
            ),
{
    let mut r: Vec<Result<Evaluation, RiskError>> = Vec::new();
    let mut i: usize = 0;
    while i < records.len()
        invariant
            i <= records@.len(),
            r@.len() == i,
            forall|j: int| 0 <= j < records@.len() ==> (#[trigger] records@[j]).measurements.wf(),
            forall|j: int|
                0 <= j < i ==> text_outcome(
                    #[trigger] r@[j],
                    family,
                    horizon,
                    records@[j].sex@,
                    records@[j].measurements,
                    records@[j].indicators,
                ),
        decreases records@.len() - i,
    {
        let record = &records[i];
        let outcome = risk_terms(
            family,
            horizon,
            record.sex.as_str(),
            &record.measurements,
            record.indicators,
        );
        r.push(outcome);
        i = i + 1;
    }
    r
}

/// Evaluates a row-major numeric batch of the given shape. A shape other
/// than rows of eleven is refused before any row is read; otherwise each row
/// gets a slot, empty where the row fails validation.
pub fn matrix_risk_terms(
    family: Family,
    horizon: Horizon,
    shape: &Vec<usize>,
    data: &Vec<u64>,
) -> (r: Result<Vec<Option<Evaluation>>, RiskError>)
    requires
        shape@.len() == 2 ==> data@.len() == shape@[0] * shape@[1],
    ensures
        !valid_shape(shape@) ==> r matches Err(RiskError::InvalidBatchShape),
        valid_shape(shape@) ==> (r matches Ok(slots) && slots@.len() == shape@[0] && forall|i: int|
            0 <= i < slots@.len() ==> slot_outcome(
                #[trigger] slots@[i],
                family,
                horizon,
                row_patient(row_of(data@, i)),
            )),
{
    if shape.len() != 2 || shape[1] != ROW_WIDTH {
        return Err(RiskError::InvalidBatchShape);
    }
    let n = shape[0];
    let len = data.len();
    let mut slots: Vec<Option<Evaluation>> = Vec::new();
    let mut i: usize = 0;
    while i < n
        invariant
            i <= n,
            shape@.len() == 2,
            n == shape@[0],
            len == data@.len(),
            data@.len() == n * ROW_WIDTH,
            slots@.len() == i,
            forall|j: int|
                0 <= j < i ==> slot_outcome(
                    #[trigger] slots@[j],
                    family,
                    horizon,
                    row_patient(row_of(data@, j)),
                ),
        decreases n - i,
    {
        proof {
            assert(i * ROW_WIDTH + ROW_WIDTH <= n * ROW_WIDTH) by (nonlinear_arith)
                requires
                    i < n,
            ;
            assert(i * ROW_WIDTH + ROW_WIDTH <= len);
        }
        let p = decode_row(data, i * ROW_WIDTH);
        let slot = match patient_risk_terms(family, horizon, &p) {
            Ok(ev) => Some(ev),
            Err(_) => None,
        };
        slots.push(slot);
        i = i + 1;
    }
    Ok(slots)
}

} // verus!
