//! Evaluation of one patient: validation, then the choice of coefficient set,
//! then the summands of the linear predictor.
use crate::coefficients::{catalogue, lookup, Covariates, Family};
use crate::engine::{linear_terms, terms_of, Indicators, WeightedTerm};
use crate::error::RiskError;
use crate::reading::{reading_of_bits, Reading};
use crate::sex::{parse_sex, sex_named, Sex};
use crate::validation::{validate_input, validation_outcome, Horizon};
use vstd::prelude::*;

verus! {

/// The measured values of a patient.
#[derive(Clone, Copy, Debug, PartialEq, Eq, Structural)]
pub struct Measurements {
    pub age: Reading,
    pub total_cholesterol: Reading,
    pub hdl_cholesterol: Reading,
    pub systolic_bp: Reading,
    pub bmi: Reading,
    pub egfr: Reading,
}

impl Measurements {
    pub open spec fn wf(self) -> bool {
        &&& self.age.wf()
        &&& self.total_cholesterol.wf()
        &&& self.hdl_cholesterol.wf()
        &&& self.systolic_bp.wf()
        &&& self.bmi.wf()
        &&& self.egfr.wf()
    }

    /// The outcome of validating these measurements for the horizon.
    pub open spec fn validation(self, horizon: Horizon) -> Result<(), RiskError> {
        validation_outcome(
            self.age,
            self.total_cholesterol,
            self.hdl_cholesterol,
            self.systolic_bp,
            self.bmi,
            self.egfr,
            horizon,
        )
    }

    /// Builds measurements from the bit patterns of doubles.
    pub fn from_bits(
        age: u64,
        total_cholesterol: u64,
        hdl_cholesterol: u64,
        systolic_bp: u64,
        bmi: u64,
        egfr: u64,
    ) -> (r: Measurements)
        ensures
            r.wf(),
            r.age == reading_of_bits(age),
            r.total_cholesterol == reading_of_bits(total_cholesterol),
            r.hdl_cholesterol == reading_of_bits(hdl_cholesterol),
            r.systolic_bp == reading_of_bits(systolic_bp),
            r.bmi == reading_of_bits(bmi),
            r.egfr == reading_of_bits(egfr),
    {
        Measurements {
            age: Reading::from_bits(age),
            total_cholesterol: Reading::from_bits(total_cholesterol),
            hdl_cholesterol: Reading::from_bits(hdl_cholesterol),
            systolic_bp: Reading::from_bits(systolic_bp),
            bmi: Reading::from_bits(bmi),
            egfr: Reading::from_bits(egfr),
        }
    }
}

/// A patient whose sex is already known.
#[derive(Clone, Copy, Debug, PartialEq, Eq, Structural)]
pub struct PatientInputs {
    pub sex: Sex,
    pub measurements: Measurements,
    pub indicators: Indicators,
}

/// What remains to compute once an evaluation has succeeded: the coefficient
/// set consulted, and the summands of the linear predictor in summation order.
#[derive(Clone, Debug)]
pub struct Evaluation {
    pub covariates: Covariates,
    pub terms: Vec<WeightedTerm>,
}

/// `ev` is the evaluation of the equation for `family`, `horizon` and `sex`
/// for a patient with indicators `ind`.
pub open spec fn evaluates_to(
    ev: Evaluation,
    family: Family,
    horizon: Horizon,
    sex: Sex,
    ind: Indicators,
) -> bool {
    &&& ev.covariates == catalogue(family, horizon, sex)
    &&& ev.terms@ == terms_of(catalogue(family, horizon, sex), ind)
}

/// `r` is what evaluating a patient of known sex owes: the first validation
/// failure, or the evaluation.
pub open spec fn patient_outcome(
    r: Result<Evaluation, RiskError>,
    family: Family,
    horizon: Horizon,
    p: PatientInputs,
) -> bool {
    match p.measurements.validation(horizon) {
        Err(e) => r == Err::<Evaluation, RiskError>(e),
        Ok(_) => r matches Ok(ev) && evaluates_to(ev, family, horizon, p.sex, p.indicators),
    }
}

/// `r` is what evaluating a patient whose sex is given as text owes: the
/// first validation failure; else, for text that names no sex, that error;
/// else the evaluation.
pub open spec fn text_outcome(
    r: Result<Evaluation, RiskError>,
    family: Family,
    horizon: Horizon,
    sex: Seq<char>,
    m: Measurements,
    ind: Indicators,
) -> bool {
    match m.validation(horizon) {
        Err(e) => r == Err::<Evaluation, RiskError>(e),
        Ok(_) => match sex_named(sex) {
            None => r matches Err(RiskError::InvalidSex { value }) && value@ == sex,
            Some(s) => r matches Ok(ev) && evaluates_to(ev, family, horizon, s, ind),
        },
    }
}

/// The evaluation of a validated patient: the coefficient set for the
/// family, horizon and sex, and the summands it yields.
fn evaluation_of(family: Family, horizon: Horizon, sex: Sex, ind: Indicators) -> (r: Evaluation)
    ensures
        evaluates_to(r, family, horizon, sex, ind),
{
    let covariates = lookup(family, horizon, sex);
    let terms = linear_terms(&covariates, ind);
    Evaluation { covariates, terms }
}

fn validate_measurements(m: &Measurements, horizon: Horizon) -> (r: Result<(), RiskError>)
    requires
        m.wf(),
    ensures
        r == m.validation(horizon),
{
    validate_input(
        &m.age,
        &m.total_cholesterol,
        &m.hdl_cholesterol,
        &m.systolic_bp,
        &m.bmi,
        &m.egfr,
        horizon,
    )
}

/// Evaluates a patient of known sex.
pub fn patient_risk_terms(family: Family, horizon: Horizon, p: &PatientInputs) -> (r: Result<
    Evaluation,
    RiskError,
>)
    requires
        p.measurements.wf(),
    ensures
        patient_outcome(r, family, horizon, *p),
{
    match validate_measurements(&p.measurements, horizon) {
        Err(e) => Err(e),
        Ok(()) => Ok(evaluation_of(family, horizon, p.sex, p.indicators)),
    }
}

/// Evaluates a patient whose sex is given as text. Validation comes first,
/// so a patient with both an invalid sex and a value out of range is
/// reported out of range.
pub fn risk_terms(
    family: Family,
    horizon: Horizon,
    sex: &str,
    m: &Measurements,
    ind: Indicators,
) -> (r: Result<Evaluation, RiskError>)
    requires
        m.wf(),
    ensures
        text_outcome(r, family, horizon, sex@, *m, ind),
{
    match validate_measurements(m, horizon) {
        Err(e) => Err(e),
        Ok(()) => match parse_sex(sex) {
            Err(e) => Err(e),
            Ok(s) => Ok(evaluation_of(family, horizon, s, ind)),
        },
    }
}

/// Two results carry the same information: equal coefficient sets and
/// summands, or equal errors (an invalid sex reported with the same text).
pub open spec fn same_outcome(r1: Result<Evaluation, RiskError>, r2: Result<Evaluation, RiskError>) -> bool {
    match (r1, r2) {
        (Ok(e1), Ok(e2)) => e1.covariates == e2.covariates && e1.terms@ == e2.terms@,
        (Err(RiskError::InvalidSex { value: v1 }), Err(RiskError::InvalidSex { value: v2 })) => v1@
            == v2@,
        (Err(e1), Err(e2)) => e1 == e2,
        _ => false,
    }
}

/// Evaluation is a function of its inputs: any two results that the same
/// family, horizon and patient owe are the same.
pub proof fn lemma_evaluation_is_repeatable(
    r1: Result<Evaluation, RiskError>,
    r2: Result<Evaluation, RiskError>,
    family: Family,
    horizon: Horizon,
    sex: Seq<char>,
    m: Measurements,
    ind: Indicators,
)
    requires
        text_outcome(r1, family, horizon, sex, m, ind),
        text_outcome(r2, family, horizon, sex, m, ind),
    ensures
        same_outcome(r1, r2),
{
}

/// Families differ only in the coefficient set consulted: the evaluation for
/// any family is the shared pipeline applied to that family's set, so a set
/// handed to the pipeline directly gives what its family's evaluation gives,
/// and families whose sets agreed would evaluate alike.
pub proof fn lemma_family_selects_only_coefficients(
    ev1: Evaluation,
    ev2: Evaluation,
    family1: Family,
    family2: Family,
    horizon: Horizon,
    sex: Sex,
    ind: Indicators,
)
    requires
        evaluates_to(ev1, family1, horizon, sex, ind),
        evaluates_to(ev2, family2, horizon, sex, ind),
    ensures
        ev1.terms@ == terms_of(ev1.covariates, ind),
        ev2.terms@ == terms_of(ev2.covariates, ind),
        ev1.covariates == ev2.covariates ==> ev1.terms@ == ev2.terms@,
{
}

} // verus!
