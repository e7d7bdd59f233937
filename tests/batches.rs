use prevent::batch::{batch_risk_terms, decode_row, matrix_risk_terms, PatientRecord};
use prevent::coefficients::{Covariates, Family};
use prevent::engine::Indicators;
use prevent::error::{Field, RiskError};
use prevent::risk::Measurements;
use prevent::sex::Sex;
use prevent::validation::Horizon;

fn bits(rows: &[[f64; 11]]) -> Vec<u64> {
    rows.iter().flat_map(|r| r.iter().map(|x| x.to_bits())).collect()
}

fn row(sex: f64, age: f64) -> [f64; 11] {
    [sex, age, 213.0, 50.0, 120.0, 0.0, 0.0, 27.0, 90.0, 0.0, 0.0]
}

#[test]
fn wrong_width_is_rejected_before_any_row() {
    let data = vec![0u64; 50];
    assert!(matches!(
        matrix_risk_terms(Family::Ascvd, Horizon::TenYear, &vec![5, 10], &data),
        Err(RiskError::InvalidBatchShape)
    ));
    assert!(matches!(
        matrix_risk_terms(Family::Ascvd, Horizon::TenYear, &vec![55], &vec![0u64; 55]),
        Err(RiskError::InvalidBatchShape)
    ));
    assert!(matches!(
        matrix_risk_terms(Family::Ascvd, Horizon::TenYear, &vec![1, 5, 11], &vec![0u64; 55]),
        Err(RiskError::InvalidBatchShape)
    ));
}

#[test]
fn invalid_row_leaves_an_empty_slot_in_place() {
    let rows = [row(1.0, 50.0), row(0.0, 60.0), row(1.0, 95.0), row(0.0, 40.0), row(1.0, 79.0)];
    let slots =
        matrix_risk_terms(Family::Ascvd, Horizon::TenYear, &vec![5, 11], &bits(&rows)).unwrap();
    assert_eq!(slots.len(), 5);
    let filled: Vec<bool> = slots.iter().map(|s| s.is_some()).collect();
    assert_eq!(filled, vec![true, true, false, true, true]);
    assert_eq!(slots[0].as_ref().unwrap().covariates, Covariates::male_10_yr_ascvd());
    assert_eq!(slots[1].as_ref().unwrap().covariates, Covariates::female_10_yr_ascvd());
}

#[test]
fn empty_matrix_gives_no_slots() {
    let slots = matrix_risk_terms(Family::Cvd, Horizon::ThirtyYear, &vec![0, 11], &vec![]).unwrap();
    assert!(slots.is_empty());
}

#[test]
fn row_encoding_of_sex_and_indicators() {
    let r = [2.0, 50.0, 213.0, 50.0, 120.0, 1.0, 0.0, 27.0, 90.0, f64::NAN, -0.0];
    let p = decode_row(&bits(&[r]), 0);
    assert_eq!(p.sex, Sex::Female);
    assert_eq!(
        p.indicators,
        Indicators {
            has_diabetes: true,
            current_smoker: false,
            on_htn_meds: true,
            on_cholesterol_meds: false
        }
    );
    let data = bits(&[row(0.0, 40.0), row(1.0, 40.0)]);
    assert_eq!(decode_row(&data, 11).sex, Sex::Male);
    assert_eq!(decode_row(&data, 0).sex, Sex::Female);
}

#[test]
fn explicit_batch_keeps_order_and_per_item_errors() {
    let m = |age: f64| {
        Measurements::from_bits(
            age.to_bits(),
            200.0f64.to_bits(),
            50.0f64.to_bits(),
            120.0f64.to_bits(),
            27.0f64.to_bits(),
            90.0f64.to_bits(),
        )
    };
    let ind = Indicators {
        has_diabetes: false,
        current_smoker: true,
        on_htn_meds: false,
        on_cholesterol_meds: false,
    };
    let records = vec![
        PatientRecord { sex: "Female".to_string(), measurements: m(45.0), indicators: ind },
        PatientRecord { sex: "x".to_string(), measurements: m(45.0), indicators: ind },
        PatientRecord { sex: "male".to_string(), measurements: m(85.0), indicators: ind },
        PatientRecord { sex: "MALE".to_string(), measurements: m(70.0), indicators: ind },
    ];
    let out = batch_risk_terms(Family::Cvd, Horizon::TenYear, &records);
    assert_eq!(out.len(), 4);
    assert_eq!(out[0].as_ref().unwrap().covariates, Covariates::female_10_yr_cvd());
    assert_eq!(out[1].as_ref().unwrap_err(), &RiskError::InvalidSex { value: "x".to_string() });
    assert!(matches!(out[2], Err(RiskError::OutOfRange { field: Field::Age, .. })));
    assert_eq!(out[3].as_ref().unwrap().covariates, Covariates::male_10_yr_cvd());
}
