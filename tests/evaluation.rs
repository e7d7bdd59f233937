use prevent::coefficients::{lookup, Covariates, Family, COEFFICIENT_SCALE};
use prevent::engine::{linear_terms, Indicators, Term, WeightedTerm};
use prevent::error::{Field, RiskError};
use prevent::risk::{patient_risk_terms, risk_terms, Evaluation, Measurements, PatientInputs};
use prevent::sex::Sex;
use prevent::validation::Horizon;

fn measurements(age: f64, tc: f64, hdl: f64, sbp: f64, bmi: f64, egfr: f64) -> Measurements {
    Measurements::from_bits(
        age.to_bits(),
        tc.to_bits(),
        hdl.to_bits(),
        sbp.to_bits(),
        bmi.to_bits(),
        egfr.to_bits(),
    )
}

fn indicators(d: bool, s: bool, h: bool, c: bool) -> Indicators {
    Indicators { has_diabetes: d, current_smoker: s, on_htn_meds: h, on_cholesterol_meds: c }
}

const NONE: Indicators = Indicators {
    has_diabetes: false,
    current_smoker: false,
    on_htn_meds: false,
    on_cholesterol_meds: false,
};

fn weight(w: i64) -> f64 {
    w as f64 / COEFFICIENT_SCALE as f64
}

/// Sums the summands in order for the given raw measurements.
fn predictor(ev: &Evaluation, age: f64, tc: f64, hdl: f64, sbp: f64, egfr: f64) -> f64 {
    let mult = weight(ev.covariates.cholesterol_base_multiplier);
    let age_c = (age - 55.0) / 10.0;
    let chol = mult * (tc - hdl) - 3.5;
    let hdl_raw = mult * hdl - 1.3;
    let sbp_low = (sbp.min(110.0) - 110.0) / 20.0;
    let sbp_high = (sbp.max(110.0) - 130.0) / 20.0;
    let egfr_low = (egfr.min(60.0) - 60.0) / -15.0;
    let egfr_high = (egfr.max(60.0) - 90.0) / -15.0;
    let mut sum = 0.0;
    for t in &ev.terms {
        let w = weight(t.weight);
        sum += match t.term {
            Term::One => w,
            Term::CenteredAge => w * age_c,
            Term::CenteredAgeSquared => w * age_c.powi(2),
            Term::CholesterolDiff => w * chol,
            Term::Hdl => w * (hdl_raw / 0.3),
            Term::SystolicBpLow => w * sbp_low,
            Term::SystolicBpHigh => w * sbp_high,
            Term::EgfrLow => w * egfr_low,
            Term::EgfrHigh => w * egfr_high,
            Term::AgeTimesCholesterolDiff => w * age_c * chol,
            Term::AgeTimesHdl => w * age_c * hdl_raw / 0.3,
            Term::AgeTimesSystolicBpHigh => w * age_c * sbp_high,
            Term::AgeTimesEgfrLow => w * age_c * egfr_low,
        };
    }
    sum
}

fn risk(lp: f64) -> f64 {
    lp.exp() / (1.0 + lp.exp()) * 100.0
}

fn gated(c: &Covariates) -> [(i64, Term); 21] {
    [
        (c.constant, Term::One),
        (c.age_factor, Term::CenteredAge),
        (c.age_squared_factor, Term::CenteredAgeSquared),
        (c.total_cholesterol_diff_factor, Term::CholesterolDiff),
        (c.hdl_cholesterol_diff_factor, Term::Hdl),
        (c.systolic_bp_min_factor, Term::SystolicBpLow),
        (c.systolic_bp_max_factor, Term::SystolicBpHigh),
        (c.diabetes_factor, Term::One),
        (c.smoker_factor, Term::One),
        (c.egfr_min_factor, Term::EgfrLow),
        (c.egfr_max_factor, Term::EgfrHigh),
        (c.htn_meds_factor, Term::One),
        (c.cholesterol_meds_factor, Term::One),
        (c.htn_meds_systolic_bp_max_factor, Term::SystolicBpHigh),
        (c.cholesterol_meds_cholesterol_diff_factor, Term::CholesterolDiff),
        (c.age_adjustment_cholesterol_diff_factor, Term::AgeTimesCholesterolDiff),
        (c.age_adjustment_hdl_cholesterol_diff_factor, Term::AgeTimesHdl),
        (c.age_adjustment_systolic_bp_max_factor, Term::AgeTimesSystolicBpHigh),
        (c.diabetes_age_factor, Term::CenteredAge),
        (c.smoker_age_factor, Term::CenteredAge),
        (c.age_min_egfr_factor, Term::AgeTimesEgfrLow),
    ]
}

fn pick(c: &Covariates, indices: &[usize]) -> Vec<WeightedTerm> {
    let all = gated(c);
    indices.iter().map(|&i| WeightedTerm { weight: all[i].0, term: all[i].1 }).collect()
}

const ALWAYS: [usize; 13] = [0, 1, 2, 3, 4, 5, 6, 9, 10, 15, 16, 17, 20];

#[test]
fn absent_factors_contribute_no_terms() {
    let c = Covariates::male_10_yr_ascvd();
    assert_eq!(linear_terms(&c, NONE), pick(&c, &ALWAYS));
}

#[test]
fn every_factor_adds_exactly_its_gated_terms_in_place() {
    let c = Covariates::female_30_yr_cvd();
    assert_eq!(
        linear_terms(&c, indicators(true, true, true, true)),
        pick(&c, &(0..21).collect::<Vec<_>>())
    );
    assert_eq!(
        linear_terms(&c, indicators(true, false, false, false)),
        pick(&c, &[0, 1, 2, 3, 4, 5, 6, 7, 9, 10, 15, 16, 17, 18, 20])
    );
    assert_eq!(
        linear_terms(&c, indicators(false, true, false, false)),
        pick(&c, &[0, 1, 2, 3, 4, 5, 6, 8, 9, 10, 15, 16, 17, 19, 20])
    );
    assert_eq!(
        linear_terms(&c, indicators(false, false, true, false)),
        pick(&c, &[0, 1, 2, 3, 4, 5, 6, 9, 10, 11, 13, 15, 16, 17, 20])
    );
    assert_eq!(
        linear_terms(&c, indicators(false, false, false, true)),
        pick(&c, &[0, 1, 2, 3, 4, 5, 6, 9, 10, 12, 14, 15, 16, 17, 20])
    );
}

#[test]
fn present_factor_with_positive_terms_raises_predictor() {
    // At age 55 the age interactions vanish, so diabetes adds its own weight.
    let m = measurements(55.0, 213.0, 50.0, 120.0, 27.0, 90.0);
    let without = risk_terms(Family::Ascvd, Horizon::TenYear, "female", &m, NONE).unwrap();
    let with = risk_terms(
        Family::Ascvd,
        Horizon::TenYear,
        "female",
        &m,
        indicators(true, false, false, false),
    )
    .unwrap();
    let low = predictor(&without, 55.0, 213.0, 50.0, 120.0, 90.0);
    let high = predictor(&with, 55.0, 213.0, 50.0, 120.0, 90.0);
    assert!(low < high);
    assert!((high - low - 0.8348585).abs() < 1e-12);
}

#[test]
fn repeated_evaluation_is_identical() {
    let m = measurements(62.0, 240.0, 45.0, 150.0, 31.0, 55.0);
    let ind = indicators(true, false, true, false);
    let a = risk_terms(Family::Cvd, Horizon::TenYear, "Male", &m, ind).unwrap();
    let b = risk_terms(Family::Cvd, Horizon::TenYear, "Male", &m, ind).unwrap();
    assert_eq!(a.covariates, b.covariates);
    assert_eq!(a.terms, b.terms);
    let pa = predictor(&a, 62.0, 240.0, 45.0, 150.0, 55.0);
    let pb = predictor(&b, 62.0, 240.0, 45.0, 150.0, 55.0);
    assert_eq!(pa.to_bits(), pb.to_bits());
}

#[test]
fn female_ten_year_ascvd_reference_predictor() {
    let m = measurements(55.0, 213.0, 50.0, 120.0, 27.0, 90.0);
    let ev = risk_terms(Family::Ascvd, Horizon::TenYear, "female", &m, NONE).unwrap();
    let lp = predictor(&ev, 55.0, 213.0, 50.0, 120.0, 90.0);
    let expected = -3.819975
        + 0.1176967 * (0.02586 * 163.0 - 3.5)
        + -0.151185 * (0.02586 * 50.0 - 1.3) / 0.3
        + 0.3592852 * (120.0 - 130.0) / 20.0;
    assert!(((lp - expected) / expected).abs() < 1e-9);
    let percent = risk(lp);
    assert!(percent > 0.0 && percent < 100.0);
    assert!((percent - 1.960991).abs() < 1e-5);
}

#[test]
fn coefficients_are_the_published_decimals() {
    let c = Covariates::female_10_yr_ascvd();
    assert_eq!(weight(c.constant), -3.819975);
    assert_eq!(weight(c.diabetes_factor), 0.8348585);
    assert_eq!(weight(c.cholesterol_base_multiplier), 0.02586);
    let m = Covariates::male_30_yr_cvd();
    assert_eq!(weight(m.age_factor), 0.4627309);
    assert_eq!(weight(m.constant), -1.148204);
    assert_eq!(weight(m.age_squared_factor), -0.0984281);
}

#[test]
fn every_set_converts_cholesterol_alike() {
    let sets = [
        Covariates::female_10_yr_ascvd(),
        Covariates::male_10_yr_ascvd(),
        Covariates::female_30_yr_ascvd(),
        Covariates::male_30_yr_ascvd(),
        Covariates::female_10_yr_cvd(),
        Covariates::male_10_yr_cvd(),
        Covariates::female_30_yr_cvd(),
        Covariates::male_30_yr_cvd(),
    ];
    for c in sets {
        assert_eq!(weight(c.cholesterol_base_multiplier), 0.02586);
        assert!(c.constant < 0);
    }
}

#[test]
fn ten_year_sets_weigh_no_squared_age() {
    for family in [Family::Ascvd, Family::Cvd] {
        for sex in [Sex::Male, Sex::Female] {
            assert_eq!(lookup(family, Horizon::TenYear, sex).age_squared_factor, 0);
            assert_ne!(lookup(family, Horizon::ThirtyYear, sex).age_squared_factor, 0);
            assert_eq!(lookup(family, Horizon::ThirtyYear, sex).cholesterol_base_multiplier, 258_600);
        }
    }
}

#[test]
fn families_share_the_pipeline() {
    let m = measurements(48.0, 190.0, 40.0, 135.0, 29.0, 50.0);
    let ind = indicators(false, true, true, true);
    for horizon in [Horizon::TenYear, Horizon::ThirtyYear] {
        let ascvd = risk_terms(Family::Ascvd, horizon, "male", &m, ind).unwrap();
        let cvd = risk_terms(Family::Cvd, horizon, "male", &m, ind).unwrap();
        // Handing one family's set to the shared pipeline gives that family's result.
        assert_eq!(linear_terms(&lookup(Family::Cvd, horizon, Sex::Male), ind), cvd.terms);
        assert_eq!(linear_terms(&lookup(Family::Ascvd, horizon, Sex::Male), ind), ascvd.terms);
        assert_eq!(linear_terms(&ascvd.covariates, ind), ascvd.terms);
        assert_ne!(ascvd.terms, cvd.terms);
        let kinds = |ev: &Evaluation| ev.terms.iter().map(|t| t.term).collect::<Vec<_>>();
        assert_eq!(kinds(&ascvd), kinds(&cvd));
    }
}

#[test]
fn validation_precedes_sex_parsing() {
    let bad_age = measurements(20.0, 200.0, 50.0, 120.0, 27.0, 90.0);
    assert!(matches!(
        risk_terms(Family::Ascvd, Horizon::TenYear, "m", &bad_age, NONE),
        Err(RiskError::OutOfRange { field: Field::Age, .. })
    ));
    let ok = measurements(50.0, 200.0, 50.0, 120.0, 27.0, 90.0);
    assert_eq!(
        risk_terms(Family::Ascvd, Horizon::TenYear, "m", &ok, NONE).unwrap_err(),
        RiskError::InvalidSex { value: "m".to_string() }
    );
}

#[test]
fn known_sex_skips_parsing() {
    let p = PatientInputs {
        sex: Sex::Female,
        measurements: measurements(40.0, 180.0, 60.0, 100.0, 22.0, 100.0),
        indicators: NONE,
    };
    let ev = patient_risk_terms(Family::Cvd, Horizon::ThirtyYear, &p).unwrap();
    assert_eq!(ev.covariates, Covariates::female_30_yr_cvd());
    let old = PatientInputs { measurements: measurements(60.0, 180.0, 60.0, 100.0, 22.0, 100.0), ..p };
    assert!(matches!(
        patient_risk_terms(Family::Cvd, Horizon::ThirtyYear, &old),
        Err(RiskError::OutOfRange { field: Field::Age, low_tenths: 300, high_tenths: 590 })
    ));
}
