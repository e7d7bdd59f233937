//! The published coefficient sets, one per outcome family, horizon and sex.
//!
//! Each coefficient is held exactly, as an integer count of units of 1e-7:
//! every published coefficient has at most seven decimals, so dividing the
//! count by 1e7 in double precision yields the double nearest to the
//! published decimal.
use crate::sex::Sex;
use crate::validation::Horizon;
use vstd::prelude::*;

verus! {

/// Units of a coefficient per 1.
pub const COEFFICIENT_SCALE: i64 = 10_000_000;

/// The mg/dL to mmol/L conversion factor 0.02586, in coefficient units.
pub const CHOLESTEROL_MULTIPLIER: i64 = 258_600;

/// The outcome that an equation predicts.
#[derive(Clone, Copy, Debug, PartialEq, Eq, Structural)]
pub enum Family {
    /// Atherosclerotic cardiovascular disease.
    Ascvd,
    /// Total cardiovascular disease.
    Cvd,
}

/// The weights of one equation, listed in the order in which their terms are
/// summed, beside the unit-conversion factor of cholesterol, which weighs no
/// term of its own. A weight that an equation lacks is 0.
#[derive(Clone, Copy, Debug, PartialEq, Eq, Structural)]
pub struct Covariates {
    pub constant: i64,
    pub age_factor: i64,
    pub age_squared_factor: i64,
    pub cholesterol_base_multiplier: i64,
    pub total_cholesterol_diff_factor: i64,
    pub hdl_cholesterol_diff_factor: i64,
    pub systolic_bp_min_factor: i64,
    pub systolic_bp_max_factor: i64,
    pub diabetes_factor: i64,
    pub smoker_factor: i64,
    pub egfr_min_factor: i64,
    pub egfr_max_factor: i64,
    pub htn_meds_factor: i64,
    pub cholesterol_meds_factor: i64,
    pub htn_meds_systolic_bp_max_factor: i64,
    pub cholesterol_meds_cholesterol_diff_factor: i64,
    pub age_adjustment_cholesterol_diff_factor: i64,
    pub age_adjustment_hdl_cholesterol_diff_factor: i64,
    pub age_adjustment_systolic_bp_max_factor: i64,
    pub diabetes_age_factor: i64,
    pub smoker_age_factor: i64,
    pub age_min_egfr_factor: i64,
}

/// Women, ten-year ASCVD.
pub open spec fn female_10_yr_ascvd_set() -> Covariates {
    Covariates {
        constant: -38199750i64,
        age_factor: 7198830i64,
        age_squared_factor: 0i64,
        cholesterol_base_multiplier: 258600i64,
        total_cholesterol_diff_factor: 1176967i64,
        hdl_cholesterol_diff_factor: -1511850i64,
        systolic_bp_min_factor: -835358i64,
        systolic_bp_max_factor: 3592852i64,
        diabetes_factor: 8348585i64,
        smoker_factor: 4831078i64,
        egfr_min_factor: 4864619i64,
        egfr_max_factor: 397779i64,
        htn_meds_factor: 2265309i64,
        cholesterol_meds_factor: -592374i64,
        htn_meds_systolic_bp_max_factor: -395762i64,
        cholesterol_meds_cholesterol_diff_factor: 844423i64,
        age_adjustment_cholesterol_diff_factor: -567839i64,
        age_adjustment_hdl_cholesterol_diff_factor: 325692i64,
        age_adjustment_systolic_bp_max_factor: -1035985i64,
        diabetes_age_factor: -2417542i64,
        smoker_age_factor: -791142i64,
        age_min_egfr_factor: -1671492i64,
    }
}

/// Men, ten-year ASCVD.
pub open spec fn male_10_yr_ascvd_set() -> Covariates {
    Covariates {
        constant: -35006550i64,
        age_factor: 7099847i64,
        age_squared_factor: 0i64,
        cholesterol_base_multiplier: 258600i64,
        total_cholesterol_diff_factor: 1658663i64,
        hdl_cholesterol_diff_factor: -1144285i64,
        systolic_bp_min_factor: -2837212i64,
        systolic_bp_max_factor: 3239977i64,
        diabetes_factor: 7189597i64,
        smoker_factor: 3956973i64,
        egfr_min_factor: 3690075i64,
        egfr_max_factor: 203619i64,
        htn_meds_factor: 2036522i64,
        cholesterol_meds_factor: -865581i64,
        htn_meds_systolic_bp_max_factor: -322916i64,
        cholesterol_meds_cholesterol_diff_factor: 1145630i64,
        age_adjustment_cholesterol_diff_factor: -300005i64,
        age_adjustment_hdl_cholesterol_diff_factor: 232747i64,
        age_adjustment_systolic_bp_max_factor: -927024i64,
        diabetes_age_factor: -2018525i64,
        smoker_age_factor: -970527i64,
        age_min_egfr_factor: -1217081i64,
    }
}

/// Women, thirty-year ASCVD.
pub open spec fn female_30_yr_ascvd_set() -> Covariates {
    Covariates {
        constant: -19740740i64,
        age_factor: 4669202i64,
        age_squared_factor: -893118i64,
        cholesterol_base_multiplier: 258600i64,
        total_cholesterol_diff_factor: 1256901i64,
        hdl_cholesterol_diff_factor: -1542255i64,
        systolic_bp_min_factor: -18093i64,
        systolic_bp_max_factor: 3229490i64,
        diabetes_factor: 6296707i64,
        smoker_factor: 2682920i64,
        egfr_min_factor: 1001060i64,
        egfr_max_factor: 499663i64,
        htn_meds_factor: 1875292i64,
        cholesterol_meds_factor: 152476i64,
        htn_meds_systolic_bp_max_factor: -276123i64,
        cholesterol_meds_cholesterol_diff_factor: 736147i64,
        age_adjustment_cholesterol_diff_factor: -521962i64,
        age_adjustment_hdl_cholesterol_diff_factor: 316918i64,
        age_adjustment_systolic_bp_max_factor: -1046101i64,
        diabetes_age_factor: -2727793i64,
        smoker_age_factor: -1530907i64,
        age_min_egfr_factor: -1299149i64,
    }
}

/// Men, thirty-year ASCVD.
pub open spec fn male_30_yr_ascvd_set() -> Covariates {
    Covariates {
        constant: -17364440i64,
        age_factor: 3994099i64,
        age_squared_factor: -937484i64,
        cholesterol_base_multiplier: 258600i64,
        total_cholesterol_diff_factor: 1744643i64,
        hdl_cholesterol_diff_factor: -1202030i64,
        systolic_bp_min_factor: -665117i64,
        systolic_bp_max_factor: 2753037i64,
        diabetes_factor: 4790257i64,
        smoker_factor: 1782635i64,
        egfr_min_factor: -218789i64,
        egfr_max_factor: 602553i64,
        htn_meds_factor: 1421182i64,
        cholesterol_meds_factor: 135996i64,
        htn_meds_systolic_bp_max_factor: -218265i64,
        cholesterol_meds_cholesterol_diff_factor: 1013148i64,
        age_adjustment_cholesterol_diff_factor: -312619i64,
        age_adjustment_hdl_cholesterol_diff_factor: 206730i64,
        age_adjustment_systolic_bp_max_factor: -920935i64,
        diabetes_age_factor: -2159947i64,
        smoker_age_factor: -1548811i64,
        age_min_egfr_factor: -712547i64,
    }
}

/// Women, ten-year total CVD.
pub open spec fn female_10_yr_cvd_set() -> Covariates {
    Covariates {
        constant: -33077280i64,
        age_factor: 7939329i64,
        age_squared_factor: 0i64,
        cholesterol_base_multiplier: 258600i64,
        total_cholesterol_diff_factor: 305239i64,
        hdl_cholesterol_diff_factor: -1606857i64,
        systolic_bp_min_factor: -2394003i64,
        systolic_bp_max_factor: 3600780i64,
        diabetes_factor: 8667604i64,
        smoker_factor: 5360739i64,
        egfr_min_factor: 6045917i64,
        egfr_max_factor: 433769i64,
        htn_meds_factor: 3151672i64,
        cholesterol_meds_factor: -1477655i64,
        htn_meds_systolic_bp_max_factor: -663612i64,
        cholesterol_meds_cholesterol_diff_factor: 1197879i64,
        age_adjustment_cholesterol_diff_factor: -819715i64,
        age_adjustment_hdl_cholesterol_diff_factor: 306769i64,
        age_adjustment_systolic_bp_max_factor: -946348i64,
        diabetes_age_factor: -2705700i64,
        smoker_age_factor: -787150i64,
        age_min_egfr_factor: -1637806i64,
    }
}

/// Men, ten-year total CVD.
pub open spec fn male_10_yr_cvd_set() -> Covariates {
    Covariates {
        constant: -30311680i64,
        age_factor: 7688528i64,
        age_squared_factor: 0i64,
        cholesterol_base_multiplier: 258600i64,
        total_cholesterol_diff_factor: 736174i64,
        hdl_cholesterol_diff_factor: -954431i64,
        systolic_bp_min_factor: -4347345i64,
        systolic_bp_max_factor: 3362658i64,
        diabetes_factor: 7692857i64,
        smoker_factor: 4386871i64,
        egfr_min_factor: 5378979i64,
        egfr_max_factor: 164827i64,
        htn_meds_factor: 2888790i64,
        cholesterol_meds_factor: -1337349i64,
        htn_meds_systolic_bp_max_factor: -475924i64,
        cholesterol_meds_cholesterol_diff_factor: 1502730i64,
        age_adjustment_cholesterol_diff_factor: -517874i64,
        age_adjustment_hdl_cholesterol_diff_factor: 191169i64,
        age_adjustment_systolic_bp_max_factor: -1049477i64,
        diabetes_age_factor: -2251948i64,
        smoker_age_factor: -895067i64,
        age_min_egfr_factor: -1543702i64,
    }
}

/// Women, thirty-year total CVD.
pub open spec fn female_30_yr_cvd_set() -> Covariates {
    Covariates {
        constant: -13188270i64,
        age_factor: 5503079i64,
        age_squared_factor: -928369i64,
        cholesterol_base_multiplier: 258600i64,
        total_cholesterol_diff_factor: 409794i64,
        hdl_cholesterol_diff_factor: -1663306i64,
        systolic_bp_min_factor: -1628654i64,
        systolic_bp_max_factor: 3299505i64,
        diabetes_factor: 6793894i64,
        smoker_factor: 3196112i64,
        egfr_min_factor: 1857101i64,
        egfr_max_factor: 553528i64,
        htn_meds_factor: 2894000i64,
        cholesterol_meds_factor: -756880i64,
        htn_meds_systolic_bp_max_factor: -563670i64,
        cholesterol_meds_cholesterol_diff_factor: 1071019i64,
        age_adjustment_cholesterol_diff_factor: -751438i64,
        age_adjustment_hdl_cholesterol_diff_factor: 301786i64,
        age_adjustment_systolic_bp_max_factor: -998776i64,
        diabetes_age_factor: -3206166i64,
        smoker_age_factor: -1607862i64,
        age_min_egfr_factor: -1450788i64,
    }
}

/// Men, thirty-year total CVD.
pub open spec fn male_30_yr_cvd_set() -> Covariates {
    Covariates {
        constant: -11482040i64,
        age_factor: 4627309i64,
        age_squared_factor: -984281i64,
        cholesterol_base_multiplier: 258600i64,
        total_cholesterol_diff_factor: 836088i64,
        hdl_cholesterol_diff_factor: -1029824i64,
        systolic_bp_min_factor: -2140352i64,
        systolic_bp_max_factor: 2904325i64,
        diabetes_factor: 5331276i64,
        smoker_factor: 2141914i64,
        egfr_min_factor: 1155556i64,
        egfr_max_factor: 603775i64,
        htn_meds_factor: 2327140i64,
        cholesterol_meds_factor: -272112i64,
        htn_meds_systolic_bp_max_factor: -384488i64,
        cholesterol_meds_cholesterol_diff_factor: 1341920i64,
        age_adjustment_cholesterol_diff_factor: -511759i64,
        age_adjustment_hdl_cholesterol_diff_factor: 165865i64,
        age_adjustment_systolic_bp_max_factor: -1101437i64,
        diabetes_age_factor: -2585943i64,
        smoker_age_factor: -1566406i64,
        age_min_egfr_factor: -1166776i64,
    }
}

impl Covariates {
    /// Women, ten-year ASCVD.
    pub fn female_10_yr_ascvd() -> (r: Covariates)
        ensures
            r == female_10_yr_ascvd_set(),
    {
        Covariates {
            constant: -38199750,
            age_factor: 7198830,
            age_squared_factor: 0,
            cholesterol_base_multiplier: 258600,
            total_cholesterol_diff_factor: 1176967,
            hdl_cholesterol_diff_factor: -1511850,
            systolic_bp_min_factor: -835358,
            systolic_bp_max_factor: 3592852,
            diabetes_factor: 8348585,
            smoker_factor: 4831078,
            egfr_min_factor: 4864619,
            egfr_max_factor: 397779,
            htn_meds_factor: 2265309,
            cholesterol_meds_factor: -592374,
            htn_meds_systolic_bp_max_factor: -395762,
            cholesterol_meds_cholesterol_diff_factor: 844423,
            age_adjustment_cholesterol_diff_factor: -567839,
            age_adjustment_hdl_cholesterol_diff_factor: 325692,
            age_adjustment_systolic_bp_max_factor: -1035985,
            diabetes_age_factor: -2417542,
            smoker_age_factor: -791142,
            age_min_egfr_factor: -1671492,
        }
    }

    /// Men, ten-year ASCVD.
    pub fn male_10_yr_ascvd() -> (r: Covariates)
        ensures
            r == male_10_yr_ascvd_set(),
    {
        Covariates {
            constant: -35006550,
            age_factor: 7099847,
            age_squared_factor: 0,
            cholesterol_base_multiplier: 258600,
            total_cholesterol_diff_factor: 1658663,
            hdl_cholesterol_diff_factor: -1144285,
            systolic_bp_min_factor: -2837212,
            systolic_bp_max_factor: 3239977,
            diabetes_factor: 7189597,
            smoker_factor: 3956973,
            egfr_min_factor: 3690075,
            egfr_max_factor: 203619,
            htn_meds_factor: 2036522,
            cholesterol_meds_factor: -865581,
            htn_meds_systolic_bp_max_factor: -322916,
            cholesterol_meds_cholesterol_diff_factor: 1145630,
            age_adjustment_cholesterol_diff_factor: -300005,
            age_adjustment_hdl_cholesterol_diff_factor: 232747,
            age_adjustment_systolic_bp_max_factor: -927024,
            diabetes_age_factor: -2018525,
            smoker_age_factor: -970527,
            age_min_egfr_factor: -1217081,
        }
    }

    /// Women, thirty-year ASCVD.
    pub fn female_30_yr_ascvd() -> (r: Covariates)
        ensures
            r == female_30_yr_ascvd_set(),
    {
        Covariates {
            constant: -19740740,
            age_factor: 4669202,
            age_squared_factor: -893118,
            cholesterol_base_multiplier: 258600,
            total_cholesterol_diff_factor: 1256901,
            hdl_cholesterol_diff_factor: -1542255,
            systolic_bp_min_factor: -18093,
            systolic_bp_max_factor: 3229490,
            diabetes_factor: 6296707,
            smoker_factor: 2682920,
            egfr_min_factor: 1001060,
            egfr_max_factor: 499663,
            htn_meds_factor: 1875292,
            cholesterol_meds_factor: 152476,
            htn_meds_systolic_bp_max_factor: -276123,
            cholesterol_meds_cholesterol_diff_factor: 736147,
            age_adjustment_cholesterol_diff_factor: -521962,
            age_adjustment_hdl_cholesterol_diff_factor: 316918,
            age_adjustment_systolic_bp_max_factor: -1046101,
            diabetes_age_factor: -2727793,
            smoker_age_factor: -1530907,
            age_min_egfr_factor: -1299149,
        }
    }

    /// Men, thirty-year ASCVD.
    pub fn male_30_yr_ascvd() -> (r: Covariates)
        ensures
            r == male_30_yr_ascvd_set(),
    {
        Covariates {
            constant: -17364440,
            age_factor: 3994099,
            age_squared_factor: -937484,
            cholesterol_base_multiplier: 258600,
            total_cholesterol_diff_factor: 1744643,
            hdl_cholesterol_diff_factor: -1202030,
            systolic_bp_min_factor: -665117,
            systolic_bp_max_factor: 2753037,
            diabetes_factor: 4790257,
            smoker_factor: 1782635,
            egfr_min_factor: -218789,
            egfr_max_factor: 602553,
            htn_meds_factor: 1421182,
            cholesterol_meds_factor: 135996,
            htn_meds_systolic_bp_max_factor: -218265,
            cholesterol_meds_cholesterol_diff_factor: 1013148,
            age_adjustment_cholesterol_diff_factor: -312619,
            age_adjustment_hdl_cholesterol_diff_factor: 206730,
            age_adjustment_systolic_bp_max_factor: -920935,
            diabetes_age_factor: -2159947,
            smoker_age_factor: -1548811,
            age_min_egfr_factor: -712547,
        }
    }

    /// Women, ten-year total CVD.
    pub fn female_10_yr_cvd() -> (r: Covariates)
        ensures
            r == female_10_yr_cvd_set(),
    {
        Covariates {
            constant: -33077280,
            age_factor: 7939329,
            age_squared_factor: 0,
            cholesterol_base_multiplier: 258600,
            total_cholesterol_diff_factor: 305239,
            hdl_cholesterol_diff_factor: -1606857,
            systolic_bp_min_factor: -2394003,
            systolic_bp_max_factor: 3600780,
            diabetes_factor: 8667604,
            smoker_factor: 5360739,
            egfr_min_factor: 6045917,
            egfr_max_factor: 433769,
            htn_meds_factor: 3151672,
            cholesterol_meds_factor: -1477655,
            htn_meds_systolic_bp_max_factor: -663612,
            cholesterol_meds_cholesterol_diff_factor: 1197879,
            age_adjustment_cholesterol_diff_factor: -819715,
            age_adjustment_hdl_cholesterol_diff_factor: 306769,
            age_adjustment_systolic_bp_max_factor: -946348,
            diabetes_age_factor: -2705700,
            smoker_age_factor: -787150,
            age_min_egfr_factor: -1637806,
        }
    }

    /// Men, ten-year total CVD.
    pub fn male_10_yr_cvd() -> (r: Covariates)
        ensures
            r == male_10_yr_cvd_set(),
    {
        Covariates {
            constant: -30311680,
            age_factor: 7688528,
            age_squared_factor: 0,
            cholesterol_base_multiplier: 258600,
            total_cholesterol_diff_factor: 736174,
            hdl_cholesterol_diff_factor: -954431,
            systolic_bp_min_factor: -4347345,
            systolic_bp_max_factor: 3362658,
            diabetes_factor: 7692857,
            smoker_factor: 4386871,
            egfr_min_factor: 5378979,
            egfr_max_factor: 164827,
            htn_meds_factor: 2888790,
            cholesterol_meds_factor: -1337349,
            htn_meds_systolic_bp_max_factor: -475924,
            cholesterol_meds_cholesterol_diff_factor: 1502730,
            age_adjustment_cholesterol_diff_factor: -517874,
            age_adjustment_hdl_cholesterol_diff_factor: 191169,
            age_adjustment_systolic_bp_max_factor: -1049477,
            diabetes_age_factor: -2251948,
            smoker_age_factor: -895067,
            age_min_egfr_factor: -1543702,
        }
    }

    /// Women, thirty-year total CVD.
    pub fn female_30_yr_cvd() -> (r: Covariates)
        ensures
            r == female_30_yr_cvd_set(),
    {
        Covariates {
            constant: -13188270,
            age_factor: 5503079,
            age_squared_factor: -928369,
            cholesterol_base_multiplier: 258600,
            total_cholesterol_diff_factor: 409794,
            hdl_cholesterol_diff_factor: -1663306,
            systolic_bp_min_factor: -1628654,
            systolic_bp_max_factor: 3299505,
            diabetes_factor: 6793894,
            smoker_factor: 3196112,
            egfr_min_factor: 1857101,
            egfr_max_factor: 553528,
            htn_meds_factor: 2894000,
            cholesterol_meds_factor: -756880,
            htn_meds_systolic_bp_max_factor: -563670,
            cholesterol_meds_cholesterol_diff_factor: 1071019,
            age_adjustment_cholesterol_diff_factor: -751438,
            age_adjustment_hdl_cholesterol_diff_factor: 301786,
            age_adjustment_systolic_bp_max_factor: -998776,
            diabetes_age_factor: -3206166,
            smoker_age_factor: -1607862,
            age_min_egfr_factor: -1450788,
        }
    }

    /// Men, thirty-year total CVD.
    pub fn male_30_yr_cvd() -> (r: Covariates)
        ensures
            r == male_30_yr_cvd_set(),
    {
        Covariates {
            constant: -11482040,
            age_factor: 4627309,
            age_squared_factor: -984281,
            cholesterol_base_multiplier: 258600,
            total_cholesterol_diff_factor: 836088,
            hdl_cholesterol_diff_factor: -1029824,
            systolic_bp_min_factor: -2140352,
            systolic_bp_max_factor: 2904325,
            diabetes_factor: 5331276,
            smoker_factor: 2141914,
            egfr_min_factor: 1155556,
            egfr_max_factor: 603775,
            htn_meds_factor: 2327140,
            cholesterol_meds_factor: -272112,
            htn_meds_systolic_bp_max_factor: -384488,
            cholesterol_meds_cholesterol_diff_factor: 1341920,
            age_adjustment_cholesterol_diff_factor: -511759,
            age_adjustment_hdl_cholesterol_diff_factor: 165865,
            age_adjustment_systolic_bp_max_factor: -1101437,
            diabetes_age_factor: -2585943,
            smoker_age_factor: -1566406,
            age_min_egfr_factor: -1166776,
        }
    }
}

/// The coefficient set of the equation for `family`, `horizon` and `sex`.
pub open spec fn catalogue(family: Family, horizon: Horizon, sex: Sex) -> Covariates {
    match (family, horizon, sex) {
        (Family::Ascvd, Horizon::TenYear, Sex::Female) => female_10_yr_ascvd_set(),
        (Family::Ascvd, Horizon::TenYear, Sex::Male) => male_10_yr_ascvd_set(),
        (Family::Ascvd, Horizon::ThirtyYear, Sex::Female) => female_30_yr_ascvd_set(),
        (Family::Ascvd, Horizon::ThirtyYear, Sex::Male) => male_30_yr_ascvd_set(),
        (Family::Cvd, Horizon::TenYear, Sex::Female) => female_10_yr_cvd_set(),
        (Family::Cvd, Horizon::TenYear, Sex::Male) => male_10_yr_cvd_set(),
        (Family::Cvd, Horizon::ThirtyYear, Sex::Female) => female_30_yr_cvd_set(),
        (Family::Cvd, Horizon::ThirtyYear, Sex::Male) => male_30_yr_cvd_set(),
    }
}

/// Looks up the coefficient set of an equation. Every set converts
/// cholesterol with the same factor, and only thirty-year sets weigh the
/// squared age.
pub fn lookup(family: Family, horizon: Horizon, sex: Sex) -> (r: Covariates)
    ensures
        r == catalogue(family, horizon, sex),
        r.cholesterol_base_multiplier == CHOLESTEROL_MULTIPLIER,
        horizon == Horizon::TenYear ==> r.age_squared_factor == 0,
{
    match (family, horizon, sex) {
        (Family::Ascvd, Horizon::TenYear, Sex::Female) => Covariates::female_10_yr_ascvd(),
        (Family::Ascvd, Horizon::TenYear, Sex::Male) => Covariates::male_10_yr_ascvd(),
        (Family::Ascvd, Horizon::ThirtyYear, Sex::Female) => Covariates::female_30_yr_ascvd(),
        (Family::Ascvd, Horizon::ThirtyYear, Sex::Male) => Covariates::male_30_yr_ascvd(),
        (Family::Cvd, Horizon::TenYear, Sex::Female) => Covariates::female_10_yr_cvd(),
        (Family::Cvd, Horizon::TenYear, Sex::Male) => Covariates::male_10_yr_cvd(),
        (Family::Cvd, Horizon::ThirtyYear, Sex::Female) => Covariates::female_30_yr_cvd(),
        (Family::Cvd, Horizon::ThirtyYear, Sex::Male) => Covariates::male_30_yr_cvd(),
    }
}

} // verus!
