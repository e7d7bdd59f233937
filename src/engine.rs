//! The linear predictor of a risk equation, as the ordered list of its
//! weighted terms.
//!
//! Every equation sums the same terms in the same order; only the weights
//! differ. A term that belongs to a risk factor (diabetes, smoking, and the
//! two treatments) enters the sum only when that factor is present, and
//! otherwise contributes nothing at all. The caller sums `weight * value` of
//! each listed term in list order, then applies the logistic transform.
use crate::coefficients::Covariates;
use vstd::prelude::*;

verus! {

/// A transformed predictor. With `age_c = (age - 55) / 10`,
/// `chol = 0.02586 * (total - hdl) - 3.5`,
/// `hdl = (0.02586 * hdl - 1.3) / 0.3`,
/// `sbp_low = (min(sbp, 110) - 110) / 20`, `sbp_high = (max(sbp, 110) - 130) / 20`,
/// `egfr_low = (min(egfr, 60) - 60) / -15`, `egfr_high = (max(egfr, 60) - 90) / -15`.
#[derive(Clone, Copy, Debug, PartialEq, Eq, Structural)]
pub enum Term {
    /// The number one: the constant, and a risk factor's own weight.
    One,
    CenteredAge,
    CenteredAgeSquared,
    CholesterolDiff,
    Hdl,
    SystolicBpLow,
    SystolicBpHigh,
    EgfrLow,
    EgfrHigh,
    AgeTimesCholesterolDiff,
    AgeTimesHdl,
    AgeTimesSystolicBpHigh,
    AgeTimesEgfrLow,
}

/// What the presence of a term in the sum depends on.
#[derive(Clone, Copy, Debug, PartialEq, Eq, Structural)]
pub enum Gate {
    Always,
    Diabetes,
    Smoker,
    HtnMeds,
    CholesterolMeds,
}

/// One summand: a weight, in coefficient units, times a predictor.
#[derive(Clone, Copy, Debug, PartialEq, Eq, Structural)]
pub struct WeightedTerm {
    pub weight: i64,
    pub term: Term,
}

/// A summand of the full schedule, with the factor that gates it.
#[derive(Clone, Copy, Debug, PartialEq, Eq, Structural)]
pub struct ScheduledTerm {
    pub gate: Gate,
    pub summand: WeightedTerm,
}

/// The four boolean risk factors of a patient.
#[derive(Clone, Copy, Debug, PartialEq, Eq, Structural)]
pub struct Indicators {
    pub has_diabetes: bool,
    pub current_smoker: bool,
    pub on_htn_meds: bool,
    pub on_cholesterol_meds: bool,
}

/// Whether the patient's indicators admit a term with this gate.
pub open spec fn admits(ind: Indicators, gate: Gate) -> bool {
    match gate {
        Gate::Always => true,
        Gate::Diabetes => ind.has_diabetes,
        Gate::Smoker => ind.current_smoker,
        Gate::HtnMeds => ind.on_htn_meds,
        Gate::CholesterolMeds => ind.on_cholesterol_meds,
    }
}

/// The same indicators with the factor behind `gate` set to `present`.
pub open spec fn with_factor(ind: Indicators, gate: Gate, present: bool) -> Indicators {
    match gate {
        Gate::Always => ind,
        Gate::Diabetes => Indicators { has_diabetes: present, ..ind },
        Gate::Smoker => Indicators { current_smoker: present, ..ind },
        Gate::HtnMeds => Indicators { on_htn_meds: present, ..ind },
        Gate::CholesterolMeds => Indicators { on_cholesterol_meds: present, ..ind },
    }
}

pub open spec fn scheduled(gate: Gate, weight: i64, term: Term) -> ScheduledTerm {
    ScheduledTerm { gate, summand: WeightedTerm { weight, term } }
}

/// Every summand of an equation, gated, in the canonical summation order.
pub open spec fn schedule_of(c: Covariates) -> Seq<ScheduledTerm> {
    seq![
        scheduled(Gate::Always, c.constant, Term::One),
        scheduled(Gate::Always, c.age_factor, Term::CenteredAge),
        scheduled(Gate::Always, c.age_squared_factor, Term::CenteredAgeSquared),
        scheduled(Gate::Always, c.total_cholesterol_diff_factor, Term::CholesterolDiff),
        scheduled(Gate::Always, c.hdl_cholesterol_diff_factor, Term::Hdl),
        scheduled(Gate::Always, c.systolic_bp_min_factor, Term::SystolicBpLow),
        scheduled(Gate::Always, c.systolic_bp_max_factor, Term::SystolicBpHigh),
        scheduled(Gate::Diabetes, c.diabetes_factor, Term::One),
        scheduled(Gate::Smoker, c.smoker_factor, Term::One),
        scheduled(Gate::Always, c.egfr_min_factor, Term::EgfrLow),
        scheduled(Gate::Always, c.egfr_max_factor, Term::EgfrHigh),
        scheduled(Gate::HtnMeds, c.htn_meds_factor, Term::One),
        scheduled(Gate::CholesterolMeds, c.cholesterol_meds_factor, Term::One),
        scheduled(Gate::HtnMeds, c.htn_meds_systolic_bp_max_factor, Term::SystolicBpHigh),
        scheduled(
            Gate::CholesterolMeds,
            c.cholesterol_meds_cholesterol_diff_factor,
            Term::CholesterolDiff,
        ),
        scheduled(
            Gate::Always,
            c.age_adjustment_cholesterol_diff_factor,
            Term::AgeTimesCholesterolDiff,
        ),
        scheduled(Gate::Always, c.age_adjustment_hdl_cholesterol_diff_factor, Term::AgeTimesHdl),
        scheduled(
            Gate::Always,
            c.age_adjustment_systolic_bp_max_factor,
            Term::AgeTimesSystolicBpHigh,
        ),
        scheduled(Gate::Diabetes, c.diabetes_age_factor, Term::CenteredAge),
        scheduled(Gate::Smoker, c.smoker_age_factor, Term::CenteredAge),
        scheduled(Gate::Always, c.age_min_egfr_factor, Term::AgeTimesEgfrLow),
    ]
}

/// The summands of `s` that the indicators admit, in order.
pub open spec fn admitted(s: Seq<ScheduledTerm>, ind: Indicators) -> Seq<WeightedTerm>
    decreases s.len(),
{
    if s.len() == 0 {
        Seq::empty()
    } else {
        let rest = admitted(s.drop_last(), ind);
        if admits(ind, s.last().gate) {
            rest.push(s.last().summand)
        } else {
            rest
        }
    }
}

/// The summands of the linear predictor of the equation with coefficients `c`.
pub open spec fn terms_of(c: Covariates, ind: Indicators) -> Seq<WeightedTerm> {
    admitted(schedule_of(c), ind)
}

/// One entry of a schedule.
fn entry(gate: Gate, weight: i64, term: Term) -> (r: ScheduledTerm)
    ensures
        r == scheduled(gate, weight, term),
{
    ScheduledTerm { gate, summand: WeightedTerm { weight, term } }
}

/// Builds the full gated schedule of an equation.
pub fn schedule(c: &Covariates) -> (r: Vec<ScheduledTerm>)
    ensures
        r@ == schedule_of(*c),
{
    let r = vec![
        entry(Gate::Always, c.constant, Term::One),
        entry(Gate::Always, c.age_factor, Term::CenteredAge),
        entry(Gate::Always, c.age_squared_factor, Term::CenteredAgeSquared),
        entry(Gate::Always, c.total_cholesterol_diff_factor, Term::CholesterolDiff),
        entry(Gate::Always, c.hdl_cholesterol_diff_factor, Term::Hdl),
        entry(Gate::Always, c.systolic_bp_min_factor, Term::SystolicBpLow),
        entry(Gate::Always, c.systolic_bp_max_factor, Term::SystolicBpHigh),
        entry(Gate::Diabetes, c.diabetes_factor, Term::One),
        entry(Gate::Smoker, c.smoker_factor, Term::One),
        entry(Gate::Always, c.egfr_min_factor, Term::EgfrLow),
        entry(Gate::Always, c.egfr_max_factor, Term::EgfrHigh),
        entry(Gate::HtnMeds, c.htn_meds_factor, Term::One),
        entry(Gate::CholesterolMeds, c.cholesterol_meds_factor, Term::One),
        entry(Gate::HtnMeds, c.htn_meds_systolic_bp_max_factor, Term::SystolicBpHigh),
        entry(
            Gate::CholesterolMeds,
            c.cholesterol_meds_cholesterol_diff_factor,
            Term::CholesterolDiff,
        ),
        entry(
            Gate::Always,
            c.age_adjustment_cholesterol_diff_factor,
            Term::AgeTimesCholesterolDiff,
        ),
        entry(Gate::Always, c.age_adjustment_hdl_cholesterol_diff_factor, Term::AgeTimesHdl),
        entry(Gate::Always, c.age_adjustment_systolic_bp_max_factor, Term::AgeTimesSystolicBpHigh),
        entry(Gate::Diabetes, c.diabetes_age_factor, Term::CenteredAge),
        entry(Gate::Smoker, c.smoker_age_factor, Term::CenteredAge),
        entry(Gate::Always, c.age_min_egfr_factor, Term::AgeTimesEgfrLow),
    ];
    assert(r@ =~= schedule_of(*c));
    r
}

/// Whether the indicators admit a term with this gate.
pub fn is_admitted(ind: Indicators, gate: Gate) -> (r: bool)
    ensures
        r == admits(ind, gate),
{
    match gate {
        Gate::Always => true,
        Gate::Diabetes => ind.has_diabetes,
        Gate::Smoker => ind.current_smoker,
        Gate::HtnMeds => ind.on_htn_meds,
        Gate::CholesterolMeds => ind.on_cholesterol_meds,
    }
}

/// The summands of the linear predictor of the equation with coefficients
/// `c`, for a patient with the given risk factors: the schedule's summands
/// whose factor is present, in schedule order.
pub fn linear_terms(c: &Covariates, ind: Indicators) -> (r: Vec<WeightedTerm>)
    ensures
        r@ == terms_of(*c, ind),
{
    let all = schedule(c);
    let mut r: Vec<WeightedTerm> = Vec::new();
    let mut i: usize = 0;
    while i < all.len()
        invariant
            i <= all@.len(),
            all@ == schedule_of(*c),
            r@ == admitted(all@.take(i as int), ind),
        decreases all@.len() - i,
    {
        proof {
            assert(all@.take(i + 1).drop_last() =~= all@.take(i as int));
        }
        let entry = all[i];
        if is_admitted(ind, entry.gate) {
            r.push(entry.summand);
        }
        i = i + 1;
    }
    assert(all@.take(all@.len() as int) =~= all@);
    r
}

/// The exact sum of `weight * value(term)` over the summands, for a valuation
/// of the predictors. Exact values of finitely many predictors share a common
/// denominator, so integer valuations stand for all of them.
pub open spec fn weighted_sum(ts: Seq<WeightedTerm>, value: spec_fn(Term) -> int) -> int
    decreases ts.len(),
{
    if ts.len() == 0 {
        0
    } else {
        weighted_sum(ts.drop_last(), value) + ts.last().weight * value(ts.last().term)
    }
}

/// The summands of `s` that `gate` gates, in order.
pub open spec fn gated_by(s: Seq<ScheduledTerm>, gate: Gate) -> Seq<WeightedTerm>
    decreases s.len(),
{
    if s.len() == 0 {
        Seq::empty()
    } else {
        let rest = gated_by(s.drop_last(), gate);
        if s.last().gate == gate {
            rest.push(s.last().summand)
        } else {
            rest
        }
    }
}

proof fn lemma_factor_split(
    s: Seq<ScheduledTerm>,
    ind: Indicators,
    gate: Gate,
    value: spec_fn(Term) -> int,
)
    requires
        gate != Gate::Always,
    ensures
        weighted_sum(admitted(s, with_factor(ind, gate, true)), value) == weighted_sum(
            admitted(s, with_factor(ind, gate, false)),
            value,
        ) + weighted_sum(gated_by(s, gate), value),
    decreases s.len(),
{
    if s.len() > 0 {
        lemma_factor_split(s.drop_last(), ind, gate, value);
        let on = admitted(s.drop_last(), with_factor(ind, gate, true));
        let off = admitted(s.drop_last(), with_factor(ind, gate, false));
        let g = gated_by(s.drop_last(), gate);
        let e = s.last().summand;
        assert(on.push(e).drop_last() =~= on);
        assert(off.push(e).drop_last() =~= off);
        assert(g.push(e).drop_last() =~= g);
    }
}

proof fn lemma_nonnegative_sum(ts: Seq<WeightedTerm>, value: spec_fn(Term) -> int)
    requires
        forall|i: int| 0 <= i < ts.len() ==> #[trigger] ts[i].weight * value(ts[i].term) >= 0,
    ensures
        weighted_sum(ts, value) >= 0,
    decreases ts.len(),
{
    if ts.len() > 0 {
        let rest = ts.drop_last();
        assert forall|i: int| 0 <= i < rest.len() implies #[trigger] rest[i].weight * value(
            rest[i].term,
        ) >= 0 by {
            assert(rest[i] == ts[i]);
        }
        lemma_nonnegative_sum(rest, value);
        assert(ts[ts.len() - 1] == ts.last());
    }
}

/// A risk factor that is absent contributes exactly nothing: the linear
/// predictor with the factor present is the predictor without it plus the
/// summands that the factor gates. Hence, where each of those summands is
/// non-negative, removing the factor never raises the predictor.
pub proof fn lemma_absent_factor_contributes_nothing(
    c: Covariates,
    ind: Indicators,
    gate: Gate,
    value: spec_fn(Term) -> int,
)
    requires
        gate != Gate::Always,
    ensures
        weighted_sum(terms_of(c, with_factor(ind, gate, true)), value) == weighted_sum(
            terms_of(c, with_factor(ind, gate, false)),
            value,
        ) + weighted_sum(gated_by(schedule_of(c), gate), value),
        (forall|i: int|
            0 <= i < gated_by(schedule_of(c), gate).len() ==> #[trigger] gated_by(
                schedule_of(c),
                gate,
            )[i].weight * value(gated_by(schedule_of(c), gate)[i].term) >= 0) ==> weighted_sum(
            terms_of(c, with_factor(ind, gate, false)),
            value,
        ) <= weighted_sum(terms_of(c, with_factor(ind, gate, true)), value),
{
    lemma_factor_split(schedule_of(c), ind, gate, value);
    let g = gated_by(schedule_of(c), gate);
    if forall|i: int| 0 <= i < g.len() ==> #[trigger] g[i].weight * value(g[i].term) >= 0 {
        lemma_nonnegative_sum(g, value);
    }
}

/// Every equation has the same pipeline: schedules of any two coefficient
/// sets list the same predictors under the same gates in the same order, and
/// differ only in their weights.
pub proof fn lemma_schedules_differ_only_in_weights(c1: Covariates, c2: Covariates)
    ensures
        schedule_of(c1).len() == schedule_of(c2).len(),
        forall|k: int|
            0 <= k < schedule_of(c1).len() ==> (#[trigger] schedule_of(c1)[k]).gate == schedule_of(
                c2,
            )[k].gate && schedule_of(c1)[k].summand.term == schedule_of(c2)[k].summand.term,
{
}

} // verus!
