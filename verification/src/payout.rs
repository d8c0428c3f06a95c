//! When a policy is triggered and how much it pays.

use crate::error::AmocaError;
use crate::state::{ClimatePolicy, PayoutFormula};
use vstd::prelude::*;

verus! {

/// The risk score above which a policy is triggered.
pub const TRIGGER_RISK_SCORE: u8 = 80;

/// Whether a risk score triggers a policy.
pub open spec fn trigger_met(risk_score: u8) -> bool {
    risk_score > TRIGGER_RISK_SCORE
}

/// The share of the coverage, in percent, that the linear formula pays: the
/// risk score itself, at most 100, and nothing unless the score triggers.
pub open spec fn payout_percentage(risk_score: u8) -> nat {
    if !trigger_met(risk_score) {
        0
    } else if risk_score < 100 {
        risk_score as nat
    } else {
        100
    }
}

/// What a policy pays under a formula.
///
/// Linear: the percentage of the coverage, rounded down. Step: all of the
/// coverage above a score of 90, half of it (rounded down) above 70, nothing
/// otherwise. The other formulas pay nothing.
pub open spec fn payout_amount(formula: PayoutFormula, coverage: nat, risk_score: u8) -> nat {
    match formula {
        PayoutFormula::LinearScale => coverage * payout_percentage(risk_score) / 100,
        PayoutFormula::StepFunction => if risk_score > 90 {
            coverage
        } else if risk_score > 70 {
            coverage / 2
        } else {
            0
        },
        PayoutFormula::Exponential | PayoutFormula::Composite => 0,
    }
}

impl ClimatePolicy {
    /// What the policy pays at its present risk score.
    pub open spec fn payout(&self) -> nat {
        payout_amount(self.payout_calculation, self.coverage_amount as nat, self.risk_score)
    }

    /// Whether the payout can be computed in 64 bits: under the linear
    /// formula the coverage times the percentage must not exceed `u64::MAX`.
    pub open spec fn spec_payout_in_range(&self) -> bool {
        self.payout_calculation == PayoutFormula::LinearScale ==> self.coverage_amount
            * payout_percentage(self.risk_score) <= u64::MAX
    }

    /// Whether the payout can be computed in 64 bits.
    #[verifier::when_used_as_spec(spec_payout_in_range)]
    pub fn payout_in_range(&self) -> (r: bool)
        ensures
            r == self.spec_payout_in_range(),
    {
        match self.payout_calculation {
            PayoutFormula::LinearScale => {
                if self.risk_score > TRIGGER_RISK_SCORE {
                    let percentage: u64 = if self.risk_score < 100 {
                        self.risk_score as u64
                    } else {
                        100
                    };
                    let limit: u64 = u64::MAX / percentage;
                    assert(self.coverage_amount <= limit <==> self.coverage_amount * percentage
                        <= u64::MAX) by (nonlinear_arith)
                        requires
                            percentage > 0,
                            limit == u64::MAX / percentage,
                    ;
                    self.coverage_amount <= limit
                } else {
                    assert(self.coverage_amount * 0 == 0);
                    true
                }
            },
            _ => true,
        }
    }
}

/// Whether the trigger conditions of a policy are met: its risk score is
/// above 80.
pub fn evaluate_trigger_conditions(policy: &ClimatePolicy) -> (r: Result<bool, AmocaError>)
    ensures
        r == Ok::<bool, AmocaError>(trigger_met(policy.risk_score)),
{
    Ok(policy.risk_score > TRIGGER_RISK_SCORE)
}

/// The amount that a policy pays at its present risk score.
pub fn calculate_payout_amount(policy: &ClimatePolicy) -> (r: Result<u64, AmocaError>)
    requires
        policy.payout_in_range(),
    ensures
        r == Ok::<u64, AmocaError>(policy.payout() as u64),
        policy.payout() <= policy.coverage_amount,
{
    proof {
        lemma_payout_at_most_coverage(
            policy.payout_calculation,
            policy.coverage_amount as nat,
            policy.risk_score,
        );
    }
    match policy.payout_calculation {
        PayoutFormula::LinearScale => {
            let payout_percentage: u64 = if policy.risk_score > TRIGGER_RISK_SCORE {
                if policy.risk_score < 100 {
                    policy.risk_score as u64
                } else {
                    100
                }
            } else {
                0
            };
            assert(policy.coverage_amount * 0 == 0);
            Ok((policy.coverage_amount * payout_percentage) / 100)
        },
        PayoutFormula::StepFunction => {
            if policy.risk_score > 90 {
                Ok(policy.coverage_amount)
            } else if policy.risk_score > 70 {
                Ok(policy.coverage_amount / 2)
            } else {
                Ok(0)
            }
        },
        _ => Ok(0),
    }
}

/// No formula pays more than the coverage.
pub proof fn lemma_payout_at_most_coverage(formula: PayoutFormula, coverage: nat, risk_score: u8)
    ensures
        payout_amount(formula, coverage, risk_score) <= coverage,
{
    let percentage = payout_percentage(risk_score);
    assert(coverage * percentage / 100 <= coverage) by (nonlinear_arith)
        requires
            percentage <= 100,
    ;
}

/// A higher risk score never pays less.
pub proof fn lemma_payout_grows_with_risk(
    formula: PayoutFormula,
    coverage: nat,
    lower: u8,
    higher: u8,
)
    requires
        lower <= higher,
    ensures
        payout_amount(formula, coverage, lower) <= payout_amount(formula, coverage, higher),
{
    let p = payout_percentage(lower);
    let q = payout_percentage(higher);
    assert(coverage * p / 100 <= coverage * q / 100) by (nonlinear_arith)
        requires
            p <= q,
    ;
}

/// Under the linear formula a policy that is not triggered pays nothing.
pub proof fn lemma_linear_pays_only_when_triggered(coverage: nat, risk_score: u8)
    requires
        !trigger_met(risk_score),
    ensures
        payout_amount(PayoutFormula::LinearScale, coverage, risk_score) == 0,
{
    assert(coverage * 0 == 0);
}

} // verus!
