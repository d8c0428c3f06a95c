//! What holds of policies across the instructions.

use crate::accounts::{
    CreateClimatePolicy,
    DepositPremium,
    EvaluateClimateTrigger,
    ExecuteClimatePayout,
    SubmitClimateData,
};
use crate::error::AmocaError;
use crate::instructions::new_policy;
use crate::payout::{lemma_payout_at_most_coverage, payout_amount, trigger_met};
use crate::pubkey::Pubkey;
use crate::state::{ClimateDataPoint, ClimatePolicyView, PolicyParamsView, PolicyStatus};
use vstd::prelude::*;

verus! {

/// What holds of every policy that the program has created, whatever has
/// been done with it since: it covers and costs something, it ends after it
/// starts, it was last updated no later than it ends, and its centre is a
/// point on the globe.
pub open spec fn well_formed(policy: ClimatePolicyView) -> bool {
    &&& policy.coverage_amount > 0
    &&& policy.premium_amount > 0
    &&& policy.start_timestamp < policy.end_timestamp
    &&& policy.last_data_update <= policy.end_timestamp
    &&& policy.geographic_bounds.is_on_globe()
}

/// A policy is well formed when it is created.
pub proof fn lemma_new_policy_is_well_formed(
    create: CreateClimatePolicy,
    params: PolicyParamsView,
    now: i64,
)
    requires
        create.rejection(params, now) is None,
    ensures
        well_formed(new_policy(create.owner, create.policy_bump, params, now)),
{
}

/// A well-formed policy stays well formed when a premium is taken on it,
/// when its trigger is evaluated, and when it is paid out.
pub proof fn lemma_policies_stay_well_formed(
    deposit: DepositPremium,
    evaluate: EvaluateClimateTrigger,
    payout: ExecuteClimatePayout,
    amount: u64,
    now: i64,
)
    ensures
        well_formed(deposit.policy@) && deposit.rejection(amount) is None ==> well_formed(
            deposit.after(amount).policy@,
        ),
        well_formed(evaluate.policy@) && evaluate.rejection(now) is None ==> well_formed(
            evaluate.after(now).policy@,
        ),
        well_formed(payout.policy@) ==> well_formed(payout.after(amount).policy@),
{
}

/// While the program is paused no policy is created, no premium is taken, no
/// data is accepted, no trigger is evaluated and no payout is made. The
/// rejection says that the program is paused, unless the signer is not
/// entitled in the first place.
pub proof fn lemma_pause_stops_the_program(
    create: CreateClimatePolicy,
    params: PolicyParamsView,
    deposit: DepositPremium,
    amount: u64,
    submit: SubmitClimateData,
    points: Seq<ClimateDataPoint>,
    evaluate: EvaluateClimateTrigger,
    payout: ExecuteClimatePayout,
    now: i64,
)
    requires
        create.global_state.is_paused,
        deposit.global_state.is_paused,
        submit.global_state.is_paused,
        evaluate.global_state.is_paused,
        payout.global_state.is_paused,
    ensures
        create.rejection(params, now) == Some(AmocaError::ProgramPaused),
        deposit.rejection(amount) == Some(AmocaError::ProgramPaused) || deposit.rejection(amount)
            == Some(AmocaError::Unauthorized),
        submit.rejection(points, now) == Some(AmocaError::ProgramPaused) || submit.rejection(
            points,
            now,
        ) == Some(AmocaError::Unauthorized),
        evaluate.rejection(now) == Some(AmocaError::ProgramPaused),
        payout.rejection(amount) == Some(AmocaError::ProgramPaused),
{
}

/// A policy moves forward only: a premium is taken on an inactive policy, a
/// trigger is evaluated on an active or monitored one, and a payout is made
/// on a triggered one.
pub proof fn lemma_status_guards(
    deposit: DepositPremium,
    evaluate: EvaluateClimateTrigger,
    payout: ExecuteClimatePayout,
    amount: u64,
    now: i64,
)
    ensures
        deposit.rejection(amount) is None ==> deposit.policy.status == PolicyStatus::Inactive,
        evaluate.rejection(now) is None ==> {
            &&& evaluate.policy.status == PolicyStatus::Active || evaluate.policy.status
                == PolicyStatus::Monitoring
            &&& evaluate.after(now).policy.status == PolicyStatus::Triggered
                || evaluate.after(now).policy.status == PolicyStatus::Monitoring
            &&& evaluate.after(now).policy.status == PolicyStatus::Triggered <==> trigger_met(
                evaluate.policy.risk_score,
            )
        },
        payout.rejection(amount) is None ==> payout.policy.status == PolicyStatus::Triggered,
{
}

/// A policy that is claimed or expired stays as it is: no premium is taken
/// on it, its trigger is not evaluated, and nothing is paid out on it.
pub proof fn lemma_closed_policy_stays_closed(
    deposit: DepositPremium,
    evaluate: EvaluateClimateTrigger,
    payout: ExecuteClimatePayout,
    amount: u64,
    now: i64,
)
    requires
        deposit.policy.status == PolicyStatus::Claimed || deposit.policy.status
            == PolicyStatus::Expired,
        evaluate.policy.status == PolicyStatus::Claimed || evaluate.policy.status
            == PolicyStatus::Expired,
        payout.policy.status == PolicyStatus::Claimed || payout.policy.status
            == PolicyStatus::Expired,
    ensures
        deposit.rejection(amount) is Some,
        evaluate.rejection(now) is Some,
        payout.rejection(amount) is Some,
{
}

/// What is paid out is above zero, at most what the formula gives, and at
/// most the coverage.
pub proof fn lemma_paid_amount_is_bounded(payout: ExecuteClimatePayout, amount: u64)
    requires
        payout.rejection(amount) is None,
    ensures
        0 < amount <= payout.policy.payout() <= payout.policy.coverage_amount,
{
    lemma_payout_at_most_coverage(
        payout.policy.payout_calculation,
        payout.policy.coverage_amount as nat,
        payout.policy.risk_score,
    );
}

/// A policy as it is created is not triggered and pays nothing: its risk
/// score is 50, and the linear formula pays only above 80.
pub proof fn lemma_new_policy_pays_nothing(
    owner: Pubkey,
    bump: u8,
    params: PolicyParamsView,
    now: i64,
)
    ensures
        !trigger_met(new_policy(owner, bump, params, now).risk_score),
        payout_amount(
            new_policy(owner, bump, params, now).payout_calculation,
            new_policy(owner, bump, params, now).coverage_amount as nat,
            new_policy(owner, bump, params, now).risk_score,
        ) == 0,
        new_policy(owner, bump, params, now).status == PolicyStatus::Inactive,
{
    assert(params.coverage_amount * 0 == 0);
}

} // verus!
