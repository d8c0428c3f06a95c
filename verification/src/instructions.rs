//! The instructions of the program: what each one checks and what it changes.
//!
//! An instruction that is rejected changes nothing.

use crate::accounts::{
    check,
    AdminAction,
    CreateClimatePolicy,
    DepositPremium,
    EvaluateClimateTrigger,
    ExecuteClimatePayout,
    Initialize,
    SubmitClimateData,
    TokenTransfer,
    TokenTransferView,
};
use crate::error::AmocaError;
use crate::oracle::{
    ages_in_range,
    average_confidence,
    blended_reputation,
    confidence_sum,
    lemma_confidence_sum_front,
    points_rejection,
    MAX_DATA_AGE,
    MAX_DATA_POINTS,
    MAX_REPUTATION,
    MIN_CONFIDENCE,
};
use crate::payout::{
    calculate_payout_amount,
    evaluate_trigger_conditions,
    lemma_payout_at_most_coverage,
    trigger_met,
};
use crate::pubkey::Pubkey;
use crate::state::{
    ClimateDataPoint,
    ClimatePolicy,
    ClimatePolicyView,
    GlobalState,
    OracleData,
    PayoutFormula,
    PolicyParams,
    PolicyParamsView,
    PolicyStatus,
};
use vstd::prelude::*;

verus! {

/// The monitoring frequency of a new policy, in seconds: one hour.
pub const DEFAULT_MONITORING_FREQUENCY: u32 = 3600;

/// The risk score of a new policy: medium risk.
pub const DEFAULT_RISK_SCORE: u8 = 50;

/// The state account as `initialize` leaves it: nothing counted, not paused.
pub open spec fn initial_global_state(authority: Pubkey, bump: u8) -> GlobalState {
    GlobalState {
        bump,
        authority,
        total_policies: 0,
        total_premiums_collected: 0,
        total_payouts: 0,
        is_paused: false,
    }
}

/// Sets up the state account of the program. The signer becomes the
/// authority.
pub fn initialize(ctx: &mut Initialize) -> (r: Result<(), AmocaError>)
    ensures
        r is Ok,
        *final(ctx) == (Initialize {
            global_state: initial_global_state(old(ctx).authority, old(ctx).global_state_bump),
            ..*old(ctx)
        }),
{
    ctx.global_state.bump = ctx.global_state_bump;
    ctx.global_state.total_policies = 0;
    ctx.global_state.total_premiums_collected = 0;
    ctx.global_state.total_payouts = 0;
    ctx.global_state.is_paused = false;
    ctx.global_state.authority = ctx.authority;
    Ok(())
}

/// The policy that `create_climate_policy` writes: inactive, with a risk
/// score of 50, the linear formula, hourly monitoring, and starting now.
pub open spec fn new_policy(
    owner: Pubkey,
    bump: u8,
    params: PolicyParamsView,
    now: i64,
) -> ClimatePolicyView {
    ClimatePolicyView {
        bump,
        owner,
        status: PolicyStatus::Inactive,
        policy_type: params.policy_type,
        geographic_bounds: params.geographic_bounds,
        trigger_thresholds: params.trigger_conditions,
        oracle_sources: params.oracle_sources,
        monitoring_frequency: DEFAULT_MONITORING_FREQUENCY,
        last_data_update: now,
        risk_score: DEFAULT_RISK_SCORE,
        payout_calculation: PayoutFormula::LinearScale,
        coverage_amount: params.coverage_amount,
        premium_amount: params.premium_amount,
        start_timestamp: now,
        end_timestamp: params.end_timestamp,
    }
}

impl CreateClimatePolicy {
    /// Why a policy with these parameters is not created at time `now`, if
    /// it is not. The conditions are tried in this order: the conditions on
    /// the accounts; a coverage above zero; an end after `now`; a premium
    /// above zero; a centre on the globe; room for one more policy in the
    /// count.
    pub open spec fn rejection(&self, params: PolicyParamsView, now: i64) -> Option<AmocaError> {
        if self.violation() is Some {
            self.violation()
        } else if params.coverage_amount == 0 {
            Some(AmocaError::InvalidCoverageAmount)
        } else if params.end_timestamp <= now {
            Some(AmocaError::InvalidPolicyDuration)
        } else if params.premium_amount == 0 {
            Some(AmocaError::InvalidPremiumAmount)
        } else if !params.geographic_bounds.is_on_globe() {
            Some(AmocaError::InvalidGeographicBounds)
        } else if self.global_state.total_policies == u64::MAX {
            Some(AmocaError::MathOverflow)
        } else {
            None
        }
    }
}

/// Creates a policy from `params` at time `current_time` and counts it.
pub fn create_climate_policy(
    ctx: &mut CreateClimatePolicy,
    params: PolicyParams,
    current_time: i64,
) -> (r: Result<(), AmocaError>)
    ensures
        match old(ctx).rejection(params@, current_time) {
            Some(e) => r == Err::<(), AmocaError>(e) && *final(ctx) == *old(ctx),
            None => {
                &&& r is Ok
                &&& final(ctx).policy@ == new_policy(
                    old(ctx).owner,
                    old(ctx).policy_bump,
                    params@,
                    current_time,
                )
                &&& final(ctx).global_state == (GlobalState {
                    total_policies: (old(ctx).global_state.total_policies + 1) as u64,
                    ..old(ctx).global_state
                })
                &&& final(ctx).owner == old(ctx).owner
                &&& final(ctx).policy_bump == old(ctx).policy_bump
            },
        },
{
    ctx.validate()?;

    if !(params.coverage_amount > 0) {
        return Err(AmocaError::InvalidCoverageAmount);
    }
    if !(params.end_timestamp > current_time) {
        return Err(AmocaError::InvalidPolicyDuration);
    }
    if !(params.premium_amount > 0) {
        return Err(AmocaError::InvalidPremiumAmount);
    }
    if !params.geographic_bounds.is_on_globe() {
        return Err(AmocaError::InvalidGeographicBounds);
    }
    let total_policies: u64 = match ctx.global_state.total_policies.checked_add(1) {
        Some(total) => total,
        None => {
            return Err(AmocaError::MathOverflow);
        },
    };

    ctx.policy = ClimatePolicy {
        bump: ctx.policy_bump,
        owner: ctx.owner,
        status: PolicyStatus::Inactive,
        policy_type: params.policy_type,
        geographic_bounds: params.geographic_bounds,
        trigger_thresholds: params.trigger_conditions,
        oracle_sources: params.oracle_sources,
        monitoring_frequency: DEFAULT_MONITORING_FREQUENCY,
        last_data_update: current_time,
        risk_score: DEFAULT_RISK_SCORE,
        payout_calculation: PayoutFormula::LinearScale,
        coverage_amount: params.coverage_amount,
        premium_amount: params.premium_amount,
        start_timestamp: current_time,
        end_timestamp: params.end_timestamp,
    };
    ctx.global_state.total_policies = total_policies;
    Ok(())
}

impl SubmitClimateData {
    /// Whether the points of a submission are looked at: the conditions on
    /// the accounts hold, the oracle is active, and there are from one to ten
    /// points.
    pub open spec fn examines(&self, points: Seq<ClimateDataPoint>) -> bool {
        &&& self.violation() is None
        &&& self.oracle_data.is_active
        &&& 0 < points.len() <= MAX_DATA_POINTS
    }

    /// Why a submission is not accepted at time `now`, if it is not. The
    /// conditions are tried in this order: the conditions on the accounts;
    /// an active oracle; at least one point; at most ten points; each point
    /// in turn fresh and confident; room for the points in the count.
    pub open spec fn rejection(&self, points: Seq<ClimateDataPoint>, now: i64) -> Option<
        AmocaError,
    > {
        if self.violation() is Some {
            self.violation()
        } else if !self.oracle_data.is_active {
            Some(AmocaError::OracleNotAuthorized)
        } else if points.len() == 0 {
            Some(AmocaError::InvalidOracleData)
        } else if points.len() > MAX_DATA_POINTS {
            Some(AmocaError::TooManyDataPoints)
        } else if points_rejection(points, now, 0) is Some {
            points_rejection(points, now, 0)
        } else if self.oracle_data.data_points_count + points.len() > u32::MAX {
            Some(AmocaError::MathOverflow)
        } else {
            None
        }
    }

    /// Whether the arithmetic of a submission stays within its types: the
    /// age of each point that is looked at fits in 64 bits and, where the
    /// submission is accepted, the confidence levels sum to at most 255 and
    /// the reputation plus the mean confidence to at most 65535.
    pub open spec fn in_range(&self, points: Seq<ClimateDataPoint>, now: i64) -> bool {
        self.examines(points) ==> {
            &&& ages_in_range(points, now, 0)
            &&& self.rejection(points, now) is None ==> {
                &&& confidence_sum(points) <= u8::MAX
                &&& self.oracle_data.reputation_score + average_confidence(points) <= u16::MAX
            }
        }
    }

    /// The accounts after an accepted submission at time `now`: the oracle
    /// account updated at `now`, the points counted, and the reputation
    /// blended with their mean confidence.
    pub open spec fn after(&self, points: Seq<ClimateDataPoint>, now: i64) -> SubmitClimateData {
        SubmitClimateData {
            oracle_data: OracleData {
                last_update: now,
                data_points_count: (self.oracle_data.data_points_count + points.len()) as u32,
                reputation_score: blended_reputation(
                    self.oracle_data.reputation_score,
                    average_confidence(points),
                ) as u16,
                ..self.oracle_data
            },
            ..*self
        }
    }
}

/// Takes data points from an oracle at time `current_time`, counts them, and
/// blends their mean confidence into the reputation of the oracle.
#[verifier::loop_isolation(false)]
pub fn submit_climate_data(
    ctx: &mut SubmitClimateData,
    data_points: Vec<ClimateDataPoint>,
    current_time: i64,
) -> (r: Result<(), AmocaError>)
    requires
        old(ctx).in_range(data_points@, current_time),
    ensures
        match old(ctx).rejection(data_points@, current_time) {
            Some(e) => r == Err::<(), AmocaError>(e) && *final(ctx) == *old(ctx),
            None => r is Ok && *final(ctx) == old(ctx).after(data_points@, current_time),
        },
{
    ctx.validate()?;

    if !ctx.oracle_data.is_active {
        return Err(AmocaError::OracleNotAuthorized);
    }
    if data_points.is_empty() {
        return Err(AmocaError::InvalidOracleData);
    }
    if !(data_points.len() <= MAX_DATA_POINTS) {
        return Err(AmocaError::TooManyDataPoints);
    }
    let len: usize = data_points.len();
    let ghost points = data_points@;

    let mut i: usize = 0;
    while i < len
        invariant
            i <= len,
            ages_in_range(points, current_time, i as int),
            points_rejection(points, current_time, 0) == points_rejection(
                points,
                current_time,
                i as int,
            ),
        decreases len - i,
    {
        let data_point = &data_points[i];
        if !(current_time - data_point.timestamp <= MAX_DATA_AGE) {
            return Err(AmocaError::StaleOracleData);
        }
        if !(data_point.confidence_level >= MIN_CONFIDENCE) {
            return Err(AmocaError::LowConfidenceData);
        }
        i = i + 1;
    }

    let data_points_count: u32 = match ctx.oracle_data.data_points_count.checked_add(len as u32) {
        Some(count) => count,
        None => {
            return Err(AmocaError::MathOverflow);
        },
    };

    let mut total: u8 = 0;
    let mut j: usize = 0;
    while j < len
        invariant
            j <= len,
            total == confidence_sum(points.take(j as int)),
        decreases len - j,
    {
        proof {
            lemma_confidence_sum_front(points, j + 1);
            assert(points.take(j + 1).drop_last() =~= points.take(j as int));
        }
        total = total + data_points[j].confidence_level;
        j = j + 1;
    }
    assert(points.take(len as int) =~= points);
    let avg_confidence: u8 = total / (len as u8);

    let blended: u16 = (ctx.oracle_data.reputation_score + avg_confidence as u16) / 2;
    ctx.oracle_data.last_update = current_time;
    ctx.oracle_data.data_points_count = data_points_count;
    ctx.oracle_data.reputation_score = if blended > MAX_REPUTATION {
        MAX_REPUTATION
    } else {
        blended
    };
    Ok(())
}

impl SubmitClimateData {
    /// Whether the arithmetic of a submission stays within its types.
    #[verifier::loop_isolation(false)]
    pub fn is_in_range(&self, data_points: &Vec<ClimateDataPoint>, current_time: i64) -> (r: bool)
        ensures
            r == self.in_range(data_points@, current_time),
    {
        if self.validate().is_err() || !self.oracle_data.is_active || data_points.is_empty()
            || data_points.len() > MAX_DATA_POINTS {
            return true;
        }
        let len: usize = data_points.len();
        let ghost points = data_points@;

        let mut i: usize = 0;
        while i < len
            invariant
                i <= len,
                ages_in_range(points, current_time, 0) == ages_in_range(
                    points,
                    current_time,
                    i as int,
                ),
                points_rejection(points, current_time, 0) == points_rejection(
                    points,
                    current_time,
                    i as int,
                ),
            decreases len - i,
        {
            let data_point = &data_points[i];
            let age: i64 = match current_time.checked_sub(data_point.timestamp) {
                Some(age) => age,
                None => {
                    return false;
                },
            };
            if age > MAX_DATA_AGE || data_point.confidence_level < MIN_CONFIDENCE {
                return true;
            }
            i = i + 1;
        }
        if self.oracle_data.data_points_count > u32::MAX - len as u32 {
            return true;
        }
        let mut total: u32 = 0;
        let mut j: usize = 0;
        while j < len
            invariant
                j <= len,
                total == confidence_sum(points.take(j as int)),
                total <= u8::MAX * j,
            decreases len - j,
        {
            proof {
                assert(points.take(j + 1).drop_last() =~= points.take(j as int));
            }
            total = total + data_points[j].confidence_level as u32;
            j = j + 1;
        }
        assert(points.take(len as int) =~= points);
        total <= u8::MAX as u32 && self.oracle_data.reputation_score as u32 + total / (len as u32)
            <= u16::MAX as u32
    }
}

impl DepositPremium {
    /// Why a premium of `amount` is not taken, if it is not. The conditions
    /// are tried in this order: the conditions on the accounts; an inactive
    /// policy; an amount that covers the premium.
    pub open spec fn rejection(&self, amount: u64) -> Option<AmocaError> {
        if self.violation() is Some {
            self.violation()
        } else if self.policy.status != PolicyStatus::Inactive {
            Some(AmocaError::PolicyAlreadyActive)
        } else if amount < self.policy.premium_amount {
            Some(AmocaError::InsufficientPremium)
        } else {
            None
        }
    }

    /// The accounts once a premium of `amount` is taken: the policy active
    /// with the amount as its premium, and the amount added to the premiums
    /// collected.
    pub open spec fn after(&self, amount: u64) -> DepositPremium {
        DepositPremium {
            policy: ClimatePolicy {
                status: PolicyStatus::Active,
                premium_amount: amount,
                ..self.policy
            },
            global_state: GlobalState {
                total_premiums_collected: (self.global_state.total_premiums_collected
                    + amount) as u64,
                ..self.global_state
            },
            ..*self
        }
    }

    /// Decides whether a premium of `amount` is taken.
    pub fn decide(&self, amount: u64) -> (r: Result<(), AmocaError>)
        ensures
            r == check(self.rejection(amount)),
    {
        self.validate()?;

        if !(self.policy.status == PolicyStatus::Inactive) {
            return Err(AmocaError::PolicyAlreadyActive);
        }
        if !(amount >= self.policy.premium_amount) {
            return Err(AmocaError::InsufficientPremium);
        }
        Ok(())
    }

    /// The transfer that pays a premium of `amount`: from the token account
    /// of the user to that of the risk pool, in the name of the signer.
    pub open spec fn transfer(&self, amount: u64) -> TokenTransferView {
        TokenTransferView {
            from: self.user_token_account.address,
            to: self.risk_pool_token_account.address,
            authority: self.owner,
            amount,
            signer_seeds: Seq::empty(),
        }
    }
}

/// Decides whether a premium of `amount` is taken for the policy, and if so
/// names the transfer that pays it. Once the transfer is made,
/// `complete_deposit_premium` activates the policy.
pub fn deposit_premium(ctx: &DepositPremium, _policy_id: u64, amount: u64) -> (r: Result<
    TokenTransfer,
    AmocaError,
>)
    ensures
        match ctx.rejection(amount) {
            Some(e) => r == Err::<TokenTransfer, AmocaError>(e),
            None => r matches Ok(transfer) && transfer@ == ctx.transfer(amount),
        },
{
    ctx.decide(amount)?;

    let transfer = TokenTransfer {
        from: ctx.user_token_account.address,
        to: ctx.risk_pool_token_account.address,
        authority: ctx.owner,
        amount,
        signer_seeds: Vec::new(),
    };
    assert(transfer@.signer_seeds =~= Seq::empty());
    Ok(transfer)
}

/// Activates the policy once its premium of `amount` has been transferred,
/// and adds the amount to the premiums collected. The conditions of
/// `deposit_premium` are tried again first.
pub fn complete_deposit_premium(ctx: &mut DepositPremium, _policy_id: u64, amount: u64) -> (r:
    Result<(), AmocaError>)
    ensures
        match old(ctx).rejection(amount) {
            Some(e) => r == Err::<(), AmocaError>(e) && *final(ctx) == *old(ctx),
            None => if old(ctx).global_state.total_premiums_collected + amount > u64::MAX {
                r == Err::<(), AmocaError>(AmocaError::MathOverflow) && *final(ctx) == *old(ctx)
            } else {
                r is Ok && *final(ctx) == old(ctx).after(amount)
            },
        },
{
    ctx.decide(amount)?;

    let total: u64 = match ctx.global_state.total_premiums_collected.checked_add(amount) {
        Some(total) => total,
        None => {
            return Err(AmocaError::MathOverflow);
        },
    };
    ctx.policy.status = PolicyStatus::Active;
    ctx.policy.premium_amount = amount;
    ctx.global_state.total_premiums_collected = total;
    Ok(())
}

impl EvaluateClimateTrigger {
    /// Why the policy is not evaluated at time `now`, if it is not. The
    /// conditions are tried in this order: the conditions on the accounts; a
    /// policy that is active or monitored; a time not after the end of the
    /// policy.
    pub open spec fn rejection(&self, now: i64) -> Option<AmocaError> {
        if self.violation() is Some {
            self.violation()
        } else if self.policy.status != PolicyStatus::Active && self.policy.status
            != PolicyStatus::Monitoring {
            Some(AmocaError::PolicyNotActive)
        } else if now > self.policy.end_timestamp {
            Some(AmocaError::PolicyExpired)
        } else {
            None
        }
    }

    /// The accounts after an evaluation at time `now`: the policy triggered
    /// where its risk score triggers it and monitored otherwise, and updated
    /// at `now`.
    pub open spec fn after(&self, now: i64) -> EvaluateClimateTrigger {
        EvaluateClimateTrigger {
            policy: ClimatePolicy {
                status: if trigger_met(self.policy.risk_score) {
                    PolicyStatus::Triggered
                } else {
                    PolicyStatus::Monitoring
                },
                last_data_update: now,
                ..self.policy
            },
            ..*self
        }
    }
}

/// Evaluates the trigger of a policy at time `current_time`.
pub fn evaluate_climate_trigger(
    ctx: &mut EvaluateClimateTrigger,
    _policy_id: u64,
    current_time: i64,
) -> (r: Result<(), AmocaError>)
    ensures
        match old(ctx).rejection(current_time) {
            Some(e) => r == Err::<(), AmocaError>(e) && *final(ctx) == *old(ctx),
            None => r is Ok && *final(ctx) == old(ctx).after(current_time),
        },
{
    ctx.validate()?;

    if !(ctx.policy.status == PolicyStatus::Active || ctx.policy.status
        == PolicyStatus::Monitoring) {
        return Err(AmocaError::PolicyNotActive);
    }
    if !(current_time <= ctx.policy.end_timestamp) {
        return Err(AmocaError::PolicyExpired);
    }
    let trigger_met = evaluate_trigger_conditions(&ctx.policy)?;

    if trigger_met {
        ctx.policy.status = PolicyStatus::Triggered;
    } else {
        ctx.policy.status = PolicyStatus::Monitoring;
    }
    ctx.policy.last_data_update = current_time;
    Ok(())
}

/// The seed of the address in whose name the risk pool pays: the ASCII bytes
/// of `risk_pool`.
pub open spec fn risk_pool_seed() -> Seq<u8> {
    seq![114u8, 105u8, 115u8, 107u8, 95u8, 112u8, 111u8, 111u8, 108u8]
}

/// The seed of the address in whose name the risk pool pays.
pub fn risk_pool_seed_bytes() -> (seed: Vec<u8>)
    ensures
        seed@ == risk_pool_seed(),
{
    let seed: [u8; 9] = [114, 105, 115, 107, 95, 112, 111, 111, 108];
    let mut bytes: Vec<u8> = Vec::new();
    bytes.extend_from_slice(seed.as_slice());
    assert(bytes@ =~= risk_pool_seed());
    bytes
}

impl ExecuteClimatePayout {
    /// Whether a request for `payout_amount` gets as far as the payout
    /// formula.
    pub open spec fn reaches_formula(&self, payout_amount: u64) -> bool {
        &&& self.violation() is None
        &&& self.policy.status == PolicyStatus::Triggered
        &&& 0 < payout_amount <= self.policy.coverage_amount
    }

    /// Whether the arithmetic of a request for `payout_amount` stays within
    /// its types: where the request gets as far as the payout formula, the
    /// payout can be computed in 64 bits.
    pub open spec fn spec_is_in_range(&self, payout_amount: u64) -> bool {
        self.reaches_formula(payout_amount) ==> self.policy.payout_in_range()
    }

    /// Whether the arithmetic of a request for `payout_amount` stays within
    /// its types.
    #[verifier::when_used_as_spec(spec_is_in_range)]
    pub fn is_in_range(&self, payout_amount: u64) -> (r: bool)
        ensures
            r == self.spec_is_in_range(payout_amount),
    {
        if self.validate().is_err() || self.policy.status != PolicyStatus::Triggered
            || payout_amount == 0 || payout_amount > self.policy.coverage_amount {
            return true;
        }
        self.policy.payout_in_range()
    }

    /// Why `payout_amount` is not paid out, if it is not. The conditions are
    /// tried in this order: the conditions on the accounts; a triggered
    /// policy; an amount above zero; an amount that is at most what the
    /// policy pays, which is never more than its coverage.
    pub open spec fn rejection(&self, payout_amount: u64) -> Option<AmocaError> {
        if self.violation() is Some {
            self.violation()
        } else if self.policy.status != PolicyStatus::Triggered {
            Some(AmocaError::TriggerNotMet)
        } else if payout_amount == 0 {
            Some(AmocaError::InvalidPayoutAmount)
        } else if payout_amount > self.policy.payout() {
            Some(AmocaError::ExcessivePayoutAmount)
        } else {
            None
        }
    }

    /// The accounts once `payout_amount` is paid out: the policy claimed,
    /// and the amount added to the payouts made.
    pub open spec fn after(&self, payout_amount: u64) -> ExecuteClimatePayout {
        ExecuteClimatePayout {
            policy: ClimatePolicy { status: PolicyStatus::Claimed, ..self.policy },
            global_state: GlobalState {
                total_payouts: (self.global_state.total_payouts + payout_amount) as u64,
                ..self.global_state
            },
            ..*self
        }
    }

    /// Decides whether `payout_amount` is paid out.
    pub fn decide(&self, payout_amount: u64) -> (r: Result<(), AmocaError>)
        requires
            self.is_in_range(payout_amount),
        ensures
            r == check(self.rejection(payout_amount)),
    {
        proof {
            lemma_payout_at_most_coverage(
                self.policy.payout_calculation,
                self.policy.coverage_amount as nat,
                self.policy.risk_score,
            );
        }
        self.validate()?;

        if !(self.policy.status == PolicyStatus::Triggered) {
            return Err(AmocaError::TriggerNotMet);
        }
        if !(payout_amount > 0) {
            return Err(AmocaError::InvalidPayoutAmount);
        }
        if !(payout_amount <= self.policy.coverage_amount) {
            return Err(AmocaError::ExcessivePayoutAmount);
        }
        let calculated_payout = calculate_payout_amount(&self.policy)?;
        if !(payout_amount <= calculated_payout) {
            return Err(AmocaError::ExcessivePayoutAmount);
        }
        Ok(())
    }

    /// The transfer that pays `payout_amount`: from the token account of the
    /// risk pool to that of the policyholder, signed for by the program with
    /// the seed of the risk pool and the bump of the state account.
    pub open spec fn transfer(&self, payout_amount: u64) -> TokenTransferView {
        TokenTransferView {
            from: self.risk_pool_token_account.address,
            to: self.policyholder_token_account.address,
            authority: self.risk_pool_pda,
            amount: payout_amount,
            signer_seeds: seq![risk_pool_seed(), seq![self.global_state.bump]],
        }
    }
}

/// Decides whether `payout_amount` is paid out on the policy, and if so
/// names the transfer that pays it. Once the transfer is made,
/// `complete_climate_payout` marks the policy as claimed.
pub fn execute_climate_payout(
    ctx: &ExecuteClimatePayout,
    _policy_id: u64,
    payout_amount: u64,
) -> (r: Result<TokenTransfer, AmocaError>)
    requires
        ctx.is_in_range(payout_amount),
    ensures
        match ctx.rejection(payout_amount) {
            Some(e) => r == Err::<TokenTransfer, AmocaError>(e),
            None => r matches Ok(transfer) && transfer@ == ctx.transfer(payout_amount),
        },
{
    ctx.decide(payout_amount)?;

    let mut bump_seed: Vec<u8> = Vec::new();
    bump_seed.push(ctx.global_state.bump);
    let mut signer_seeds: Vec<Vec<u8>> = Vec::new();
    signer_seeds.push(risk_pool_seed_bytes());
    signer_seeds.push(bump_seed);

    let transfer = TokenTransfer {
        from: ctx.risk_pool_token_account.address,
        to: ctx.policyholder_token_account.address,
        authority: ctx.risk_pool_pda,
        amount: payout_amount,
        signer_seeds,
    };
    assert(transfer@.signer_seeds =~= ctx.transfer(payout_amount).signer_seeds) by {
        assert(transfer.signer_seeds@[1]@ =~= seq![ctx.global_state.bump]);
    }
    Ok(transfer)
}

/// Marks the policy as claimed once `payout_amount` has been transferred,
/// and adds the amount to the payouts made. The conditions of
/// `execute_climate_payout` are tried again first.
pub fn complete_climate_payout(
    ctx: &mut ExecuteClimatePayout,
    _policy_id: u64,
    payout_amount: u64,
) -> (r: Result<(), AmocaError>)
    requires
        old(ctx).is_in_range(payout_amount),
    ensures
        match old(ctx).rejection(payout_amount) {
            Some(e) => r == Err::<(), AmocaError>(e) && *final(ctx) == *old(ctx),
            None => if old(ctx).global_state.total_payouts + payout_amount > u64::MAX {
                r == Err::<(), AmocaError>(AmocaError::MathOverflow) && *final(ctx) == *old(ctx)
            } else {
                r is Ok && *final(ctx) == old(ctx).after(payout_amount)
            },
        },
{
    ctx.decide(payout_amount)?;

    let total: u64 = match ctx.global_state.total_payouts.checked_add(payout_amount) {
        Some(total) => total,
        None => {
            return Err(AmocaError::MathOverflow);
        },
    };
    ctx.policy.status = PolicyStatus::Claimed;
    ctx.global_state.total_payouts = total;
    Ok(())
}

impl AdminAction {
    /// The accounts once the pause switch is set to `paused`.
    pub open spec fn after(&self, paused: bool) -> AdminAction {
        AdminAction {
            global_state: GlobalState { is_paused: paused, ..self.global_state },
            ..*self
        }
    }
}

/// Pauses the program. Only the authority may.
pub fn pause_program(ctx: &mut AdminAction) -> (r: Result<(), AmocaError>)
    ensures
        match old(ctx).violation() {
            Some(e) => r == Err::<(), AmocaError>(e) && *final(ctx) == *old(ctx),
            None => r is Ok && *final(ctx) == old(ctx).after(true),
        },
{
    ctx.validate()?;
    ctx.global_state.is_paused = true;
    Ok(())
}

/// Ends a pause of the program. Only the authority may.
pub fn unpause_program(ctx: &mut AdminAction) -> (r: Result<(), AmocaError>)
    ensures
        match old(ctx).violation() {
            Some(e) => r == Err::<(), AmocaError>(e) && *final(ctx) == *old(ctx),
            None => r is Ok && *final(ctx) == old(ctx).after(false),
        },
{
    ctx.validate()?;
    ctx.global_state.is_paused = false;
    Ok(())
}

} // verus!
