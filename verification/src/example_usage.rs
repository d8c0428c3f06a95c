//! How a client talks to the program: instruction data, policy types and
//! typical thresholds.

use crate::float64::Float64;
use vstd::bytes::{
    lemma_auto_spec_u64_to_from_le_bytes,
    spec_u64_from_le_bytes,
    spec_u64_to_le_bytes,
    u64_to_le_bytes,
};
use vstd::prelude::*;

pub mod climate_feed_ids;
pub mod instruction_examples;

verus! {

/// The policy types that a client can ask for.
#[derive(Clone, Copy, Debug, PartialEq, Eq, Structural)]
pub enum ExamplePolicyType {
    DroughtProtection,
    FloodInsurance,
    HurricaneCoverage,
    WildfireProtection,
}

impl ExamplePolicyType {
    /// The byte that stands for the policy type in instruction data.
    pub open spec fn spec_code(&self) -> u8 {
        match self {
            ExamplePolicyType::DroughtProtection => 0,
            ExamplePolicyType::FloodInsurance => 1,
            ExamplePolicyType::HurricaneCoverage => 2,
            ExamplePolicyType::WildfireProtection => 3,
        }
    }

    /// The byte that stands for the policy type in instruction data.
    #[verifier::when_used_as_spec(spec_code)]
    pub fn code(&self) -> (code: u8)
        ensures
            code == self.spec_code(),
    {
        match self {
            ExamplePolicyType::DroughtProtection => 0,
            ExamplePolicyType::FloodInsurance => 1,
            ExamplePolicyType::HurricaneCoverage => 2,
            ExamplePolicyType::WildfireProtection => 3,
        }
    }
}

/// Typical trigger thresholds for climate events.
#[derive(Clone, Copy, Debug)]
pub struct ExampleTriggerThresholds {
    /// Drought: less rainfall than this in a month, in millimetres.
    pub drought_rainfall_mm_month: Float64,
    /// Flood: more rainfall than this in a day, in millimetres.
    pub flood_rainfall_mm_day: Float64,
    /// Hurricane: wind faster than this, in metres per second.
    pub hurricane_wind_speed_ms: Float64,
    /// Extreme heat: warmer than this, in degrees Celsius.
    pub extreme_heat_celsius: Float64,
    /// Extreme cold: colder than this, in degrees Celsius.
    pub extreme_cold_celsius: Float64,
}

impl Default for ExampleTriggerThresholds {
    /// 10 mm a month, 100 mm a day, 25 m/s, 40 degrees and -10 degrees.
    fn default() -> (thresholds: ExampleTriggerThresholds)
        ensures
            thresholds.drought_rainfall_mm_month.is_integer(10),
            thresholds.flood_rainfall_mm_day.is_integer(100),
            thresholds.hurricane_wind_speed_ms.is_integer(25),
            thresholds.extreme_heat_celsius.is_integer(40),
            thresholds.extreme_cold_celsius.is_integer(-10),
    {
        ExampleTriggerThresholds {
            drought_rainfall_mm_month: Float64::from_i32(10),
            flood_rainfall_mm_day: Float64::from_i32(100),
            hurricane_wind_speed_ms: Float64::from_i32(25),
            extreme_heat_celsius: Float64::from_i32(40),
            extreme_cold_celsius: Float64::from_i32(-10),
        }
    }
}

/// The data of a payout instruction: the tag of the instruction, then the
/// amount as eight little-endian bytes.
pub open spec fn payout_instruction_data(amount_lamports: u64) -> Seq<u8> {
    seq![instruction_examples::EXECUTE_CLIMATE_PAYOUT] + spec_u64_to_le_bytes(amount_lamports)
}

/// The data of a policy instruction: the tag of the instruction, the policy
/// id, the byte of the policy type, the coverage and the premium, each
/// number as eight little-endian bytes.
pub open spec fn policy_instruction_data(
    policy_id: u64,
    policy_type: ExamplePolicyType,
    coverage_amount: u64,
    premium_amount: u64,
) -> Seq<u8> {
    seq![instruction_examples::CREATE_CLIMATE_POLICY] + spec_u64_to_le_bytes(policy_id)
        + seq![policy_type.code()] + spec_u64_to_le_bytes(coverage_amount) + spec_u64_to_le_bytes(
        premium_amount,
    )
}

/// The steps by which a client uses the program: set up the state account
/// and the oracle account once, create a policy, keep the oracle data fresh,
/// evaluate the triggers, and execute the payout when a trigger is met.
#[derive(Clone, Copy, Debug)]
pub struct ExampleWorkflow;

impl ExampleWorkflow {
    /// The instruction data for a payout of `amount_lamports`.
    pub fn create_payout_instruction_data(amount_lamports: u64) -> (data: Vec<u8>)
        ensures
            data@ == payout_instruction_data(amount_lamports),
            data@.len() == 9,
    {
        let mut data: Vec<u8> = Vec::new();
        data.push(instruction_examples::EXECUTE_CLIMATE_PAYOUT);
        let amount = u64_to_le_bytes(amount_lamports);
        data.extend_from_slice(amount.as_slice());
        proof {
            lemma_auto_spec_u64_to_from_le_bytes();
            assert(data@ =~= payout_instruction_data(amount_lamports));
        }
        data
    }

    /// The instruction data for the creation of a policy.
    pub fn create_policy_instruction_data(
        policy_id: u64,
        policy_type: ExamplePolicyType,
        coverage_amount: u64,
        premium_amount: u64,
    ) -> (data: Vec<u8>)
        ensures
            data@ == policy_instruction_data(
                policy_id,
                policy_type,
                coverage_amount,
                premium_amount,
            ),
            data@.len() == 26,
    {
        let mut data: Vec<u8> = Vec::new();
        data.push(instruction_examples::CREATE_CLIMATE_POLICY);
        let id = u64_to_le_bytes(policy_id);
        data.extend_from_slice(id.as_slice());
        data.push(policy_type.code());
        let coverage = u64_to_le_bytes(coverage_amount);
        data.extend_from_slice(coverage.as_slice());
        let premium = u64_to_le_bytes(premium_amount);
        data.extend_from_slice(premium.as_slice());
        proof {
            lemma_auto_spec_u64_to_from_le_bytes();
            assert(data@ =~= policy_instruction_data(
                policy_id,
                policy_type,
                coverage_amount,
                premium_amount,
            ));
        }
        data
    }
}

/// The amount can be read back from the data of a payout instruction: the
/// eight bytes after the tag decode to it.
pub proof fn lemma_payout_data_decodes(amount_lamports: u64)
    ensures
        payout_instruction_data(amount_lamports).len() == 9,
        payout_instruction_data(amount_lamports)[0] == instruction_examples::EXECUTE_CLIMATE_PAYOUT,
        spec_u64_from_le_bytes(payout_instruction_data(amount_lamports).subrange(1, 9))
            == amount_lamports,
{
    lemma_auto_spec_u64_to_from_le_bytes();
    assert(payout_instruction_data(amount_lamports).subrange(1, 9) =~= spec_u64_to_le_bytes(
        amount_lamports,
    ));
}

/// Every argument can be read back from the data of a policy instruction,
/// each from its own place.
pub proof fn lemma_policy_data_decodes(
    policy_id: u64,
    policy_type: ExamplePolicyType,
    coverage_amount: u64,
    premium_amount: u64,
)
    ensures
        ({
            let data = policy_instruction_data(
                policy_id,
                policy_type,
                coverage_amount,
                premium_amount,
            );
            &&& data.len() == 26
            &&& data[0] == instruction_examples::CREATE_CLIMATE_POLICY
            &&& spec_u64_from_le_bytes(data.subrange(1, 9)) == policy_id
            &&& data[9] == policy_type.code()
            &&& spec_u64_from_le_bytes(data.subrange(10, 18)) == coverage_amount
            &&& spec_u64_from_le_bytes(data.subrange(18, 26)) == premium_amount
        }),
{
    lemma_auto_spec_u64_to_from_le_bytes();
    let data = policy_instruction_data(policy_id, policy_type, coverage_amount, premium_amount);
    assert(data.subrange(1, 9) =~= spec_u64_to_le_bytes(policy_id));
    assert(data.subrange(10, 18) =~= spec_u64_to_le_bytes(coverage_amount));
    assert(data.subrange(18, 26) =~= spec_u64_to_le_bytes(premium_amount));
}

} // verus!
