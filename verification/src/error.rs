//! The errors with which the program rejects an instruction.

use vstd::prelude::*;

verus! {

/// Why an instruction was rejected.
#[derive(Clone, Copy, Debug, PartialEq, Eq, Structural)]
pub enum AmocaError {
    InvalidCoverageAmount,
    InvalidPolicyDuration,
    InvalidPremiumAmount,
    InvalidGeographicBounds,
    PolicyAlreadyActive,
    InsufficientPremium,
    OracleNotAuthorized,
    InvalidOracleData,
    TooManyDataPoints,
    StaleOracleData,
    LowConfidenceData,
    PolicyNotActive,
    PolicyExpired,
    TriggerNotMet,
    InvalidPayoutAmount,
    ExcessivePayoutAmount,
    MathOverflow,
    Unauthorized,
    ProgramPaused,
}

impl AmocaError {
    /// The message of the error, as a literal.
    pub open spec fn message_text(&self) -> &'static str {
        match self {
            AmocaError::InvalidCoverageAmount => "Invalid coverage amount",
            AmocaError::InvalidPolicyDuration => "Invalid policy duration",
            AmocaError::InvalidPremiumAmount => "Invalid premium amount",
            AmocaError::InvalidGeographicBounds => "Invalid geographic bounds",
            AmocaError::PolicyAlreadyActive => "Policy already active",
            AmocaError::InsufficientPremium => "Insufficient premium",
            AmocaError::OracleNotAuthorized => "Oracle not authorized",
            AmocaError::InvalidOracleData => "Invalid oracle data",
            AmocaError::TooManyDataPoints => "Too many data points",
            AmocaError::StaleOracleData => "Stale oracle data",
            AmocaError::LowConfidenceData => "Low confidence data",
            AmocaError::PolicyNotActive => "Policy not active",
            AmocaError::PolicyExpired => "Policy expired",
            AmocaError::TriggerNotMet => "Trigger conditions not met",
            AmocaError::InvalidPayoutAmount => "Invalid payout amount",
            AmocaError::ExcessivePayoutAmount => "Excessive payout amount",
            AmocaError::MathOverflow => "Math overflow",
            AmocaError::Unauthorized => "Unauthorized",
            AmocaError::ProgramPaused => "Program is paused",
        }
    }

    /// The message of the error.
    pub fn message(&self) -> (text: String)
        ensures
            text@ == self.message_text()@,
    {
        let text: &'static str = match self {
            AmocaError::InvalidCoverageAmount => "Invalid coverage amount",
            AmocaError::InvalidPolicyDuration => "Invalid policy duration",
            AmocaError::InvalidPremiumAmount => "Invalid premium amount",
            AmocaError::InvalidGeographicBounds => "Invalid geographic bounds",
            AmocaError::PolicyAlreadyActive => "Policy already active",
            AmocaError::InsufficientPremium => "Insufficient premium",
            AmocaError::OracleNotAuthorized => "Oracle not authorized",
            AmocaError::InvalidOracleData => "Invalid oracle data",
            AmocaError::TooManyDataPoints => "Too many data points",
            AmocaError::StaleOracleData => "Stale oracle data",
            AmocaError::LowConfidenceData => "Low confidence data",
            AmocaError::PolicyNotActive => "Policy not active",
            AmocaError::PolicyExpired => "Policy expired",
            AmocaError::TriggerNotMet => "Trigger conditions not met",
            AmocaError::InvalidPayoutAmount => "Invalid payout amount",
            AmocaError::ExcessivePayoutAmount => "Excessive payout amount",
            AmocaError::MathOverflow => "Math overflow",
            AmocaError::Unauthorized => "Unauthorized",
            AmocaError::ProgramPaused => "Program is paused",
        };
        text.to_owned()
    }
}

} // verus!
