//! The first byte of the data of each instruction.

use vstd::prelude::*;

verus! {

/// Crank: update the oracle with the latest climate data.
pub const CRANK: u8 = 0;

/// Read climate data from the oracle.
pub const READ_CLIMATE_DATA: u8 = 1;

/// Initialize the state account.
pub const INIT_STATE: u8 = 2;

/// Initialize the oracle quote account.
pub const INIT_ORACLE: u8 = 3;

/// Create a climate policy.
pub const CREATE_CLIMATE_POLICY: u8 = 4;

/// Evaluate the climate triggers.
pub const EVALUATE_CLIMATE_TRIGGER: u8 = 5;

/// Execute a climate payout.
pub const EXECUTE_CLIMATE_PAYOUT: u8 = 6;

} // verus!
