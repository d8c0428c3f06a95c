//! Parametric climate insurance.
//!
//! A policy insures a place against a climate peril. Its owner pays a
//! premium, oracles report climate data, the trigger of the policy is
//! evaluated against its risk score, and a triggered policy is paid out of
//! the risk pool. This crate holds the rules of that insurance and proves
//! them with Verus; it moves no tokens and reads no clock. Each instruction
//! is a function from the accounts it works on, its arguments and the time to
//! the accounts afterwards, or to the error with which it is rejected.
//!
//! - [`state`]: what is stored in accounts and passed as arguments.
//! - [`accounts`]: the accounts of each instruction and the conditions on them.
//! - [`instructions`]: the instructions themselves.
//! - [`payout`]: when a policy is triggered and how much it pays.
//! - [`oracle`]: which data is accepted and what it does to a reputation.
//! - [`lifecycle`]: what holds of a policy across instructions.
//! - [`float64`]: binary64 numbers by their bits, with a proved comparison.
//! - [`pubkey`]: addresses.
//! - [`error`]: the errors.
//! - [`example_usage`]: instruction data and typical values for clients.

pub mod accounts;
pub mod error;
pub mod example_usage;
pub mod float64;
pub mod instructions;
pub mod lifecycle;
pub mod oracle;
pub mod payout;
pub mod pubkey;
pub mod state;
