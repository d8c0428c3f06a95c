//! The accounts that each instruction works on, and the conditions that bind
//! them before the instruction runs.
//!
//! An account is held here by its data. A signer, or an account of which only
//! the address matters, is held by its address.

use crate::error::AmocaError;
use crate::pubkey::Pubkey;
use crate::state::{ClimatePolicy, GlobalState, OracleData};
use vstd::prelude::*;

verus! {

/// The outcome of a check: the error where a condition is violated, and
/// success where none is.
pub open spec fn check(violation: Option<AmocaError>) -> Result<(), AmocaError> {
    match violation {
        Some(e) => Err(e),
        None => Ok(()),
    }
}

/// A token account, as far as the program looks at it.
#[derive(Clone, Copy, Debug)]
pub struct TokenAccount {
    /// Where the account lives.
    pub address: Pubkey,
    /// Who may move its tokens.
    pub owner: Pubkey,
}

/// A token transfer that the program asks the token program to make.
#[derive(Clone, Debug)]
pub struct TokenTransfer {
    /// The token account that is debited.
    pub from: Pubkey,
    /// The token account that is credited.
    pub to: Pubkey,
    /// The owner of `from`, in whose name the tokens move.
    pub authority: Pubkey,
    pub amount: u64,
    /// The seeds with which the program signs for `authority`. Empty where
    /// the authority has signed the transaction itself.
    pub signer_seeds: Vec<Vec<u8>>,
}

/// A token transfer as a mathematical value.
pub struct TokenTransferView {
    pub from: Pubkey,
    pub to: Pubkey,
    pub authority: Pubkey,
    pub amount: u64,
    pub signer_seeds: Seq<Seq<u8>>,
}

impl View for TokenTransfer {
    type V = TokenTransferView;

    open spec fn view(&self) -> TokenTransferView {
        TokenTransferView {
            from: self.from,
            to: self.to,
            authority: self.authority,
            amount: self.amount,
            signer_seeds: Seq::new(self.signer_seeds@.len(), |i: int| self.signer_seeds@[i]@),
        }
    }
}

/// The accounts of `initialize`.
#[derive(Clone, Copy, Debug)]
pub struct Initialize {
    /// The signer who pays for the state account and becomes the authority.
    pub authority: Pubkey,
    /// The state account, which the instruction creates.
    pub global_state: GlobalState,
    /// The bump with which the address of the state account was derived.
    pub global_state_bump: u8,
}

/// The accounts of `create_climate_policy`.
#[derive(Clone, Debug)]
pub struct CreateClimatePolicy {
    /// The signer who pays for the policy account and owns the policy.
    pub owner: Pubkey,
    /// The policy account, which the instruction creates.
    pub policy: ClimatePolicy,
    /// The bump with which the address of the policy account was derived.
    pub policy_bump: u8,
    pub global_state: GlobalState,
}

impl CreateClimatePolicy {
    /// The first condition on the accounts that does not hold.
    pub open spec fn violation(&self) -> Option<AmocaError> {
        if self.global_state.is_paused {
            Some(AmocaError::ProgramPaused)
        } else {
            None
        }
    }

    /// Checks the conditions on the accounts.
    pub fn validate(&self) -> (r: Result<(), AmocaError>)
        ensures
            r == check(self.violation()),
    {
        if self.global_state.is_paused {
            return Err(AmocaError::ProgramPaused);
        }
        Ok(())
    }
}

/// The accounts of `deposit_premium`.
#[derive(Clone, Debug)]
pub struct DepositPremium {
    /// The signer who pays the premium.
    pub owner: Pubkey,
    pub policy: ClimatePolicy,
    /// The token account that the premium comes from.
    pub user_token_account: TokenAccount,
    /// The token account of the risk pool.
    pub risk_pool_token_account: TokenAccount,
    pub global_state: GlobalState,
}

impl DepositPremium {
    /// The first condition on the accounts that does not hold: the signer
    /// owns the policy, the signer owns the token account that pays, and the
    /// program is not paused.
    pub open spec fn violation(&self) -> Option<AmocaError> {
        if self.policy.owner@ != self.owner@ {
            Some(AmocaError::Unauthorized)
        } else if self.user_token_account.owner@ != self.owner@ {
            Some(AmocaError::Unauthorized)
        } else if self.global_state.is_paused {
            Some(AmocaError::ProgramPaused)
        } else {
            None
        }
    }

    /// Checks the conditions on the accounts.
    pub fn validate(&self) -> (r: Result<(), AmocaError>)
        ensures
            r == check(self.violation()),
    {
        if self.policy.owner != self.owner {
            return Err(AmocaError::Unauthorized);
        }
        if self.user_token_account.owner != self.owner {
            return Err(AmocaError::Unauthorized);
        }
        if self.global_state.is_paused {
            return Err(AmocaError::ProgramPaused);
        }
        Ok(())
    }
}

/// The accounts of `submit_climate_data`.
#[derive(Clone, Copy, Debug)]
pub struct SubmitClimateData {
    /// The signer who reports the data.
    pub oracle_provider: Pubkey,
    pub oracle_data: OracleData,
    pub global_state: GlobalState,
}

impl SubmitClimateData {
    /// The first condition on the accounts that does not hold: the signer is
    /// the provider of the oracle account, and the program is not paused.
    pub open spec fn violation(&self) -> Option<AmocaError> {
        if self.oracle_data.provider@ != self.oracle_provider@ {
            Some(AmocaError::Unauthorized)
        } else if self.global_state.is_paused {
            Some(AmocaError::ProgramPaused)
        } else {
            None
        }
    }

    /// Checks the conditions on the accounts.
    pub fn validate(&self) -> (r: Result<(), AmocaError>)
        ensures
            r == check(self.violation()),
    {
        if self.oracle_data.provider != self.oracle_provider {
            return Err(AmocaError::Unauthorized);
        }
        if self.global_state.is_paused {
            return Err(AmocaError::ProgramPaused);
        }
        Ok(())
    }
}

/// The accounts of `evaluate_climate_trigger`.
#[derive(Clone, Debug)]
pub struct EvaluateClimateTrigger {
    /// The signer who asks for the evaluation.
    pub evaluator: Pubkey,
    pub policy: ClimatePolicy,
    /// The address of the oracle account that the evaluation names.
    pub oracle_data: Pubkey,
    pub global_state: GlobalState,
}

impl EvaluateClimateTrigger {
    /// The first condition on the accounts that does not hold.
    pub open spec fn violation(&self) -> Option<AmocaError> {
        if self.global_state.is_paused {
            Some(AmocaError::ProgramPaused)
        } else {
            None
        }
    }

    /// Checks the conditions on the accounts.
    pub fn validate(&self) -> (r: Result<(), AmocaError>)
        ensures
            r == check(self.violation()),
    {
        if self.global_state.is_paused {
            return Err(AmocaError::ProgramPaused);
        }
        Ok(())
    }
}

/// The accounts of `execute_climate_payout`.
#[derive(Clone, Debug)]
pub struct ExecuteClimatePayout {
    /// The signer who asks for the payout.
    pub executor: Pubkey,
    pub policy: ClimatePolicy,
    /// The token account that receives the payout.
    pub policyholder_token_account: TokenAccount,
    /// The token account of the risk pool.
    pub risk_pool_token_account: TokenAccount,
    /// The address in whose name the risk pool pays.
    pub risk_pool_pda: Pubkey,
    pub global_state: GlobalState,
}

impl ExecuteClimatePayout {
    /// The first condition on the accounts that does not hold.
    pub open spec fn violation(&self) -> Option<AmocaError> {
        if self.global_state.is_paused {
            Some(AmocaError::ProgramPaused)
        } else {
            None
        }
    }

    /// Checks the conditions on the accounts.
    pub fn validate(&self) -> (r: Result<(), AmocaError>)
        ensures
            r == check(self.violation()),
    {
        if self.global_state.is_paused {
            return Err(AmocaError::ProgramPaused);
        }
        Ok(())
    }
}

/// The accounts of `pause_program` and `unpause_program`.
#[derive(Clone, Copy, Debug)]
pub struct AdminAction {
    /// The signer who acts as the authority.
    pub authority: Pubkey,
    pub global_state: GlobalState,
}

impl AdminAction {
    /// The first condition on the accounts that does not hold: the signer is
    /// the authority of the program.
    pub open spec fn violation(&self) -> Option<AmocaError> {
        if self.authority@ != self.global_state.authority@ {
            Some(AmocaError::Unauthorized)
        } else {
            None
        }
    }

    /// Checks the conditions on the accounts.
    pub fn validate(&self) -> (r: Result<(), AmocaError>)
        ensures
            r == check(self.violation()),
    {
        if self.authority != self.global_state.authority {
            return Err(AmocaError::Unauthorized);
        }
        Ok(())
    }
}

} // verus!
