//! Typed errors surfaced by the settlement engine.
//!
//! Every validation or solvency failure is detected before any transfer
//! request is assembled or ledger entry written, so an error always means
//! that no state changed.
use vstd::prelude::*;

verus! {

/// The failure taxonomy of the engine.
#[derive(Clone, Debug, PartialEq)]
pub enum ContractError {
    /// The global enabled flag is false; all settlement calls are rejected.
    ContractDisabled,
    /// The caller is not the operator, on an operator-gated operation.
    Unauthorized,
    /// The selection lies outside the game's legal domain.
    InvalidBet,
    /// Roulette only: the pool cannot cover the candidate reward.
    InsufficientFunds,
    /// A withdraw request exceeds the pool balance, which is echoed back.
    NotEnoughCoins { contract_amount: u128 },
    /// Migration was invoked against state from a differently-named contract.
    VersionMismatch { previous_contract: String },
}

} // verus!
