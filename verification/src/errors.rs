//! The error taxonomy of the engine.

use vstd::prelude::*;

verus! {

/// Every way an operation can be refused. Each rule violation surfaces as
/// a distinguishable variant; no operation silently does nothing.
#[derive(Debug, Clone, Copy, PartialEq, Eq, Structural)]
pub enum ContractError {
    /// An owner is already recorded; the instance cannot be initialized
    /// again.
    AlreadyInitialized,
    /// The match id is unknown.
    NotFound,
    /// The operation is illegal for the match's current status.
    InvalidState,
    /// The caller is not a legitimate party for the action.
    NotAuthorized,
    /// The creator attempted to join their own match.
    SelfJoin,
    /// The caller's balance does not cover the stake.
    InsufficientFunds,
    /// Internal bookkeeping would overflow; indicates a bug or an
    /// exhausted counter, never a caller mistake.
    InvariantViolation,
}

impl ContractError {
    /// A short human-readable name for the error.
    pub fn describe(&self) -> (r: &'static str)
        ensures
            (*self == ContractError::AlreadyInitialized ==> r@ == "already initialized"@),
            (*self == ContractError::NotFound ==> r@ == "match not found"@),
            (*self == ContractError::InvalidState ==> r@ == "operation illegal in current state"@),
            (*self == ContractError::NotAuthorized ==> r@ == "caller not authorized"@),
            (*self == ContractError::SelfJoin ==> r@ == "cannot join own match"@),
            (*self == ContractError::InsufficientFunds ==> r@ == "insufficient funds"@),
            (*self == ContractError::InvariantViolation ==> r@ == "internal invariant violation"@),
    {
        match self {
            ContractError::AlreadyInitialized => "already initialized",
            ContractError::NotFound => "match not found",
            ContractError::InvalidState => "operation illegal in current state",
            ContractError::NotAuthorized => "caller not authorized",
            ContractError::SelfJoin => "cannot join own match",
            ContractError::InsufficientFunds => "insufficient funds",
            ContractError::InvariantViolation => "internal invariant violation",
        }
    }
}

} // verus!
