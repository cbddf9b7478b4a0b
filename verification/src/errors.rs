//! Error taxonomy of the validator.
//!
//! Each kind transparently wraps the failing collaborator's own error; no
//! recovery is attempted here. A failure aborts the current transaction's
//! validation only — the validator instance stays usable for the next one.

use vstd::prelude::*;

use crate::state::{ContractAddress, Nonce};

verus! {

/// The state overlay could not resolve or mutate a key.
#[derive(Clone, Copy, Debug, PartialEq, Eq, Structural)]
pub enum StateError {
    /// The address has never been touched in a way the overlay can resolve.
    UnresolvedAddress { address: ContractAddress },
}

/// The fee layer found the sender unable to cover the declared fee bounds.
#[derive(Clone, Copy, Debug, PartialEq, Eq, Structural)]
pub enum TransactionFeeError {
    /// The declared maximal fee exceeds the sender's balance.
    MaxFeeExceedsBalance { balance_low: u64 },
}

/// The resources actually consumed during validation exceed what the
/// sender's declared fee bounds cover.
#[derive(Clone, Copy, Debug, PartialEq, Eq, Structural)]
pub enum FeeCheckError {
    /// The fee derived from actual consumption passed the declared bound.
    MaxFeeExceeded { max_fee: u64, actual_fee: u64 },
}

/// A nonce or fee/balance check failed before any untrusted code ran.
#[derive(Clone, Copy, Debug, PartialEq, Eq, Structural)]
pub enum TransactionPreValidationError {
    /// The overlay could not resolve the sender while checking the nonce.
    StateError(StateError),
    /// The incoming nonce is not acceptable against the account's nonce.
    InvalidNonce {
        address: ContractAddress,
        account_nonce: Nonce,
        incoming_tx_nonce: Nonce,
    },
    /// The fee/balance sufficiency check failed.
    TransactionFeeError(TransactionFeeError),
}

/// The account's `validate` or `execute` entry point reverted, trapped or
/// exceeded its resource ceiling, or post-validation rejected the receipt.
#[derive(Clone, Copy, Debug, PartialEq, Eq, Structural)]
pub enum TransactionExecutionError {
    /// The entry point reverted or trapped inside the virtual machine.
    ExecutionFailed { error_code: u64 },
    /// The run exceeded its step or gas ceiling.
    ResourcesExceeded,
    /// Post-validation rejected the receipt.
    FeeCheckError(FeeCheckError),
}

/// The wrapping executor could not run the requested operation.
#[derive(Clone, Copy, Debug, PartialEq, Eq, Structural)]
pub enum TransactionExecutorError {
    /// The full-execution run of the transaction failed.
    TransactionExecutionError(TransactionExecutionError),
    /// The executor's state overlay failed the run.
    StateError(StateError),
}

/// Any failure surfaced by the stateful validator.
#[derive(Clone, Copy, Debug, PartialEq, Eq, Structural)]
pub enum StatefulValidatorError {
    StateError(StateError),
    TransactionExecutionError(TransactionExecutionError),
    TransactionExecutorError(TransactionExecutorError),
    TransactionPreValidationError(TransactionPreValidationError),
}

pub type StatefulValidatorResult<T> = Result<T, StatefulValidatorError>;

} // verus!
