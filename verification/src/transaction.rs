//! Account transactions and the pre-validation stage they perform.

use vstd::prelude::*;

use crate::context::TransactionContext;
use crate::errors::{StateError, TransactionFeeError, TransactionPreValidationError};
use crate::state::{ContractAddress, Nonce, StateOverlay};

verus! {

/// Hash identifying a transaction.
#[derive(Clone, Copy, Debug, PartialEq, Eq, Structural, Hash)]
pub struct TransactionHash(pub u64);

/// Transaction-specific information every account transaction carries.
#[derive(Clone, Copy, Debug, PartialEq, Eq, Structural)]
pub struct TransactionInfo {
    pub sender_address: ContractAddress,
    pub nonce: Nonce,
}

impl TransactionInfo {
    pub fn sender_address(&self) -> (r: ContractAddress)
        ensures
            r == self.sender_address,
    {
        self.sender_address
    }

    pub fn nonce(&self) -> (r: Nonce)
        ensures
            r == self.nonce,
    {
        self.nonce
    }
}

/// A transaction whose sender is a smart-contract account exposing
/// `validate` and `execute` entry points. This core only distinguishes
/// the account-deploying variant from everything else.
#[derive(Clone, Copy, Debug, PartialEq, Eq, Structural)]
pub enum AccountTransaction {
    Invoke(TransactionInfo),
    Declare(TransactionInfo),
    DeployAccount(TransactionInfo),
}

/// The outcome of the pre-validation stage: the non-strict (or strict)
/// nonce-ordering check against the overlay, then, when `fee_check` is set,
/// the fee layer's balance-sufficiency verdict.
pub open spec fn spec_pre_validation(
    nonces: Map<u64, u64>,
    info: TransactionInfo,
    fee_verdict: Result<(), TransactionFeeError>,
    fee_check: bool,
    strict_nonce_check: bool,
) -> Result<(), TransactionPreValidationError> {
    let sender = info.sender_address.0;
    if !nonces.contains_key(sender) {
        Err(
            TransactionPreValidationError::StateError(
                StateError::UnresolvedAddress { address: info.sender_address },
            ),
        )
    } else if !spec_nonce_acceptable(nonces[sender], info.nonce.0, strict_nonce_check) {
        Err(
            TransactionPreValidationError::InvalidNonce {
                address: info.sender_address,
                account_nonce: Nonce(nonces[sender]),
                incoming_tx_nonce: info.nonce,
            },
        )
    } else if fee_check && fee_verdict is Err {
        Err(TransactionPreValidationError::TransactionFeeError(fee_verdict->Err_0))
    } else {
        Ok(())
    }
}

/// Nonce-ordering policy. The strict form requires the incoming nonce to
/// equal the account's nonce; the non-strict form, used for mempool
/// admission, accepts any incoming nonce at or above it, so that several
/// queued transactions from one sender all pass before any of them has
/// advanced the state.
pub open spec fn spec_nonce_acceptable(
    account_nonce: u64,
    incoming_nonce: u64,
    strict: bool,
) -> bool {
    if strict {
        incoming_nonce == account_nonce
    } else {
        incoming_nonce >= account_nonce
    }
}

impl AccountTransaction {
    /// The transaction-specific information of any variant.
    pub open spec fn spec_tx_info(self) -> TransactionInfo {
        match self {
            AccountTransaction::Invoke(info) => info,
            AccountTransaction::Declare(info) => info,
            AccountTransaction::DeployAccount(info) => info,
        }
    }

    /// Whether this is the account-deploying variant.
    pub open spec fn is_deploy_account(self) -> bool {
        self is DeployAccount
    }

    pub fn tx_info(&self) -> (r: TransactionInfo)
        ensures
            r == self.spec_tx_info(),
    {
        match self {
            AccountTransaction::Invoke(info) => *info,
            AccountTransaction::Declare(info) => *info,
            AccountTransaction::DeployAccount(info) => *info,
        }
    }

    /// Nonce-ordering and, when `fee_check` is set, fee/balance sufficiency
    /// checks, run before any untrusted account code. The nonce rule is the
    /// ordering policy of [`spec_nonce_acceptable`]. The balance formula
    /// itself belongs to the external fee layer, so its verdict for this
    /// transaction arrives precomputed in `fee_verdict`; it is consulted
    /// only when `fee_check` is set.
    pub fn perform_pre_validation_stage(
        &self,
        state: &StateOverlay,
        tx_context: &TransactionContext,
        fee_check: bool,
        strict_nonce_check: bool,
        fee_verdict: &Result<(), TransactionFeeError>,
    ) -> (r: Result<(), TransactionPreValidationError>)
        ensures
            r == spec_pre_validation(
                state@,
                self.spec_tx_info(),
                *fee_verdict,
                fee_check,
                strict_nonce_check,
            ),
    {
        let info = self.tx_info();
        let account_nonce = match state.get_nonce_at(info.sender_address) {
            Ok(n) => n,
            Err(e) => {
                return Err(TransactionPreValidationError::StateError(e));
            },
        };
        let acceptable = if strict_nonce_check {
            info.nonce.0 == account_nonce.0
        } else {
            info.nonce.0 >= account_nonce.0
        };
        if !acceptable {
            return Err(
                TransactionPreValidationError::InvalidNonce {
                    address: info.sender_address,
                    account_nonce,
                    incoming_tx_nonce: info.nonce,
                },
            );
        }
        if fee_check {
            if let Err(fee_error) = fee_verdict {
                return Err(TransactionPreValidationError::TransactionFeeError(*fee_error));
            }
        }
        Ok(())
    }
}

} // verus!
