//! The stateful validator: sequences pre-validation, account-side
//! validation, post-validation and the nonce commit for one transaction,
//! with the deploy-account fast path.

use vstd::prelude::*;

use crate::context::{BlockContext, TransactionContext};
use crate::errors::{
    FeeCheckError, StateError, StatefulValidatorError, StatefulValidatorResult,
    TransactionExecutionError, TransactionExecutorError, TransactionFeeError,
};
use crate::execution::CallInfo;
use crate::fee::{spec_post_validation, PostValidationReport, TransactionReceipt, ValidateRun};
use crate::state::{ContractAddress, Nonce, StateOverlay};
use crate::transaction::{
    spec_pre_validation, AccountTransaction, TransactionHash, TransactionInfo,
};

verus! {

/// What the external collaborators returned for one transaction: the
/// executor's end-to-end run (taken on the deploy fast path), the fee
/// layer's balance-sufficiency verdict, the account's `validate` run, and
/// the post-validation report's verdict. The validator decides which of
/// these to consult, in what order, and what to commit.
#[derive(Clone, Copy, Debug, PartialEq, Eq)]
pub struct StageOutcomes {
    pub execute: Result<(), TransactionExecutorError>,
    pub fee: Result<(), TransactionFeeError>,
    pub validate: Result<ValidateRun, TransactionExecutionError>,
    pub post_validation: Result<(), FeeCheckError>,
}

/// The component that owns the state overlay for the validator's lifetime
/// and runs transactions against it. The overlay is a non-optional,
/// exclusively owned handle: while a validator wraps the executor, the
/// executor always has its state attached.
pub struct TransactionExecutor {
    pub block_state: StateOverlay,
    pub block_context: BlockContext,
}

impl TransactionExecutor {
    pub fn new(block_state: StateOverlay, block_context: BlockContext) -> (r: Self)
        ensures
            r.block_state@ == block_state@,
            r.block_context == block_context,
    {
        TransactionExecutor { block_state, block_context }
    }
}

/// Manages state-related transaction validations for pre-execution flows.
pub struct StatefulValidator {
    pub tx_executor: TransactionExecutor,
    max_nonce_for_validation_skip: Nonce,
}

/// The verdict of the whole admission pipeline for one transaction, given
/// the nonce bindings it starts from and the collaborators' responses.
/// A deploy-account transaction takes the fast path: it is routed to full
/// execution and nothing else is consulted. Every other transaction passes
/// the pre-validation stage (with fee checking unless `skip_fee_check`),
/// then, unless `skip_validate`, the account's `validate` run and the
/// post-validation report; the first failure wins.
pub open spec fn spec_perform_validations(
    nonces: Map<u64, u64>,
    tx: AccountTransaction,
    outcomes: StageOutcomes,
    skip_validate: bool,
    skip_fee_check: bool,
) -> Result<(), StatefulValidatorError> {
    if tx.is_deploy_account() {
        match outcomes.execute {
            Ok(()) => Ok(()),
            Err(e) => Err(StatefulValidatorError::TransactionExecutorError(e)),
        }
    } else {
        match spec_pre_validation(nonces, tx.spec_tx_info(), outcomes.fee, !skip_fee_check, false) {
            Err(e) => Err(StatefulValidatorError::TransactionPreValidationError(e)),
            Ok(()) => if !skip_validate {
                match outcomes.validate {
                    Err(e) => Err(StatefulValidatorError::TransactionExecutionError(e)),
                    Ok(_) => match spec_post_validation(outcomes.post_validation) {
                        Err(e) => Err(StatefulValidatorError::TransactionExecutionError(e)),
                        Ok(()) => Ok(()),
                    },
                }
            } else {
                Ok(())
            },
        }
    }
}

/// The nonce bindings after the pipeline ran: a successfully admitted
/// non-deploy transaction advances its sender's nonce by exactly one;
/// everything else — the deploy fast path and every failure — leaves the
/// bindings untouched.
pub open spec fn spec_nonces_after(
    nonces: Map<u64, u64>,
    tx: AccountTransaction,
    outcomes: StageOutcomes,
    skip_validate: bool,
    skip_fee_check: bool,
) -> Map<u64, u64> {
    let sender = tx.spec_tx_info().sender_address.0;
    if !tx.is_deploy_account() && spec_perform_validations(
        nonces,
        tx,
        outcomes,
        skip_validate,
        skip_fee_check,
    ) is Ok {
        nonces.insert(sender, (nonces[sender] + 1) as u64)
    } else {
        nonces
    }
}

/// The validation stage's result: the optional call trace and the receipt
/// assembled from the run, with no extra data-availability cost.
pub open spec fn spec_validate(outcomes: StageOutcomes) -> Result<
    (Option<CallInfo>, TransactionReceipt),
    StatefulValidatorError,
> {
    match outcomes.validate {
        Ok(run) => Ok(
            (
                run.call_info,
                TransactionReceipt { resources: run.resources, da_cost: 0, fee: run.fee },
            ),
        ),
        Err(e) => Err(StatefulValidatorError::TransactionExecutionError(e)),
    }
}

/// Whether account-side validation should be skipped because the sender's
/// deploy-account transaction is known but not yet processed: a deploy
/// hash was supplied, the on-chain nonce still sits at the sentinel zero,
/// and the incoming nonce is past the deploy's own (at least one) yet
/// within the configured window.
pub open spec fn spec_skip_validate_due_to_unprocessed_deploy_account(
    nonces: Map<u64, u64>,
    tx_info: TransactionInfo,
    deploy_account_tx_hash: Option<TransactionHash>,
    max_nonce_for_validation_skip: u64,
) -> Result<bool, StatefulValidatorError> {
    let sender = tx_info.sender_address.0;
    if !nonces.contains_key(sender) {
        Err(
            StatefulValidatorError::StateError(
                StateError::UnresolvedAddress { address: tx_info.sender_address },
            ),
        )
    } else {
        Ok(
            deploy_account_tx_hash is Some && nonces[sender] == 0 && 1 <= tx_info.nonce.0
                && tx_info.nonce.0 <= max_nonce_for_validation_skip,
        )
    }
}

/// A read of the nonce bound to `address`, or the overlay's state error
/// where the address cannot be resolved.
pub open spec fn spec_get_nonce(nonces: Map<u64, u64>, address: ContractAddress) -> Result<
    Nonce,
    StatefulValidatorError,
> {
    if nonces.contains_key(address.0) {
        Ok(Nonce(nonces[address.0]))
    } else {
        Err(StatefulValidatorError::StateError(StateError::UnresolvedAddress { address }))
    }
}

impl StatefulValidator {
    /// The configured bound on how many post-deploy nonces may bypass
    /// account-side validation while the deploy is unprocessed.
    pub closed spec fn spec_max_nonce_for_validation_skip(&self) -> u64 {
        self.max_nonce_for_validation_skip.0
    }

    /// The nonce bindings of the executor's state overlay.
    pub closed spec fn nonces(&self) -> Map<u64, u64> {
        self.tx_executor.block_state@
    }

    /// The block context the validator's executor runs under.
    pub closed spec fn spec_block_context(&self) -> BlockContext {
        self.tx_executor.block_context
    }

    pub fn create(
        state: StateOverlay,
        block_context: BlockContext,
        max_nonce_for_validation_skip: Nonce,
    ) -> (r: Self)
        ensures
            r.nonces() == state@,
            r.spec_block_context() == block_context,
            r.spec_max_nonce_for_validation_skip() == max_nonce_for_validation_skip.0,
    {
        let tx_executor = TransactionExecutor::new(state, block_context);
        StatefulValidator { tx_executor, max_nonce_for_validation_skip }
    }

    /// Performs all admission validations on an account transaction and,
    /// on success of a non-deploy transaction, commits the nonce: the one
    /// durable effect of this core. `skip_validate` and `skip_fee_check`
    /// are independent toggles on the one pipeline: skipping the fee check
    /// still runs pre-validation's nonce check, and skipping validation
    /// still runs pre-validation in full. Any stage failure short-circuits
    /// the rest and leaves every nonce unchanged.
    pub fn perform_validations(
        &mut self,
        tx: &AccountTransaction,
        outcomes: &StageOutcomes,
        skip_validate: bool,
        skip_fee_check: bool,
    ) -> (r: StatefulValidatorResult<()>)
        requires
            !tx.is_deploy_account() && old(self).nonces().contains_key(
                tx.spec_tx_info().sender_address.0,
            ) ==> old(self).nonces()[tx.spec_tx_info().sender_address.0] < u64::MAX,
        ensures
            r == spec_perform_validations(
                old(self).nonces(),
                *tx,
                *outcomes,
                skip_validate,
                skip_fee_check,
            ),
            final(self).nonces() == spec_nonces_after(
                old(self).nonces(),
                *tx,
                *outcomes,
                skip_validate,
                skip_fee_check,
            ),
            final(self).spec_block_context() == old(self).spec_block_context(),
            final(self).spec_max_nonce_for_validation_skip() == old(
                self,
            ).spec_max_nonce_for_validation_skip(),
    {
        // A deploy-account transaction is fully executed, not merely
        // validated: its constructor must run before its own validate entry
        // point exists, and the execute path already includes every check.
        if let AccountTransaction::DeployAccount(_) = tx {
            match self.execute(tx, outcomes) {
                Ok(()) => {
                    return Ok(());
                },
                Err(e) => {
                    return Err(e);
                },
            }
        }

        let tx_context = self.tx_executor.block_context.to_tx_context(tx);
        match self.perform_pre_validation_stage(tx, &tx_context, !skip_fee_check, outcomes) {
            Ok(()) => {},
            Err(e) => {
                return Err(e);
            },
        }

        if !skip_validate {
            let versioned_constants = self.tx_executor.block_context.versioned_constants();
            let validation = self.validate(tx, versioned_constants.tx_initial_gas(), outcomes);
            let actual_cost = match validation {
                Ok((_optional_call_info, receipt)) => receipt,
                Err(e) => {
                    return Err(e);
                },
            };
            match PostValidationReport::verify(&tx_context, &actual_cost, &outcomes.post_validation) {
                Ok(()) => {},
                Err(e) => {
                    return Err(StatefulValidatorError::TransactionExecutionError(e));
                },
            }
        }

        // The nonce commit comes last, so that pre-validation observed the
        // pre-increment value and a failed stage left the nonce untouched.
        match self.tx_executor.block_state.increment_nonce(tx_context.tx_info.sender_address()) {
            Ok(()) => Ok(()),
            Err(e) => Err(StatefulValidatorError::StateError(e)),
        }
    }

    /// Routes a transaction to the executor's end-to-end execute path. The
    /// run itself is the external executor's work, so its verdict arrives
    /// precomputed in `outcomes`; this core makes no separate state change
    /// of its own here — a deploy's nonce advance is subsumed by the
    /// execute path.
    fn execute(&mut self, tx: &AccountTransaction, outcomes: &StageOutcomes) -> (r:
        StatefulValidatorResult<()>)
        ensures
            *final(self) == *old(self),
            r == match outcomes.execute {
                Ok(()) => Ok::<(), StatefulValidatorError>(()),
                Err(e) => Err(StatefulValidatorError::TransactionExecutorError(e)),
            },
    {
        match &outcomes.execute {
            Ok(()) => Ok(()),
            Err(e) => Err(StatefulValidatorError::TransactionExecutorError(*e)),
        }
    }

    /// Runs the pre-validation stage — the nonce-ordering check, non-strict
    /// here, and the fee/balance check when `fee_check` is set — against the
    /// executor's overlay, before any untrusted code.
    pub fn perform_pre_validation_stage(
        &mut self,
        tx: &AccountTransaction,
        tx_context: &TransactionContext,
        fee_check: bool,
        outcomes: &StageOutcomes,
    ) -> (r: StatefulValidatorResult<()>)
        ensures
            *final(self) == *old(self),
            r == match spec_pre_validation(
                old(self).nonces(),
                tx.spec_tx_info(),
                outcomes.fee,
                fee_check,
                false,
            ) {
                Ok(()) => Ok::<(), StatefulValidatorError>(()),
                Err(e) => Err(StatefulValidatorError::TransactionPreValidationError(e)),
            },
    {
        let strict_nonce_check = false;
        match tx.perform_pre_validation_stage(
            &self.tx_executor.block_state,
            tx_context,
            fee_check,
            strict_nonce_check,
            &outcomes.fee,
        ) {
            Ok(()) => Ok(()),
            Err(e) => Err(StatefulValidatorError::TransactionPreValidationError(e)),
        }
    }

    /// Invokes the account's `validate` entry point through the executor
    /// under the given initial gas budget, with the step budget additionally
    /// bounded by the sender's paid resources. The run is the external
    /// virtual machine's work, so its outcome arrives precomputed in
    /// `outcomes`; this stage assembles the transaction receipt from that
    /// run with the extra data-availability cost fixed at zero.
    pub fn validate(
        &mut self,
        tx: &AccountTransaction,
        _remaining_gas: u64,
        outcomes: &StageOutcomes,
    ) -> (r: StatefulValidatorResult<(Option<CallInfo>, TransactionReceipt)>)
        ensures
            *final(self) == *old(self),
            r == spec_validate(*outcomes),
    {
        let run = match &outcomes.validate {
            Ok(run) => *run,
            Err(e) => {
                return Err(StatefulValidatorError::TransactionExecutionError(*e));
            },
        };
        let tx_receipt = TransactionReceipt::from_validate_run(&run, 0);
        Ok((run.call_info, tx_receipt))
    }

    /// Whether a deploy-account transaction was submitted but not processed
    /// yet. If so, the account's `validate` entry point may be skipped for
    /// subsequent transactions for a better user experience: they would
    /// otherwise fail solely because the account does not exist yet on this
    /// state view. Callers that adopt the policy combine the result, by
    /// logical or, with their own `skip_validate` choice; the pipeline
    /// itself takes only the caller's flag.
    pub fn skip_validate_due_to_unprocessed_deploy_account(
        &mut self,
        tx_info: &TransactionInfo,
        deploy_account_tx_hash: Option<TransactionHash>,
    ) -> (r: StatefulValidatorResult<bool>)
        ensures
            *final(self) == *old(self),
            r == spec_skip_validate_due_to_unprocessed_deploy_account(
                old(self).nonces(),
                *tx_info,
                deploy_account_tx_hash,
                old(self).spec_max_nonce_for_validation_skip(),
            ),
    {
        let nonce = match self.tx_executor.block_state.get_nonce_at(tx_info.sender_address()) {
            Ok(n) => n,
            Err(e) => {
                return Err(StatefulValidatorError::StateError(e));
            },
        };
        let tx_nonce = tx_info.nonce();

        let deploy_account_not_processed = deploy_account_tx_hash.is_some() && nonce.0 == 0;
        let is_post_deploy_nonce = 1 <= tx_nonce.0;
        let nonce_small_enough_to_qualify_for_validation_skip = tx_nonce.0
            <= self.max_nonce_for_validation_skip.0;

        let skip_validate = deploy_account_not_processed && is_post_deploy_nonce
            && nonce_small_enough_to_qualify_for_validation_skip;

        Ok(skip_validate)
    }

    /// Read-only projection of the sender's nonce onto the state overlay.
    pub fn get_nonce(&mut self, account_address: ContractAddress) -> (r: StatefulValidatorResult<
        Nonce,
    >)
        ensures
            *final(self) == *old(self),
            r == spec_get_nonce(old(self).nonces(), account_address),
    {
        match self.tx_executor.block_state.get_nonce_at(account_address) {
            Ok(n) => Ok(n),
            Err(e) => Err(StatefulValidatorError::StateError(e)),
        }
    }
}

} // verus!
