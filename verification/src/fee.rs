//! Transaction receipts and the post-validation report over them.

use vstd::prelude::*;

use crate::context::TransactionContext;
use crate::errors::{FeeCheckError, TransactionExecutionError};
use crate::execution::{CallInfo, ExecutionResources};

verus! {

/// A fee amount, in the chain's smallest fee unit.
#[derive(Clone, Copy, Debug, PartialEq, Eq, Structural)]
pub struct Fee(pub u64);

/// The outcome of one run of an account's `validate` entry point, as the
/// external virtual machine and fee formula report it: an optional call
/// trace (absent is valid), the resources consumed, and the fee the fee
/// formula derived for that consumption.
#[derive(Clone, Copy, Debug, PartialEq, Eq)]
pub struct ValidateRun {
    pub call_info: Option<CallInfo>,
    pub resources: ExecutionResources,
    pub fee: Fee,
}

/// Summary of one validation or execution attempt: the resources consumed,
/// the data-availability cost charged, and the derived fee. Built once per
/// attempt; never mutated after construction.
#[derive(Clone, Copy, Debug, PartialEq, Eq, Structural)]
pub struct TransactionReceipt {
    pub resources: ExecutionResources,
    pub da_cost: u64,
    pub fee: Fee,
}

impl TransactionReceipt {
    /// Assembles the receipt of one `validate` run: the resources the run
    /// consumed, the fee derived for them, and the extra data-availability
    /// cost the caller charges. Validation-only calls carry no blob or data
    /// cost, so their callers pass zero.
    pub fn from_validate_run(run: &ValidateRun, extra_da_cost: u64) -> (r: TransactionReceipt)
        ensures
            r == (TransactionReceipt { resources: run.resources, da_cost: extra_da_cost, fee: run.fee }),
    {
        TransactionReceipt { resources: run.resources, da_cost: extra_da_cost, fee: run.fee }
    }
}

/// Check that the resources actually consumed while validating stay within
/// what the sender's declared fee bounds cover.
pub struct PostValidationReport {}

impl PostValidationReport {
    /// The concrete resource-to-fee comparison belongs to the external fee
    /// policy, so its verdict on this context and receipt arrives
    /// precomputed in `verdict`; a rejection surfaces as an execution
    /// error wrapping the fee-check failure.
    pub fn verify(
        tx_context: &TransactionContext,
        receipt: &TransactionReceipt,
        verdict: &Result<(), FeeCheckError>,
    ) -> (r: Result<(), TransactionExecutionError>)
        ensures
            r == spec_post_validation(*verdict),
    {
        match verdict {
            Ok(()) => Ok(()),
            Err(e) => Err(TransactionExecutionError::FeeCheckError(*e)),
        }
    }
}

/// The post-validation report's result, lifted into the execution-error
/// taxonomy.
pub open spec fn spec_post_validation(verdict: Result<(), FeeCheckError>) -> Result<
    (),
    TransactionExecutionError,
> {
    match verdict {
        Ok(()) => Ok(()),
        Err(e) => Err(TransactionExecutionError::FeeCheckError(e)),
    }
}

} // verus!
