//! Block-wide and per-transaction context shared across validation stages.

use vstd::prelude::*;

use crate::transaction::{AccountTransaction, TransactionInfo};

verus! {

/// Protocol-version constants that bound a transaction's validation run.
#[derive(Clone, Copy, Debug, PartialEq, Eq, Structural)]
pub struct VersionedConstants {
    /// Initial gas budget handed to a transaction's entry point.
    pub tx_initial_gas: u64,
}

impl VersionedConstants {
    pub fn tx_initial_gas(&self) -> (r: u64)
        ensures
            r == self.tx_initial_gas,
    {
        self.tx_initial_gas
    }
}

/// Global, block-wide parameters under which transactions are validated.
#[derive(Clone, Copy, Debug, PartialEq, Eq, Structural)]
pub struct BlockContext {
    pub versioned_constants: VersionedConstants,
}

impl BlockContext {
    pub fn new(versioned_constants: VersionedConstants) -> (r: Self)
        ensures
            r.versioned_constants == versioned_constants,
    {
        BlockContext { versioned_constants }
    }

    pub fn versioned_constants(&self) -> (r: VersionedConstants)
        ensures
            r == self.versioned_constants,
    {
        self.versioned_constants
    }

    /// Derives the read-only context one transaction is validated under.
    pub fn to_tx_context(&self, tx: &AccountTransaction) -> (r: TransactionContext)
        ensures
            r.block_context == *self,
            r.tx_info == tx.spec_tx_info(),
    {
        TransactionContext { block_context: *self, tx_info: tx.tx_info() }
    }
}

/// Read-only view combining the block context with transaction-specific
/// information. Built once per transaction and shared by the stages of
/// that transaction's validation; never mutated after construction.
#[derive(Clone, Copy, Debug, PartialEq, Eq, Structural)]
pub struct TransactionContext {
    pub block_context: BlockContext,
    pub tx_info: TransactionInfo,
}

} // verus!
