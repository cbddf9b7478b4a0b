//! Pre-execution admission validation for account-abstraction transactions.
//!
//! The stateful validator decides, before a transaction is committed into a
//! block or accepted into a mempool, whether it is eligible: correct nonce,
//! sufficient fee and balance, and a successful account-side validation call.
//! Its only durable effect is an in-memory nonce increment on the state
//! overlay it is given; full execution is left to a separate component.

pub mod context;
pub mod errors;
pub mod execution;
pub mod fee;
pub mod laws;
pub mod state;
pub mod stateful_validator;
pub mod transaction;
