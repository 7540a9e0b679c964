//! A reliability layer for submitting fee-market transactions to a
//! blockchain node: a generic retry-with-exponential-backoff policy for
//! idempotent reads, an EIP-1559 fee escalation state machine that re-submits
//! a stalled transaction with a bumped priority fee, and the closed error
//! taxonomy both surface to callers.

pub mod error;
pub mod escalation;
pub mod fees;
pub mod retry;

pub use error::BlockchainError;
pub use error::TxHash;
