//! The closed error taxonomy shared by the retry, fee and escalation
//! components, and the transaction identifier type that several of its
//! variants carry.

use vstd::prelude::*;

verus! {

/// A 256-bit transaction identifier, held as two 128-bit words
/// (`hi` is the most significant half).
#[derive(Clone, Copy, PartialEq, Eq, Structural, Debug)]
pub struct TxHash {
    pub hi: u128,
    pub lo: u128,
}

/// Every failure this layer can surface. The set is closed so that callers
/// can branch exhaustively on the outcome of a submission sequence.
#[derive(Clone, Debug, PartialEq, Eq)]
pub enum BlockchainError {
    /// The sender's balance cannot cover the transaction.
    InsufficientFunds(String),
    /// A receipt was obtained with a non-success status; carries the
    /// reported transaction hash.
    TransactionFailed(String),
    /// A read call failed even after the backoff retrier's ceiling.
    RPCError(String),
    /// Call data could not be decoded.
    DecodeCallDataError(String),
    /// A token lookup found nothing.
    TokenNotFound,
    /// An input (such as an endpoint URL) could not be parsed.
    ParseError(String),
    /// A receipt lookup for a known transaction failed outright.
    FailedToGetTransactionReceipt(TxHash, String),
    /// A block with the given number could not be found.
    BlockNotFound(u64),
    /// The latest block lacked its base-fee field: an environment or
    /// compatibility mismatch, not a transient failure.
    BlockBaseFeeNotFound,
    /// A transaction known to have been accepted could not be fetched back
    /// by its identifier.
    TxNotFound(TxHash),
    /// The initial submission was rejected; never retried.
    TransactionError(String),
    /// No receipt was ever observed within the configured number of
    /// escalation rounds; the transaction may still confirm later.
    MaxTxRetriesReached,
}

} // verus!
