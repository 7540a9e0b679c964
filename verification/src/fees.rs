//! EIP-1559 fee arithmetic: the priority-fee bump applied between
//! escalation rounds, the max-fee headroom formula, and the extraction of a
//! block's base fee.

use vstd::prelude::*;
use vstd::arithmetic::div_mod::{lemma_div_is_ordered, lemma_div_multiples_vanish};

use crate::error::BlockchainError;

verus! {

/// Priority fee assumed when a transaction carries none, in wei per gas
/// (two gwei).
pub const DEFAULT_PRIORITY_FEE: u128 = 2_000_000_000;

/// Percentage by which the priority fee grows each escalation round.
pub const DEFAULT_GAS_BUMP_PERCENTAGE: u64 = 10;

/// The fee pair a single escalation round submits with.
#[derive(Clone, Copy, PartialEq, Eq, Structural, Debug)]
pub struct FeeQuote {
    pub max_fee_per_gas: u128,
    pub max_priority_fee_per_gas: u128,
}

/// A priority fee raised by `pct` percent, rounded down.
pub open spec fn spec_bumped_priority(prev: int, pct: int) -> int {
    prev * (100 + pct) / 100
}

/// A max fee with headroom for one base-fee doubling over the wait window:
/// twice the current base fee plus the round's priority fee.
pub open spec fn spec_max_fee(base_fee: int, priority_fee: int) -> int {
    2 * base_fee + priority_fee
}

/// The priority fee an escalation sequence starts from: the transaction's
/// own, or the default baseline when it carries none.
pub open spec fn spec_initial_priority(previous: Option<u128>) -> int {
    match previous {
        Some(p) => p as int,
        None => DEFAULT_PRIORITY_FEE as int,
    }
}

/// Raising a fee by a non-negative percentage never lowers it.
pub proof fn lemma_bump_does_not_decrease(prev: int, pct: int)
    requires
        prev >= 0,
        pct >= 0,
    ensures
        spec_bumped_priority(prev, pct) >= prev,
{
    assert(prev * 100 <= prev * (100 + pct)) by (nonlinear_arith)
        requires
            prev >= 0,
            pct >= 0,
    ;
    lemma_div_is_ordered(prev * 100, prev * (100 + pct), 100);
    lemma_div_multiples_vanish(prev, 100);
    assert(prev * 100 == 100 * prev);
}

/// A bumped fee grows at most by the factor `(100 + pct) / 100`; with
/// `pct` at most a hundred, it at most doubles.
pub proof fn lemma_bump_at_most_doubles(prev: int, pct: int)
    requires
        prev >= 0,
        0 <= pct <= 100,
    ensures
        spec_bumped_priority(prev, pct) <= 2 * prev,
{
    assert(prev * (100 + pct) <= prev * 200) by (nonlinear_arith)
        requires
            prev >= 0,
            pct <= 100,
    ;
    lemma_div_is_ordered(prev * (100 + pct), prev * 200, 100);
    assert(prev * 200 == 100 * (2 * prev)) by (nonlinear_arith);
    lemma_div_multiples_vanish(2 * prev, 100);
}

/// The priority fee for the next escalation round: the previous one raised
/// by `pct` percent, rounded down. Never decreases the fee.
pub fn bump_priority_fee(prev: u128, pct: u64) -> (r: u128)
    requires
        prev * (100 + pct) <= u128::MAX,
    ensures
        r == spec_bumped_priority(prev as int, pct as int),
        r >= prev,
{
    proof {
        lemma_bump_does_not_decrease(prev as int, pct as int);
    }
    prev * (100 + pct as u128) / 100
}

/// The max fee for a round: twice the current base fee plus the round's
/// priority fee, so the quote covers one base-fee doubling across the wait
/// window.
pub fn compute_max_fee(base_fee: u128, priority_fee: u128) -> (r: u128)
    requires
        2 * base_fee + priority_fee <= u128::MAX,
    ensures
        r == spec_max_fee(base_fee as int, priority_fee as int),
        r >= 2 * base_fee,
        r >= priority_fee,
{
    base_fee * 2 + priority_fee
}

/// The priority fee an escalation sequence starts from: the transaction's
/// own baseline when it has one, else the default.
pub fn initial_priority_fee(previous: Option<u128>) -> (r: u128)
    ensures
        r == spec_initial_priority(previous),
{
    match previous {
        Some(p) => p,
        None => DEFAULT_PRIORITY_FEE,
    }
}

/// The base fee carried by the latest block. A block without the field
/// comes from a chain without fee-market support or a malformed response:
/// that is a compatibility problem, surfaced as its own error kind so it is
/// never mistaken for a transient failure.
pub fn extract_base_fee(base_fee_per_gas: Option<u128>) -> (r: Result<u128, BlockchainError>)
    ensures
        base_fee_per_gas is Some ==> r == Ok::<u128, BlockchainError>(base_fee_per_gas->0),
        base_fee_per_gas is None ==> r == Err::<u128, BlockchainError>(
            BlockchainError::BlockBaseFeeNotFound,
        ),
{
    match base_fee_per_gas {
        Some(f) => Ok(f),
        None => Err(BlockchainError::BlockBaseFeeNotFound),
    }
}

} // verus!
