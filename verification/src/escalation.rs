//! The gas-escalation submitter: a bounded sequence of re-submission
//! rounds over one logical transaction.
//!
//! Each round queries the current base fee, bumps the priority fee by a
//! fixed percentage, re-submits with the same nonce, waits a fixed window,
//! and checks the receipt. A present receipt ends the sequence (confirmed
//! or reverted); an absent one starts the next round until the configured
//! ceiling; a rejected re-submission or a failed base-fee query ends the
//! sequence at once. [`EscalationState`] holds the per-round decision
//! logic, and [`run_escalation`] is the whole sequence applied to a
//! scripted series of round observations.

use vstd::prelude::*;
use vstd::arithmetic::power2::{lemma2_to64, lemma_pow2_strictly_increases, lemma_pow2_unfold, pow2};

use crate::error::TxHash;
use crate::fees::{
    bump_priority_fee, compute_max_fee, initial_priority_fee, lemma_bump_at_most_doubles,
    lemma_bump_does_not_decrease, spec_bumped_priority, spec_initial_priority, spec_max_fee,
    FeeQuote,
};

verus! {

/// Escalation rounds in the standard configuration.
pub const DEFAULT_MAX_ATTEMPTS: u32 = 3;

/// Wait window between a re-submission and its receipt check, in
/// milliseconds, in the standard configuration.
pub const DEFAULT_WAIT_TIME_MS: u64 = 60_000;

/// Ceiling on configured rounds under which the fee arithmetic of a whole
/// sequence stays within `u128`.
pub const MAX_ESCALATION_ATTEMPTS: u32 = 30;

/// Ceiling on the starting priority fee (wei per gas) under which a whole
/// sequence of bumps stays within `u128`.
pub const MAX_INITIAL_PRIORITY_FEE: u128 = 0x1_0000_0000_0000_0000;

/// Ceiling on a round's base fee (wei per gas) under which the max-fee
/// formula stays within `u128`.
pub const MAX_BASE_FEE: u128 = 0x1_00000000_00000000_00000000;

/// The fixed parameters of one escalation sequence: how many rounds may
/// run, how long each waits for a receipt, and the fee bump percentage.
#[derive(Clone, Copy, PartialEq, Eq, Structural, Debug)]
pub struct EscalationConfig {
    pub max_attempts: u32,
    pub wait_time_ms: u64,
    pub gas_bump_percentage: u64,
}

impl EscalationConfig {
    /// A configuration is usable when its round count and bump percentage
    /// keep the fee arithmetic in `u128` and the total wait in `u64`.
    pub open spec fn wf(self) -> bool {
        &&& self.max_attempts <= MAX_ESCALATION_ATTEMPTS
        &&& self.gas_bump_percentage <= 100
        &&& self.max_attempts * self.wait_time_ms <= u64::MAX
    }

    /// The standard configuration: three rounds, a sixty-second wait
    /// window, a ten percent bump.
    pub fn standard() -> (c: EscalationConfig)
        ensures
            c.max_attempts == DEFAULT_MAX_ATTEMPTS,
            c.wait_time_ms == DEFAULT_WAIT_TIME_MS,
            c.gas_bump_percentage == crate::fees::DEFAULT_GAS_BUMP_PERCENTAGE,
            c.wf(),
    {
        EscalationConfig {
            max_attempts: DEFAULT_MAX_ATTEMPTS,
            wait_time_ms: DEFAULT_WAIT_TIME_MS,
            gas_bump_percentage: crate::fees::DEFAULT_GAS_BUMP_PERCENTAGE,
        }
    }
}

/// The priority fee in force once `round` bumps have been applied to the
/// starting fee.
pub open spec fn priority_at(initial: int, pct: int, round: nat) -> int
    decreases round,
{
    if round == 0 {
        initial
    } else {
        spec_bumped_priority(priority_at(initial, pct, (round - 1) as nat), pct)
    }
}

/// A bumped priority fee stays non-negative and below `initial * 2^round`
/// whenever the bump percentage is at most a hundred.
pub proof fn lemma_priority_at_bounds(initial: int, pct: int, round: nat)
    requires
        0 <= initial,
        0 <= pct <= 100,
    ensures
        0 <= priority_at(initial, pct, round),
        priority_at(initial, pct, round) <= initial * pow2(round),
    decreases round,
{
    if round == 0 {
        assert(pow2(0) == 1) by { lemma2_to64(); }
    } else {
        let prev = priority_at(initial, pct, (round - 1) as nat);
        lemma_priority_at_bounds(initial, pct, (round - 1) as nat);
        lemma_bump_does_not_decrease(prev, pct);
        lemma_bump_at_most_doubles(prev, pct);
        lemma_pow2_unfold(round);
        assert(2 * (initial * pow2((round - 1) as nat)) == initial * pow2(round))
            by (nonlinear_arith)
            requires
                pow2(round) == 2 * pow2((round - 1) as nat),
        ;
    }
}

/// Fee bump monotonicity: each round's priority fee is exactly the previous
/// round's raised by the bump percentage and never decreases, and the max
/// fee quoted against any base fee is at least twice that base fee.
pub proof fn lemma_fee_bump_monotonic(initial: int, pct: int, round: nat, base_fee: int)
    requires
        0 <= initial,
        0 <= pct <= 100,
        0 <= base_fee,
    ensures
        priority_at(initial, pct, round + 1) == spec_bumped_priority(
            priority_at(initial, pct, round),
            pct,
        ),
        priority_at(initial, pct, round + 1) >= priority_at(initial, pct, round),
        spec_max_fee(base_fee, priority_at(initial, pct, round + 1)) >= 2 * base_fee,
{
    lemma_priority_at_bounds(initial, pct, round);
    lemma_bump_does_not_decrease(priority_at(initial, pct, round), pct);
}

/// What one escalation round observed, as the event sequence that drives
/// the state machine.
#[derive(Clone, Copy, PartialEq, Eq, Structural, Debug)]
pub enum RoundEvent {
    /// The round's base-fee query failed even through the backoff retrier.
    BaseFeeFailed,
    /// Fees were computed but the node rejected the re-submission.
    SendFailed { base_fee: u128 },
    /// The re-submission was accepted and the wait window elapsed, but the
    /// receipt was still absent.
    ReceiptAbsent { base_fee: u128 },
    /// A receipt was found for the accepted re-submission.
    ReceiptFound { base_fee: u128, status_ok: bool, hash: TxHash },
}

/// The terminal outcome of an escalation sequence.
#[derive(Clone, Copy, PartialEq, Eq, Structural, Debug)]
pub enum EscalationOutcome {
    /// A receipt reported success; the transaction confirmed.
    Confirmed(TxHash),
    /// A receipt reported a non-success status.
    Reverted(TxHash),
    /// A re-submission was rejected by the node; never retried, the
    /// sequence stops at once.
    SubmissionFailed,
    /// A round's base-fee query failed; the error propagates at once.
    BaseFeeUnavailable,
    /// Every round's receipt came back absent. The transaction's on-chain
    /// fate stays unknown; it may still confirm later.
    Exhausted,
}

/// A round's base fee, when the round observed one, stays under the
/// ceiling that keeps the max-fee formula in `u128`.
pub open spec fn event_base_fee_bounded(ev: RoundEvent) -> bool {
    match ev {
        RoundEvent::BaseFeeFailed => true,
        RoundEvent::SendFailed { base_fee } => base_fee <= MAX_BASE_FEE,
        RoundEvent::ReceiptAbsent { base_fee } => base_fee <= MAX_BASE_FEE,
        RoundEvent::ReceiptFound { base_fee, .. } => base_fee <= MAX_BASE_FEE,
    }
}

/// The outcome of the escalation loop started `attempt` rounds in, given
/// what each remaining round would observe: the terminal outcome, the
/// number of re-submission calls made, and the number of receipt checks.
pub open spec fn spec_escalation(cfg: EscalationConfig, attempt: nat, events: Seq<RoundEvent>) -> (
    EscalationOutcome,
    nat,
    nat,
)
    decreases events.len(),
{
    if attempt >= cfg.max_attempts {
        (EscalationOutcome::Exhausted, 0nat, 0nat)
    } else if events.len() == 0 {
        (EscalationOutcome::Exhausted, 0nat, 0nat)
    } else {
        match events[0] {
            RoundEvent::BaseFeeFailed => (EscalationOutcome::BaseFeeUnavailable, 0nat, 0nat),
            RoundEvent::SendFailed { .. } => (EscalationOutcome::SubmissionFailed, 1nat, 0nat),
            RoundEvent::ReceiptAbsent { .. } => {
                let rest = spec_escalation(cfg, attempt + 1, events.skip(1));
                (rest.0, (rest.1 + 1) as nat, (rest.2 + 1) as nat)
            },
            RoundEvent::ReceiptFound { status_ok, hash, .. } => {
                (
                    if status_ok {
                        EscalationOutcome::Confirmed(hash)
                    } else {
                        EscalationOutcome::Reverted(hash)
                    },
                    1nat,
                    1nat,
                )
            },
        }
    }
}

/// While receipts stay absent, each round adds exactly one re-submission
/// and one receipt check to whatever the rest of the sequence does.
proof fn lemma_escalation_absent_prefix(
    cfg: EscalationConfig,
    attempt: nat,
    events: Seq<RoundEvent>,
    j: nat,
)
    requires
        attempt + j <= cfg.max_attempts,
        j <= events.len(),
        forall|i: int| 0 <= i < j ==> events[i] is ReceiptAbsent,
    ensures
        ({
            let full = spec_escalation(cfg, attempt, events);
            let rest = spec_escalation(cfg, (attempt + j) as nat, events.skip(j as int));
            &&& full.0 == rest.0
            &&& full.1 == rest.1 + j
            &&& full.2 == rest.2 + j
        }),
    decreases j,
{
    if j == 0 {
        assert(events.skip(0) =~= events);
    } else {
        assert forall|i: int| 0 <= i < j - 1 implies events.skip(1)[i] is ReceiptAbsent by {
            assert(events.skip(1)[i] == events[i + 1]);
        }
        lemma_escalation_absent_prefix(cfg, attempt + 1, events.skip(1), (j - 1) as nat);
        assert(events.skip(1).skip(j - 1) =~= events.skip(j as int));
    }
}

/// If the first present receipt arrives at round `j` (rounds counted from
/// zero, `j` within the configured attempts) and reports success, the
/// sequence ends there with `Confirmed` and performs no further round:
/// exactly `j + 1` re-submissions and `j + 1` receipt checks in all.
pub proof fn lemma_escalation_confirms_at(
    cfg: EscalationConfig,
    events: Seq<RoundEvent>,
    j: nat,
    hash: TxHash,
)
    requires
        j < cfg.max_attempts,
        j < events.len(),
        forall|i: int| 0 <= i < j ==> events[i] is ReceiptAbsent,
        events[j as int] matches RoundEvent::ReceiptFound { status_ok: true, hash: h, .. } && h
            == hash,
    ensures
        spec_escalation(cfg, 0, events).0 == EscalationOutcome::Confirmed(hash),
        spec_escalation(cfg, 0, events).1 == j + 1,
        spec_escalation(cfg, 0, events).2 == j + 1,
{
    lemma_escalation_absent_prefix(cfg, 0, events, j);
    assert(events.skip(j as int)[0] == events[j as int]);
}

/// If no receipt is ever observed through the configured maximum, the
/// sequence ends `Exhausted` having performed exactly `max_attempts`
/// re-submissions and receipt checks — no more, no fewer.
pub proof fn lemma_escalation_exhausts(cfg: EscalationConfig, events: Seq<RoundEvent>)
    requires
        events.len() >= cfg.max_attempts,
        forall|i: int| 0 <= i < cfg.max_attempts ==> events[i] is ReceiptAbsent,
    ensures
        spec_escalation(cfg, 0, events).0 == EscalationOutcome::Exhausted,
        spec_escalation(cfg, 0, events).1 == cfg.max_attempts,
        spec_escalation(cfg, 0, events).2 == cfg.max_attempts,
{
    lemma_escalation_absent_prefix(cfg, 0, events, cfg.max_attempts as nat);
}

/// If the re-submission of round `j` is rejected (rounds counted from
/// zero), the sequence stops at once with `SubmissionFailed`: the `j`
/// earlier re-submissions, the rejected one, and no further round or
/// receipt check.
pub proof fn lemma_escalation_stops_on_send_failure(
    cfg: EscalationConfig,
    events: Seq<RoundEvent>,
    j: nat,
)
    requires
        j < cfg.max_attempts,
        j < events.len(),
        forall|i: int| 0 <= i < j ==> events[i] is ReceiptAbsent,
        events[j as int] is SendFailed,
    ensures
        spec_escalation(cfg, 0, events).0 == EscalationOutcome::SubmissionFailed,
        spec_escalation(cfg, 0, events).1 == j + 1,
        spec_escalation(cfg, 0, events).2 == j,
{
    lemma_escalation_absent_prefix(cfg, 0, events, j);
    assert(events.skip(j as int)[0] == events[j as int]);
}

/// The live state of one escalation sequence: its configuration, how many
/// rounds have begun, and the priority fee of the most recent round (the
/// starting baseline before any round begins). The starting fee is kept as
/// a ghost so the invariant can pin the current fee exactly.
pub struct EscalationState {
    pub config: EscalationConfig,
    pub rounds_started: u32,
    pub priority_fee: u128,
    pub initial: Ghost<int>,
}

impl EscalationState {
    /// The round count never passes the configured ceiling, and the
    /// current priority fee is always the starting one bumped once per
    /// round begun.
    pub open spec fn wf(self) -> bool {
        &&& self.config.wf()
        &&& self.rounds_started <= self.config.max_attempts
        &&& 0 <= self.initial@ <= MAX_INITIAL_PRIORITY_FEE
        &&& self.priority_fee == priority_at(
            self.initial@,
            self.config.gas_bump_percentage as int,
            self.rounds_started as nat,
        )
    }

    /// A fresh sequence: no round begun, the priority fee seeded from the
    /// transaction's own baseline or the default when it carries none.
    pub fn new(config: EscalationConfig, baseline_priority: Option<u128>) -> (s: EscalationState)
        requires
            config.wf(),
            spec_initial_priority(baseline_priority) <= MAX_INITIAL_PRIORITY_FEE,
        ensures
            s.wf(),
            s.config == config,
            s.rounds_started == 0,
            s.initial@ == spec_initial_priority(baseline_priority),
            s.priority_fee == spec_initial_priority(baseline_priority),
    {
        let p = initial_priority_fee(baseline_priority);
        EscalationState { config, rounds_started: 0, priority_fee: p, initial: Ghost(p as int) }
    }

    /// Whether another escalation round may begin.
    pub fn rounds_remaining(&self) -> (b: bool)
        ensures
            b == (self.rounds_started < self.config.max_attempts),
    {
        self.rounds_started < self.config.max_attempts
    }

    /// Begin the next round against the current base fee: bump the
    /// priority fee by the configured percentage and quote a max fee of
    /// twice the base fee plus the bumped priority fee. The fee pair of a
    /// sequence never decreases from round to round.
    pub fn begin_round(&mut self, base_fee: u128) -> (q: FeeQuote)
        requires
            old(self).wf(),
            old(self).rounds_started < old(self).config.max_attempts,
            base_fee <= MAX_BASE_FEE,
        ensures
            final(self).wf(),
            final(self).config == old(self).config,
            final(self).initial == old(self).initial,
            final(self).rounds_started == old(self).rounds_started + 1,
            final(self).priority_fee == spec_bumped_priority(
                old(self).priority_fee as int,
                old(self).config.gas_bump_percentage as int,
            ),
            final(self).priority_fee >= old(self).priority_fee,
            q.max_priority_fee_per_gas == final(self).priority_fee,
            q.max_fee_per_gas == spec_max_fee(base_fee as int, final(self).priority_fee as int),
    {
        proof {
            let init = self.initial@;
            let pct = self.config.gas_bump_percentage as int;
            let r = self.rounds_started as nat;
            lemma_priority_at_bounds(init, pct, r);
            if r < 29 {
                lemma_pow2_strictly_increases(r, 29);
            }
            lemma2_to64();
            assert(init * pow2(r) <= MAX_INITIAL_PRIORITY_FEE * 0x20000000) by (nonlinear_arith)
                requires
                    0 <= init <= MAX_INITIAL_PRIORITY_FEE,
                    pow2(r) <= 0x20000000,
            ;
            assert(self.priority_fee * (100 + self.config.gas_bump_percentage) <= u128::MAX)
                by (nonlinear_arith)
                requires
                    0 <= self.priority_fee <= MAX_INITIAL_PRIORITY_FEE * 0x20000000,
                    self.config.gas_bump_percentage <= 100,
            ;
            lemma_bump_at_most_doubles(self.priority_fee as int, pct);
            assert(priority_at(init, pct, r + 1) == spec_bumped_priority(
                priority_at(init, pct, r),
                pct,
            ));
        }
        let new_priority = bump_priority_fee(self.priority_fee, self.config.gas_bump_percentage);
        let max_fee = compute_max_fee(base_fee, new_priority);
        self.priority_fee = new_priority;
        self.rounds_started = self.rounds_started + 1;
        FeeQuote { max_fee_per_gas: max_fee, max_priority_fee_per_gas: new_priority }
    }
}

/// How a present receipt's decoded status field is read: only an explicit
/// success marker confirms the transaction; any other status, and a
/// receipt whose status cannot be read at all, counts as reverted and is
/// reported with the receipt's transaction hash.
pub fn classify_receipt(status: Option<u64>, hash: TxHash) -> (r: EscalationOutcome)
    ensures
        status == Some(1u64) ==> r == EscalationOutcome::Confirmed(hash),
        status != Some(1u64) ==> r == EscalationOutcome::Reverted(hash),
{
    match status {
        Some(1u64) => EscalationOutcome::Confirmed(hash),
        _ => EscalationOutcome::Reverted(hash),
    }
}

/// What one whole escalation sequence did: its terminal outcome, how many
/// re-submission calls and receipt checks it made, the milliseconds it
/// spent in wait windows, and the priority fee of its last round.
#[derive(Clone, Copy, PartialEq, Eq, Structural, Debug)]
pub struct EscalationRun {
    pub outcome: EscalationOutcome,
    pub sends: u32,
    pub receipt_checks: u32,
    pub total_wait_ms: u64,
    pub last_priority_fee: u128,
}

/// The whole escalation sequence, applied to a scripted series of round
/// observations.
///
/// `events[i]` is what round `i` would observe. The sequence stops at the
/// first present receipt, rejected send or failed base-fee query, and is
/// exhausted once `max_attempts` rounds saw no receipt; every receipt
/// check costs one wait window.
#[verifier::loop_isolation(false)]
pub fn run_escalation(
    config: EscalationConfig,
    baseline_priority: Option<u128>,
    events: &Vec<RoundEvent>,
) -> (r: EscalationRun)
    requires
        config.wf(),
        spec_initial_priority(baseline_priority) <= MAX_INITIAL_PRIORITY_FEE,
        events@.len() >= config.max_attempts,
        forall|i: int| 0 <= i < events@.len() ==> event_base_fee_bounded(events@[i]),
    ensures
        ({
            let s = spec_escalation(config, 0, events@);
            &&& r.outcome == s.0
            &&& r.sends == s.1
            &&& r.receipt_checks == s.2
            &&& r.total_wait_ms == s.2 * config.wait_time_ms
            &&& r.last_priority_fee == priority_at(
                spec_initial_priority(baseline_priority),
                config.gas_bump_percentage as int,
                s.1 as nat,
            )
        }),
{
    let ghost init = spec_initial_priority(baseline_priority);
    let mut st = EscalationState::new(config, baseline_priority);
    let mut waited: u64 = 0;
    let mut attempt: u32 = 0;
    proof {
        assert(events@.skip(0) =~= events@);
    }
    while attempt < config.max_attempts
        invariant
            st.wf(),
            st.config == config,
            st.initial@ == init,
            st.rounds_started == attempt,
            attempt <= config.max_attempts,
            waited == attempt * config.wait_time_ms,
            ({
                let full = spec_escalation(config, 0, events@);
                let rest = spec_escalation(config, attempt as nat, events@.skip(attempt as int));
                &&& full.0 == rest.0
                &&& full.1 == rest.1 + attempt
                &&& full.2 == rest.2 + attempt
            }),
        decreases config.max_attempts - attempt,
    {
        let ev = events[attempt as usize];
        proof {
            assert(events@.skip(attempt as int)[0] == events@[attempt as int]);
            assert((attempt + 1) * config.wait_time_ms <= config.max_attempts
                * config.wait_time_ms) by (nonlinear_arith)
                requires
                    attempt + 1 <= config.max_attempts,
                    config.wait_time_ms >= 0,
            ;
            assert(attempt * config.wait_time_ms + config.wait_time_ms == (attempt + 1)
                * config.wait_time_ms) by (nonlinear_arith);
        }
        match ev {
            RoundEvent::BaseFeeFailed => {
                return EscalationRun {
                    outcome: EscalationOutcome::BaseFeeUnavailable,
                    sends: attempt,
                    receipt_checks: attempt,
                    total_wait_ms: waited,
                    last_priority_fee: st.priority_fee,
                };
            },
            RoundEvent::SendFailed { base_fee } => {
                let _q = st.begin_round(base_fee);
                return EscalationRun {
                    outcome: EscalationOutcome::SubmissionFailed,
                    sends: attempt + 1,
                    receipt_checks: attempt,
                    total_wait_ms: waited,
                    last_priority_fee: st.priority_fee,
                };
            },
            RoundEvent::ReceiptFound { base_fee, status_ok, hash } => {
                let _q = st.begin_round(base_fee);
                let outcome = if status_ok {
                    EscalationOutcome::Confirmed(hash)
                } else {
                    EscalationOutcome::Reverted(hash)
                };
                return EscalationRun {
                    outcome,
                    sends: attempt + 1,
                    receipt_checks: attempt + 1,
                    total_wait_ms: waited + config.wait_time_ms,
                    last_priority_fee: st.priority_fee,
                };
            },
            RoundEvent::ReceiptAbsent { base_fee } => {
                let _q = st.begin_round(base_fee);
                proof {
                    assert(events@.skip(attempt as int).skip(1) =~= events@.skip(attempt + 1));
                }
                waited = waited + config.wait_time_ms;
                attempt = attempt + 1;
            },
        }
    }
    EscalationRun {
        outcome: EscalationOutcome::Exhausted,
        sends: attempt,
        receipt_checks: attempt,
        total_wait_ms: waited,
        last_priority_fee: st.priority_fee,
    }
}

} // verus!
