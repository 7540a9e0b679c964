//! Retry with exponential backoff for idempotent operations.
//!
//! An operation is invoked up to `max_retries + 1` times. After each failed
//! attempt except the last, the caller suspends for a delay that starts at
//! `initial_delay_ms` and doubles after every failure; the first success is
//! returned at once, and if every attempt fails the last error is returned
//! unchanged. [`RetryState`] holds the decision logic of that loop, and
//! [`run_retry`] is the whole schedule applied to a scripted sequence of
//! attempt outcomes.

use vstd::prelude::*;
use vstd::arithmetic::power2::{lemma2_to64, lemma_pow2_strictly_increases, lemma_pow2_unfold, pow2};

verus! {

/// Retries after the first attempt in the standard schedule.
pub const DEFAULT_MAX_RETRIES: u32 = 5;

/// First backoff delay of the standard schedule, in milliseconds.
pub const DEFAULT_INITIAL_DELAY_MS: u64 = 1000;

/// The fixed parameters of one backoff schedule: how many retries follow the
/// first attempt, and the delay slept after the first failure.
#[derive(Clone, Copy, PartialEq, Eq, Structural, Debug)]
pub struct RetryPolicy {
    pub max_retries: u32,
    pub initial_delay_ms: u64,
}

impl RetryPolicy {
    /// A policy is usable when even its longest delay fits in a `u64`
    /// millisecond count.
    pub open spec fn wf(self) -> bool {
        self.initial_delay_ms * pow2(self.max_retries as nat) <= u64::MAX
    }

    /// The standard schedule: five retries, starting at one second and
    /// doubling.
    pub fn standard() -> (p: RetryPolicy)
        ensures
            p.max_retries == DEFAULT_MAX_RETRIES,
            p.initial_delay_ms == DEFAULT_INITIAL_DELAY_MS,
            p.wf(),
    {
        proof {
            lemma2_to64();
        }
        RetryPolicy { max_retries: DEFAULT_MAX_RETRIES, initial_delay_ms: DEFAULT_INITIAL_DELAY_MS }
    }
}

/// The delay slept after the failure of attempt `i` (counted from zero):
/// the initial delay doubled `i` times.
pub open spec fn backoff_delay(policy: RetryPolicy, i: nat) -> nat {
    (policy.initial_delay_ms * pow2(i)) as nat
}

/// Total time suspended once the first `k` attempts have failed: the sum of
/// the first `k` backoff delays.
pub open spec fn total_backoff(policy: RetryPolicy, k: nat) -> nat
    decreases k,
{
    if k == 0 {
        0
    } else {
        total_backoff(policy, (k - 1) as nat) + backoff_delay(policy, (k - 1) as nat)
    }
}

/// The sum of the first `k` doubling delays has the closed form
/// `initial_delay_ms * (2^k - 1)`.
pub proof fn lemma_total_backoff_closed(policy: RetryPolicy, k: nat)
    ensures
        total_backoff(policy, k) == policy.initial_delay_ms * (pow2(k) - 1),
    decreases k,
{
    if k == 0 {
        assert(pow2(0) == 1) by { lemma2_to64(); }
    } else {
        let j = (k - 1) as nat;
        lemma_total_backoff_closed(policy, j);
        lemma_pow2_unfold(k);
        assert(policy.initial_delay_ms * (pow2(j) - 1) + policy.initial_delay_ms * pow2(j)
            == policy.initial_delay_ms * (2 * pow2(j) - 1)) by (nonlinear_arith);
    }
}

/// Under a well-formed policy, no prefix of the schedule suspends for more
/// milliseconds than a `u64` can count.
pub proof fn lemma_total_backoff_bounded(policy: RetryPolicy, k: nat)
    requires
        policy.wf(),
        k <= policy.max_retries,
    ensures
        total_backoff(policy, k) <= u64::MAX,
{
    lemma_total_backoff_closed(policy, k);
    if k < policy.max_retries as nat {
        lemma_pow2_strictly_increases(k, policy.max_retries as nat);
    }
    assert(policy.initial_delay_ms * (pow2(k) - 1) <= policy.initial_delay_ms * pow2(
        policy.max_retries as nat,
    )) by (nonlinear_arith)
        requires
            pow2(k) <= pow2(policy.max_retries as nat),
            policy.initial_delay_ms >= 0,
    ;
}

/// What the retrier does after a failed attempt: suspend for the given
/// number of milliseconds and try again, or give up and surface the error.
#[derive(Clone, Copy, PartialEq, Eq, Structural, Debug)]
pub enum RetryDecision {
    Sleep(u64),
    GiveUp,
}

/// The live state of one backoff schedule: how many failures have been seen
/// and the delay the next one will cost. Each invocation of the retrier
/// starts from a fresh state; no reset is ever needed.
#[derive(Clone, Copy, PartialEq, Eq, Structural, Debug)]
pub struct RetryState {
    pub policy: RetryPolicy,
    pub retries: u32,
    pub delay_ms: u64,
}

impl RetryState {
    /// The failure count never passes the policy's ceiling, and the pending
    /// delay is always the initial delay doubled once per failure.
    pub open spec fn wf(self) -> bool {
        &&& self.policy.wf()
        &&& self.retries <= self.policy.max_retries
        &&& self.delay_ms == backoff_delay(self.policy, self.retries as nat)
    }

    /// A fresh state: no failures seen, the first delay pending.
    pub fn new(policy: RetryPolicy) -> (s: RetryState)
        requires
            policy.wf(),
        ensures
            s.wf(),
            s.policy == policy,
            s.retries == 0,
    {
        proof {
            assert(pow2(0) == 1) by { lemma2_to64(); }
        }
        RetryState { policy, retries: 0, delay_ms: policy.initial_delay_ms }
    }

    /// Decide what follows a failed attempt. While retries remain, the
    /// current delay is slept and then doubled; once the ceiling is reached
    /// the error is surfaced unchanged.
    pub fn on_failure(&mut self) -> (d: RetryDecision)
        requires
            old(self).wf(),
        ensures
            final(self).wf(),
            final(self).policy == old(self).policy,
            old(self).retries < old(self).policy.max_retries ==> {
                &&& d == RetryDecision::Sleep(old(self).delay_ms)
                &&& final(self).retries == old(self).retries + 1
            },
            old(self).retries >= old(self).policy.max_retries ==> {
                &&& d == RetryDecision::GiveUp
                &&& *final(self) == *old(self)
            },
    {
        if self.retries >= self.policy.max_retries {
            RetryDecision::GiveUp
        } else {
            let d = self.delay_ms;
            proof {
                let r = self.retries as nat;
                let m = self.policy.max_retries as nat;
                lemma_pow2_unfold(r + 1);
                if r + 1 < m {
                    lemma_pow2_strictly_increases(r + 1, m);
                }
                assert(self.policy.initial_delay_ms * pow2(r + 1) <= self.policy.initial_delay_ms
                    * pow2(m)) by (nonlinear_arith)
                    requires
                        pow2(r + 1) <= pow2(m),
                        self.policy.initial_delay_ms >= 0,
                ;
                assert(self.delay_ms * 2 == self.policy.initial_delay_ms * pow2(r + 1))
                    by (nonlinear_arith)
                    requires
                        self.delay_ms == self.policy.initial_delay_ms * pow2(r),
                        pow2(r + 1) == 2 * pow2(r),
                ;
            }
            self.retries = self.retries + 1;
            self.delay_ms = self.delay_ms * 2;
            RetryDecision::Sleep(d)
        }
    }
}

/// The attempt whose outcome the retrier returns, scanning from attempt `i`:
/// the first success before the ceiling, else the last attempt made.
pub open spec fn result_attempt_from(policy: RetryPolicy, outcomes: Seq<bool>, i: nat) -> nat
    decreases policy.max_retries - i,
{
    if i >= policy.max_retries {
        i
    } else if outcomes[i as int] {
        i
    } else {
        result_attempt_from(policy, outcomes, i + 1)
    }
}

/// The attempt whose outcome the retrier returns, where `outcomes[i]` says
/// whether attempt `i` would succeed.
pub open spec fn result_attempt(policy: RetryPolicy, outcomes: Seq<bool>) -> nat {
    result_attempt_from(policy, outcomes, 0)
}

/// Which attempts of a scripted operation would succeed.
pub open spec fn ok_pattern<T, E>(outcomes: Seq<Result<T, E>>) -> Seq<bool> {
    outcomes.map_values(|o: Result<T, E>| o is Ok)
}

/// Scanning from attempt `i`, the first success is the attempt returned.
proof fn lemma_result_attempt_scan(policy: RetryPolicy, outcomes: Seq<bool>, i: nat, k: nat)
    requires
        i <= k <= policy.max_retries,
        forall|j: int| i <= j < k ==> !outcomes[j],
        outcomes[k as int],
    ensures
        result_attempt_from(policy, outcomes, i) == k,
    decreases k - i,
{
    if i < k {
        lemma_result_attempt_scan(policy, outcomes, i + 1, k);
    }
}

/// Scanning from attempt `i`, when everything fails the last attempt made
/// is the one returned.
proof fn lemma_result_attempt_all_fail(policy: RetryPolicy, outcomes: Seq<bool>, i: nat)
    requires
        i <= policy.max_retries,
        forall|j: int| i <= j <= policy.max_retries ==> !outcomes[j],
    ensures
        result_attempt_from(policy, outcomes, i) == policy.max_retries,
    decreases policy.max_retries - i,
{
    if i < policy.max_retries as nat {
        lemma_result_attempt_all_fail(policy, outcomes, i + 1);
    }
}

/// Law of the backoff retrier: an operation that fails exactly `k` times
/// (`k` within the retry ceiling) and then succeeds is driven to that first
/// success, and the time suspended is the sum of the first `k` backoff
/// delays — in closed form, `initial_delay_ms * (2^k - 1)`.
pub proof fn lemma_retry_reaches_success(policy: RetryPolicy, outcomes: Seq<bool>, k: nat)
    requires
        k <= policy.max_retries,
        forall|i: int| 0 <= i < k ==> !outcomes[i],
        outcomes[k as int],
    ensures
        result_attempt(policy, outcomes) == k,
        outcomes[result_attempt(policy, outcomes) as int],
        total_backoff(policy, k) == policy.initial_delay_ms * (pow2(k) - 1),
{
    lemma_result_attempt_scan(policy, outcomes, 0, k);
    lemma_total_backoff_closed(policy, k);
}

/// Law of the backoff retrier: an operation that fails on every attempt up
/// to and including the retry ceiling is given up after the last attempt,
/// whose outcome is what the retrier returns — unchanged, since the retrier
/// hands back the attempt's own result.
pub proof fn lemma_retry_exhausts(policy: RetryPolicy, outcomes: Seq<bool>)
    requires
        forall|i: int| 0 <= i <= policy.max_retries ==> !outcomes[i],
    ensures
        result_attempt(policy, outcomes) == policy.max_retries,
        !outcomes[result_attempt(policy, outcomes) as int],
        total_backoff(policy, policy.max_retries as nat) == policy.initial_delay_ms * (pow2(
            policy.max_retries as nat,
        ) - 1),
{
    lemma_result_attempt_all_fail(policy, outcomes, 0);
    lemma_total_backoff_closed(policy, policy.max_retries as nat);
}

/// The whole retry schedule, applied to a scripted operation.
///
/// `outcomes[i]` is what the operation would return on its `i`-th
/// invocation. The result is the outcome the retrier surfaces — returned
/// unchanged, whether it is the first success or the last error — together
/// with the total time in milliseconds the schedule would have suspended.
#[verifier::loop_isolation(false)]
pub fn run_retry<T, E>(policy: RetryPolicy, outcomes: Vec<Result<T, E>>) -> (r: (Result<T, E>, u64))
    requires
        policy.wf(),
        outcomes@.len() == policy.max_retries + 1,
    ensures
        ({
            let k = result_attempt(policy, ok_pattern(outcomes@));
            &&& k <= policy.max_retries
            &&& r.0 == outcomes@[k as int]
            &&& r.1 == total_backoff(policy, k)
        }),
{
    let ghost orig = outcomes@;
    let ghost ok_seq = ok_pattern(orig);
    let mut remaining = outcomes;
    let mut st = RetryState::new(policy);
    let mut slept: u64 = 0;
    let mut i: usize = 0;
    loop
        invariant
            st.wf(),
            st.policy == policy,
            st.retries == i,
            i <= policy.max_retries,
            orig.len() == policy.max_retries + 1,
            ok_seq == ok_pattern(orig),
            remaining@ == orig.skip(i as int),
            slept == total_backoff(policy, i as nat),
            result_attempt(policy, ok_seq) == result_attempt_from(policy, ok_seq, i as nat),
        decreases policy.max_retries - i,
    {
        let o = remaining.remove(0);
        assert(o == orig[i as int]);
        assert(ok_seq[i as int] == (orig[i as int] is Ok));
        if o.is_ok() {
            assert(result_attempt_from(policy, ok_seq, i as nat) == i);
            return (o, slept);
        }
        match st.on_failure() {
            RetryDecision::GiveUp => {
                assert(i == policy.max_retries);
                return (o, slept);
            },
            RetryDecision::Sleep(d) => {
                proof {
                    lemma_total_backoff_bounded(policy, (i + 1) as nat);
                    assert(orig.skip(i as int).remove(0) =~= orig.skip(i + 1));
                }
                slept = slept + d;
                i = i + 1;
            },
        }
    }
}

} // verus!
