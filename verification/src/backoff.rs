//! Retry policy for the accept loop: exponential backoff with jitter and a
//! hard cap on consecutive failed attempts.
//!
//! A single logical accept is retried with exponentially growing delays,
//! capped at a maximum delay, until it succeeds or the attempt budget is
//! exhausted; a success resets the budget for the next accept.

use vstd::prelude::*;

verus! {

/// Total consecutive failed accept attempts tolerated before the failure is
/// treated as fatal.
pub const MAX_ACCEPT_ATTEMPTS: u64 = 64;

/// Delay before the first retry, and the unit the delays double from.
pub const BASE_DELAY_MS: u64 = 1000;

/// Upper bound on any single backoff delay, jitter aside.
pub const MAX_DELAY_MS: u64 = 60000;

/// 2^k.
pub open spec fn pow2(k: nat) -> nat
    decreases k,
{
    if k == 0 {
        1
    } else {
        2 * pow2((k - 1) as nat)
    }
}

/// The uncapped exponential delay after `failures` consecutive failures.
pub open spec fn raw_delay_ms(failures: nat) -> nat {
    pow2(failures) * (BASE_DELAY_MS as nat)
}

/// The backoff delay actually used: the exponential delay, capped.
pub open spec fn backoff_delay_ms(failures: nat) -> nat {
    if raw_delay_ms(failures) > MAX_DELAY_MS {
        MAX_DELAY_MS as nat
    } else {
        raw_delay_ms(failures)
    }
}

proof fn lemma_pow2_pos(k: nat)
    ensures
        pow2(k) >= 1,
    decreases k,
{
    if k > 0 {
        lemma_pow2_pos((k - 1) as nat);
    }
}

proof fn lemma_pow2_mono(j: nat, k: nat)
    requires
        j <= k,
    ensures
        pow2(j) <= pow2(k),
    decreases k,
{
    if j < k {
        lemma_pow2_mono(j, (k - 1) as nat);
        lemma_pow2_pos((k - 1) as nat);
    }
}

/// Computes the capped exponential delay, without jitter.
pub fn delay_ms(failures: u64) -> (d: u64)
    ensures
        d == backoff_delay_ms(failures as nat),
{
    if failures >= 6 {
        proof {
            assert(pow2(0) == 1);
            assert(pow2(1) == 2);
            assert(pow2(2) == 4);
            assert(pow2(3) == 8);
            assert(pow2(4) == 16);
            assert(pow2(5) == 32);
            assert(pow2(6) == 64);
            lemma_pow2_mono(6, failures as nat);
        }
        MAX_DELAY_MS
    } else {
        let mut d: u64 = BASE_DELAY_MS;
        let mut k: u64 = 0;
        while k < failures
            invariant
                k <= failures < 6,
                d == raw_delay_ms(k as nat),
                d <= 32000,
            decreases failures - k,
        {
            proof {
                assert(pow2(0) == 1);
                assert(pow2(1) == 2);
                assert(pow2(2) == 4);
                assert(pow2(3) == 8);
                assert(pow2(4) == 16);
                lemma_pow2_mono(k as nat, 4);
            }
            d = 2 * d;
            k = k + 1;
        }
        d
    }
}

/// What the retry policy decides after one more failed attempt.
#[derive(Clone, Copy, Debug, PartialEq, Eq, Structural)]
pub enum RetryDecision {
    /// Try again after waiting this many milliseconds.
    Retry { delay_ms: u64 },
    /// The attempt budget is exhausted; the failure is fatal.
    Fatal,
}

/// The retry policy around one logical accept call: counts consecutive
/// failures; a success resets the count.
pub struct AcceptRetry {
    pub consecutive_failures: u64,
}

impl AcceptRetry {
    pub open spec fn wf(&self) -> bool {
        self.consecutive_failures < MAX_ACCEPT_ATTEMPTS
    }

    /// A fresh policy, with the whole attempt budget ahead of it.
    pub fn new() -> (r: AcceptRetry)
        ensures
            r.consecutive_failures == 0,
            r.wf(),
    {
        AcceptRetry { consecutive_failures: 0 }
    }

    /// A successful accept resets the budget for the next logical accept.
    pub fn on_success(&mut self)
        ensures
            final(self).consecutive_failures == 0,
            final(self).wf(),
    {
        self.consecutive_failures = 0;
    }

    /// Records one more failed attempt and decides whether to retry.
    ///
    /// The caller draws the jitter (a random span below the base delay) and
    /// passes it in; the decision is then exact: retry with the capped
    /// exponential delay plus that jitter, unless this failure exhausts the
    /// budget, in which case the failure is fatal and the count stays put.
    pub fn on_failure(&mut self, jitter_ms: u64) -> (d: RetryDecision)
        requires
            jitter_ms < BASE_DELAY_MS,
            old(self).wf(),
        ensures
            final(self).wf(),
            old(self).consecutive_failures + 1 < MAX_ACCEPT_ATTEMPTS ==> {
                &&& final(self).consecutive_failures == old(self).consecutive_failures + 1
                &&& d matches RetryDecision::Retry { delay_ms } && delay_ms
                    == backoff_delay_ms(old(self).consecutive_failures as nat) + jitter_ms
            },
            old(self).consecutive_failures + 1 >= MAX_ACCEPT_ATTEMPTS ==> {
                &&& d is Fatal
                &&& final(self).consecutive_failures == old(self).consecutive_failures
            },
    {
        if self.consecutive_failures + 1 >= MAX_ACCEPT_ATTEMPTS {
            RetryDecision::Fatal
        } else {
            let delay = delay_ms(self.consecutive_failures);
            self.consecutive_failures = self.consecutive_failures + 1;
            RetryDecision::Retry { delay_ms: delay + jitter_ms }
        }
    }
}

/// How one logical accept call ends, seen through the retry policy.
#[derive(Clone, Copy, Debug, PartialEq, Eq, Structural)]
pub enum AcceptOutcome {
    /// Some attempt succeeded.
    Accepted,
    /// The budget of consecutive failures was exhausted.
    Fatal,
    /// The recorded attempts ran out with the accept still undecided.
    Undecided,
}

/// Replays a sequence of attempt results (`true` is a success) through the
/// retry policy, starting with `failures` consecutive failures already
/// counted, and says how the logical accept ends.
pub open spec fn replay_accept(failures: nat, attempts: Seq<bool>) -> AcceptOutcome
    decreases attempts.len(),
{
    if attempts.len() == 0 {
        AcceptOutcome::Undecided
    } else if attempts[0] {
        AcceptOutcome::Accepted
    } else if failures + 1 >= MAX_ACCEPT_ATTEMPTS {
        AcceptOutcome::Fatal
    } else {
        replay_accept(failures + 1, attempts.skip(1))
    }
}

proof fn lemma_accept_after_failures(failures: nat, n: nat, attempts: Seq<bool>)
    requires
        attempts.len() > n,
        forall|i: int| 0 <= i < n ==> !attempts[i],
        attempts[n as int],
        failures + n < MAX_ACCEPT_ATTEMPTS,
    ensures
        replay_accept(failures, attempts) == AcceptOutcome::Accepted,
    decreases n,
{
    if n > 0 {
        lemma_accept_after_failures(failures + 1, (n - 1) as nat, attempts.skip(1));
    }
}

/// Law: accept retry succeeds within the budget. Fewer than the maximum
/// number of consecutive transient failures, followed by a success, end in
/// the connection being accepted.
pub proof fn lemma_accept_retry_within_budget(n: nat, attempts: Seq<bool>)
    requires
        n < MAX_ACCEPT_ATTEMPTS,
        attempts.len() > n,
        forall|i: int| 0 <= i < n ==> !attempts[i],
        attempts[n as int],
    ensures
        replay_accept(0, attempts) == AcceptOutcome::Accepted,
{
    lemma_accept_after_failures(0, n, attempts);
}

proof fn lemma_fatal_after_failures(failures: nat, attempts: Seq<bool>)
    requires
        failures < MAX_ACCEPT_ATTEMPTS,
        attempts.len() + failures >= MAX_ACCEPT_ATTEMPTS,
        forall|i: int| 0 <= i < MAX_ACCEPT_ATTEMPTS - failures ==> !attempts[i],
    ensures
        replay_accept(failures, attempts) == AcceptOutcome::Fatal,
    decreases MAX_ACCEPT_ATTEMPTS - failures,
{
    if failures + 1 < MAX_ACCEPT_ATTEMPTS {
        lemma_fatal_after_failures(failures + 1, attempts.skip(1));
    }
}

/// Law: accept retry gives up at the budget. A run of at least the maximum
/// number of consecutive failed attempts ends in a fatal failure, whatever
/// follows.
pub proof fn lemma_accept_retry_exhausted(attempts: Seq<bool>)
    requires
        attempts.len() >= MAX_ACCEPT_ATTEMPTS,
        forall|i: int| 0 <= i < MAX_ACCEPT_ATTEMPTS ==> !attempts[i],
    ensures
        replay_accept(0, attempts) == AcceptOutcome::Fatal,
{
    lemma_fatal_after_failures(0, attempts);
}

/// Replays recorded attempt results through the retry policy itself, and is
/// proved to agree with the specification of the replay: the policy accepts
/// exactly when some attempt within the budget of consecutive failures
/// succeeds.
pub fn run_accept_trace(attempts: &Vec<bool>) -> (r: AcceptOutcome)
    ensures
        r == replay_accept(0, attempts@),
{
    let mut retry = AcceptRetry::new();
    let mut i: usize = 0;
    proof {
        assert(attempts@.skip(0) =~= attempts@);
    }
    while i < attempts.len()
        invariant
            i <= attempts@.len(),
            retry.wf(),
            replay_accept(0, attempts@) == replay_accept(
                retry.consecutive_failures as nat,
                attempts@.skip(i as int),
            ),
        decreases attempts@.len() - i,
    {
        proof {
            assert(attempts@.skip(i as int)[0] == attempts@[i as int]);
            assert(attempts@.skip(i as int).skip(1) =~= attempts@.skip(i as int + 1));
        }
        if attempts[i] {
            retry.on_success();
            return AcceptOutcome::Accepted;
        }
        match retry.on_failure(0) {
            RetryDecision::Fatal => {
                return AcceptOutcome::Fatal;
            },
            RetryDecision::Retry { .. } => {},
        }
        i = i + 1;
    }
    AcceptOutcome::Undecided
}

}

