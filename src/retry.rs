//! Per-stream retry policy: exponential backoff with bounded jitter, and the
//! decision taken after each attempt.

use vstd::arithmetic::power2::{lemma2_to64, lemma_pow2_strictly_increases, pow2};
use vstd::prelude::*;

verus! {

/// Backoff before the first retry, in milliseconds.
pub const BASE_RETRY_DELAY_MS: u64 = 1000;

/// Longest backoff, in milliseconds.
pub const MAX_RETRY_DELAY_MS: u64 = 30000;

/// Relies on `rand::random`: a value drawn from the thread-local generator.
/// Nothing is promised of the value.
pub assume_specification<T>[ rand::random::<T> ]() -> (r: T)
    where
        rand::distributions::Standard: rand::distributions::Distribution<T>,
;

/// Backoff before retry `attempt` (0 for the first retry), before jitter:
/// doubling from one second, capped at thirty.
pub open spec fn base_delay_ms(attempt: nat) -> nat {
    let d = (BASE_RETRY_DELAY_MS * pow2(attempt)) as nat;
    if d < MAX_RETRY_DELAY_MS {
        d
    } else {
        MAX_RETRY_DELAY_MS as nat
    }
}

/// Width of the jitter window: a fifth of the base, centred on it.
pub open spec fn jitter_span(base: nat) -> nat {
    base / 5
}

/// Backoff for a base delay and a random draw: the base moved by
/// `draw mod span - span / 2`, a value in `[-span / 2, span / 2)`.
pub open spec fn jittered_delay_ms(base: nat, draw: nat) -> nat {
    let span = jitter_span(base);
    if span == 0 {
        base
    } else {
        (base - span / 2 + draw % span) as nat
    }
}

/// The base backoff before retry `attempt`.
pub fn base_retry_delay_ms(attempt: u32) -> (r: u64)
    ensures
        r == base_delay_ms(attempt as nat),
        BASE_RETRY_DELAY_MS <= r <= MAX_RETRY_DELAY_MS,
{
    proof {
        lemma2_to64();
        if attempt > 5 {
            lemma_pow2_strictly_increases(5, attempt as nat);
        }
    }
    if attempt == 0 {
        1000
    } else if attempt == 1 {
        2000
    } else if attempt == 2 {
        4000
    } else if attempt == 3 {
        8000
    } else if attempt == 4 {
        16000
    } else {
        MAX_RETRY_DELAY_MS
    }
}

/// The backoff before retry `attempt` for a given random draw.
pub fn retry_delay_ms(attempt: u32, draw: u64) -> (r: u64)
    ensures
        r == jittered_delay_ms(base_delay_ms(attempt as nat), draw as nat),
{
    let base = base_retry_delay_ms(attempt);
    let span = base / 5;
    if span == 0 {
        base
    } else {
        base - span / 2 + draw % span
    }
}

/// The backoff before retry `attempt`, with jitter from a fresh random draw:
/// within a tenth of the base delay either way.
pub fn calculate_retry_delay(attempt: u32) -> (r: u64)
    ensures
        9 * base_delay_ms(attempt as nat) <= 10 * r <= 11 * base_delay_ms(attempt as nat),
{
    let draw: u64 = rand::random::<u64>();
    proof {
        lemma_delay_within_jitter(attempt as nat, draw as nat);
    }
    retry_delay_ms(attempt, draw)
}

/// What a stream does after a failed attempt.
#[derive(Clone, Copy, Debug, PartialEq, Eq, Structural)]
pub enum RetryAction {
    /// Sleep this many milliseconds, then start a fresh attempt.
    Wait(u64),
    /// The retry budget is spent: the stream has failed.
    GiveUp,
}

/// Retry bookkeeping of one stream: its budget and the attempts that failed.
#[derive(Clone, Copy, Debug)]
pub struct RetryState {
    failures: u64,
    retries: u32,
}

/// Whether a stream with a budget of `retries` retries gives up once `failures`
/// attempts have failed.
pub open spec fn gives_up(retries: nat, failures: nat) -> bool {
    failures > retries
}

/// How a stream that has seen `failures` failed attempts ends when its next
/// attempts turn out as `outcomes` (true for success): `Some(true)` once one
/// succeeds, `Some(false)` once the budget is spent, `None` if `outcomes` runs
/// out first.
pub open spec fn settle(retries: nat, failures: nat, outcomes: Seq<bool>) -> Option<bool>
    decreases outcomes.len(),
{
    if outcomes.len() == 0 {
        None
    } else if outcomes[0] {
        Some(true)
    } else if gives_up(retries, failures + 1) {
        Some(false)
    } else {
        settle(retries, failures + 1, outcomes.drop_first())
    }
}

impl RetryState {
    pub closed spec fn failures_spec(&self) -> nat {
        self.failures as nat
    }

    pub closed spec fn retries_spec(&self) -> nat {
        self.retries as nat
    }

    /// Whether the stream may still make an attempt.
    pub open spec fn may_attempt(&self) -> bool {
        !gives_up(self.retries_spec(), self.failures_spec())
    }

    /// A stream that has made no attempt yet, with `retries` retries allowed
    /// after its first attempt.
    pub fn new(retries: u32) -> (r: RetryState)
        ensures
            r.failures_spec() == 0,
            r.retries_spec() == retries,
            r.may_attempt(),
    {
        RetryState { failures: 0, retries }
    }

    /// Number of attempts that failed so far.
    pub fn failures(&self) -> (r: u64)
        ensures
            r == self.failures_spec(),
    {
        self.failures
    }

    /// The retry budget.
    pub fn retries(&self) -> (r: u32)
        ensures
            r == self.retries_spec(),
    {
        self.retries
    }

    /// Whether the stream may still make an attempt.
    pub fn can_attempt(&self) -> (r: bool)
        ensures
            r == self.may_attempt(),
    {
        self.failures <= self.retries as u64
    }

    /// Records a failed attempt, given a random draw for the jitter: gives up
    /// once the budget is spent, else waits the backoff for this retry.
    pub fn on_failure_with(&mut self, draw: u64) -> (r: RetryAction)
        requires
            old(self).may_attempt(),
        ensures
            final(self).failures_spec() == old(self).failures_spec() + 1,
            final(self).retries_spec() == old(self).retries_spec(),
            gives_up(final(self).retries_spec(), final(self).failures_spec()) ==> r
                == RetryAction::GiveUp,
            !gives_up(final(self).retries_spec(), final(self).failures_spec()) ==> r
                == RetryAction::Wait(
                jittered_delay_ms(base_delay_ms(old(self).failures_spec()), draw as nat) as u64,
            ),
    {
        let index = self.failures;
        self.failures = self.failures + 1;
        if self.failures > self.retries as u64 {
            RetryAction::GiveUp
        } else {
            RetryAction::Wait(retry_delay_ms(index as u32, draw))
        }
    }

    /// Records a failed attempt, drawing the jitter at random.
    pub fn on_failure(&mut self) -> (r: RetryAction)
        requires
            old(self).may_attempt(),
        ensures
            final(self).failures_spec() == old(self).failures_spec() + 1,
            final(self).retries_spec() == old(self).retries_spec(),
            gives_up(final(self).retries_spec(), final(self).failures_spec()) <==> r
                == RetryAction::GiveUp,
            forall|ms: u64|
                r == RetryAction::Wait(ms) ==> 9 * base_delay_ms(old(self).failures_spec()) <= 10
                    * ms <= 11 * base_delay_ms(old(self).failures_spec()),
    {
        let draw: u64 = rand::random::<u64>();
        proof {
            lemma_delay_within_jitter(self.failures as nat, draw as nat);
        }
        self.on_failure_with(draw)
    }
}

/// A stream whose first `k` attempts fail and whose next one succeeds, with
/// `k` within its retry budget, succeeds.
pub proof fn lemma_transient_failures_recovered(retries: nat, k: nat)
    requires
        k <= retries,
    ensures
        settle(retries, 0, Seq::new(k, |j: int| false).push(true)) == Some(true),
{
    lemma_settle_after_failures(retries, 0, k, seq![true]);
    assert(Seq::new(k, |j: int| false).push(true) =~= Seq::new(k, |j: int| false) + seq![true]);
}

/// A stream whose first `retries + 1` attempts all fail has spent its budget:
/// it fails, whatever would have come after.
pub proof fn lemma_exhausted_retries_fail(retries: nat, rest: Seq<bool>)
    ensures
        settle(retries, 0, Seq::new(retries + 1, |j: int| false) + rest) == Some(false),
{
    lemma_settle_after_failures(retries, 0, retries, seq![false] + rest);
    assert(Seq::new(retries + 1, |j: int| false) + rest =~= Seq::new(retries, |j: int| false) + (
    seq![false] + rest));
}

proof fn lemma_settle_after_failures(retries: nat, failures: nat, k: nat, rest: Seq<bool>)
    requires
        failures + k <= retries,
    ensures
        settle(retries, failures, Seq::new(k, |j: int| false) + rest) == settle(
            retries,
            failures + k,
            rest,
        ),
    decreases k,
{
    if k > 0 {
        let s = Seq::new(k, |j: int| false) + rest;
        assert(s.drop_first() =~= Seq::new((k - 1) as nat, |j: int| false) + rest);
        lemma_settle_after_failures(retries, failures + 1, (k - 1) as nat, rest);
    } else {
        assert(Seq::new(k, |j: int| false) + rest =~= rest);
    }
}

/// Backoff grows with the attempt index up to the thirty-second cap, and the
/// jitter keeps every delay within a tenth of its base either way (so well
/// within a fifth).
pub proof fn lemma_backoff_monotone(a: nat, b: nat)
    requires
        a <= b,
    ensures
        base_delay_ms(a) <= base_delay_ms(b) <= MAX_RETRY_DELAY_MS,
        BASE_RETRY_DELAY_MS <= base_delay_ms(a),
{
    if a < b {
        lemma_pow2_strictly_increases(a, b);
    }
    lemma2_to64();
    if a > 0 {
        lemma_pow2_strictly_increases(0, a);
    }
}

/// The jitter keeps every delay within a tenth of its base either way.
pub proof fn lemma_delay_within_jitter(attempt: nat, draw: nat)
    ensures
        9 * base_delay_ms(attempt) <= 10 * jittered_delay_ms(base_delay_ms(attempt), draw) <= 11
            * base_delay_ms(attempt),
{
    lemma_backoff_monotone(attempt, attempt);
}

} // verus!
