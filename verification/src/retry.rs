//! The retry engine: a fallible operation is attempted up to a bounded
//! number of times with a fixed backoff between attempts, and the last
//! failure is classified into a user-facing error.
//!
//! The engine is a state machine. The surrounding process performs the
//! actual attempt (a network call) and feeds each failure to
//! [`RetryState::on_failure`], which decides whether to sleep and retry or
//! to give up. [`run_attempts`] drives the same machine over a scripted
//! sequence of outcomes, which pins down the engine's behaviour exactly.

use vstd::prelude::*;

use crate::errors::DownloadError;

verus! {

/// How often to attempt, and how long to sleep between attempts.
#[derive(Clone, Copy, Debug, PartialEq, Eq, Structural)]
pub struct RetryPolicy {
    pub max_attempts: u64,
    pub backoff_secs: u64,
}

/// The policy wrapped around every provider download: five attempts, two
/// seconds apart.
pub fn download_retry_policy() -> (r: RetryPolicy)
    ensures
        r == (RetryPolicy { max_attempts: 5, backoff_secs: 2 }),
{
    RetryPolicy { max_attempts: 5, backoff_secs: 2 }
}

/// The policy wrapped around the external separation process: three
/// attempts, no backoff.
pub fn external_process_retry_policy() -> (r: RetryPolicy)
    ensures
        r == (RetryPolicy { max_attempts: 3, backoff_secs: 0 }),
{
    RetryPolicy { max_attempts: 3, backoff_secs: 0 }
}

/// What one failed attempt looked like. `timeout` marks a timeout-shaped
/// network error; `detail` is the raw upstream text, kept for diagnostics.
pub struct AttemptError {
    pub timeout: bool,
    pub detail: String,
}

/// The result of one attempt of the wrapped operation.
pub enum AttemptOutcome {
    Success { url: String },
    Failure { error: AttemptError },
}

/// The classification applied to the last error once attempts are
/// exhausted: a timeout means the provider may be down, anything else is
/// reported as a generic provider failure.
pub open spec fn classified_error(timeout: bool) -> DownloadError {
    if timeout {
        DownloadError::ProviderDown
    } else {
        DownloadError::ProviderFailed
    }
}

/// Classifies the last error of an exhausted run.
pub fn classify_attempt_error(e: &AttemptError) -> (r: DownloadError)
    ensures
        r == classified_error(e.timeout),
{
    if e.timeout {
        DownloadError::ProviderDown
    } else {
        DownloadError::ProviderFailed
    }
}

/// What the engine does after a failed attempt.
#[derive(Clone, Copy, Debug, PartialEq, Eq, Structural)]
pub enum RetryDirective {
    /// Sleep for the given time, then attempt again.
    Retry { sleep_secs: u64 },
    /// Attempts are exhausted; classify the last error and stop.
    GiveUp,
}

/// The engine's state: the policy and how many attempts have been made.
pub struct RetryState {
    pub policy: RetryPolicy,
    pub attempts_made: u64,
}

impl RetryState {
    /// A fresh engine; no attempt has been made yet.
    pub fn new(policy: RetryPolicy) -> (r: RetryState)
        requires
            policy.max_attempts >= 1,
        ensures
            r.policy == policy,
            r.attempts_made == 0,
    {
        RetryState { policy, attempts_made: 0 }
    }

    /// Records a failed attempt and decides whether to retry. A retry is
    /// ordered exactly while attempts remain under the policy's bound.
    pub fn on_failure(&mut self) -> (d: RetryDirective)
        requires
            old(self).attempts_made < old(self).policy.max_attempts,
        ensures
            final(self).policy == old(self).policy,
            final(self).attempts_made == old(self).attempts_made + 1,
            d == if final(self).attempts_made < final(self).policy.max_attempts {
                RetryDirective::Retry { sleep_secs: final(self).policy.backoff_secs }
            } else {
                RetryDirective::GiveUp
            },
    {
        self.attempts_made = self.attempts_made + 1;
        if self.attempts_made < self.policy.max_attempts {
            RetryDirective::Retry { sleep_secs: self.policy.backoff_secs }
        } else {
            RetryDirective::GiveUp
        }
    }
}

/// Index of the first successful attempt among `script[i..max]`, if any.
pub open spec fn first_success_from(script: Seq<AttemptOutcome>, max: int, i: int) -> Option<int>
    decreases max - i,
{
    if i >= max || i >= script.len() {
        Option::None
    } else if script[i] is Success {
        Option::Some(i)
    } else {
        first_success_from(script, max, i + 1)
    }
}

/// Index of the first successful attempt the engine would reach.
pub open spec fn first_success(script: Seq<AttemptOutcome>, max: int) -> Option<int> {
    first_success_from(script, max, 0)
}

/// Skipping a failing prefix does not change the first success.
proof fn lemma_first_success_skip(script: Seq<AttemptOutcome>, max: int, a: int, b: int)
    requires
        0 <= a <= b,
        forall|j: int| a <= j < b ==> !(#[trigger] script[j] is Success),
    ensures
        first_success_from(script, max, a) == first_success_from(script, max, b),
    decreases b - a,
{
    if a < b {
        if a >= max || a >= script.len() {
            assert(b >= max || b >= script.len());
        } else {
            lemma_first_success_skip(script, max, a + 1, b);
        }
    }
}

/// Everything the engine did on a scripted run.
pub struct RetryRunResult {
    pub outcome: Result<String, DownloadError>,
    pub attempts_made: u64,
    pub slept_secs: u64,
}

/// Drives the retry engine over a scripted sequence of attempt outcomes:
/// `script[i]` is what attempt `i` would have produced. Stops at the first
/// success or once attempts are exhausted; each failure that leaves
/// attempts remaining is followed by one backoff sleep.
pub fn run_attempts(script: &Vec<AttemptOutcome>, policy: RetryPolicy) -> (r: RetryRunResult)
    requires
        policy.max_attempts >= 1,
        script@.len() >= policy.max_attempts,
        (policy.max_attempts - 1) * policy.backoff_secs <= u64::MAX,
    ensures
        match first_success(script@, policy.max_attempts as int) {
            Option::Some(n) => {
                &&& r.outcome matches Result::Ok(u) && u@ == script@[n]->url@
                &&& r.attempts_made == n + 1
                &&& r.slept_secs == n * policy.backoff_secs
            },
            Option::None => {
                &&& r.outcome == Result::<String, DownloadError>::Err(
                    classified_error(script@[policy.max_attempts - 1]->error.timeout),
                )
                &&& r.attempts_made == policy.max_attempts
                &&& r.slept_secs == (policy.max_attempts - 1) * policy.backoff_secs
            },
        },
{
    let ghost max = policy.max_attempts as int;
    let n = script.len();
    let mut st = RetryState::new(policy);
    let mut slept: u64 = 0;
    let mut i: usize = 0;
    loop
        invariant
            st.policy == policy,
            policy.max_attempts >= 1,
            max == policy.max_attempts,
            n == script@.len(),
            script@.len() >= policy.max_attempts,
            (policy.max_attempts - 1) * policy.backoff_secs <= u64::MAX,
            i == st.attempts_made,
            st.attempts_made < policy.max_attempts,
            slept == st.attempts_made * policy.backoff_secs,
            forall|j: int| 0 <= j < st.attempts_made ==> !(#[trigger] script@[j] is Success),
        decreases policy.max_attempts - st.attempts_made,
    {
        proof {
            lemma_first_success_skip(script@, max, 0, i as int);
            assert(i * policy.backoff_secs <= (policy.max_attempts - 1) * policy.backoff_secs)
                by (nonlinear_arith)
                requires
                    0 <= i <= policy.max_attempts - 1,
                    0 <= policy.backoff_secs,
            ;
        }
        match &script[i] {
            AttemptOutcome::Success { url } => {
                proof {
                    assert(script@[i as int] is Success);
                    assert(first_success_from(script@, max, i as int) == Option::Some(i as int));
                }
                return RetryRunResult {
                    outcome: Result::Ok(url.clone()),
                    attempts_made: (i + 1) as u64,
                    slept_secs: slept,
                };
            },
            AttemptOutcome::Failure { error } => {
                match st.on_failure() {
                    RetryDirective::Retry { sleep_secs } => {
                        proof {
                            assert(st.attempts_made * policy.backoff_secs == i * policy.backoff_secs
                                + policy.backoff_secs) by (nonlinear_arith)
                                requires
                                    st.attempts_made == i + 1,
                            ;
                            assert(st.attempts_made * policy.backoff_secs <= (policy.max_attempts
                                - 1) * policy.backoff_secs) by (nonlinear_arith)
                                requires
                                    0 <= st.attempts_made <= policy.max_attempts - 1,
                                    0 <= policy.backoff_secs,
                            ;
                        }
                        slept = slept + sleep_secs;
                        i = i + 1;
                    },
                    RetryDirective::GiveUp => {
                        proof {
                            lemma_first_success_skip(script@, max, i as int, i + 1);
                        }
                        return RetryRunResult {
                            outcome: Result::Err(classify_attempt_error(error)),
                            attempts_made: (i + 1) as u64,
                            slept_secs: slept,
                        };
                    },
                }
            },
        }
    }
}

/// A run whose first success comes at attempt `n`, all earlier attempts
/// failing, reaches that success exactly when `n` is under the attempt
/// bound: the engine returns the success value after `n + 1` attempts.
pub proof fn lemma_retry_reaches_early_success(script: Seq<AttemptOutcome>, max: int, n: int)
    requires
        0 <= n < max <= script.len(),
        script[n] is Success,
        forall|j: int| 0 <= j < n ==> !(#[trigger] script[j] is Success),
    ensures
        first_success(script, max) == Option::Some(n),
{
    lemma_first_success_skip(script, max, 0, n);
}

/// A run of nothing but failures exhausts the attempt bound: the engine
/// classifies the last error and makes no further attempt.
pub proof fn lemma_retry_exhausts_on_failures(script: Seq<AttemptOutcome>, max: int)
    requires
        0 < max <= script.len(),
        forall|j: int| 0 <= j < max ==> !(#[trigger] script[j] is Success),
    ensures
        first_success(script, max) == Option::<int>::None,
{
    lemma_first_success_skip(script, max, 0, max);
}

} // verus!
