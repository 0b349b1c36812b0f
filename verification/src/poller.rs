//! The job poller: after a job is submitted, its status is fetched at a
//! fixed interval until the response carries an explicit error (the job
//! failed), a result URL (the job is ready), or the bounded window closes
//! (a timeout, distinct from an explicit failure).
//!
//! Like the retry engine this is a state machine: the surrounding process
//! performs the status fetch and feeds each pending response to
//! [`PollState::on_pending`]. [`run_poll`] drives the machine over a
//! scripted sequence of responses, pinning its behaviour down exactly.
//!
//! The poller is deliberately not wrapped in the retry engine: its bounded
//! attempts and fixed interval already are the retry policy for this
//! phase, and wrapping it again would double the effective timeout.

use vstd::prelude::*;

use crate::errors::DownloadError;

verus! {

/// How often the status endpoint is asked, and how long to sleep between
/// polls.
#[derive(Clone, Copy, Debug, PartialEq, Eq, Structural)]
pub struct PollPolicy {
    pub max_polls: u64,
    pub interval_secs: u64,
}

/// The window used for provider downloads: one poll per second for five
/// minutes.
pub fn download_poll_policy() -> (r: PollPolicy)
    ensures
        r == (PollPolicy { max_polls: 300, interval_secs: 1 }),
{
    PollPolicy { max_polls: 300, interval_secs: 1 }
}

/// One status response, reduced to the two fields the protocol reads.
/// Extra fields of the raw response are ignored.
pub struct PollResponse {
    pub error: Option<String>,
    pub url: Option<String>,
}

/// A response moves the job out of the pending state when it carries an
/// explicit error or a result URL. The error takes precedence.
pub open spec fn is_terminal(r: PollResponse) -> bool {
    r.error is Some || r.url is Some
}

/// What the poller does after a pending response.
#[derive(Clone, Copy, Debug, PartialEq, Eq, Structural)]
pub enum PollDirective {
    /// Sleep for the interval, then poll again.
    PollAgainAfter { sleep_secs: u64 },
    /// Sleep for the interval; the window is exhausted, report a timeout.
    TimedOutAfter { sleep_secs: u64 },
}

/// The poller's state: the policy and how many polls have been made.
pub struct PollState {
    pub policy: PollPolicy,
    pub polls_made: u64,
}

impl PollState {
    /// A fresh poller; no poll has been made yet.
    pub fn new(policy: PollPolicy) -> (r: PollState)
        requires
            policy.max_polls >= 1,
        ensures
            r.policy == policy,
            r.polls_made == 0,
    {
        PollState { policy, polls_made: 0 }
    }

    /// Records a pending response and decides whether to poll again. Another
    /// poll is ordered exactly while polls remain under the policy's bound;
    /// either way the interval is slept first.
    pub fn on_pending(&mut self) -> (d: PollDirective)
        requires
            old(self).polls_made < old(self).policy.max_polls,
        ensures
            final(self).policy == old(self).policy,
            final(self).polls_made == old(self).polls_made + 1,
            d == if final(self).polls_made < final(self).policy.max_polls {
                PollDirective::PollAgainAfter { sleep_secs: final(self).policy.interval_secs }
            } else {
                PollDirective::TimedOutAfter { sleep_secs: final(self).policy.interval_secs }
            },
    {
        self.polls_made = self.polls_made + 1;
        if self.polls_made < self.policy.max_polls {
            PollDirective::PollAgainAfter { sleep_secs: self.policy.interval_secs }
        } else {
            PollDirective::TimedOutAfter { sleep_secs: self.policy.interval_secs }
        }
    }
}

/// Index of the first terminal response among `script[i..max]`, if any.
pub open spec fn first_terminal_from(script: Seq<PollResponse>, max: int, i: int) -> Option<int>
    decreases max - i,
{
    if i >= max || i >= script.len() {
        Option::None
    } else if is_terminal(script[i]) {
        Option::Some(i)
    } else {
        first_terminal_from(script, max, i + 1)
    }
}

/// Index of the first terminal response the poller would reach.
pub open spec fn first_terminal(script: Seq<PollResponse>, max: int) -> Option<int> {
    first_terminal_from(script, max, 0)
}

/// Skipping a pending prefix does not change the first terminal response.
proof fn lemma_first_terminal_skip(script: Seq<PollResponse>, max: int, a: int, b: int)
    requires
        0 <= a <= b,
        forall|j: int| a <= j < b ==> !is_terminal(#[trigger] script[j]),
    ensures
        first_terminal_from(script, max, a) == first_terminal_from(script, max, b),
    decreases b - a,
{
    if a < b {
        if a >= max || a >= script.len() {
            assert(b >= max || b >= script.len());
        } else {
            lemma_first_terminal_skip(script, max, a + 1, b);
        }
    }
}

/// Everything the poller did on a scripted run.
pub struct PollRunResult {
    pub outcome: Result<String, DownloadError>,
    pub polls_made: u64,
    pub slept_secs: u64,
}

/// Drives the poller over a scripted sequence of status responses:
/// `script[i]` is what poll `i` would have returned. An explicit error
/// fails the job with the provider's own words; a result URL completes it;
/// exhausting the window is a timeout. One interval is slept after every
/// pending response.
pub fn run_poll(script: &Vec<PollResponse>, policy: PollPolicy) -> (r: PollRunResult)
    requires
        policy.max_polls >= 1,
        script@.len() >= policy.max_polls,
        policy.max_polls * policy.interval_secs <= u64::MAX,
    ensures
        match first_terminal(script@, policy.max_polls as int) {
            Option::Some(n) => {
                &&& r.polls_made == n + 1
                &&& r.slept_secs == n * policy.interval_secs
                &&& match script@[n].error {
                    Option::Some(m) => r.outcome matches Result::Err(e)
                        && e matches DownloadError::ProviderLogic { message } && message@ == m@,
                    Option::None => r.outcome matches Result::Ok(u)
                        && u@ == script@[n].url->0@,
                }
            },
            Option::None => {
                &&& r.outcome == Result::<String, DownloadError>::Err(DownloadError::PollTimeout)
                &&& r.polls_made == policy.max_polls
                &&& r.slept_secs == policy.max_polls * policy.interval_secs
            },
        },
{
    let ghost max = policy.max_polls as int;
    let n = script.len();
    let mut st = PollState::new(policy);
    let mut slept: u64 = 0;
    let mut i: usize = 0;
    loop
        invariant
            st.policy == policy,
            policy.max_polls >= 1,
            max == policy.max_polls,
            n == script@.len(),
            script@.len() >= policy.max_polls,
            policy.max_polls * policy.interval_secs <= u64::MAX,
            i == st.polls_made,
            st.polls_made < policy.max_polls,
            slept == st.polls_made * policy.interval_secs,
            forall|j: int| 0 <= j < st.polls_made ==> !is_terminal(#[trigger] script@[j]),
        decreases policy.max_polls - st.polls_made,
    {
        proof {
            lemma_first_terminal_skip(script@, max, 0, i as int);
            assert(i * policy.interval_secs <= policy.max_polls * policy.interval_secs)
                by (nonlinear_arith)
                requires
                    0 <= i <= policy.max_polls,
                    0 <= policy.interval_secs,
            ;
        }
        let resp = &script[i];
        match &resp.error {
            Option::Some(m) => {
                proof {
                    assert(is_terminal(script@[i as int]));
                }
                return PollRunResult {
                    outcome: Result::Err(DownloadError::ProviderLogic { message: m.clone() }),
                    polls_made: (i + 1) as u64,
                    slept_secs: slept,
                };
            },
            Option::None => {
                match &resp.url {
                    Option::Some(u) => {
                        proof {
                            assert(is_terminal(script@[i as int]));
                        }
                        return PollRunResult {
                            outcome: Result::Ok(u.clone()),
                            polls_made: (i + 1) as u64,
                            slept_secs: slept,
                        };
                    },
                    Option::None => {
                        proof {
                            assert(!is_terminal(script@[i as int]));
                        }
                        match st.on_pending() {
                            PollDirective::PollAgainAfter { sleep_secs } => {
                                proof {
                                    assert(st.polls_made * policy.interval_secs == i
                                        * policy.interval_secs + policy.interval_secs)
                                        by (nonlinear_arith)
                                        requires
                                            st.polls_made == i + 1,
                                    ;
                                    assert(st.polls_made * policy.interval_secs
                                        <= policy.max_polls * policy.interval_secs)
                                        by (nonlinear_arith)
                                        requires
                                            0 <= st.polls_made <= policy.max_polls,
                                            0 <= policy.interval_secs,
                                    ;
                                }
                                slept = slept + sleep_secs;
                                i = i + 1;
                            },
                            PollDirective::TimedOutAfter { sleep_secs } => {
                                proof {
                                    assert(st.polls_made * policy.interval_secs == i
                                        * policy.interval_secs + policy.interval_secs)
                                        by (nonlinear_arith)
                                        requires
                                            st.polls_made == i + 1,
                                    ;
                                    assert(st.polls_made * policy.interval_secs
                                        <= policy.max_polls * policy.interval_secs)
                                        by (nonlinear_arith)
                                        requires
                                            0 <= st.polls_made <= policy.max_polls,
                                            0 <= policy.interval_secs,
                                    ;
                                    lemma_first_terminal_skip(script@, max, i as int, i + 1);
                                }
                                return PollRunResult {
                                    outcome: Result::Err(DownloadError::PollTimeout),
                                    polls_made: (i + 1) as u64,
                                    slept_secs: slept + sleep_secs,
                                };
                            },
                        }
                    },
                }
            },
        }
    }
}

/// A scripted sequence of `k` pending responses followed by one carrying a
/// result URL reaches the ready state at poll `k + 1`, provided `k` is
/// under the window bound.
pub proof fn lemma_poll_reaches_ready(script: Seq<PollResponse>, max: int, k: int)
    requires
        0 <= k < max <= script.len(),
        forall|j: int| 0 <= j < k ==> !is_terminal(#[trigger] script[j]),
        is_terminal(script[k]),
    ensures
        first_terminal(script, max) == Option::Some(k),
{
    lemma_first_terminal_skip(script, max, 0, k);
}

/// A scripted sequence of nothing but pending responses exhausts the
/// window: the poller reports a timeout.
pub proof fn lemma_poll_times_out(script: Seq<PollResponse>, max: int)
    requires
        0 < max <= script.len(),
        forall|j: int| 0 <= j < max ==> !is_terminal(#[trigger] script[j]),
    ensures
        first_terminal(script, max) == Option::<int>::None,
{
    lemma_first_terminal_skip(script, max, 0, max);
}

} // verus!
