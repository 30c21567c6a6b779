//! State convergence: the clamped long-poll window and the exponential
//! backoff schedule that repeats the wait until the machine reaches the
//! desired state or the time budget runs out.

use vstd::prelude::*;

use crate::error::FlapsError;

verus! {

/// Shortest long-poll window the remote accepts, in milliseconds.
pub const WAIT_TIMEOUT_MIN_MS: u64 = 1000;

/// Longest long-poll window sent to the remote, in milliseconds; the
/// proxy in front of the API times out beyond this.
pub const WAIT_TIMEOUT_MAX_MS: u64 = 60000;

/// First inter-attempt delay of the backoff schedule, in milliseconds.
pub const BACKOFF_INITIAL_INTERVAL_MS: u64 = 500;

/// Largest inter-attempt delay of the backoff schedule, in milliseconds;
/// each delay is one-and-a-half times the previous, capped here.
pub const BACKOFF_MAX_INTERVAL_MS: u64 = 5000;

/// Margin granted past the caller's budget before the final deadline,
/// in milliseconds.
pub const BACKOFF_GRACE_MS: u64 = 100;

/// Per-attempt cap on the wait window during convergence, in
/// milliseconds.
pub const ATTEMPT_WINDOW_CAP_MS: u64 = 2000;

/// Budget for retrying the machine listing of a freshly created app,
/// which may transiently report not-found, in milliseconds.
pub const LIST_RETRY_MAX_ELAPSED_MS: u64 = 900000;

/// `v` clamped into `[lo, hi]`.
pub open spec fn spec_clamp(v: int, lo: int, hi: int) -> int {
    if v < lo {
        lo
    } else if v > hi {
        hi
    } else {
        v
    }
}

/// The wait window sent to the remote, in whole seconds: the requested
/// span clamped between one second and the proxy threshold.
pub fn effective_wait_timeout_secs(requested_ms: u64) -> (r: u64)
    ensures
        r == spec_clamp(requested_ms as int, WAIT_TIMEOUT_MIN_MS as int, WAIT_TIMEOUT_MAX_MS as int)
            / 1000,
{
    let clamped: u64 = if requested_ms < WAIT_TIMEOUT_MIN_MS {
        WAIT_TIMEOUT_MIN_MS
    } else if requested_ms > WAIT_TIMEOUT_MAX_MS {
        WAIT_TIMEOUT_MAX_MS
    } else {
        requested_ms
    };
    clamped / 1000
}

/// The delay scheduled after `n` retries: 500ms grown by half at each
/// retry, capped at five seconds.
pub open spec fn spec_backoff_interval(n: nat) -> int
    decreases n,
{
    if n == 0 {
        BACKOFF_INITIAL_INTERVAL_MS as int
    } else {
        let grown = spec_backoff_interval((n - 1) as nat) * 3 / 2;
        if grown > BACKOFF_MAX_INTERVAL_MS as int {
            BACKOFF_MAX_INTERVAL_MS as int
        } else {
            grown
        }
    }
}

/// Time slept in total once `n` retries have been scheduled.
pub open spec fn spec_backoff_elapsed(n: nat) -> int
    decreases n,
{
    if n == 0 {
        0
    } else {
        spec_backoff_elapsed((n - 1) as nat) + spec_backoff_interval((n - 1) as nat)
    }
}

/// Every scheduled delay lies between the initial and the maximum
/// interval.
pub proof fn lemma_backoff_interval_bounds(n: nat)
    ensures
        BACKOFF_INITIAL_INTERVAL_MS as int <= spec_backoff_interval(n)
            <= BACKOFF_MAX_INTERVAL_MS as int,
    decreases n,
{
    if n > 0 {
        lemma_backoff_interval_bounds((n - 1) as nat);
    }
}

/// Total sleep time grows with the number of retries.
pub proof fn lemma_backoff_elapsed_monotone(m: nat, n: nat)
    requires
        m <= n,
    ensures
        spec_backoff_elapsed(m) <= spec_backoff_elapsed(n),
    decreases n,
{
    if m < n {
        lemma_backoff_interval_bounds((n - 1) as nat);
        lemma_backoff_elapsed_monotone(m, (n - 1) as nat);
    }
}

/// The running state of one convergence: the caller's budget, the next
/// scheduled delay and the time spent so far.
#[derive(Debug, Clone)]
pub struct WaitRetry {
    /// The caller's overall elapsed-time budget, in milliseconds.
    pub timeout_ms: u64,
    /// The delay the next retry will sleep, in milliseconds.
    pub interval_ms: u64,
    /// Time attributed to attempts and sleeps so far, in milliseconds.
    pub elapsed_ms: u64,
}

/// What the schedule says after a failed attempt: sleep and try again,
/// stop because the budget is spent (the last transient error
/// surfaces), or stop at once on a permanent error.
#[derive(Debug)]
pub enum RetryDecision {
    RetryAfter { sleep_ms: u64, err: FlapsError },
    GiveUp(FlapsError),
    Abort(FlapsError),
}

impl WaitRetry {
    /// A convergence state is well formed while its clock has not passed
    /// the budget plus the grace margin, its delay is within the
    /// schedule's bounds, and the budget leaves room to add the margin.
    pub open spec fn wf(&self) -> bool {
        &&& self.timeout_ms <= 0x1000_0000_0000_0000u64
        &&& self.elapsed_ms <= self.timeout_ms + BACKOFF_GRACE_MS
        &&& BACKOFF_INITIAL_INTERVAL_MS <= self.interval_ms <= BACKOFF_MAX_INTERVAL_MS
    }

    /// A fresh schedule over a budget of `timeout_ms`.
    pub fn new(timeout_ms: u64) -> (r: WaitRetry)
        requires
            timeout_ms <= 0x1000_0000_0000_0000u64,
        ensures
            r == (WaitRetry {
                timeout_ms,
                interval_ms: BACKOFF_INITIAL_INTERVAL_MS,
                elapsed_ms: 0u64,
            }),
            r.wf(),
    {
        WaitRetry { timeout_ms, interval_ms: BACKOFF_INITIAL_INTERVAL_MS, elapsed_ms: 0 }
    }

    /// The wait window for the next attempt: what remains until the
    /// deadline (budget plus margin), capped at two seconds.
    pub fn attempt_window_ms(&self) -> (r: u64)
        requires
            self.wf(),
        ensures
            r as int == spec_clamp(
                self.timeout_ms + BACKOFF_GRACE_MS - self.elapsed_ms,
                0,
                ATTEMPT_WINDOW_CAP_MS as int,
            ),
    {
        let remaining = self.timeout_ms + BACKOFF_GRACE_MS - self.elapsed_ms;
        if remaining > ATTEMPT_WINDOW_CAP_MS {
            ATTEMPT_WINDOW_CAP_MS
        } else {
            remaining
        }
    }

    /// Accounts for `spent_ms` of wall time; the clock saturates at the
    /// deadline, past which no retry is scheduled.
    pub fn advance(&mut self, spent_ms: u64)
        requires
            old(self).wf(),
        ensures
            final(self).wf(),
            final(self).timeout_ms == old(self).timeout_ms,
            final(self).interval_ms == old(self).interval_ms,
            final(self).elapsed_ms as int == spec_clamp(
                old(self).elapsed_ms + spent_ms,
                0,
                old(self).timeout_ms + BACKOFF_GRACE_MS,
            ),
    {
        let deadline = self.timeout_ms + BACKOFF_GRACE_MS;
        let room = deadline - self.elapsed_ms;
        if spent_ms >= room {
            self.elapsed_ms = deadline;
        } else {
            self.elapsed_ms = self.elapsed_ms + spent_ms;
        }
    }

    /// Decides what to do with a failed attempt: a transient
    /// not-yet-converged error is retried after the scheduled delay
    /// while the budget and the margin allow; once they do not, the
    /// schedule gives up with it; every other error aborts at once.
    /// A retry is scheduled only while the elapsed time plus the sleep
    /// stays within the budget plus the grace margin.
    pub fn on_error(&mut self, err: FlapsError) -> (r: RetryDecision)
        requires
            old(self).wf(),
        ensures
            final(self).wf(),
            !(err matches FlapsError::DesiredStateNotReached { .. }) ==> (r == RetryDecision::Abort(
                err,
            ) && *final(self) == *old(self)),
            (err matches FlapsError::DesiredStateNotReached { .. } && (old(self).elapsed_ms
                > old(self).timeout_ms || old(self).elapsed_ms + old(self).interval_ms > old(
                self,
            ).timeout_ms + BACKOFF_GRACE_MS)) ==> (r == RetryDecision::GiveUp(err) && *final(self)
                == *old(self)),
            (err matches FlapsError::DesiredStateNotReached { .. } && old(self).elapsed_ms <= old(
                self,
            ).timeout_ms && old(self).elapsed_ms + old(self).interval_ms <= old(self).timeout_ms
                + BACKOFF_GRACE_MS) ==> (r == (RetryDecision::RetryAfter {
                sleep_ms: old(self).interval_ms,
                err,
            }) && final(self).elapsed_ms == old(self).elapsed_ms && final(self).timeout_ms == old(
                self,
            ).timeout_ms && final(self).interval_ms as int == spec_clamp(
                old(self).interval_ms * 3 / 2,
                0,
                BACKOFF_MAX_INTERVAL_MS as int,
            )),
    {
        let transient = err.is_desired_state_not_reached();
        self.on_classified_error(err, transient)
    }

    /// Decides what to do with a failed attempt whose transience the
    /// caller has judged: state convergence retries the
    /// not-yet-converged error, and the listing of a fresh app retries
    /// not-found. A transient error is retried after the scheduled
    /// delay while the budget and the margin allow; once they do not,
    /// the schedule gives up with it; a permanent error aborts at once.
    pub fn on_classified_error(&mut self, err: FlapsError, transient: bool) -> (r: RetryDecision)
        requires
            old(self).wf(),
        ensures
            final(self).wf(),
            !transient ==> (r == RetryDecision::Abort(err) && *final(self) == *old(self)),
            (transient && (old(self).elapsed_ms > old(self).timeout_ms || old(self).elapsed_ms
                + old(self).interval_ms > old(self).timeout_ms + BACKOFF_GRACE_MS)) ==> (r
                == RetryDecision::GiveUp(err) && *final(self) == *old(self)),
            (transient && old(self).elapsed_ms <= old(self).timeout_ms && old(self).elapsed_ms
                + old(self).interval_ms <= old(self).timeout_ms + BACKOFF_GRACE_MS) ==> (r == (
            RetryDecision::RetryAfter { sleep_ms: old(self).interval_ms, err }) && final(self).elapsed_ms
                == old(self).elapsed_ms && final(self).timeout_ms == old(self).timeout_ms
                && final(self).interval_ms as int == spec_clamp(
                old(self).interval_ms * 3 / 2,
                0,
                BACKOFF_MAX_INTERVAL_MS as int,
            )),
    {
        if !transient {
            return RetryDecision::Abort(err);
        }
        if self.elapsed_ms > self.timeout_ms || self.elapsed_ms + self.interval_ms > self.timeout_ms
            + BACKOFF_GRACE_MS {
            return RetryDecision::GiveUp(err);
        }
        let sleep_ms = self.interval_ms;
        let grown = self.interval_ms * 3 / 2;
        self.interval_ms = if grown > BACKOFF_MAX_INTERVAL_MS {
            BACKOFF_MAX_INTERVAL_MS
        } else {
            grown
        };
        RetryDecision::RetryAfter { sleep_ms, err }
    }
}

/// One convergence run's outcome: how many attempts ran, the simulated
/// time they took, and the final result.
#[derive(Debug)]
pub struct ConvergenceReport {
    pub attempts: usize,
    pub elapsed_ms: u64,
    pub result: Result<(), FlapsError>,
}

/// Whether the backoff budget admits `n` retries: the clock must not
/// have passed the budget when the last one was scheduled, nor the
/// deadline once it slept.
pub open spec fn spec_budget_allows(n: nat, timeout_ms: int) -> bool {
    n == 0 || (spec_backoff_elapsed((n - 1) as nat) <= timeout_ms && spec_backoff_elapsed(n)
        <= timeout_ms + BACKOFF_GRACE_MS)
}

/// Whether the first `n` outcomes are all the transient
/// not-yet-converged error.
pub open spec fn spec_all_transient_before(outcomes: Seq<Result<(), FlapsError>>, n: int) -> bool {
    forall|j: int|
        0 <= j < n ==> #[trigger] outcomes[j] matches Err(
            FlapsError::DesiredStateNotReached { .. },
        )
}

/// Whether a run over `outcomes` under `timeout_ms` converges on
/// attempt `n + 1`: the first `n` outcomes are transient, the budget
/// admits those retries, and outcome `n` succeeds.
pub open spec fn spec_converges_at(
    outcomes: Seq<Result<(), FlapsError>>,
    n: int,
    timeout_ms: int,
) -> bool {
    0 <= n < outcomes.len() && (outcomes[n] matches Ok(_)) && spec_all_transient_before(outcomes, n)
        && spec_budget_allows(n as nat, timeout_ms)
}

/// Whether a run over `outcomes` under `timeout_ms` hits a permanent
/// error on attempt `n + 1`: the first `n` outcomes are transient, the
/// budget admits those retries, and outcome `n` is an error other than
/// the transient one.
pub open spec fn spec_aborts_at(
    outcomes: Seq<Result<(), FlapsError>>,
    n: int,
    timeout_ms: int,
) -> bool {
    0 <= n < outcomes.len() && (outcomes[n] matches Err(e) && !(e
        matches FlapsError::DesiredStateNotReached { .. })) && spec_all_transient_before(
        outcomes,
        n,
    ) && spec_budget_allows(n as nat, timeout_ms)
}

/// Drives the convergence schedule over a pre-recorded list of attempt
/// outcomes, exactly as the live poll loop drives it over wait calls:
/// each attempt is taken as instantaneous and each scheduled sleep
/// advances the simulated clock. Outcomes past the first terminal
/// decision are ignored; if every outcome is consumed the last
/// transient error surfaces.
///
/// The contract carries the convergence laws: the simulated clock never
/// passes the budget plus the grace margin; a run whose first `n`
/// outcomes are transient and admitted by the budget converges exactly
/// on attempt `n + 1` when outcome `n` succeeds, and stops on attempt
/// `n + 1` surfacing exactly outcome `n` when it is any other error, so
/// a not-found on the first attempt fails immediately, with no retry.
pub fn run_convergence(timeout_ms: u64, outcomes: Vec<Result<(), FlapsError>>) -> (r:
    ConvergenceReport)
    requires
        timeout_ms <= 0x1000_0000_0000_0000u64,
        outcomes@.len() >= 1,
    ensures
        r.elapsed_ms <= timeout_ms + BACKOFF_GRACE_MS,
        forall|n: int|
            #[trigger] spec_converges_at(outcomes@, n, timeout_ms as int) ==> r.attempts == n + 1
                && (r.result matches Ok(_)) && r.elapsed_ms == spec_backoff_elapsed(n as nat),
        forall|n: int|
            #[trigger] spec_aborts_at(outcomes@, n, timeout_ms as int) ==> r.attempts == n + 1
                && r.result == outcomes@[n],
{
    let ghost all = outcomes@;
    let mut retry = WaitRetry::new(timeout_ms);
    let total = outcomes.len();
    let mut remaining = outcomes;
    let mut attempts: usize = 0;
    let mut last_err: Option<FlapsError> = None;
    loop
        invariant
            retry.wf(),
            retry.timeout_ms == timeout_ms,
            all == outcomes@,
            all.len() >= 1,
            total == all.len(),
            attempts + remaining@.len() == all.len(),
            remaining@ =~= all.skip(attempts as int),
            spec_all_transient_before(all, attempts as int),
            retry.elapsed_ms == spec_backoff_elapsed(attempts as nat),
            retry.interval_ms == spec_backoff_interval(attempts as nat),
            attempts > 0 ==> spec_budget_allows(attempts as nat, timeout_ms as int),
            attempts > 0 ==> last_err is Some,
        decreases remaining@.len(),
    {
        if remaining.len() == 0 {
            proof {
                lemma_exhausted_no_case(all, timeout_ms as int);
            }
            let err = match last_err {
                Some(e) => e,
                None => {
                    proof {
                        assert(false);
                    }
                    FlapsError::NoMachineId
                },
            };
            return ConvergenceReport { attempts, elapsed_ms: retry.elapsed_ms, result: Err(err) };
        }
        let outcome = remaining.remove(0);
        let ghost n = attempts as int;
        proof {
            assert(all.skip(n)[0] == all[n]);
        }
        match outcome {
            Ok(_) => {
                proof {
                    lemma_terminal_unique(all, n, timeout_ms as int);
                }
                return ConvergenceReport {
                    attempts: attempts + 1,
                    elapsed_ms: retry.elapsed_ms,
                    result: Ok(()),
                };
            },
            Err(e) => {
                match retry.on_error(e) {
                    RetryDecision::RetryAfter { sleep_ms, err } => {
                        retry.advance(sleep_ms);
                        proof {
                            lemma_backoff_interval_bounds(attempts as nat);
                            assert(remaining@ =~= all.skip(attempts + 1));
                        }
                        last_err = Some(err);
                        attempts = attempts + 1;
                    },
                    RetryDecision::GiveUp(err) => {
                        proof {
                            lemma_giveup_no_case(all, n, timeout_ms as int);
                        }
                        return ConvergenceReport {
                            attempts: attempts + 1,
                            elapsed_ms: retry.elapsed_ms,
                            result: Err(err),
                        };
                    },
                    RetryDecision::Abort(err) => {
                        proof {
                            lemma_terminal_unique(all, n, timeout_ms as int);
                        }
                        return ConvergenceReport {
                            attempts: attempts + 1,
                            elapsed_ms: retry.elapsed_ms,
                            result: Err(err),
                        };
                    },
                }
            },
        }
    }
}

/// When the first `n` outcomes are transient and outcome `n` is not,
/// attempt `n + 1` is the only one at which a run can converge or abort.
proof fn lemma_terminal_unique(all: Seq<Result<(), FlapsError>>, n: int, timeout_ms: int)
    requires
        0 <= n < all.len(),
        spec_all_transient_before(all, n),
        !(all[n] matches Err(FlapsError::DesiredStateNotReached { .. })),
    ensures
        forall|m: int| #[trigger] spec_converges_at(all, m, timeout_ms) ==> m == n,
        forall|m: int| #[trigger] spec_aborts_at(all, m, timeout_ms) ==> m == n,
{
    assert forall|m: int|
        spec_converges_at(all, m, timeout_ms) || spec_aborts_at(all, m, timeout_ms) implies m
        == n by {
        if m < n {
            assert(all[m] matches Err(FlapsError::DesiredStateNotReached { .. }));
        } else if m > n {
            assert(all[n] matches Err(FlapsError::DesiredStateNotReached { .. }));
        }
    }
}

/// Once the schedule refuses to sleep after the `n` transient outcomes
/// seen so far, no attempt count satisfies either terminal case: later
/// ones exceed the budget, earlier ones were transient.
proof fn lemma_giveup_no_case(all: Seq<Result<(), FlapsError>>, n: int, timeout_ms: int)
    requires
        0 <= n < all.len(),
        spec_all_transient_before(all, n),
        all[n] matches Err(FlapsError::DesiredStateNotReached { .. }),
        spec_backoff_elapsed(n as nat) > timeout_ms || spec_backoff_elapsed(n as nat)
            + spec_backoff_interval(n as nat) > timeout_ms + BACKOFF_GRACE_MS,
    ensures
        forall|m: int| !#[trigger] spec_converges_at(all, m, timeout_ms),
        forall|m: int| !#[trigger] spec_aborts_at(all, m, timeout_ms),
{
    assert forall|m: int|
        !(spec_converges_at(all, m, timeout_ms) || spec_aborts_at(all, m, timeout_ms)) by {
        if m <= n {
            if 0 <= m {
                assert(all[m] matches Err(FlapsError::DesiredStateNotReached { .. }));
            }
        } else {
            lemma_backoff_elapsed_monotone(n as nat, (m - 1) as nat);
            lemma_backoff_elapsed_monotone((n + 1) as nat, m as nat);
            assert(spec_backoff_elapsed((n + 1) as nat) == spec_backoff_elapsed(n as nat)
                + spec_backoff_interval(n as nat));
            assert(!spec_budget_allows(m as nat, timeout_ms));
        }
    }
}

/// When every outcome is transient, no attempt count satisfies either
/// terminal case.
proof fn lemma_exhausted_no_case(all: Seq<Result<(), FlapsError>>, timeout_ms: int)
    requires
        spec_all_transient_before(all, all.len() as int),
    ensures
        forall|m: int| !#[trigger] spec_converges_at(all, m, timeout_ms),
        forall|m: int| !#[trigger] spec_aborts_at(all, m, timeout_ms),
{
    assert forall|m: int|
        !(spec_converges_at(all, m, timeout_ms) || spec_aborts_at(all, m, timeout_ms)) by {
        if 0 <= m < all.len() {
            assert(all[m] matches Err(FlapsError::DesiredStateNotReached { .. }));
        }
    }
}

} // verus!
