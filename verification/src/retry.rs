//! Retry policy for one-shot captures.
//!
//! A one-shot capture makes up to [`MAX_ATTEMPTS`] attempts with a fixed
//! delay between consecutive ones. The first success short-circuits;
//! non-transient failures surface immediately; a final failure is annotated
//! with the attempt count and the time spent waiting between attempts.
//! The embedding runs the decoder and sleeps; the decisions live here.

use vstd::prelude::*;

use crate::errors::ErrorCategory;

verus! {

/// Upper bound on capture attempts for one request.
pub const MAX_ATTEMPTS: u32 = 3;

/// Fixed delay between consecutive attempts, in milliseconds.
pub const RETRY_DELAY_MS: u64 = 2000;

/// What one capture attempt produced, as handed back by the embedding that
/// ran the decoder process.
pub enum AttemptOutcome {
    /// The decoder produced a complete frame.
    Captured(Vec<u8>),
    /// The attempt failed with a classified category and the raw diagnostic
    /// text the decoder printed.
    Failed(ErrorCategory, Vec<u8>),
}

/// What the orchestrator does after a failed attempt.
#[derive(Clone, Copy, Debug, PartialEq, Eq, Structural)]
pub enum RetryDecision {
    /// Wait the given number of milliseconds, then try again.
    RetryAfterMs(u64),
    /// Give up: the failure is final and surfaces to the caller.
    GiveUp,
}

/// A capture failure as surfaced to the caller: the last classified error,
/// annotated with how many attempts were made, how long the orchestrator
/// waited between attempts, and the raw diagnostic text of the last attempt.
pub struct CaptureFailure {
    /// Classified category of the last failed attempt.
    pub category: ErrorCategory,
    /// How many attempts were made before giving up.
    pub attempts: u32,
    /// Total time spent waiting between attempts, in milliseconds.
    pub waited_ms: u64,
    /// Raw diagnostic text of the last failed attempt.
    pub diagnostic: Vec<u8>,
}

/// Outcome of a whole one-shot capture: the first frame captured, or the
/// annotated last failure.
pub enum CaptureResult {
    Frame(Vec<u8>),
    Failure(CaptureFailure),
}

/// The decision after failed attempt number `attempt` (1-based): retry
/// after the fixed delay exactly while the failure is transient and the
/// attempt limit is not yet exhausted.
pub open spec fn spec_next_action(attempt: u32, category: ErrorCategory) -> RetryDecision {
    if category.spec_is_transient() && attempt < MAX_ATTEMPTS {
        RetryDecision::RetryAfterMs(RETRY_DELAY_MS)
    } else {
        RetryDecision::GiveUp
    }
}

/// Decides what to do after failed attempt number `attempt` (1-based).
pub fn next_action(attempt: u32, category: ErrorCategory) -> (d: RetryDecision)
    ensures
        d == spec_next_action(attempt, category),
{
    if category.is_transient() && attempt < MAX_ATTEMPTS {
        RetryDecision::RetryAfterMs(RETRY_DELAY_MS)
    } else {
        RetryDecision::GiveUp
    }
}

/// The 1-based number of the attempt on which a capture stops, given what
/// each attempt would produce, counting from attempt `k`: the first success
/// or non-transient failure stops it, and the attempt limit always does.
pub open spec fn spec_stop_attempt(outcomes: Seq<AttemptOutcome>, k: int) -> int
    decreases MAX_ATTEMPTS - k,
{
    if k >= MAX_ATTEMPTS {
        MAX_ATTEMPTS as int
    } else {
        match outcomes[k - 1] {
            AttemptOutcome::Captured(_) => k,
            AttemptOutcome::Failed(category, _) => if category.spec_is_transient() {
                spec_stop_attempt(outcomes, k + 1)
            } else {
                k
            },
        }
    }
}

/// The stopping attempt lies between the attempt counted from and the
/// attempt limit.
proof fn lemma_stop_attempt_bounds(outcomes: Seq<AttemptOutcome>, k: int)
    requires
        1 <= k <= MAX_ATTEMPTS as int,
    ensures
        k <= spec_stop_attempt(outcomes, k) <= MAX_ATTEMPTS as int,
    decreases MAX_ATTEMPTS as int - k,
{
    if k < MAX_ATTEMPTS as int {
        lemma_stop_attempt_bounds(outcomes, k + 1);
    }
}

/// Runs the whole retry policy over the per-attempt outcomes: attempt `k`
/// produces `outcomes[k - 1]`. Stops at the first success or non-transient
/// failure, and after `MAX_ATTEMPTS` attempts at the latest. A failure
/// surfaces the last attempt's category and diagnostic text, annotated with
/// the attempt count and the total inter-attempt delay.
pub fn run_attempts(outcomes: Vec<AttemptOutcome>) -> (r: CaptureResult)
    requires
        outcomes@.len() >= MAX_ATTEMPTS,
    ensures
        ({
            let stop = spec_stop_attempt(outcomes@, 1);
            match r {
                CaptureResult::Frame(f) => outcomes@[stop - 1] matches AttemptOutcome::Captured(g)
                    && f == g,
                CaptureResult::Failure(e) => outcomes@[stop - 1] matches AttemptOutcome::Failed(
                    category,
                    diagnostic,
                ) && e.category == category && e.diagnostic == diagnostic && e.attempts == stop
                    && e.waited_ms == (stop - 1) * RETRY_DELAY_MS as int,
            }
        }),
{
    let ghost all = outcomes@;
    let mut remaining = outcomes;
    let mut attempt: u32 = 1;
    let mut waited: u64 = 0;
    proof {
        lemma_stop_attempt_bounds(all, 1);
        assert(remaining@ =~= all.skip(0));
    }
    loop
        invariant
            all == outcomes@,
            1 <= attempt <= MAX_ATTEMPTS,
            remaining@ == all.skip(attempt - 1),
            all.len() >= MAX_ATTEMPTS,
            waited == (attempt - 1) * RETRY_DELAY_MS as int,
            spec_stop_attempt(all, 1) == spec_stop_attempt(all, attempt as int),
            spec_stop_attempt(all, attempt as int) >= attempt,
        decreases MAX_ATTEMPTS - attempt,
    {
        let outcome = remaining.remove(0);
        proof {
            assert(outcome == all[attempt - 1]);
            assert(remaining@ =~= all.skip(attempt as int));
        }
        match outcome {
            AttemptOutcome::Captured(frame) => {
                proof {
                    assert(spec_stop_attempt(all, attempt as int) == attempt as int);
                }
                return CaptureResult::Frame(frame);
            },
            AttemptOutcome::Failed(category, diagnostic) => {
                match next_action(attempt, category) {
                    RetryDecision::GiveUp => {
                        proof {
                            assert(spec_stop_attempt(all, attempt as int) == attempt as int);
                        }
                        return CaptureResult::Failure(
                            CaptureFailure {
                                category,
                                attempts: attempt,
                                waited_ms: waited,
                                diagnostic,
                            },
                        );
                    },
                    RetryDecision::RetryAfterMs(_) => {
                        // The embedding sleeps for the fixed delay here.
                        proof {
                            assert(spec_stop_attempt(all, attempt as int) == spec_stop_attempt(
                                all,
                                attempt as int + 1,
                            ));
                            lemma_stop_attempt_bounds(all, attempt as int + 1);
                        }
                        attempt = attempt + 1;
                        waited = waited + RETRY_DELAY_MS;
                    },
                }
            },
        }
    }
}

/// Retry bound: when every attempt fails with a transient category, the
/// capture stops only at the attempt limit, so exactly `MAX_ATTEMPTS`
/// attempts are made and the surfaced failure reports that count.
pub proof fn lemma_retry_bound(outcomes: Seq<AttemptOutcome>)
    requires
        outcomes.len() >= MAX_ATTEMPTS,
        forall|k: int| 0 <= k < outcomes.len() ==> ((#[trigger] outcomes[k]) matches
            AttemptOutcome::Failed(category, _) && category.spec_is_transient()),
    ensures
        spec_stop_attempt(outcomes, 1) == MAX_ATTEMPTS as int,
{
    assert(spec_stop_attempt(outcomes, 3) == 3);
    assert(spec_stop_attempt(outcomes, 2) == 3);
    assert(spec_stop_attempt(outcomes, 1) == 3);
}

} // verus!
