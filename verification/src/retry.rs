//! The retry policy as an explicit state machine: the per-attempt decision
//! (retry with a delay, or give up), the exponential backoff formula, and a
//! pure driver that runs a whole schedule of attempt outcomes and records
//! the sleeps it would perform. The driver lets the policy be exercised and
//! proved without real transport or real sleeps; the caller that owns the
//! transport performs the sleeps it prescribes.
use vstd::prelude::*;

use crate::errors::{spec_retryable, VisionError};

verus! {

/// What one attempt produced: the extracted text, or an error.
#[derive(Debug, Clone)]
pub enum AttemptOutcome {
    Success { text: String },
    Failure { error: VisionError },
}

/// What the policy does after a failed attempt.
#[derive(Debug, Clone, PartialEq)]
pub enum RetryDecision {
    /// Sleep this many milliseconds, then attempt again.
    RetryAfterMs { delay_ms: u64 },
    /// Surface the error; no further attempts.
    GiveUp,
}

/// The backoff before re-attempt `attempt + 1`: 1000 * 2^attempt
/// milliseconds, saturating once the shift leaves the 64-bit range.
pub open spec fn spec_backoff_ms(attempt: nat) -> u64 {
    if attempt <= 53 {
        (1000 * pow2_spec(attempt)) as u64
    } else {
        u64::MAX
    }
}

/// 2^n as a mathematical integer.
pub open spec fn pow2_spec(n: nat) -> nat
    decreases n,
{
    if n == 0 {
        1
    } else {
        2 * pow2_spec((n - 1) as nat)
    }
}

/// Computes the backoff delay for the given attempt index.
pub fn backoff_ms(attempt: u32) -> (r: u64)
    ensures
        r == spec_backoff_ms(attempt as nat),
{
    if attempt <= 53 {
        let mut p: u64 = 1;
        let mut i: u32 = 0;
        while i < attempt
            invariant
                i <= attempt <= 53,
                p == pow2_spec(i as nat),
            decreases attempt - i,
        {
            proof {
                lemma_pow2_monotone(i as nat + 1, 53);
                lemma_pow2_53();
            }
            p = p * 2;
            i += 1;
        }
        proof {
            lemma_pow2_monotone(attempt as nat, 53);
            lemma_pow2_53();
        }
        1000u64 * p
    } else {
        u64::MAX
    }
}

/// The largest power of two the backoff formula multiplies by 1000.
proof fn lemma_pow2_53()
    ensures
        pow2_spec(53) == 0x20000000000000,
{
    assert(pow2_spec(53) == 0x20000000000000) by {
        reveal_with_fuel(pow2_spec, 54);
    }
}

/// 2^n grows with n.
proof fn lemma_pow2_monotone(a: nat, b: nat)
    requires
        a <= b,
    ensures
        pow2_spec(a) <= pow2_spec(b),
    decreases b,
{
    if a < b {
        lemma_pow2_monotone(a, (b - 1) as nat);
    }
}

/// The decision after attempt `attempt` (zero-based) failed with `error`:
/// retry after the exponential backoff exactly when the error is retryable
/// and attempts remain; give up otherwise.
pub fn next_decision(attempt: u32, max_retries: u32, error: &VisionError) -> (r: RetryDecision)
    ensures
        spec_retryable(*error) && attempt < max_retries ==> r == (RetryDecision::RetryAfterMs {
            delay_ms: spec_backoff_ms(attempt as nat),
        }),
        !(spec_retryable(*error) && attempt < max_retries) ==> r == RetryDecision::GiveUp,
{
    if error.is_retryable() && attempt < max_retries {
        RetryDecision::RetryAfterMs { delay_ms: backoff_ms(attempt) }
    } else {
        RetryDecision::GiveUp
    }
}

/// What a whole run of the policy produces: the final result, the backoff
/// sleeps performed between attempts, in order, and how many attempts were
/// made.
#[derive(Debug)]
pub struct RetryTrace {
    pub result: Result<String, VisionError>,
    pub sleeps_ms: Vec<u64>,
    pub attempts: u64,
}

/// The policy, run from attempt `attempt` onwards against the outcomes the
/// attempts would produce: the result surfaced, the sleeps performed, and
/// the number of attempts consumed.
pub open spec fn spec_retry_run(
    outcomes: Seq<AttemptOutcome>,
    attempt: nat,
    max_retries: nat,
) -> (Result<Seq<char>, VisionError>, Seq<u64>, nat)
    decreases max_retries - attempt,
{
    let o = outcomes[attempt as int];
    match o {
        AttemptOutcome::Success { text } => (Ok(text@), Seq::empty(), 1),
        AttemptOutcome::Failure { error } => {
            if spec_retryable(error) && attempt < max_retries {
                let rest = spec_retry_run(outcomes, attempt + 1, max_retries);
                (rest.0, seq![spec_backoff_ms(attempt)] + rest.1, rest.2 + 1)
            } else {
                (Err(error), Seq::empty(), 1)
            }
        },
    }
}

/// Runs the policy against a prepared schedule of attempt outcomes, one per
/// attempt the policy could make. Attempt n+1 happens only after attempt n
/// failed retryably with retries remaining; the recorded sleeps are the
/// backoffs prescribed in between, in order.
pub fn run_retry_schedule(outcomes: &Vec<AttemptOutcome>, max_retries: u32) -> (r: RetryTrace)
    requires
        outcomes@.len() > max_retries,
    ensures
        ({
            let run = spec_retry_run(outcomes@, 0, max_retries as nat);
            &&& match (r.result, run.0) {
                (Ok(t), Ok(s)) => t@ == s,
                (Err(e1), Err(e2)) => e1 == e2,
                _ => false,
            }
            &&& r.sleeps_ms@ == run.1
            &&& r.attempts == run.2
        }),
{
    let mut sleeps_ms: Vec<u64> = Vec::new();
    let mut attempt: u32 = 0;
    loop
        invariant
            outcomes@.len() > max_retries,
            attempt <= max_retries,
            ({
                let whole = spec_retry_run(outcomes@, 0, max_retries as nat);
                let rest = spec_retry_run(outcomes@, attempt as nat, max_retries as nat);
                &&& whole.0 == rest.0
                &&& whole.1 == sleeps_ms@ + rest.1
                &&& whole.2 == attempt + rest.2
            }),
        decreases max_retries - attempt,
    {
        let ghost rest = spec_retry_run(outcomes@, attempt as nat, max_retries as nat);
        let outcome = &outcomes[attempt as usize];
        match outcome {
            AttemptOutcome::Success { text } => {
                proof {
                    assert(sleeps_ms@ + Seq::<u64>::empty() =~= sleeps_ms@);
                }
                return RetryTrace {
                    result: Ok(text.clone()),
                    sleeps_ms,
                    attempts: attempt as u64 + 1,
                };
            },
            AttemptOutcome::Failure { error } => {
                match next_decision(attempt, max_retries, error) {
                    RetryDecision::GiveUp => {
                        proof {
                            assert(sleeps_ms@ + Seq::<u64>::empty() =~= sleeps_ms@);
                        }
                        return RetryTrace {
                            result: Err(error.clone()),
                            sleeps_ms,
                            attempts: attempt as u64 + 1,
                        };
                    },
                    RetryDecision::RetryAfterMs { delay_ms } => {
                        proof {
                            let tail = spec_retry_run(
                                outcomes@,
                                attempt as nat + 1,
                                max_retries as nat,
                            );
                            assert(sleeps_ms@ + (seq![delay_ms] + tail.1) =~= sleeps_ms@.push(
                                delay_ms,
                            ) + tail.1);
                        }
                        sleeps_ms.push(delay_ms);
                        attempt = attempt + 1;
                    },
                }
            },
        }
    }
}

/// When every attempt fails retryably, the policy makes `max_retries + 1`
/// attempts, sleeps exactly 1000 * 2^n milliseconds after failed attempt n
/// for each n below `max_retries`, and surfaces the last attempt's error:
/// the failing final attempt is not followed by a sleep or a further
/// attempt.
pub proof fn lemma_all_retryable_exhausts(
    outcomes: Seq<AttemptOutcome>,
    attempt: nat,
    max_retries: nat,
)
    requires
        attempt <= max_retries,
        outcomes.len() > max_retries,
        forall|i: int|
            attempt <= i <= max_retries ==> (#[trigger] outcomes[i]
                matches AttemptOutcome::Failure { error } && spec_retryable(error)),
    ensures
        ({
            let run = spec_retry_run(outcomes, attempt, max_retries);
            &&& run.0 matches Err(e) && (outcomes[max_retries as int]
                matches AttemptOutcome::Failure { error } && e == error)
            &&& run.1 =~= Seq::new((max_retries - attempt) as nat, |i: int| spec_backoff_ms((attempt + i) as nat))
            &&& run.2 == max_retries - attempt + 1
        }),
    decreases max_retries - attempt,
{
    if attempt < max_retries {
        lemma_all_retryable_exhausts(outcomes, attempt + 1, max_retries);
    }
}

/// A non-retryable failure on an attempt ends the run at once: that error
/// is surfaced, no sleep happens after it, and no further attempt is made.
pub proof fn lemma_fatal_stops_immediately(
    outcomes: Seq<AttemptOutcome>,
    attempt: nat,
    max_retries: nat,
)
    requires
        attempt <= max_retries,
        outcomes.len() > max_retries,
        outcomes[attempt as int] matches AttemptOutcome::Failure { error } && !spec_retryable(
            error,
        ),
    ensures
        ({
            let run = spec_retry_run(outcomes, attempt, max_retries);
            &&& run.0 matches Err(e) && (outcomes[attempt as int] matches AttemptOutcome::Failure {
                error,
            } && e == error)
            &&& run.1 =~= Seq::<u64>::empty()
            &&& run.2 == 1
        }),
{
}

} // verus!
