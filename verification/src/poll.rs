//! The branch readiness poller: after repository creation the default
//! branch may lag into visibility, so its existence is probed under a
//! bounded exponential backoff. The decision logic here is pure; the
//! caller performs the probe and the sleep and feeds the observed status
//! back in. The model of the wall clock is the total time slept so far.

use vstd::prelude::*;
use vstd::string::StringExecFns;

use crate::text;

verus! {

/// The first wait between probes, in milliseconds.
pub const INITIAL_DELAY_MS: u64 = 400;

/// The largest single wait between probes, in milliseconds.
pub const DELAY_CAP_MS: u64 = 2000;

/// The default deadline for the whole poll, in milliseconds.
pub const DEFAULT_MAX_WAIT_MS: u64 = 30000;

/// What to do after one probe of the branch resource.
#[derive(Debug, PartialEq, Eq, Structural, Clone, Copy)]
pub enum PollDecision {
    /// The branch is visible.
    Ready,
    /// A permission failure: terminal, waiting will not resolve it.
    PermissionDenied,
    /// The deadline elapsed while the branch stayed invisible.
    TimedOut,
    /// Sleep for `sleep_ms`, then probe again with `next_delay_ms`.
    Retry { sleep_ms: u64, next_delay_ms: u64 },
}

/// How a finished poll ended.
#[derive(Debug, PartialEq, Eq, Structural, Clone, Copy)]
pub enum PollOutcome {
    Ready,
    PermissionDenied,
    TimedOut,
    /// The schedule of observations ran out while the poller would still
    /// have retried.
    Exhausted,
}

/// The backoff delay after one more retry: doubled, capped.
pub open spec fn spec_next_delay(delay_ms: u64) -> u64 {
    if 2 * (delay_ms as int) <= DELAY_CAP_MS as int {
        (2 * (delay_ms as int)) as u64
    } else {
        DELAY_CAP_MS
    }
}

/// Decide what one observed status means for the poll: `200` ends it,
/// `401`/`403` fail it at once, and anything else (`404` above all)
/// retries until the deadline.
pub fn poll_step(status: u16, elapsed_ms: u64, delay_ms: u64, max_wait_ms: u64) -> (r:
    PollDecision)
    ensures
        status == 200 ==> r is Ready,
        status == 401 || status == 403 ==> r is PermissionDenied,
        !(status == 200 || status == 401 || status == 403) ==> {
            if elapsed_ms >= max_wait_ms {
                r is TimedOut
            } else {
                r == (PollDecision::Retry {
                    sleep_ms: delay_ms,
                    next_delay_ms: spec_next_delay(delay_ms),
                })
            }
        },
{
    if status == 200 {
        PollDecision::Ready
    } else if status == 401 || status == 403 {
        PollDecision::PermissionDenied
    } else if elapsed_ms >= max_wait_ms {
        PollDecision::TimedOut
    } else {
        let next = if delay_ms > DELAY_CAP_MS / 2 {
            DELAY_CAP_MS
        } else {
            delay_ms * 2
        };
        PollDecision::Retry { sleep_ms: delay_ms, next_delay_ms: next }
    }
}

/// The outcome and the sleeps of a poll run against a fixed schedule of
/// observed statuses, starting from the given elapsed time and delay.
pub open spec fn spec_poll_run(statuses: Seq<u16>, elapsed: int, delay: u64, max_wait: u64) -> (
    PollOutcome,
    Seq<u64>,
)
    decreases statuses.len(),
{
    if statuses.len() == 0 {
        (PollOutcome::Exhausted, Seq::empty())
    } else if statuses[0] == 200 {
        (PollOutcome::Ready, Seq::empty())
    } else if statuses[0] == 401 || statuses[0] == 403 {
        (PollOutcome::PermissionDenied, Seq::empty())
    } else if elapsed >= max_wait {
        (PollOutcome::TimedOut, Seq::empty())
    } else {
        let rest = spec_poll_run(
            statuses.drop_first(),
            elapsed + delay,
            spec_next_delay(delay),
            max_wait,
        );
        (rest.0, seq![delay] + rest.1)
    }
}

/// Drive the poll decision over a fixed schedule of observed statuses,
/// collecting the sleeps the poller takes along the way.
pub fn run_poll(statuses: &Vec<u16>, max_wait_ms: u64) -> (r: (PollOutcome, Vec<u64>))
    requires
        max_wait_ms <= u64::MAX - DELAY_CAP_MS,
    ensures
        (r.0, r.1@) == spec_poll_run(statuses@, 0, INITIAL_DELAY_MS, max_wait_ms),
{
    let mut i: usize = 0;
    let mut elapsed: u64 = 0;
    let mut delay: u64 = INITIAL_DELAY_MS;
    let mut sleeps: Vec<u64> = Vec::new();
    proof {
        assert(statuses@.skip(0) =~= statuses@);
        let rest0 = spec_poll_run(statuses@, 0, INITIAL_DELAY_MS, max_wait_ms);
        assert(sleeps@ + rest0.1 =~= rest0.1);
    }
    while i < statuses.len()
        invariant
            0 <= i <= statuses@.len(),
            max_wait_ms <= u64::MAX - DELAY_CAP_MS,
            delay <= DELAY_CAP_MS,
            elapsed <= max_wait_ms + DELAY_CAP_MS,
            spec_poll_run(statuses@, 0, INITIAL_DELAY_MS, max_wait_ms) == {
                let rest = spec_poll_run(
                    statuses@.skip(i as int),
                    elapsed as int,
                    delay,
                    max_wait_ms,
                );
                (rest.0, sleeps@ + rest.1)
            },
        decreases statuses@.len() - i,
    {
        let status = statuses[i];
        let ghost remaining = statuses@.skip(i as int);
        proof {
            assert(remaining[0] == statuses@[i as int]);
            assert(remaining.drop_first() =~= statuses@.skip(i + 1));
        }
        let decision = poll_step(status, elapsed, delay, max_wait_ms);
        match decision {
            PollDecision::Ready => {
                proof {
                    assert(sleeps@ + Seq::<u64>::empty() =~= sleeps@);
                }
                return (PollOutcome::Ready, sleeps);
            },
            PollDecision::PermissionDenied => {
                proof {
                    assert(sleeps@ + Seq::<u64>::empty() =~= sleeps@);
                }
                return (PollOutcome::PermissionDenied, sleeps);
            },
            PollDecision::TimedOut => {
                proof {
                    assert(sleeps@ + Seq::<u64>::empty() =~= sleeps@);
                }
                return (PollOutcome::TimedOut, sleeps);
            },
            PollDecision::Retry { sleep_ms, next_delay_ms } => {
                let ghost old_sleeps = sleeps@;
                sleeps.push(sleep_ms);
                proof {
                    let rest = spec_poll_run(
                        statuses@.skip(i + 1),
                        elapsed + sleep_ms,
                        next_delay_ms,
                        max_wait_ms,
                    );
                    assert(old_sleeps + (seq![sleep_ms] + rest.1) =~= sleeps@ + rest.1);
                }
                elapsed = elapsed + sleep_ms;
                delay = next_delay_ms;
            },
        }
        i = i + 1;
    }
    proof {
        assert(statuses@.skip(i as int) =~= Seq::<u16>::empty());
        assert(sleeps@ + Seq::<u64>::empty() =~= sleeps@);
    }
    (PollOutcome::Exhausted, sleeps)
}

/// The total time slept over a run, in milliseconds.
pub open spec fn sum_sleeps(s: Seq<u64>) -> int
    decreases s.len(),
{
    if s.len() == 0 {
        0
    } else {
        s[0] + sum_sleeps(s.drop_first())
    }
}

/// Backoff shape: starting from a delay within the cap, every sleep of a
/// run lies between that delay and the cap, and the sleeps never shrink.
pub proof fn lemma_poll_backoff_bounded(statuses: Seq<u16>, elapsed: int, delay: u64, max_wait: u64)
    requires
        delay <= DELAY_CAP_MS,
    ensures
        ({
            let sleeps = spec_poll_run(statuses, elapsed, delay, max_wait).1;
            &&& forall|i: int| 0 <= i < sleeps.len() ==> delay <= #[trigger] sleeps[i] <= DELAY_CAP_MS
            &&& forall|i: int, j: int| 0 <= i <= j < sleeps.len() ==> sleeps[i] <= sleeps[j]
        }),
    decreases statuses.len(),
{
    if statuses.len() == 0 || statuses[0] == 200 || statuses[0] == 401 || statuses[0] == 403
        || elapsed >= max_wait {
    } else {
        let next = spec_next_delay(delay);
        lemma_poll_backoff_bounded(statuses.drop_first(), elapsed + delay, next, max_wait);
        let rest = spec_poll_run(statuses.drop_first(), elapsed + delay, next, max_wait).1;
        let sleeps = spec_poll_run(statuses, elapsed, delay, max_wait).1;
        assert(sleeps == seq![delay] + rest);
        assert(forall|i: int| 0 <= i < rest.len() ==> (seq![delay] + rest)[i + 1] == rest[i]);
        assert(forall|i: int| 0 <= i < sleeps.len() ==> delay <= #[trigger] sleeps[i]
            <= DELAY_CAP_MS);
    }
}

/// A timeout is only reported once the deadline has really elapsed: the
/// starting time plus everything slept reaches the maximum wait.
pub proof fn lemma_poll_timeout_deadline(statuses: Seq<u16>, elapsed: int, delay: u64, max_wait: u64)
    ensures
        spec_poll_run(statuses, elapsed, delay, max_wait).0 is TimedOut ==> elapsed + sum_sleeps(
            spec_poll_run(statuses, elapsed, delay, max_wait).1,
        ) >= max_wait,
    decreases statuses.len(),
{
    if statuses.len() == 0 || statuses[0] == 200 || statuses[0] == 401 || statuses[0] == 403
        || elapsed >= max_wait {
    } else {
        let next = spec_next_delay(delay);
        lemma_poll_timeout_deadline(statuses.drop_first(), elapsed + delay, next, max_wait);
        let rest = spec_poll_run(statuses.drop_first(), elapsed + delay, next, max_wait);
        let run = spec_poll_run(statuses, elapsed, delay, max_wait);
        assert(run.1.drop_first() =~= rest.1);
    }
}

/// The terminal message when the branch never became visible in time.
pub fn timeout_message(branch: &str, max_wait_ms: u64) -> (r: String)
    ensures
        r@ == "Default branch '"@ + branch@ + "' was not found within "@ + text::dec_digits(
            max_wait_ms as nat,
        ) + "ms"@,
{
    let mut out = String::from_str("Default branch '");
    out.append(branch);
    out.append("' was not found within ");
    text::push_decimal(max_wait_ms, &mut out);
    out.append("ms");
    proof {
        assert(out@ =~= "Default branch '"@ + branch@ + "' was not found within "@
            + text::dec_digits(max_wait_ms as nat) + "ms"@);
    }
    out
}

/// The terminal message when a probe was refused for lack of permission.
pub fn permission_message(body: &str) -> (r: String)
    ensures
        r@ == "Insufficient permission to check branch existence: "@ + body@,
{
    let mut out = String::from_str("Insufficient permission to check branch existence: ");
    out.append(body);
    out
}

/// The terminal message when unclassified responses kept coming until the
/// deadline.
pub fn anomaly_timeout_message(max_wait_ms: u64, status: u16, body: &str) -> (r: String)
    ensures
        r@ == "Failed to confirm branch existence within "@ + text::dec_digits(max_wait_ms as nat)
            + "ms: "@ + text::dec_digits(status as nat) + " "@ + body@,
{
    let mut out = String::from_str("Failed to confirm branch existence within ");
    text::push_decimal(max_wait_ms, &mut out);
    out.append("ms: ");
    text::push_decimal(status as u64, &mut out);
    out.append(" ");
    out.append(body);
    proof {
        assert(out@ =~= "Failed to confirm branch existence within "@ + text::dec_digits(
            max_wait_ms as nat,
        ) + "ms: "@ + text::dec_digits(status as nat) + " "@ + body@);
    }
    out
}

} // verus!
