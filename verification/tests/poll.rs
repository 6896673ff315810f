use github_client::poll::{
    anomaly_timeout_message, permission_message, poll_step, run_poll, timeout_message,
    PollDecision, PollOutcome, DEFAULT_MAX_WAIT_MS,
};

#[test]
fn poller_succeeds_after_two_backoff_sleeps() {
    let statuses = vec![404u16, 404, 200];
    let (outcome, sleeps) = run_poll(&statuses, DEFAULT_MAX_WAIT_MS);
    assert_eq!(outcome, PollOutcome::Ready);
    assert!(sleeps.len() >= 2);
    assert_eq!(sleeps, vec![400u64, 800]);
}

#[test]
fn poller_times_out_once_deadline_elapses() {
    // A shortened deadline: after sleeping 400 and 800 ms the modeled
    // clock reaches 1200 ms, past the 1000 ms deadline.
    let statuses = vec![404u16; 10];
    let (outcome, sleeps) = run_poll(&statuses, 1000);
    assert_eq!(outcome, PollOutcome::TimedOut);
    assert_eq!(sleeps, vec![400u64, 800]);
    let slept: u64 = sleeps.iter().sum();
    assert!(slept >= 1000);
}

#[test]
fn permission_failures_never_retry() {
    let (outcome, sleeps) = run_poll(&vec![401u16, 200], DEFAULT_MAX_WAIT_MS);
    assert_eq!(outcome, PollOutcome::PermissionDenied);
    assert!(sleeps.is_empty());
    let (outcome, sleeps) = run_poll(&vec![403u16, 200], DEFAULT_MAX_WAIT_MS);
    assert_eq!(outcome, PollOutcome::PermissionDenied);
    assert!(sleeps.is_empty());
}

#[test]
fn immediate_visibility_needs_no_sleep() {
    let (outcome, sleeps) = run_poll(&vec![200u16], DEFAULT_MAX_WAIT_MS);
    assert_eq!(outcome, PollOutcome::Ready);
    assert!(sleeps.is_empty());
}

#[test]
fn backoff_doubles_and_caps() {
    let statuses = vec![404u16; 40];
    let (outcome, sleeps) = run_poll(&statuses, DEFAULT_MAX_WAIT_MS);
    assert_eq!(outcome, PollOutcome::TimedOut);
    assert_eq!(&sleeps[..4], &[400u64, 800, 1600, 2000]);
    for w in sleeps.windows(2) {
        assert!(w[0] <= w[1]);
    }
    for s in &sleeps {
        assert!((400..=2000).contains(s));
    }
}

#[test]
fn unrecognized_statuses_are_retried_like_absence() {
    let statuses = vec![500u16, 502, 200];
    let (outcome, sleeps) = run_poll(&statuses, DEFAULT_MAX_WAIT_MS);
    assert_eq!(outcome, PollOutcome::Ready);
    assert_eq!(sleeps, vec![400u64, 800]);
}

#[test]
fn schedule_can_run_out_while_polling() {
    let (outcome, sleeps) = run_poll(&vec![404u16], DEFAULT_MAX_WAIT_MS);
    assert_eq!(outcome, PollOutcome::Exhausted);
    assert_eq!(sleeps, vec![400u64]);
}

#[test]
fn zero_deadline_times_out_at_the_first_absence() {
    let (outcome, sleeps) = run_poll(&vec![404u16, 200], 0);
    assert_eq!(outcome, PollOutcome::TimedOut);
    assert!(sleeps.is_empty());
}

#[test]
fn single_step_decisions() {
    assert_eq!(poll_step(200, 0, 400, 30000), PollDecision::Ready);
    assert_eq!(poll_step(401, 0, 400, 30000), PollDecision::PermissionDenied);
    assert_eq!(poll_step(403, 0, 400, 30000), PollDecision::PermissionDenied);
    assert_eq!(
        poll_step(404, 0, 400, 30000),
        PollDecision::Retry {
            sleep_ms: 400,
            next_delay_ms: 800
        }
    );
    assert_eq!(
        poll_step(404, 29999, 1600, 30000),
        PollDecision::Retry {
            sleep_ms: 1600,
            next_delay_ms: 2000
        }
    );
    assert_eq!(
        poll_step(500, 100, 2000, 30000),
        PollDecision::Retry {
            sleep_ms: 2000,
            next_delay_ms: 2000
        }
    );
    assert_eq!(poll_step(404, 30000, 400, 30000), PollDecision::TimedOut);
    assert_eq!(poll_step(500, 30000, 400, 30000), PollDecision::TimedOut);
}

#[test]
fn poller_failure_messages() {
    assert_eq!(
        timeout_message("main", 30000),
        "Default branch 'main' was not found within 30000ms"
    );
    assert_eq!(
        permission_message("{\"message\":\"forbidden\"}"),
        "Insufficient permission to check branch existence: {\"message\":\"forbidden\"}"
    );
    assert_eq!(
        anomaly_timeout_message(30000, 500, "oops"),
        "Failed to confirm branch existence within 30000ms: 500 oops"
    );
}
