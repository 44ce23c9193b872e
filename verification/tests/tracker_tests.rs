use alloy_fireblocks::errors::FireblocksError;
use alloy_fireblocks::tracker::{
    backoff_ms, classify_status, PollSession, PollStep, PollVerdict, RetryDecision, RetryPolicy,
    StatusClass,
};
use alloy_fireblocks::types::{TransactionDetails, TransactionStatus};

fn all_statuses() -> Vec<TransactionStatus> {
    vec![
        TransactionStatus::SUBMITTED,
        TransactionStatus::QUEUED,
        TransactionStatus::PENDING_SIGNATURE,
        TransactionStatus::PENDING_AUTHORIZATION,
        TransactionStatus::PENDING_3RD_PARTY_MANUAL_APPROVAL,
        TransactionStatus::PENDING_3RD_PARTY,
        TransactionStatus::PENDING,
        TransactionStatus::BROADCASTING,
        TransactionStatus::CONFIRMING,
        TransactionStatus::CONFIRMED,
        TransactionStatus::COMPLETED,
        TransactionStatus::PENDING_AML_SCREENING,
        TransactionStatus::PARTIALLY_COMPLETED,
        TransactionStatus::CANCELLING,
        TransactionStatus::CANCELLED,
        TransactionStatus::REJECTED,
        TransactionStatus::FAILED,
        TransactionStatus::TIMEOUT,
        TransactionStatus::BLOCKED,
    ]
}

fn details_with(status: TransactionStatus, sub_status: &str) -> TransactionDetails {
    TransactionDetails {
        id: "tx-1".to_string(),
        asset_id: "ETH".to_string(),
        tx_hash: String::new(),
        status,
        sub_status: sub_status.to_string(),
        signed_messages: Vec::new(),
    }
}

/// Drives a session against a scripted status source with a simulated
/// clock, the way a transport-owning caller would; returns the outcome and
/// how many polls were issued.
fn track(
    session: PollSession,
    statuses: &[TransactionStatus],
    step_ms: u128,
) -> (Result<TransactionDetails, FireblocksError>, usize) {
    let mut elapsed: u128 = 0;
    let mut polls: usize = 0;
    loop {
        match session.begin_poll(elapsed) {
            PollStep::TimedOut => return (Err(FireblocksError::Timeout), polls),
            PollStep::Query => {}
        }
        let status = statuses[polls.min(statuses.len() - 1)];
        polls += 1;
        match session.assess(details_with(status, "sub")) {
            PollVerdict::Complete(d) => return (Ok(d), polls),
            PollVerdict::Failed(e) => return (Err(e), polls),
            PollVerdict::KeepPolling => {}
        }
        elapsed += step_ms;
    }
}

#[test]
fn test_classification_is_total() {
    for s in all_statuses() {
        let expected = match s {
            TransactionStatus::BROADCASTING | TransactionStatus::COMPLETED => StatusClass::Success,
            TransactionStatus::BLOCKED
            | TransactionStatus::CANCELLED
            | TransactionStatus::FAILED
            | TransactionStatus::REJECTED
            | TransactionStatus::TIMEOUT => StatusClass::Failure,
            _ => StatusClass::InProgress,
        };
        assert_eq!(classify_status(&s), expected);
    }
}

#[test]
fn test_classification_is_pure() {
    for s in all_statuses() {
        let first = classify_status(&s);
        for _ in 0..5 {
            assert_eq!(classify_status(&s), first);
        }
    }
}

#[test]
fn test_timeout_on_pending_source() {
    let session = PollSession { timeout_ms: 100, poll_interval_ms: 10 };
    let (outcome, polls) = track(session, &[TransactionStatus::PENDING], 10);
    assert!(matches!(outcome, Err(FireblocksError::Timeout)));
    // With a 100 ms budget and 10 ms steps the loop stops after at most
    // eleven polls: it never blocks past the budget.
    assert!(polls <= 11);
}

#[test]
fn test_timeout_boundary_is_exact() {
    let session = PollSession { timeout_ms: 100, poll_interval_ms: 10 };
    assert_eq!(session.begin_poll(99), PollStep::Query);
    assert_eq!(session.begin_poll(100), PollStep::TimedOut);
    assert_eq!(session.begin_poll(u128::MAX), PollStep::TimedOut);
    assert_eq!(session.begin_poll(0), PollStep::Query);
}

#[test]
fn test_success_only_after_third_poll() {
    let session = PollSession { timeout_ms: 10_000, poll_interval_ms: 10 };
    let script = [
        TransactionStatus::SUBMITTED,
        TransactionStatus::PENDING_SIGNATURE,
        TransactionStatus::COMPLETED,
    ];
    let (outcome, polls) = track(session, &script, 10);
    assert_eq!(polls, 3);
    let details = outcome.unwrap();
    assert_eq!(details.status, TransactionStatus::COMPLETED);
}

#[test]
fn test_blocked_fails_on_first_poll() {
    let session = PollSession { timeout_ms: 10_000, poll_interval_ms: 10 };
    let (outcome, polls) = track(session, &[TransactionStatus::BLOCKED], 10);
    assert_eq!(polls, 1);
    match outcome {
        Err(FireblocksError::TxError(status, sub_status)) => {
            assert_eq!(status, TransactionStatus::BLOCKED);
            assert_eq!(sub_status, "sub");
        }
        other => panic!("expected a terminal failure, got {:?}", other),
    }
}

#[test]
fn test_broadcasting_counts_as_success() {
    let session = PollSession { timeout_ms: 10_000, poll_interval_ms: 10 };
    let (outcome, polls) = track(session, &[TransactionStatus::BROADCASTING], 10);
    assert_eq!(polls, 1);
    assert_eq!(outcome.unwrap().status, TransactionStatus::BROADCASTING);
}

#[test]
fn test_remote_timeout_status_is_failure_not_local_timeout() {
    let session = PollSession { timeout_ms: 10_000, poll_interval_ms: 10 };
    let (outcome, polls) = track(session, &[TransactionStatus::TIMEOUT], 10);
    assert_eq!(polls, 1);
    assert!(matches!(
        outcome,
        Err(FireblocksError::TxError(TransactionStatus::TIMEOUT, _))
    ));
}

#[test]
fn test_retry_policy_bounded_with_backoff() {
    let policy = RetryPolicy { max_retries: 3, base_backoff_ms: 100 };
    assert_eq!(policy.on_transport_error(0), RetryDecision::RetryAfter(100));
    assert_eq!(policy.on_transport_error(1), RetryDecision::RetryAfter(200));
    assert_eq!(policy.on_transport_error(2), RetryDecision::RetryAfter(400));
    assert_eq!(policy.on_transport_error(3), RetryDecision::GiveUp);
    assert_eq!(policy.on_transport_error(u32::MAX), RetryDecision::GiveUp);
    // The doubling backoff saturates instead of overflowing.
    assert_eq!(backoff_ms(u64::MAX - 1, 1), u64::MAX);
    assert_eq!(backoff_ms(1, 63), 1u64 << 63);
    assert_eq!(backoff_ms(1, 64), u64::MAX);
}
