//! Transaction lifecycle tracking: classifying remote statuses and deciding
//! each step of a bounded polling session.
//!
//! The functions here are the decision core of the polling loop. A driver —
//! a caller with access to the transport and a clock — measures the elapsed
//! time, fetches transaction details, and lets these functions decide
//! whether to give up, finish, fail or keep polling.

use vstd::prelude::*;

use crate::errors::FireblocksError;
use crate::types::{TransactionDetails, TransactionStatus};

verus! {

/// The class a remote status falls into: keep polling, stop with success,
/// or stop with a terminal failure.
#[derive(Debug, Clone, Copy, PartialEq, Eq, Structural)]
pub enum StatusClass {
    /// The transaction is still moving; poll again.
    InProgress,
    /// Signing and authorization have completed; tracking stops with success.
    Success,
    /// The remote system reported a terminal failure; tracking stops.
    Failure,
}

/// The class assigned to each status. `BROADCASTING` counts as success even
/// though the chain may not have confirmed yet, because the step the caller
/// waits on — signing and authorization — has completed by then. The
/// remote-reported `TIMEOUT` status is a terminal failure, distinct from the
/// local budget running out.
pub open spec fn spec_class_of(s: TransactionStatus) -> StatusClass {
    match s {
        TransactionStatus::BROADCASTING => StatusClass::Success,
        TransactionStatus::COMPLETED => StatusClass::Success,
        TransactionStatus::BLOCKED => StatusClass::Failure,
        TransactionStatus::CANCELLED => StatusClass::Failure,
        TransactionStatus::FAILED => StatusClass::Failure,
        TransactionStatus::REJECTED => StatusClass::Failure,
        TransactionStatus::TIMEOUT => StatusClass::Failure,
        _ => StatusClass::InProgress,
    }
}

/// Classifies a remote status.
pub fn classify_status(s: &TransactionStatus) -> (c: StatusClass)
    ensures
        c == spec_class_of(*s),
{
    match s {
        TransactionStatus::BROADCASTING => StatusClass::Success,
        TransactionStatus::COMPLETED => StatusClass::Success,
        TransactionStatus::BLOCKED => StatusClass::Failure,
        TransactionStatus::CANCELLED => StatusClass::Failure,
        TransactionStatus::FAILED => StatusClass::Failure,
        TransactionStatus::REJECTED => StatusClass::Failure,
        TransactionStatus::TIMEOUT => StatusClass::Failure,
        _ => StatusClass::InProgress,
    }
}

/// Classification is total: every status falls into exactly one of the
/// three classes.
pub proof fn lemma_classification_total(s: TransactionStatus)
    ensures
        spec_class_of(s) is InProgress || spec_class_of(s) is Success || spec_class_of(s)
            is Failure,
        spec_class_of(s) is InProgress ==> !(spec_class_of(s) is Success) && !(spec_class_of(s)
            is Failure),
        spec_class_of(s) is Success ==> !(spec_class_of(s) is InProgress) && !(spec_class_of(s)
            is Failure),
        spec_class_of(s) is Failure ==> !(spec_class_of(s) is InProgress) && !(spec_class_of(s)
            is Success),
{
}

/// Classification is pure: equal statuses always receive equal classes, no
/// matter how often they are classified.
pub proof fn lemma_classification_pure(a: TransactionStatus, b: TransactionStatus)
    requires
        a == b,
    ensures
        spec_class_of(a) == spec_class_of(b),
{
}

/// A bounded polling session: how long to keep trying and how long to pause
/// between polls, both in milliseconds. The budget is measured from the
/// session's start, never reset by an individual poll.
#[derive(Debug, Clone, Copy, PartialEq, Eq, Structural)]
pub struct PollSession {
    pub timeout_ms: u128,
    pub poll_interval_ms: u64,
}

/// What to do at the top of a polling iteration: give up locally or issue
/// one more status query.
#[derive(Debug, Clone, Copy, PartialEq, Eq, Structural)]
pub enum PollStep {
    /// The local budget is spent; surface a timeout without querying again.
    TimedOut,
    /// Budget remains; issue an authenticated status query.
    Query,
}

/// The verdict over one polled set of transaction details.
#[derive(Debug)]
pub enum PollVerdict {
    /// The transaction reached the success boundary; hand the details back.
    Complete(TransactionDetails),
    /// The remote system reported a terminal failure.
    Failed(FireblocksError),
    /// Still in progress: wait one interval and poll again.
    KeepPolling,
}

impl PollSession {
    /// Decides whether the session may issue another query: it times out
    /// exactly when the elapsed time has reached the budget.
    pub fn begin_poll(&self, elapsed_ms: u128) -> (step: PollStep)
        ensures
            step == (if elapsed_ms >= self.timeout_ms {
                PollStep::TimedOut
            } else {
                PollStep::Query
            }),
    {
        if elapsed_ms >= self.timeout_ms {
            PollStep::TimedOut
        } else {
            PollStep::Query
        }
    }

    /// Judges one polled set of details: success-class statuses finish the
    /// session with the details, failure-class statuses surface
    /// `TxError(status, subStatus)`, and everything else keeps polling.
    pub fn assess(&self, details: TransactionDetails) -> (v: PollVerdict)
        ensures
            match v {
                PollVerdict::Complete(d) => spec_class_of(details.status) is Success && d
                    == details,
                PollVerdict::Failed(e) => spec_class_of(details.status) is Failure && e
                    == FireblocksError::TxError(details.status, details.sub_status),
                PollVerdict::KeepPolling => spec_class_of(details.status) is InProgress,
            },
    {
        match classify_status(&details.status) {
            StatusClass::Success => PollVerdict::Complete(details),
            StatusClass::Failure => PollVerdict::Failed(
                FireblocksError::TxError(details.status, details.sub_status),
            ),
            StatusClass::InProgress => PollVerdict::KeepPolling,
        }
    }
}

/// How transient transport errors during polling are handled: a bounded
/// number of retries with doubling backoff. A transport failure is a
/// different condition from a remote `FAILED` status and is never
/// classified as one; and retrying never resets the session budget, which
/// keeps counting down.
#[derive(Debug, Clone, Copy, PartialEq, Eq, Structural)]
pub struct RetryPolicy {
    pub max_retries: u32,
    pub base_backoff_ms: u64,
}

/// What to do after one failed transport attempt.
#[derive(Debug, Clone, Copy, PartialEq, Eq, Structural)]
pub enum RetryDecision {
    /// Wait this many milliseconds, then try the same query again.
    RetryAfter(u64),
    /// Attempts are exhausted; surface the transport error.
    GiveUp,
}

/// The wait before the retry after `n` failed attempts: the base backoff
/// doubled `n` times, saturating.
pub open spec fn spec_backoff_ms(base: u64, n: nat) -> u64
    decreases n,
{
    if n == 0 {
        base
    } else if spec_backoff_ms(base, (n - 1) as nat) > u64::MAX / 2 {
        u64::MAX
    } else {
        (spec_backoff_ms(base, (n - 1) as nat) * 2) as u64
    }
}

/// Computes the saturating doubling backoff.
pub fn backoff_ms(base: u64, n: u32) -> (r: u64)
    ensures
        r == spec_backoff_ms(base, n as nat),
    decreases n,
{
    if n == 0 {
        base
    } else {
        let prev = backoff_ms(base, n - 1);
        if prev > u64::MAX / 2 {
            u64::MAX
        } else {
            prev * 2
        }
    }
}

impl RetryPolicy {
    /// Decides after a failed transport attempt: retry with backoff while
    /// attempts remain, else give up and surface the error.
    pub fn on_transport_error(&self, attempts_made: u32) -> (d: RetryDecision)
        ensures
            d == (if attempts_made < self.max_retries {
                RetryDecision::RetryAfter(
                    spec_backoff_ms(self.base_backoff_ms, attempts_made as nat),
                )
            } else {
                RetryDecision::GiveUp
            }),
    {
        if attempts_made < self.max_retries {
            RetryDecision::RetryAfter(backoff_ms(self.base_backoff_ms, attempts_made))
        } else {
            RetryDecision::GiveUp
        }
    }
}

} // verus!
