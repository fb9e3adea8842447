//! Bounded retry for the upstream dial.
//!
//! The handshake itself happens outside this crate; this module owns the
//! decision after each failed attempt: retry after the fixed backoff, or
//! give up with a connect error carrying the last attempt's cause. Retrying
//! is bounded and happens only at initial connect — a mid-session upstream
//! failure ends the session instead of reconnecting.

use vstd::prelude::*;

verus! {

/// How many handshake attempts are made before giving up.
pub const CONNECT_MAX_ATTEMPTS: u32 = 3;

/// Fixed pause between two handshake attempts, in milliseconds.
pub const CONNECT_BACKOFF_MS: u64 = 1000;

/// A retry policy: an attempt budget and a fixed backoff.
#[derive(Clone, Copy, Debug, PartialEq, Eq, Structural)]
pub struct RetryPolicy {
    pub max_attempts: u32,
    pub backoff_ms: u64,
}

/// The policy the relay dials the upstream with.
pub fn default_policy() -> (p: RetryPolicy)
    ensures
        p == (RetryPolicy { max_attempts: CONNECT_MAX_ATTEMPTS, backoff_ms: CONNECT_BACKOFF_MS }),
{
    RetryPolicy { max_attempts: CONNECT_MAX_ATTEMPTS, backoff_ms: CONNECT_BACKOFF_MS }
}

/// The error surfaced once every attempt has failed: how many attempts were
/// made, and the cause of the last one.
pub struct ConnectError {
    pub attempts: u32,
    pub cause: String,
}

/// Mathematical image of a [`ConnectError`].
pub struct ConnectErrorView {
    pub attempts: u32,
    pub cause: Seq<char>,
}

impl View for ConnectError {
    type V = ConnectErrorView;

    open spec fn view(&self) -> ConnectErrorView {
        ConnectErrorView { attempts: self.attempts, cause: self.cause@ }
    }
}

/// What the dial loop does after one failed attempt.
pub enum RetryDecision {
    /// Try again after this many milliseconds.
    RetryAfter(u64),
    /// The budget is spent: surface this error and stop.
    GiveUp(ConnectError),
}

/// Mathematical image of a [`RetryDecision`].
pub enum RetryDecisionView {
    RetryAfter(u64),
    GiveUp(ConnectErrorView),
}

impl View for RetryDecision {
    type V = RetryDecisionView;

    open spec fn view(&self) -> RetryDecisionView {
        match self {
            RetryDecision::RetryAfter(ms) => RetryDecisionView::RetryAfter(*ms),
            RetryDecision::GiveUp(e) => RetryDecisionView::GiveUp(e@),
        }
    }
}

/// The decision after a failed attempt, when `attempts_made` attempts
/// (this one included) have failed under `policy`.
pub open spec fn spec_retry_decision(
    policy: RetryPolicy,
    attempts_made: int,
    cause: Seq<char>,
) -> RetryDecisionView {
    if attempts_made >= policy.max_attempts {
        RetryDecisionView::GiveUp(
            ConnectErrorView { attempts: attempts_made as u32, cause },
        )
    } else {
        RetryDecisionView::RetryAfter(policy.backoff_ms)
    }
}

/// The decisions a dial loop sees when its attempts fail with these causes,
/// one after the other, starting fresh.
pub open spec fn spec_retry_run(policy: RetryPolicy, causes: Seq<Seq<char>>) -> Seq<
    RetryDecisionView,
> {
    Seq::new(causes.len(), |i: int| spec_retry_decision(policy, i + 1, causes[i]))
}

/// Progress of one connect sequence.
pub struct RetryState {
    pub policy: RetryPolicy,
    pub attempts_made: u32,
}

impl RetryState {
    /// A fresh dial under this policy.
    pub fn new(policy: RetryPolicy) -> (s: Self)
        ensures
            s.policy == policy,
            s.attempts_made == 0,
    {
        RetryState { policy, attempts_made: 0 }
    }

    /// Whether another handshake attempt is still allowed.
    pub fn can_attempt(&self) -> (r: bool)
        ensures
            r == (self.attempts_made < self.policy.max_attempts),
    {
        self.attempts_made < self.policy.max_attempts
    }

    /// Record one failed attempt and decide what the dial loop does next.
    pub fn on_failure(&mut self, cause: String) -> (d: RetryDecision)
        requires
            old(self).attempts_made < old(self).policy.max_attempts,
        ensures
            final(self).policy == old(self).policy,
            final(self).attempts_made == old(self).attempts_made + 1,
            d@ == spec_retry_decision(old(self).policy, old(self).attempts_made + 1, cause@),
    {
        self.attempts_made = self.attempts_made + 1;
        if self.attempts_made >= self.policy.max_attempts {
            RetryDecision::GiveUp(
                ConnectError { attempts: self.attempts_made, cause },
            )
        } else {
            RetryDecision::RetryAfter(self.policy.backoff_ms)
        }
    }
}

/// Law: a dial whose attempts all fail answers retry-with-backoff on every
/// attempt but the last, and gives up exactly once — on the last attempt,
/// carrying that attempt's cause and the full attempt count.
pub proof fn lemma_retry_exhaustion(policy: RetryPolicy, causes: Seq<Seq<char>>)
    requires
        policy.max_attempts >= 1,
        causes.len() == policy.max_attempts,
    ensures
        ({
            let ds = spec_retry_run(policy, causes);
            &&& ds.len() == causes.len()
            &&& forall|i: int|
                0 <= i < causes.len() - 1 ==> ds[i] == RetryDecisionView::RetryAfter(
                    policy.backoff_ms,
                )
            &&& ds.last() == RetryDecisionView::GiveUp(
                ConnectErrorView { attempts: policy.max_attempts, cause: causes.last() },
            )
        }),
{
}

/// Law: while the budget is not spent, no decision gives up — so an attempt
/// that succeeds before the last one leaves the dial healthy, with no error
/// ever surfaced.
pub proof fn lemma_retry_within_budget(policy: RetryPolicy, causes: Seq<Seq<char>>)
    requires
        causes.len() < policy.max_attempts,
    ensures
        forall|i: int|
            0 <= i < causes.len() ==> spec_retry_run(policy, causes)[i]
                == RetryDecisionView::RetryAfter(policy.backoff_ms),
{
}

} // verus!
