//! Bounded retry policy over an attested connection.
//!
//! Every RPC to an attested endpoint goes through a retrying client: attempt
//! the call, and on failure consult the error classification to decide
//! whether to give up, or to retry after a fixed backoff, discarding the
//! session first when it is no longer trustworthy. The decision logic is a
//! pure function from the policy, the number of attempts already made and
//! the failure to the next step; the caller performs the transport work and
//! the sleeps, and hands each outcome back.

use vstd::prelude::*;
use crate::errors::Error;
use crate::errors::RpcError;

verus! {

/// Configuration of a retrying client: how many attempts one call may use,
/// and the fixed delay between attempts.
#[derive(Clone, Copy, Debug, PartialEq, Eq, Structural)]
pub struct RetryPolicy {
    /// Attempts one logical call may use in total, the first one included.
    pub max_attempts: u32,
    /// Fixed delay between two attempts, in milliseconds.
    pub backoff_delay_ms: u64,
}

/// What a retrying client does after a failed attempt.
#[derive(Clone, Copy, Debug, PartialEq, Eq, Structural)]
pub enum RetryDecision {
    /// Return the failure to the caller.
    GiveUp,
    /// Sleep for the backoff delay and attempt the call again; when
    /// `reattest` is set, discard the current session first, so that the
    /// next attempt renegotiates it.
    Retry { reattest: bool },
}

/// State of one attested channel's session.
#[derive(Clone, Copy, Debug, PartialEq, Eq, Structural)]
pub enum ConnectionState {
    /// No secure session is held; the next call must negotiate one.
    Unattested,
    /// A secure session is held, identified by its handle.
    Attested { session: u64 },
    /// The last call ended with a failure classified fatal; the session, if
    /// any, was discarded.
    Failed,
}

/// The step a retrying client takes after an attempt failed with `error`,
/// when `attempts_made` attempts (the failed one included) have been used.
pub open spec fn spec_next_step(policy: RetryPolicy, attempts_made: u32, error: Error) -> RetryDecision {
    if !error.spec_should_retry() {
        RetryDecision::GiveUp
    } else if attempts_made >= policy.max_attempts {
        RetryDecision::GiveUp
    } else {
        RetryDecision::Retry { reattest: error.spec_should_reattest() }
    }
}

/// Decides the next step after a failed attempt.
///
/// A failure whose classification forbids retrying is returned to the
/// caller at once; otherwise the attempt budget decides. A retried failure
/// asks for reattestation exactly when the session is classified as no
/// longer trustworthy.
pub fn next_step(policy: &RetryPolicy, attempts_made: u32, error: &Error) -> (d: RetryDecision)
    ensures
        d == spec_next_step(*policy, attempts_made, *error),
        !error.spec_should_retry() ==> d is GiveUp,
        attempts_made >= policy.max_attempts ==> d is GiveUp,
        error.spec_should_retry() && attempts_made < policy.max_attempts ==> d == (RetryDecision::Retry {
            reattest: error.spec_should_reattest(),
        }),
{
    if !error.should_retry() {
        RetryDecision::GiveUp
    } else if attempts_made >= policy.max_attempts {
        RetryDecision::GiveUp
    } else {
        RetryDecision::Retry { reattest: error.should_reattest() }
    }
}

/// A transport failure that reports resource exhaustion is never retried,
/// whatever the policy and however few attempts were used.
pub proof fn lemma_resource_exhausted_never_retried(policy: RetryPolicy, attempts_made: u32)
    ensures
        spec_next_step(
            policy,
            attempts_made,
            Error::Rpc(RpcError::RpcFailure(crate::errors::RESOURCE_EXHAUSTED)),
        ) is GiveUp,
{
}

/// Every other transport failure is retried while the attempt budget
/// lasts, and returned to the caller once it is exhausted.
pub proof fn lemma_transport_failures_retried(policy: RetryPolicy, attempts_made: u32, rpc: RpcError)
    requires
        !(rpc matches RpcError::RpcFailure(code) && code == crate::errors::RESOURCE_EXHAUSTED),
    ensures
        attempts_made < policy.max_attempts ==> spec_next_step(policy, attempts_made, Error::Rpc(rpc))
            == (RetryDecision::Retry { reattest: true }),
        attempts_made >= policy.max_attempts ==> spec_next_step(
            policy,
            attempts_made,
            Error::Rpc(rpc),
        ) is GiveUp,
{
}

/// The per-call state of a retrying client: its policy, the channel's
/// session state — an owned, replaceable cell that reattestation replaces
/// rather than mutates — and the attempts the current call has used.
///
/// The caller performs the transport work: it attempts the call,
/// negotiates sessions, sleeps between attempts, and reports each outcome
/// here; this state decides what to do next.
#[derive(Clone, Copy, Debug, PartialEq, Eq, Structural)]
pub struct RetryingClient {
    /// The retry policy every call goes through.
    pub policy: RetryPolicy,
    /// The channel's session state.
    pub state: ConnectionState,
    /// Attempts the current call has used.
    pub attempts_made: u32,
}

impl RetryingClient {
    /// A fresh client: no session yet, no attempts used.
    pub fn new(policy: RetryPolicy) -> (c: Self)
        ensures
            c.policy == policy,
            c.state is Unattested,
            c.attempts_made == 0,
    {
        RetryingClient { policy, state: ConnectionState::Unattested, attempts_made: 0 }
    }

    /// Begins one logical call: the attempt counter starts afresh, and
    /// the session, if one is held, is kept — renegotiation is lazy.
    pub fn begin_call(&mut self)
        ensures
            final(self).policy == old(self).policy,
            final(self).state == old(self).state,
            final(self).attempts_made == 0,
    {
        self.attempts_made = 0;
    }

    /// Notes a completed handshake: the channel holds the new session.
    pub fn note_attested(&mut self, session: u64)
        ensures
            final(self).policy == old(self).policy,
            final(self).attempts_made == old(self).attempts_made,
            final(self).state == (ConnectionState::Attested { session }),
    {
        self.state = on_handshake_success(session);
    }

    /// Notes a failed attempt and decides the next step.
    ///
    /// The attempt is counted, the session state follows the failure's
    /// classification — discarded when the session is no longer
    /// trustworthy, marked failed when the failure is fatal — and the
    /// decision follows the policy: give the error back, or sleep the
    /// backoff delay and try again.
    pub fn note_failure(&mut self, error: &Error) -> (d: RetryDecision)
        requires
            old(self).attempts_made < u32::MAX,
        ensures
            final(self).policy == old(self).policy,
            final(self).attempts_made == old(self).attempts_made + 1,
            d == spec_next_step(old(self).policy, (old(self).attempts_made + 1) as u32, *error),
            !error.spec_should_retry() ==> final(self).state is Failed,
            error.spec_should_retry() && error.spec_should_reattest()
                ==> final(self).state is Unattested,
            error.spec_should_retry() && !error.spec_should_reattest()
                ==> final(self).state == old(self).state,
    {
        self.attempts_made = self.attempts_made + 1;
        self.state = on_call_failure(&self.state, error);
        next_step(&self.policy, self.attempts_made, error)
    }
}

/// The session state after the attested-key-exchange handshake succeeds,
/// from any state the channel was in before.
pub fn on_handshake_success(session: u64) -> (next: ConnectionState)
    ensures
        next == (ConnectionState::Attested { session }),
{
    ConnectionState::Attested { session }
}

/// The session state after a call over the channel fails with `error`.
///
/// A failure classified fatal (not retryable) ends the call: the state is
/// `Failed`. A retryable failure that asks for reattestation discards the
/// session, so the next attempt renegotiates; any other retryable failure
/// keeps the state as it is.
pub fn on_call_failure(state: &ConnectionState, error: &Error) -> (next: ConnectionState)
    ensures
        !error.spec_should_retry() ==> next is Failed,
        error.spec_should_retry() && error.spec_should_reattest() ==> next is Unattested,
        error.spec_should_retry() && !error.spec_should_reattest() ==> next == *state,
{
    if !error.should_retry() {
        ConnectionState::Failed
    } else if error.should_reattest() {
        ConnectionState::Unattested
    } else {
        *state
    }
}

} // verus!
