use ledger_query::errors::AkeError;
use ledger_query::errors::DecodeError;
use ledger_query::errors::Error;
use ledger_query::errors::RpcError;
use ledger_query::errors::RESOURCE_EXHAUSTED;
use ledger_query::retry::next_step;
use ledger_query::retry::RetryingClient;
use ledger_query::retry::on_call_failure;
use ledger_query::retry::on_handshake_success;
use ledger_query::retry::ConnectionState;
use ledger_query::retry::RetryDecision;
use ledger_query::retry::RetryPolicy;

fn policy() -> RetryPolicy {
    RetryPolicy { max_attempts: 3, backoff_delay_ms: 50 }
}

#[test]
fn transport_failure_is_retried_with_reattest_within_budget() {
    let e = Error::Rpc(RpcError::ChannelFailure);
    assert_eq!(next_step(&policy(), 1, &e), RetryDecision::Retry { reattest: true });
    assert_eq!(next_step(&policy(), 2, &e), RetryDecision::Retry { reattest: true });
}

#[test]
fn transport_failure_gives_up_once_budget_is_exhausted() {
    let e = Error::Rpc(RpcError::ChannelFailure);
    assert_eq!(next_step(&policy(), 3, &e), RetryDecision::GiveUp);
    assert_eq!(next_step(&policy(), 4, &e), RetryDecision::GiveUp);
}

#[test]
fn resource_exhausted_gives_up_at_the_first_attempt() {
    let e = Error::Rpc(RpcError::RpcFailure(RESOURCE_EXHAUSTED));
    assert_eq!(next_step(&policy(), 1, &e), RetryDecision::GiveUp);
}

#[test]
fn decode_failure_is_retried_without_reattest() {
    let e = Error::ProtoDecode(DecodeError);
    assert_eq!(next_step(&policy(), 1, &e), RetryDecision::Retry { reattest: false });
}

#[test]
fn evidence_verification_failure_gives_up_immediately() {
    let e = Error::Ake(AkeError::AttestationEvidenceVerification);
    assert_eq!(next_step(&policy(), 1, &e), RetryDecision::GiveUp);
}

#[test]
fn handshake_success_attests_the_channel_from_any_state() {
    assert_eq!(on_handshake_success(7), ConnectionState::Attested { session: 7 });
}

#[test]
fn reattest_classified_failure_drops_the_session() {
    let attested = ConnectionState::Attested { session: 7 };
    let e = Error::Rpc(RpcError::ChannelFailure);
    assert_eq!(on_call_failure(&attested, &e), ConnectionState::Unattested);
}

#[test]
fn fatal_failure_moves_the_channel_to_failed() {
    let attested = ConnectionState::Attested { session: 7 };
    let e = Error::Other(String::from("unclassified"));
    assert_eq!(on_call_failure(&attested, &e), ConnectionState::Failed);
}

#[test]
fn a_client_walks_one_call_through_its_budget() {
    let mut client = RetryingClient::new(policy());
    assert_eq!(client.state, ConnectionState::Unattested);
    client.note_attested(42);
    assert_eq!(client.state, ConnectionState::Attested { session: 42 });

    client.begin_call();
    let e = Error::Rpc(RpcError::ChannelFailure);
    // First and second failures retry after dropping the session.
    assert_eq!(client.note_failure(&e), RetryDecision::Retry { reattest: true });
    assert_eq!(client.state, ConnectionState::Unattested);
    client.note_attested(43);
    assert_eq!(client.note_failure(&e), RetryDecision::Retry { reattest: true });
    // The third failed attempt exhausts max_attempts = 3.
    assert_eq!(client.note_failure(&e), RetryDecision::GiveUp);
    assert_eq!(client.attempts_made, 3);

    // The next call starts with a fresh budget.
    client.begin_call();
    assert_eq!(client.attempts_made, 0);
    assert_eq!(client.note_failure(&e), RetryDecision::Retry { reattest: true });
}

#[test]
fn a_fatal_failure_marks_the_client_failed() {
    let mut client = RetryingClient::new(policy());
    client.note_attested(1);
    client.begin_call();
    let e = Error::Ake(AkeError::AttestationEvidenceVerification);
    assert_eq!(client.note_failure(&e), RetryDecision::GiveUp);
    assert_eq!(client.state, ConnectionState::Failed);
}

#[test]
fn plain_retryable_failure_keeps_the_session() {
    let attested = ConnectionState::Attested { session: 7 };
    let e = Error::ProtoDecode(DecodeError);
    assert_eq!(on_call_failure(&attested, &e), attested);
}
