//! Failures of an attested connection, and their retry / reattest
//! classification.
//!
//! Every failure an attested RPC call can produce is a variant of [`Error`].
//! The payloads carry, as plain values, exactly what the classification
//! policy reads of the underlying transport and handshake failures: for a
//! transport failure, whether a status code was produced and which one; for
//! a handshake failure, whether the remote's attestation evidence was the
//! part that failed.

use vstd::prelude::*;

verus! {

/// Status code a transport reports when the response would exceed the
/// negotiated size limit; such a call is never retried, since retrying
/// cannot shrink the response.
pub const RESOURCE_EXHAUSTED: u32 = 8;

/// Failure of the RPC transport under an attested connection.
#[derive(Clone, Copy, Debug, PartialEq, Eq, Structural)]
pub enum RpcError {
    /// The call completed with a non-OK status; the status code is carried.
    RpcFailure(u32),
    /// The call failed before any status was produced (connect failure,
    /// broken or shut-down channel, and the transport's other failure
    /// modes).
    ChannelFailure,
}

/// Failure while running the attested-key-exchange handshake that
/// establishes the secure session.
#[derive(Clone, Copy, Debug, PartialEq, Eq, Structural)]
pub enum AkeError {
    /// The remote's attestation evidence did not pass verification policy.
    AttestationEvidenceVerification,
    /// Any other handshake failure (unexpected message, malformed handshake
    /// payload, and the like).
    Handshake,
}

/// Failure of the symmetric cipher protecting an established session.
#[derive(Clone, Copy, Debug, PartialEq, Eq, Structural)]
pub struct CipherError;

/// The endpoint address given for a connection could not be understood.
#[derive(Clone, Copy, Debug, PartialEq, Eq, Structural)]
pub struct UriConversionError;

/// The response payload could not be decoded.
#[derive(Clone, Copy, Debug, PartialEq, Eq, Structural)]
pub struct DecodeError;

/// An error that can occur when using an attested connection.
#[derive(Clone, Debug)]
pub enum Error {
    /// Transport failure of the RPC layer.
    Rpc(RpcError),
    /// Attested-key-exchange error while establishing the session.
    Ake(AkeError),
    /// Session-cipher error on the established session.
    Cipher(CipherError),
    /// Invalid endpoint address.
    InvalidUri(UriConversionError),
    /// Response deserialization error.
    ProtoDecode(DecodeError),
    /// Any other failure.
    Other(String),
}

impl Error {
    /// Whether the secure session is no longer trustworthy: the caller must
    /// discard it and renegotiate before retrying.
    ///
    /// Transport failures, session-cipher failures and most
    /// session-establishment failures taint the session. The exception is
    /// a handshake that failed because the remote's attestation evidence
    /// was rejected: the remote identity did not pass policy, and
    /// renegotiating with it is pointless.
    pub open spec fn spec_should_reattest(&self) -> bool {
        match *self {
            Error::Rpc(_) => true,
            Error::Ake(AkeError::AttestationEvidenceVerification) => false,
            Error::Ake(AkeError::Handshake) => true,
            Error::Cipher(_) => true,
            Error::InvalidUri(_) => false,
            Error::ProtoDecode(_) => false,
            Error::Other(_) => false,
        }
    }

    /// Whether a repeated attempt is likely to succeed.
    ///
    /// Transport failures are retried unless the status code signals
    /// resource exhaustion (a response over the negotiated size limit,
    /// which no retry can shrink). Cipher and decode failures are assumed
    /// transient. A handshake failure is retried unless the remote's
    /// attestation evidence was rejected: the remote identity did not pass
    /// policy, and retrying will not change that. A malformed endpoint
    /// address is a deterministic caller-side mistake, and unclassified
    /// failures are never retried.
    pub open spec fn spec_should_retry(&self) -> bool {
        match *self {
            Error::Rpc(RpcError::RpcFailure(code)) => code != RESOURCE_EXHAUSTED,
            Error::Rpc(RpcError::ChannelFailure) => true,
            Error::Ake(AkeError::AttestationEvidenceVerification) => false,
            Error::Ake(AkeError::Handshake) => true,
            Error::Cipher(_) => true,
            Error::ProtoDecode(_) => true,
            Error::InvalidUri(_) => false,
            Error::Other(_) => false,
        }
    }

    /// Classifies this failure for session renegotiation.
    pub fn should_reattest(&self) -> (r: bool)
        ensures
            r == self.spec_should_reattest(),
    {
        matches!(
            self,
            Error::Rpc(_) | Error::Ake(AkeError::Handshake) | Error::Cipher(_)
        )
    }

    /// Classifies this failure for retrying.
    pub fn should_retry(&self) -> (r: bool)
        ensures
            r == self.spec_should_retry(),
    {
        match self {
            Error::Rpc(RpcError::RpcFailure(code)) => {
                // Retry, but only if the status code does not report that
                // the response was too large: a retry cannot shrink it.
                *code != RESOURCE_EXHAUSTED
            }
            Error::Rpc(RpcError::ChannelFailure) => true,
            Error::Ake(AkeError::AttestationEvidenceVerification) => false,
            Error::Ake(AkeError::Handshake) => true,
            Error::Cipher(_) => true,
            Error::ProtoDecode(_) => true,
            Error::InvalidUri(_) => false,
            Error::Other(_) => false,
        }
    }
}

/// A failure a client-facing query ends with, as distinguished for the
/// caller: a mismatch that will never succeed, or a shard that stayed
/// unreachable after its retry budget.
#[derive(Clone, Copy, Debug, PartialEq, Eq, Structural)]
pub enum QueryError {
    /// The chain identifiers of client and deployment differ: the wrong
    /// deployment is being queried. Fatal and never retryable.
    IdentityMismatch,
    /// The shard at this position of the fan-out delivered no response
    /// within its retry budget; the whole query fails rather than return a
    /// partial answer as authoritative.
    ShardUnavailable { shard: usize },
}

impl From<RpcError> for Error {
    fn from(err: RpcError) -> (r: Self) {
        Error::Rpc(err)
    }
}

impl vstd::std_specs::convert::FromSpecImpl<RpcError> for Error {
    open spec fn obeys_from_spec() -> bool {
        true
    }

    open spec fn from_spec(err: RpcError) -> Self {
        Error::Rpc(err)
    }
}

impl From<AkeError> for Error {
    fn from(err: AkeError) -> (r: Self) {
        Error::Ake(err)
    }
}

impl vstd::std_specs::convert::FromSpecImpl<AkeError> for Error {
    open spec fn obeys_from_spec() -> bool {
        true
    }

    open spec fn from_spec(err: AkeError) -> Self {
        Error::Ake(err)
    }
}

impl From<CipherError> for Error {
    fn from(err: CipherError) -> (r: Self) {
        Error::Cipher(err)
    }
}

impl vstd::std_specs::convert::FromSpecImpl<CipherError> for Error {
    open spec fn obeys_from_spec() -> bool {
        true
    }

    open spec fn from_spec(err: CipherError) -> Self {
        Error::Cipher(err)
    }
}

impl From<UriConversionError> for Error {
    fn from(src: UriConversionError) -> (r: Self) {
        Error::InvalidUri(src)
    }
}

impl vstd::std_specs::convert::FromSpecImpl<UriConversionError> for Error {
    open spec fn obeys_from_spec() -> bool {
        true
    }

    open spec fn from_spec(src: UriConversionError) -> Self {
        Error::InvalidUri(src)
    }
}

impl From<DecodeError> for Error {
    fn from(src: DecodeError) -> (r: Self) {
        Error::ProtoDecode(src)
    }
}

impl vstd::std_specs::convert::FromSpecImpl<DecodeError> for Error {
    open spec fn obeys_from_spec() -> bool {
        true
    }

    open spec fn from_spec(src: DecodeError) -> Self {
        Error::ProtoDecode(src)
    }
}

} // verus!
