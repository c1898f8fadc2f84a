//! The closed domain error taxonomy. Every failure a caller observes is one
//! of these variants; no transport-level error type escapes the adapter.

use vstd::prelude::*;

verus! {

use vstd::string::StringExecFns;
use crate::text::{push_dec_u64, spec_dec_u64};

/// The provider-agnostic error classification surfaced to callers.
#[derive(Debug, Clone, PartialEq, Eq)]
pub enum DomainError {
    /// A transport-level failure: connection refused, timeout, malformed
    /// response.
    NetworkError(String),
    /// The provider rejected the credentials.
    Unauthorized(String),
    /// The credentials are valid but lack permission.
    AccessDenied(String),
    /// Too many requests; the payload is the retry-after delay in seconds.
    RateLimited(u32),
    /// The provider reported itself unavailable.
    ServiceUnavailable(String),
    /// The input text was rejected.
    InvalidText(String),
    /// Required configuration is missing or malformed.
    InvalidConfiguration(String),
    /// No voice with the requested identifier exists.
    VoiceNotFound(String),
    /// The input text exceeds the provider limit; the payload is that limit.
    TextTooLong(u32),
    /// The input was marked as SSML but is not acceptable SSML.
    InvalidSsml(String),
    /// The provider failed to synthesize for another reason.
    SynthesisFailed(String),
    /// The provider does not offer this operation.
    UnsupportedOperation(String),
    /// An internal failure, including parse and encoding errors.
    InternalError(String),
    /// No streaming session with the given identifier exists.
    SessionNotFound(String),
    /// A structurally invalid input, such as an empty sample list.
    InvalidInput(String),
}

/// A transport-level failure as the HTTP layer reports it, before it is
/// translated into a `DomainError`. The payload carries the underlying
/// error's description.
#[derive(Debug, Clone, PartialEq, Eq)]
pub enum TransportFailure {
    /// Connection, timeout, or protocol failure.
    Network(String),
    /// A JSON body could not be produced or parsed.
    Json(String),
    /// A request URL could not be parsed.
    InvalidUrl(String),
    /// A response body was not valid UTF-8.
    Utf8(String),
    /// Any other input/output failure.
    Io(String),
}

/// How each transport failure is classified: connection-level failures are
/// `NetworkError`, a bad URL is `InvalidConfiguration`, and parse or
/// encoding failures are `InternalError`.
pub open spec fn spec_transport_to_domain(t: TransportFailure) -> DomainError {
    match t {
        TransportFailure::Network(m) => DomainError::NetworkError(m),
        TransportFailure::Json(m) => DomainError::InternalError(m),
        TransportFailure::InvalidUrl(m) => DomainError::InvalidConfiguration(m),
        TransportFailure::Utf8(m) => DomainError::InternalError(m),
        TransportFailure::Io(m) => DomainError::InternalError(m),
    }
}

impl TransportFailure {
    /// Translates this transport failure into the domain taxonomy.
    pub fn to_domain(self) -> (r: DomainError)
        ensures
            r == spec_transport_to_domain(self),
    {
        match self {
            TransportFailure::Network(m) => DomainError::NetworkError(m),
            TransportFailure::Json(m) => DomainError::InternalError(m),
            TransportFailure::InvalidUrl(m) => DomainError::InvalidConfiguration(m),
            TransportFailure::Utf8(m) => DomainError::InternalError(m),
            TransportFailure::Io(m) => DomainError::InternalError(m),
        }
    }
}

/// The view of a domain error: the same variant shape with string payloads
/// abstracted to character sequences.
pub open spec fn err_view(e: DomainError) -> (int, Seq<char>, int) {
    match e {
        DomainError::NetworkError(m) => (0, m@, 0),
        DomainError::Unauthorized(m) => (1, m@, 0),
        DomainError::AccessDenied(m) => (2, m@, 0),
        DomainError::RateLimited(s) => (3, Seq::empty(), s as int),
        DomainError::ServiceUnavailable(m) => (4, m@, 0),
        DomainError::InvalidText(m) => (5, m@, 0),
        DomainError::InvalidConfiguration(m) => (6, m@, 0),
        DomainError::VoiceNotFound(m) => (7, m@, 0),
        DomainError::TextTooLong(n) => (8, Seq::empty(), n as int),
        DomainError::InvalidSsml(m) => (9, m@, 0),
        DomainError::SynthesisFailed(m) => (10, m@, 0),
        DomainError::UnsupportedOperation(m) => (11, m@, 0),
        DomainError::InternalError(m) => (12, m@, 0),
        DomainError::SessionNotFound(m) => (13, m@, 0),
        DomainError::InvalidInput(m) => (14, m@, 0),
    }
}

impl DomainError {
    /// Structural equality of two errors up to the view of their payloads.
    pub open spec fn eq_spec(self, other: DomainError) -> bool {
        err_view(self) == err_view(other)
    }

    /// A copy of this error whose payloads have the same view.
    pub fn duplicate(&self) -> (r: DomainError)
        ensures
            r.eq_spec(*self),
    {
        match self {
            DomainError::NetworkError(m) => DomainError::NetworkError(m.clone()),
            DomainError::Unauthorized(m) => DomainError::Unauthorized(m.clone()),
            DomainError::AccessDenied(m) => DomainError::AccessDenied(m.clone()),
            DomainError::RateLimited(s) => DomainError::RateLimited(*s),
            DomainError::ServiceUnavailable(m) => DomainError::ServiceUnavailable(m.clone()),
            DomainError::InvalidText(m) => DomainError::InvalidText(m.clone()),
            DomainError::InvalidConfiguration(m) => DomainError::InvalidConfiguration(m.clone()),
            DomainError::VoiceNotFound(m) => DomainError::VoiceNotFound(m.clone()),
            DomainError::TextTooLong(n) => DomainError::TextTooLong(*n),
            DomainError::InvalidSsml(m) => DomainError::InvalidSsml(m.clone()),
            DomainError::SynthesisFailed(m) => DomainError::SynthesisFailed(m.clone()),
            DomainError::UnsupportedOperation(m) => DomainError::UnsupportedOperation(m.clone()),
            DomainError::InternalError(m) => DomainError::InternalError(m.clone()),
            DomainError::SessionNotFound(m) => DomainError::SessionNotFound(m.clone()),
            DomainError::InvalidInput(m) => DomainError::InvalidInput(m.clone()),
        }
    }

    /// A short human-readable description, in place of a `Display` impl.
    pub fn message(&self) -> (r: String)
        ensures
            r@ == spec_error_message(*self),
    {
        proof {
            reveal_strlit("network error: ");
            reveal_strlit("unauthorized: ");
            reveal_strlit("access denied: ");
            reveal_strlit("rate limited; retry after s: ");
            reveal_strlit("service unavailable: ");
            reveal_strlit("invalid text: ");
            reveal_strlit("invalid configuration: ");
            reveal_strlit("voice not found: ");
            reveal_strlit("text too long; limit: ");
            reveal_strlit("invalid ssml: ");
            reveal_strlit("synthesis failed: ");
            reveal_strlit("unsupported operation: ");
            reveal_strlit("internal error: ");
            reveal_strlit("session not found: ");
            reveal_strlit("invalid input: ");
        }
        match self {
            DomainError::NetworkError(m) => {
                let mut s = String::from_str("network error: ");
                s.append(m.as_str());
                s
            },
            DomainError::Unauthorized(m) => {
                let mut s = String::from_str("unauthorized: ");
                s.append(m.as_str());
                s
            },
            DomainError::AccessDenied(m) => {
                let mut s = String::from_str("access denied: ");
                s.append(m.as_str());
                s
            },
            DomainError::RateLimited(secs) => {
                let mut s = String::from_str("rate limited; retry after s: ");
                push_dec_u64(&mut s, *secs as u64);
                s
            },
            DomainError::ServiceUnavailable(m) => {
                let mut s = String::from_str("service unavailable: ");
                s.append(m.as_str());
                s
            },
            DomainError::InvalidText(m) => {
                let mut s = String::from_str("invalid text: ");
                s.append(m.as_str());
                s
            },
            DomainError::InvalidConfiguration(m) => {
                let mut s = String::from_str("invalid configuration: ");
                s.append(m.as_str());
                s
            },
            DomainError::VoiceNotFound(m) => {
                let mut s = String::from_str("voice not found: ");
                s.append(m.as_str());
                s
            },
            DomainError::TextTooLong(n) => {
                let mut s = String::from_str("text too long; limit: ");
                push_dec_u64(&mut s, *n as u64);
                s
            },
            DomainError::InvalidSsml(m) => {
                let mut s = String::from_str("invalid ssml: ");
                s.append(m.as_str());
                s
            },
            DomainError::SynthesisFailed(m) => {
                let mut s = String::from_str("synthesis failed: ");
                s.append(m.as_str());
                s
            },
            DomainError::UnsupportedOperation(m) => {
                let mut s = String::from_str("unsupported operation: ");
                s.append(m.as_str());
                s
            },
            DomainError::InternalError(m) => {
                let mut s = String::from_str("internal error: ");
                s.append(m.as_str());
                s
            },
            DomainError::SessionNotFound(m) => {
                let mut s = String::from_str("session not found: ");
                s.append(m.as_str());
                s
            },
            DomainError::InvalidInput(m) => {
                let mut s = String::from_str("invalid input: ");
                s.append(m.as_str());
                s
            },
        }
    }
}

/// The description `message` returns for each variant.
pub open spec fn spec_error_message(e: DomainError) -> Seq<char> {
    match e {
        DomainError::NetworkError(m) => "network error: "@ + m@,
        DomainError::Unauthorized(m) => "unauthorized: "@ + m@,
        DomainError::AccessDenied(m) => "access denied: "@ + m@,
        DomainError::RateLimited(s) => "rate limited; retry after s: "@ + spec_dec_u64(s as nat),
        DomainError::ServiceUnavailable(m) => "service unavailable: "@ + m@,
        DomainError::InvalidText(m) => "invalid text: "@ + m@,
        DomainError::InvalidConfiguration(m) => "invalid configuration: "@ + m@,
        DomainError::VoiceNotFound(m) => "voice not found: "@ + m@,
        DomainError::TextTooLong(n) => "text too long; limit: "@ + spec_dec_u64(n as nat),
        DomainError::InvalidSsml(m) => "invalid ssml: "@ + m@,
        DomainError::SynthesisFailed(m) => "synthesis failed: "@ + m@,
        DomainError::UnsupportedOperation(m) => "unsupported operation: "@ + m@,
        DomainError::InternalError(m) => "internal error: "@ + m@,
        DomainError::SessionNotFound(m) => "session not found: "@ + m@,
        DomainError::InvalidInput(m) => "invalid input: "@ + m@,
    }
}

/// Builds an `InvalidText` error, as provider adapters report empty input.
pub fn invalid_text(msg: &str) -> (r: DomainError)
    ensures
        err_view(r) == (5int, msg@, 0int),
{
    DomainError::InvalidText(msg.to_owned())
}

/// Builds an `UnsupportedOperation` error for a capability a provider lacks.
pub fn unsupported(msg: &str) -> (r: DomainError)
    ensures
        err_view(r) == (11int, msg@, 0int),
{
    DomainError::UnsupportedOperation(msg.to_owned())
}

/// Builds a `VoiceNotFound` error carrying the unknown identifier.
pub fn voice_not_found(voice_id: String) -> (r: DomainError)
    ensures
        r == DomainError::VoiceNotFound(voice_id),
{
    DomainError::VoiceNotFound(voice_id)
}

/// Builds an `InternalError` with the given description.
pub fn internal_error(msg: &str) -> (r: DomainError)
    ensures
        err_view(r) == (12int, msg@, 0int),
{
    DomainError::InternalError(msg.to_owned())
}

} // verus!
