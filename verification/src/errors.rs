//! The error taxonomy of the client core.

use vstd::prelude::*;
use vstd::string::StringExecFns;

verus! {

/// Every failure a core operation can report.
///
/// Security failures (`StateMismatch`, `PkceExpired`) abort the flow they
/// belong to and are never retried; transport failures leave all state
/// untouched; persistence failures are non-fatal to in-memory state.
#[derive(Debug)]
pub enum ClientError {
    /// An operation that needs a bearer token was called while logged out.
    AuthenticationRequired,
    /// The callback's `state` differs from the stored one (possible CSRF).
    StateMismatch,
    /// The in-flight authorization is older than its allowed lifetime.
    PkceExpired,
    /// A callback arrived with no authorization in flight.
    NoPendingFlow,
    /// The token endpoint refused or could not be reached.
    TokenExchangeFailed(String),
    /// A directly supplied token was rejected by the identity endpoint.
    InvalidToken,
    /// A remote call failed at the transport level.
    RemoteUnavailable(String),
    /// The remote asked us to back off (HTTP 429).
    RateLimited(String),
    /// A remote response did not have the expected shape.
    ResponseParseError,
    /// The durable store failed; in-memory state stays authoritative.
    PersistenceError(String),
}

/// The description `message` returns for each error.
pub open spec fn spec_message(e: ClientError) -> Seq<char> {
    match e {
        ClientError::AuthenticationRequired => "Not authenticated"@,
        ClientError::StateMismatch => "State parameter mismatch. Possible CSRF attack."@,
        ClientError::PkceExpired => "PKCE state expired. Please restart authentication."@,
        ClientError::NoPendingFlow => "No PKCE state found. Please restart authentication."@,
        ClientError::TokenExchangeFailed(d) => "Token exchange failed: "@ + d@,
        ClientError::InvalidToken => "Access token validation failed"@,
        ClientError::RemoteUnavailable(d) => "Request failed: "@ + d@,
        ClientError::RateLimited(d) => "Rate limited: "@ + d@,
        ClientError::ResponseParseError => "Failed to parse response"@,
        ClientError::PersistenceError(d) => "Persistence error: "@ + d@,
    }
}

impl ClientError {
    /// A human-readable description of the error.
    pub fn message(&self) -> (m: String)
        ensures
            m@ == spec_message(*self),
    {
        match self {
            ClientError::AuthenticationRequired => String::from_str("Not authenticated"),
            ClientError::StateMismatch => {
                String::from_str("State parameter mismatch. Possible CSRF attack.")
            },
            ClientError::PkceExpired => {
                String::from_str("PKCE state expired. Please restart authentication.")
            },
            ClientError::NoPendingFlow => {
                String::from_str("No PKCE state found. Please restart authentication.")
            },
            ClientError::TokenExchangeFailed(d) => {
                String::from_str("Token exchange failed: ").concat(d.as_str())
            },
            ClientError::InvalidToken => String::from_str("Access token validation failed"),
            ClientError::RemoteUnavailable(d) => {
                String::from_str("Request failed: ").concat(d.as_str())
            },
            ClientError::RateLimited(d) => String::from_str("Rate limited: ").concat(d.as_str()),
            ClientError::ResponseParseError => String::from_str("Failed to parse response"),
            ClientError::PersistenceError(d) => {
                String::from_str("Persistence error: ").concat(d.as_str())
            },
        }
    }
}

/// Classify a failed remote response: HTTP 429 is the distinguished
/// back-off signal, everything else is the service being unavailable.
pub fn classify_http_failure(status: u16, body: String) -> (e: ClientError)
    ensures
        status == 429 ==> (e matches ClientError::RateLimited(d) && d == body),
        status != 429 ==> (e matches ClientError::RemoteUnavailable(d) && d == body),
{
    if status == 429 {
        ClientError::RateLimited(body)
    } else {
        ClientError::RemoteUnavailable(body)
    }
}

} // verus!
