//! The relay to the primary daemon: what to send it, and how its answer, or
//! the lack of one, maps to the caller's response.

use vstd::prelude::*;

use crate::json::{json_string, json_string_text};
use crate::text::{http_url, http_url_text};

verus! {

/// Deadline for connect, send, receive and reading the body, in milliseconds.
pub const RELAY_DEADLINE_MS: u64 = 10000;

/// Status the caller sees when the daemon could not be reached or read.
pub const BAD_GATEWAY: u16 = 502;

/// Status the caller sees when the deadline elapsed.
pub const GATEWAY_TIMEOUT: u16 = 504;

/// Why a relay failed.
#[derive(PartialEq, Eq, Structural, Clone, Copy, Debug)]
pub enum RelayErrorKind {
    /// Transport failure before any response.
    Unreachable,
    /// No completed response before the deadline.
    Timeout,
    /// The response arrived but its body could not be read.
    UpstreamReadFailure,
}

/// What came back from forwarding one request, before classification.
pub enum RelayAttempt {
    /// The daemon answered with `status`; its body, if it could be read.
    Answered { status: u16, body: Option<Vec<u8>> },
    /// The request failed at the transport level.
    Failed,
    /// The deadline elapsed.
    Expired,
}

/// What the caller gets back.
pub enum ProxyOutcome {
    Passthrough { status_code: u16, content_type: String, body: Vec<u8> },
    RelayError { kind: RelayErrorKind, target_port: u16 },
}

/// The body of a relay error as the caller sees it.
pub struct ChatErrorResponse {
    pub error: String,
    pub port: u16,
}

impl RelayErrorKind {
    pub open spec fn status_spec(self) -> u16 {
        match self {
            RelayErrorKind::Timeout => GATEWAY_TIMEOUT,
            _ => BAD_GATEWAY,
        }
    }

    /// The HTTP status the caller sees for this error.
    pub fn http_status(&self) -> (r: u16)
        ensures
            r == self.status_spec(),
    {
        match self {
            RelayErrorKind::Timeout => GATEWAY_TIMEOUT,
            _ => BAD_GATEWAY,
        }
    }

    pub open spec fn suffix(self) -> Seq<char> {
        match self {
            RelayErrorKind::Unreachable => " daemon unavailable"@,
            RelayErrorKind::Timeout => " daemon timeout"@,
            RelayErrorKind::UpstreamReadFailure => " daemon read error"@,
        }
    }

    /// The error text for a failure of the daemon called `daemon`.
    pub fn message(&self, daemon: &str) -> (r: String)
        ensures
            r@ == daemon@ + self.suffix(),
    {
        let mut r = String::from_str(daemon);
        let suffix = match self {
            RelayErrorKind::Unreachable => " daemon unavailable",
            RelayErrorKind::Timeout => " daemon timeout",
            RelayErrorKind::UpstreamReadFailure => " daemon read error",
        };
        r.append(suffix);
        r
    }

    /// The error body for a failure of the daemon `daemon` on `port`.
    pub fn error_body(&self, daemon: &str, port: u16) -> (r: ChatErrorResponse)
        ensures
            r.error@ == daemon@ + self.suffix(),
            r.port == port,
    {
        ChatErrorResponse { error: self.message(daemon), port }
    }
}

/// The content type every passthrough carries.
pub open spec fn json_content_type() -> Seq<char> {
    "application/json"@
}

/// The caller's response for `attempt` against the daemon on `port`.
pub open spec fn outcome_matches(r: ProxyOutcome, attempt: RelayAttempt, port: u16) -> bool {
    match attempt {
        RelayAttempt::Answered { status, body: Some(b) } => match r {
            ProxyOutcome::Passthrough { status_code, content_type, body } => status_code == status
                && content_type@ == json_content_type() && body@ == b@,
            _ => false,
        },
        RelayAttempt::Answered { status, body: None } => r == (ProxyOutcome::RelayError {
            kind: RelayErrorKind::UpstreamReadFailure,
            target_port: port,
        }),
        RelayAttempt::Failed => r == (ProxyOutcome::RelayError {
            kind: RelayErrorKind::Unreachable,
            target_port: port,
        }),
        RelayAttempt::Expired => r == (ProxyOutcome::RelayError {
            kind: RelayErrorKind::Timeout,
            target_port: port,
        }),
    }
}

/// Maps what came back from the daemon on `target_port` to the caller's
/// response: the daemon's status and body unchanged, or exactly one error.
pub fn relay_outcome(attempt: RelayAttempt, target_port: u16) -> (r: ProxyOutcome)
    ensures
        outcome_matches(r, attempt, target_port),
{
    match attempt {
        RelayAttempt::Answered { status, body: Some(b) } => ProxyOutcome::Passthrough {
            status_code: status,
            content_type: String::from_str("application/json"),
            body: b,
        },
        RelayAttempt::Answered { status: _, body: None } => ProxyOutcome::RelayError {
            kind: RelayErrorKind::UpstreamReadFailure,
            target_port,
        },
        RelayAttempt::Failed => ProxyOutcome::RelayError {
            kind: RelayErrorKind::Unreachable,
            target_port,
        },
        RelayAttempt::Expired => ProxyOutcome::RelayError {
            kind: RelayErrorKind::Timeout,
            target_port,
        },
    }
}

/// The chat endpoint of the daemon at `host:port`.
pub fn chat_url(host: &str, port: u16) -> (r: String)
    ensures
        r@ == http_url(host@, port, "/api/chat"@),
{
    http_url_text(host, port, "/api/chat")
}

/// `{"message":<message as a JSON string>}`.
pub open spec fn chat_payload_spec(message: Seq<char>) -> Seq<char> {
    "{\"message\":"@ + json_string(message) + "}"@
}

/// The JSON body forwarded to the daemon for a chat message.
pub fn chat_payload(message: &str) -> (r: String)
    ensures
        r@ == chat_payload_spec(message@),
{
    let mut r = String::from_str("{\"message\":");
    let quoted = json_string_text(message);
    r.append(quoted.as_str());
    r.append("}");
    r
}

} // verus!
