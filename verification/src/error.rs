//! The classified errors that every operation of the crate reports, and the
//! compact form in which they are shown to a caller.

use crate::text::glue;
use vstd::prelude::*;

verus! {

/// The kinds of failure.
#[derive(Clone, Copy, Debug, PartialEq, Eq, Structural)]
pub enum ErrorKind {
    /// The login handshake failed, was rejected, or needs the operator.
    Auth,
    /// The backend answered with a structured error payload.
    Api,
    /// Transport failures and timeouts.
    Network,
    /// The handshake reports the session closed.
    Session,
    /// No resolution strategy found the identifier.
    NotFound,
    /// The caller supplied a malformed value.
    InvalidInput,
    /// No adapter is registered for the platform.
    PlatformNotAvailable,
    /// The feature does not exist yet.
    NotImplemented,
    /// Lock poisoning, unreadable payloads, broken invariants.
    Internal,
}

/// A classified failure with its detail text.
#[derive(Debug)]
pub enum AgentError {
    Auth(String),
    Api(String),
    Network(String),
    Session(String),
    NotFound(String),
    InvalidInput(String),
    PlatformNotAvailable(String),
    NotImplemented(String),
    Internal(String),
}

impl View for AgentError {
    type V = (ErrorKind, Seq<char>);

    open spec fn view(&self) -> (ErrorKind, Seq<char>) {
        match self {
            AgentError::Auth(m) => (ErrorKind::Auth, m@),
            AgentError::Api(m) => (ErrorKind::Api, m@),
            AgentError::Network(m) => (ErrorKind::Network, m@),
            AgentError::Session(m) => (ErrorKind::Session, m@),
            AgentError::NotFound(m) => (ErrorKind::NotFound, m@),
            AgentError::InvalidInput(m) => (ErrorKind::InvalidInput, m@),
            AgentError::PlatformNotAvailable(m) => (ErrorKind::PlatformNotAvailable, m@),
            AgentError::NotImplemented(m) => (ErrorKind::NotImplemented, m@),
            AgentError::Internal(m) => (ErrorKind::Internal, m@),
        }
    }
}

/// The words that introduce the detail of an error of the given kind.
pub open spec fn kind_prefix(kind: ErrorKind) -> Seq<char> {
    match kind {
        ErrorKind::Auth => "authentication failed: "@,
        ErrorKind::Api => "api error: "@,
        ErrorKind::Network => "network error: "@,
        ErrorKind::Session => "session error: "@,
        ErrorKind::NotFound => "not found: "@,
        ErrorKind::InvalidInput => "invalid input: "@,
        ErrorKind::PlatformNotAvailable => "platform not available: "@,
        ErrorKind::NotImplemented => "not implemented: "@,
        ErrorKind::Internal => "internal error: "@,
    }
}

/// The machine-readable code of a kind.
pub open spec fn kind_code(kind: ErrorKind) -> Seq<char> {
    match kind {
        ErrorKind::Auth => "AUTH_ERROR"@,
        ErrorKind::Api => "API_ERROR"@,
        ErrorKind::Network => "NETWORK_ERROR"@,
        ErrorKind::Session => "SESSION_ERROR"@,
        ErrorKind::NotFound => "NOT_FOUND"@,
        ErrorKind::InvalidInput => "INVALID_INPUT"@,
        ErrorKind::PlatformNotAvailable => "PLATFORM_NOT_AVAILABLE"@,
        ErrorKind::NotImplemented => "NOT_IMPLEMENTED"@,
        ErrorKind::Internal => "INTERNAL_ERROR"@,
    }
}

/// What the caller is advised to do about a failure of a kind, if anything.
pub open spec fn kind_suggestion(kind: ErrorKind) -> Option<Seq<char>> {
    match kind {
        ErrorKind::Auth => Some(
            "Run `nexus auth telegram` or check GMAIL_APP_PASSWORD env var"@,
        ),
        ErrorKind::Api => None,
        ErrorKind::Network => Some("Check internet connection and try again"@),
        ErrorKind::Session => Some("Session expired. Re-run `nexus auth telegram`"@),
        ErrorKind::NotFound => Some("Use list_channels to find valid channel names/IDs"@),
        ErrorKind::InvalidInput => None,
        ErrorKind::PlatformNotAvailable => Some(
            "Platform not configured. Set required env vars and restart"@,
        ),
        ErrorKind::NotImplemented => Some("This feature is not yet available"@),
        ErrorKind::Internal => Some("Unexpected error"@),
    }
}

/// Whether trying again may help: only for network and internal failures.
pub open spec fn kind_retryable(kind: ErrorKind) -> bool {
    kind == ErrorKind::Network || kind == ErrorKind::Internal
}

/// The line that describes an error: the words of its kind, then its detail.
pub open spec fn error_text(e: (ErrorKind, Seq<char>)) -> Seq<char> {
    kind_prefix(e.0) + e.1
}

impl AgentError {
    pub fn auth(msg: &str) -> (e: AgentError)
        ensures
            e@ == (ErrorKind::Auth, msg@),
    {
        AgentError::Auth(String::from_str(msg))
    }

    pub fn api(msg: &str) -> (e: AgentError)
        ensures
            e@ == (ErrorKind::Api, msg@),
    {
        AgentError::Api(String::from_str(msg))
    }

    pub fn network(msg: &str) -> (e: AgentError)
        ensures
            e@ == (ErrorKind::Network, msg@),
    {
        AgentError::Network(String::from_str(msg))
    }

    pub fn session(msg: &str) -> (e: AgentError)
        ensures
            e@ == (ErrorKind::Session, msg@),
    {
        AgentError::Session(String::from_str(msg))
    }

    pub fn not_found(msg: &str) -> (e: AgentError)
        ensures
            e@ == (ErrorKind::NotFound, msg@),
    {
        AgentError::NotFound(String::from_str(msg))
    }

    pub fn invalid_input(msg: &str) -> (e: AgentError)
        ensures
            e@ == (ErrorKind::InvalidInput, msg@),
    {
        AgentError::InvalidInput(String::from_str(msg))
    }

    pub fn platform_not_available(msg: &str) -> (e: AgentError)
        ensures
            e@ == (ErrorKind::PlatformNotAvailable, msg@),
    {
        AgentError::PlatformNotAvailable(String::from_str(msg))
    }

    pub fn not_implemented(msg: &str) -> (e: AgentError)
        ensures
            e@ == (ErrorKind::NotImplemented, msg@),
    {
        AgentError::NotImplemented(String::from_str(msg))
    }

    pub fn internal(msg: &str) -> (e: AgentError)
        ensures
            e@ == (ErrorKind::Internal, msg@),
    {
        AgentError::Internal(String::from_str(msg))
    }

    /// The kind of this error.
    pub fn kind(&self) -> (k: ErrorKind)
        ensures
            k == self@.0,
    {
        match self {
            AgentError::Auth(_) => ErrorKind::Auth,
            AgentError::Api(_) => ErrorKind::Api,
            AgentError::Network(_) => ErrorKind::Network,
            AgentError::Session(_) => ErrorKind::Session,
            AgentError::NotFound(_) => ErrorKind::NotFound,
            AgentError::InvalidInput(_) => ErrorKind::InvalidInput,
            AgentError::PlatformNotAvailable(_) => ErrorKind::PlatformNotAvailable,
            AgentError::NotImplemented(_) => ErrorKind::NotImplemented,
            AgentError::Internal(_) => ErrorKind::Internal,
        }
    }

    /// The detail text of this error.
    pub fn detail(&self) -> (m: &str)
        ensures
            m@ == self@.1,
    {
        match self {
            AgentError::Auth(m) => m.as_str(),
            AgentError::Api(m) => m.as_str(),
            AgentError::Network(m) => m.as_str(),
            AgentError::Session(m) => m.as_str(),
            AgentError::NotFound(m) => m.as_str(),
            AgentError::InvalidInput(m) => m.as_str(),
            AgentError::PlatformNotAvailable(m) => m.as_str(),
            AgentError::NotImplemented(m) => m.as_str(),
            AgentError::Internal(m) => m.as_str(),
        }
    }

    /// An error of the same kind with the same detail.
    pub fn duplicate(&self) -> (e: AgentError)
        ensures
            e@ == self@,
    {
        match self {
            AgentError::Auth(m) => AgentError::Auth(m.clone()),
            AgentError::Api(m) => AgentError::Api(m.clone()),
            AgentError::Network(m) => AgentError::Network(m.clone()),
            AgentError::Session(m) => AgentError::Session(m.clone()),
            AgentError::NotFound(m) => AgentError::NotFound(m.clone()),
            AgentError::InvalidInput(m) => AgentError::InvalidInput(m.clone()),
            AgentError::PlatformNotAvailable(m) => AgentError::PlatformNotAvailable(m.clone()),
            AgentError::NotImplemented(m) => AgentError::NotImplemented(m.clone()),
            AgentError::Internal(m) => AgentError::Internal(m.clone()),
        }
    }

    /// The line that describes this error.
    pub fn to_string(&self) -> (s: String)
        ensures
            s@ == error_text(self@),
    {
        let prefix: &str = match self {
            AgentError::Auth(_) => "authentication failed: ",
            AgentError::Api(_) => "api error: ",
            AgentError::Network(_) => "network error: ",
            AgentError::Session(_) => "session error: ",
            AgentError::NotFound(_) => "not found: ",
            AgentError::InvalidInput(_) => "invalid input: ",
            AgentError::PlatformNotAvailable(_) => "platform not available: ",
            AgentError::NotImplemented(_) => "not implemented: ",
            AgentError::Internal(_) => "internal error: ",
        };
        glue(prefix, self.detail())
    }
}

/// An error as it is reported to the caller of a tool.
#[derive(Debug)]
pub struct ErrorResponse {
    pub code: &'static str,
    pub message: String,
    pub suggestion: Option<&'static str>,
    pub retryable: bool,
}

/// `ErrorResponse` in terms of texts.
pub struct ErrorResponseView {
    pub code: Seq<char>,
    pub message: Seq<char>,
    pub suggestion: Option<Seq<char>>,
    pub retryable: bool,
}

impl View for ErrorResponse {
    type V = ErrorResponseView;

    open spec fn view(&self) -> ErrorResponseView {
        ErrorResponseView {
            code: self.code@,
            message: self.message@,
            suggestion: match self.suggestion {
                Some(s) => Some(s@),
                None => None,
            },
            retryable: self.retryable,
        }
    }
}

/// The report of an error: code, advice and retry mark by its kind, and its
/// descriptive line as the message.
pub open spec fn response_of(e: (ErrorKind, Seq<char>)) -> ErrorResponseView {
    ErrorResponseView {
        code: kind_code(e.0),
        message: error_text(e),
        suggestion: kind_suggestion(e.0),
        retryable: kind_retryable(e.0),
    }
}

/// The one-line form of a report: `[code] message`, then the advice and the
/// retry mark where present, separated by ` | `.
pub open spec fn compact_text(r: ErrorResponseView) -> Seq<char> {
    let head = "["@ + r.code + "] "@ + r.message;
    let advised = match r.suggestion {
        Some(s) => head + " | "@ + ("Suggestion: "@ + s),
        None => head,
    };
    if r.retryable {
        advised + " | "@ + "(retryable)"@
    } else {
        advised
    }
}

impl ErrorResponse {
    /// The report of an error.
    pub fn from(err: &AgentError) -> (r: ErrorResponse)
        ensures
            r@ == response_of(err@),
    {
        let code: &'static str = match err {
            AgentError::Auth(_) => "AUTH_ERROR",
            AgentError::Api(_) => "API_ERROR",
            AgentError::Network(_) => "NETWORK_ERROR",
            AgentError::Session(_) => "SESSION_ERROR",
            AgentError::NotFound(_) => "NOT_FOUND",
            AgentError::InvalidInput(_) => "INVALID_INPUT",
            AgentError::PlatformNotAvailable(_) => "PLATFORM_NOT_AVAILABLE",
            AgentError::NotImplemented(_) => "NOT_IMPLEMENTED",
            AgentError::Internal(_) => "INTERNAL_ERROR",
        };
        let suggestion: Option<&'static str> = match err {
            AgentError::Auth(_) => Some(
                "Run `nexus auth telegram` or check GMAIL_APP_PASSWORD env var",
            ),
            AgentError::Api(_) => None,
            AgentError::Network(_) => Some("Check internet connection and try again"),
            AgentError::Session(_) => Some("Session expired. Re-run `nexus auth telegram`"),
            AgentError::NotFound(_) => Some("Use list_channels to find valid channel names/IDs"),
            AgentError::InvalidInput(_) => None,
            AgentError::PlatformNotAvailable(_) => Some(
                "Platform not configured. Set required env vars and restart",
            ),
            AgentError::NotImplemented(_) => Some("This feature is not yet available"),
            AgentError::Internal(_) => Some("Unexpected error"),
        };
        let retryable: bool = match err {
            AgentError::Network(_) => true,
            AgentError::Internal(_) => true,
            _ => false,
        };
        ErrorResponse { code, message: err.to_string(), suggestion, retryable }
    }

    /// The one-line form of this report.
    pub fn to_compact(&self) -> (s: String)
        ensures
            s@ == compact_text(self@),
    {
        let mut s = String::from_str("[");
        s.append(self.code);
        s.append("] ");
        s.append(self.message.as_str());
        if let Some(advice) = self.suggestion {
            s.append(" | ");
            s.append("Suggestion: ");
            s.append(advice);
            assert(s@ =~= "["@ + self.code@ + "] "@ + self.message@ + " | "@ + ("Suggestion: "@
                + advice@));
        }
        if self.retryable {
            s.append(" | ");
            s.append("(retryable)");
        }
        s
    }
}

} // verus!
