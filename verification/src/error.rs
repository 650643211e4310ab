use vstd::prelude::*;
use vstd::string::StringExecFns;

verus! {

/// The kinds of failure that the proxy reports.
#[derive(Debug, Clone, PartialEq, Eq)]
pub enum ErrorType {
    /// The listening socket could not be bound to the given address.
    BindError(String),
    /// A downstream connection could not be accepted.
    AcceptError(String),
    /// A connection exceeded its time budget.
    Timeout,
    /// An internal failure, such as a closed connection semaphore.
    Internal(String),
    /// The selected upstream peer could not be reached.
    UpstreamConnect(String),
    /// Copying bytes between the two peers failed.
    Bidirectional(String),
}

/// The error type of the proxy: a wrapper around an [`ErrorType`].
#[derive(Debug, Clone, PartialEq, Eq)]
pub struct ProxyError {
    etype: ErrorType,
}

/// The result type of the proxy's fallible operations.
pub type ProxyResult<T> = Result<T, ProxyError>;

/// The prefix of a message, by error kind, before its detail.
pub open spec fn message_prefix(etype: ErrorType) -> Seq<char> {
    match etype {
        ErrorType::BindError(_) => "failed to bind to: "@,
        ErrorType::AcceptError(_) => "failed to accept: "@,
        ErrorType::Timeout => "timed out"@,
        ErrorType::Internal(_) => "internal error: "@,
        ErrorType::UpstreamConnect(_) => "failed to connect to upstream peer: "@,
        ErrorType::Bidirectional(_) => "failed to copy between peers: "@,
    }
}

/// The detail that follows the prefix of a message.
pub open spec fn message_detail(etype: ErrorType) -> Seq<char> {
    match etype {
        ErrorType::BindError(e) => e@,
        ErrorType::AcceptError(e) => e@,
        ErrorType::Timeout => Seq::empty(),
        ErrorType::Internal(e) => e@,
        ErrorType::UpstreamConnect(e) => e@,
        ErrorType::Bidirectional(e) => e@,
    }
}

/// The human-readable text of an error of the given kind.
pub open spec fn message_of(etype: ErrorType) -> Seq<char> {
    message_prefix(etype) + message_detail(etype)
}

impl ProxyError {
    /// The kind of this error, as a value for specifications.
    pub closed spec fn kind(&self) -> ErrorType {
        self.etype
    }

    /// Wraps an error kind.
    pub fn new(etype: ErrorType) -> (e: ProxyError)
        ensures
            e.kind() == etype,
    {
        ProxyError { etype }
    }

    /// The kind of this error.
    pub fn etype(&self) -> (t: &ErrorType)
        ensures
            *t == self.kind(),
    {
        &self.etype
    }

    /// The text that the error displays: `failed to bind to: <address>`,
    /// `failed to accept: <reason>`, and so on.
    pub fn message(&self) -> (s: String)
        ensures
            s@ == message_of(self.kind()),
    {
        match &self.etype {
            ErrorType::BindError(e) => String::from_str("failed to bind to: ").concat(e.as_str()),
            ErrorType::AcceptError(e) => String::from_str("failed to accept: ").concat(e.as_str()),
            ErrorType::Timeout => String::from_str("timed out"),
            ErrorType::Internal(e) => String::from_str("internal error: ").concat(e.as_str()),
            ErrorType::UpstreamConnect(e) => String::from_str(
                "failed to connect to upstream peer: ",
            ).concat(e.as_str()),
            ErrorType::Bidirectional(e) => String::from_str("failed to copy between peers: ").concat(
                e.as_str(),
            ),
        }
    }
}

} // verus!
