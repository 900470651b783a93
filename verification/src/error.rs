//! Error taxonomy of the API client.
//!
//! Every failure of the request pipeline is reported to the caller as a
//! typed [`Error`] value; nothing is logged or swallowed inside the core.

use vstd::prelude::*;
use vstd::string::StringExecFns;

verus! {

/// The possible failures of the request pipeline, as a flat taxonomy.
#[derive(Clone, Debug, PartialEq, Eq)]
pub enum ErrorKind {
    /// The credential exchange failed, or no token is held.
    AuthError,
    /// A 4xx response whose error body carried a message.
    ClientError(String),
    /// A failure while streaming a download into the destination sink.
    IO(String),
    /// A transport-level failure: no HTTP response was received at all.
    NetworkError,
    /// A response-shape mismatch against the expected schema; surfaced
    /// rather than swallowed, since it indicates client/server drift.
    ProgrammingError(String),
    /// A 5xx response; the body is not required to parse.
    ServerError,
    /// A status outside every recognized bucket.
    UnknownError,
}

/// The human-readable description of an error kind.
pub open spec fn spec_describe(k: ErrorKind) -> Seq<char> {
    match k {
        ErrorKind::AuthError => "Invalid credentials"@,
        ErrorKind::ClientError(m) => "Client error: "@ + m@,
        ErrorKind::IO(d) => "IO error: "@ + d@,
        ErrorKind::NetworkError => "Network error"@,
        ErrorKind::ProgrammingError(d) => "Programming error (this is a bug): "@ + d@,
        ErrorKind::ServerError => "Internal server error"@,
        ErrorKind::UnknownError => "Unknown error"@,
    }
}

impl ErrorKind {
    /// Describe the error kind in words, with its detail appended.
    pub fn describe(&self) -> (s: String)
        ensures
            s@ == spec_describe(*self),
    {
        match self {
            ErrorKind::AuthError => String::from_str("Invalid credentials"),
            ErrorKind::ClientError(m) => {
                let mut s = String::from_str("Client error: ");
                s.append(m.as_str());
                s
            },
            ErrorKind::IO(d) => {
                let mut s = String::from_str("IO error: ");
                s.append(d.as_str());
                s
            },
            ErrorKind::NetworkError => String::from_str("Network error"),
            ErrorKind::ProgrammingError(d) => {
                let mut s = String::from_str("Programming error (this is a bug): ");
                s.append(d.as_str());
                s
            },
            ErrorKind::ServerError => String::from_str("Internal server error"),
            ErrorKind::UnknownError => String::from_str("Unknown error"),
        }
    }
}

/// Wrapper type for all errors returned by this crate.
#[derive(Clone, Debug)]
pub struct Error {
    kind: ErrorKind,
}

impl Error {
    /// The kind this error was built from.
    pub closed spec fn spec_kind(&self) -> ErrorKind {
        self.kind
    }

    /// Create a new error of the given kind.
    pub fn new(kind: ErrorKind) -> (e: Self)
        ensures
            e.spec_kind() == kind,
    {
        Self { kind }
    }

    /// Access the `ErrorKind` enum.
    pub fn kind(&self) -> (k: &ErrorKind)
        ensures
            *k == self.spec_kind(),
    {
        &self.kind
    }

    /// Describe the error in words.
    pub fn describe(&self) -> (s: String)
        ensures
            s@ == spec_describe(self.spec_kind()),
    {
        self.kind.describe()
    }
}

impl From<ErrorKind> for Error {
    fn from(kind: ErrorKind) -> (e: Error) {
        Error { kind }
    }
}

impl vstd::std_specs::convert::FromSpecImpl<ErrorKind> for Error {
    open spec fn obeys_from_spec() -> bool {
        true
    }

    closed spec fn from_spec(kind: ErrorKind) -> Error {
        Error { kind }
    }
}

} // verus!
