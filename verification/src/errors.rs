//! The error taxonomy shared by every layer, and its mapping to HTTP.

use vstd::prelude::*;

verus! {

/// What went wrong, independent of the message shown.
#[derive(Clone, Copy, Debug, PartialEq, Eq, Structural)]
pub enum ErrorKind {
    /// No session, or a token that names none.
    Unauthenticated,
    /// A session that existed but has run out; it was removed on detection.
    SessionExpired,
    /// Username and password hash match no user.
    InvalidCredentials,
    /// A request that breaks a rule on its fields; nothing was written.
    ValidationError,
    /// A mutation touched zero rows, or more than one, where one was expected.
    ConsistencyError,
    /// The data store failed.
    StorageError,
    /// The mail relay failed.
    DeliveryError,
    /// A fault of the service itself that no request can cause.
    Internal,
}

/// An error: its kind, and a message for people.
#[derive(Debug, Clone, PartialEq, Eq)]
pub struct TiraError {
    pub kind: ErrorKind,
    pub message: String,
}

/// The HTTP status that stands for each kind of error.
pub open spec fn status_of(kind: ErrorKind) -> u16 {
    match kind {
        ErrorKind::Unauthenticated => 401,
        ErrorKind::SessionExpired => 401,
        ErrorKind::InvalidCredentials => 401,
        ErrorKind::ValidationError => 400,
        ErrorKind::ConsistencyError => 500,
        ErrorKind::StorageError => 500,
        ErrorKind::DeliveryError => 500,
        ErrorKind::Internal => 500,
    }
}

/// Whether the message of an error of this kind may be shown to the client.
/// Failures of the service itself are reported without their detail.
pub open spec fn is_client_error(kind: ErrorKind) -> bool {
    status_of(kind) < 500
}

/// What the client reads for an error of this kind with this message.
pub open spec fn response_text(kind: ErrorKind, message: Seq<char>) -> Seq<char> {
    if is_client_error(kind) {
        message
    } else {
        "Something went wrong"@
    }
}

impl ErrorKind {
    /// The single mapping from error kind to HTTP status code.
    pub fn status_code(self) -> (code: u16)
        ensures
            code == status_of(self),
    {
        match self {
            ErrorKind::Unauthenticated => 401,
            ErrorKind::SessionExpired => 401,
            ErrorKind::InvalidCredentials => 401,
            ErrorKind::ValidationError => 400,
            ErrorKind::ConsistencyError => 500,
            ErrorKind::StorageError => 500,
            ErrorKind::DeliveryError => 500,
            ErrorKind::Internal => 500,
        }
    }
}

impl TiraError {
    /// An error of the given kind with the given message.
    pub fn new(kind: ErrorKind, message: &str) -> (e: TiraError)
        ensures
            e.kind == kind,
            e.message@ == message@,
    {
        TiraError { kind, message: message.to_owned() }
    }

    /// The HTTP status of this error.
    pub fn status_code(&self) -> (code: u16)
        ensures
            code == status_of(self.kind),
    {
        self.kind.status_code()
    }

    /// The response for this error: its status, and the text for the client.
    /// The message is passed on for the kinds a client can act on; a failure
    /// of the service itself shows no detail.
    pub fn into_response(self) -> (r: (u16, String))
        ensures
            r.0 == status_of(self.kind),
            r.1@ == response_text(self.kind, self.message@),
    {
        let code: u16 = self.kind.status_code();
        if code < 500 {
            (code, self.message)
        } else {
            (code, "Something went wrong".to_owned())
        }
    }
}

} // verus!
