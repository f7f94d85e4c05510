//! The errors that a request can end in.

use vstd::prelude::*;
use vstd::string::StringExecFns;

verus! {

/// What went wrong, without the texts.
#[derive(Clone, Copy, Debug, PartialEq, Eq, Structural)]
pub enum ErrorKind {
    /// The caller's input is invalid.
    BadRequest,
    /// The requested entity does not exist upstream.
    NotFound,
    /// The provider's credentials are missing or invalid.
    Unauthorized,
    /// The provider failed for another reason.
    Upstream,
    /// An unexpected failure on the engine's side.
    Internal,
}

/// An error with a machine-readable code and a message for people.
#[derive(Debug, Clone, PartialEq, Eq)]
pub enum AppError {
    BadRequest { code: String, message: String },
    NotFound { code: String, message: String },
    Unauthorized { code: String, message: String },
    Upstream { code: String, message: String },
    Internal { code: String, message: String },
}

/// The mathematical value of an [`AppError`].
pub struct ErrorView {
    pub kind: ErrorKind,
    pub code: Seq<char>,
    pub message: Seq<char>,
}

impl View for AppError {
    type V = ErrorView;

    open spec fn view(&self) -> ErrorView {
        match *self {
            AppError::BadRequest { code, message } => ErrorView {
                kind: ErrorKind::BadRequest,
                code: code@,
                message: message@,
            },
            AppError::NotFound { code, message } => ErrorView {
                kind: ErrorKind::NotFound,
                code: code@,
                message: message@,
            },
            AppError::Unauthorized { code, message } => ErrorView {
                kind: ErrorKind::Unauthorized,
                code: code@,
                message: message@,
            },
            AppError::Upstream { code, message } => ErrorView {
                kind: ErrorKind::Upstream,
                code: code@,
                message: message@,
            },
            AppError::Internal { code, message } => ErrorView {
                kind: ErrorKind::Internal,
                code: code@,
                message: message@,
            },
        }
    }
}

impl AppError {
    /// An error of the given kind with the given texts.
    pub fn new(kind: ErrorKind, code: &str, message: &str) -> (e: Self)
        ensures
            e@ == (ErrorView { kind, code: code@, message: message@ }),
    {
        let code = String::from_str(code);
        let message = String::from_str(message);
        match kind {
            ErrorKind::BadRequest => AppError::BadRequest { code, message },
            ErrorKind::NotFound => AppError::NotFound { code, message },
            ErrorKind::Unauthorized => AppError::Unauthorized { code, message },
            ErrorKind::Upstream => AppError::Upstream { code, message },
            ErrorKind::Internal => AppError::Internal { code, message },
        }
    }

    /// The caller's input is invalid.
    pub fn bad_request(code: &str, message: &str) -> (e: Self)
        ensures
            e@ == (ErrorView { kind: ErrorKind::BadRequest, code: code@, message: message@ }),
    {
        AppError::BadRequest { code: String::from_str(code), message: String::from_str(message) }
    }

    /// The requested entity does not exist upstream.
    pub fn not_found(code: &str, message: &str) -> (e: Self)
        ensures
            e@ == (ErrorView { kind: ErrorKind::NotFound, code: code@, message: message@ }),
    {
        AppError::NotFound { code: String::from_str(code), message: String::from_str(message) }
    }

    /// The provider's credentials are missing or invalid.
    pub fn unauthorized(code: &str, message: &str) -> (e: Self)
        ensures
            e@ == (ErrorView { kind: ErrorKind::Unauthorized, code: code@, message: message@ }),
    {
        AppError::Unauthorized { code: String::from_str(code), message: String::from_str(message) }
    }

    /// The provider failed for a reason other than a missing entity or bad credentials.
    pub fn upstream(code: &str, message: &str) -> (e: Self)
        ensures
            e@ == (ErrorView { kind: ErrorKind::Upstream, code: code@, message: message@ }),
    {
        AppError::Upstream { code: String::from_str(code), message: String::from_str(message) }
    }

    /// An unexpected failure on the engine's side.
    pub fn internal(code: &str, message: &str) -> (e: Self)
        ensures
            e@ == (ErrorView { kind: ErrorKind::Internal, code: code@, message: message@ }),
    {
        AppError::Internal { code: String::from_str(code), message: String::from_str(message) }
    }

    /// The kind of this error.
    pub fn kind(&self) -> (k: ErrorKind)
        ensures
            k == self@.kind,
    {
        match self {
            AppError::BadRequest { .. } => ErrorKind::BadRequest,
            AppError::NotFound { .. } => ErrorKind::NotFound,
            AppError::Unauthorized { .. } => ErrorKind::Unauthorized,
            AppError::Upstream { .. } => ErrorKind::Upstream,
            AppError::Internal { .. } => ErrorKind::Internal,
        }
    }

    /// Whether the error says that an entity is missing upstream.
    pub fn is_not_found(&self) -> (b: bool)
        ensures
            b == (self@.kind == ErrorKind::NotFound),
    {
        match self {
            AppError::NotFound { .. } => true,
            _ => false,
        }
    }

    /// The machine-readable code.
    pub fn code(&self) -> (c: &str)
        ensures
            c@ == self@.code,
    {
        match self {
            AppError::BadRequest { code, .. } => code.as_str(),
            AppError::NotFound { code, .. } => code.as_str(),
            AppError::Unauthorized { code, .. } => code.as_str(),
            AppError::Upstream { code, .. } => code.as_str(),
            AppError::Internal { code, .. } => code.as_str(),
        }
    }

    /// The message for people.
    pub fn message(&self) -> (m: &str)
        ensures
            m@ == self@.message,
    {
        match self {
            AppError::BadRequest { message, .. } => message.as_str(),
            AppError::NotFound { message, .. } => message.as_str(),
            AppError::Unauthorized { message, .. } => message.as_str(),
            AppError::Upstream { message, .. } => message.as_str(),
            AppError::Internal { message, .. } => message.as_str(),
        }
    }

    /// The HTTP status that a response carrying this error has.
    pub fn status_code(&self) -> (status: u16)
        ensures
            status == status_of(self@.kind),
    {
        self.kind().status_code()
    }

    /// The code, a colon and a space, then the message.
    pub fn to_string(&self) -> (text: String)
        ensures
            text@ == rendered(self@),
    {
        let text = String::from_str(self.code());
        let text = text.concat(": ");
        proof {
            reveal_strlit(": ");
        }
        text.concat(self.message())
    }
}

impl ErrorKind {
    /// The HTTP status that stands for this kind of error.
    pub fn status_code(self) -> (status: u16)
        ensures
            status == status_of(self),
    {
        match self {
            ErrorKind::BadRequest => 400,
            ErrorKind::NotFound => 404,
            ErrorKind::Unauthorized => 401,
            ErrorKind::Upstream => 502,
            ErrorKind::Internal => 500,
        }
    }
}

/// The HTTP status of each kind: 400 for a bad request, 404 for a missing
/// entity, 401 for bad credentials, 502 for an upstream failure and 500 for an
/// internal one.
pub open spec fn status_of(kind: ErrorKind) -> u16 {
    match kind {
        ErrorKind::BadRequest => 400,
        ErrorKind::NotFound => 404,
        ErrorKind::Unauthorized => 401,
        ErrorKind::Upstream => 502,
        ErrorKind::Internal => 500,
    }
}

/// The text of an error: its code, `": "`, its message.
pub open spec fn rendered(e: ErrorView) -> Seq<char> {
    e.code + seq![':', ' '] + e.message
}

} // verus!
