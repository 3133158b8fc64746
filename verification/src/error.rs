//! The errors of the service and how each is reported to a client.

use vstd::prelude::*;
use vstd::string::StringExecFns;

verus! {

/// What can go wrong while serving a request. Each failure of an outside
/// component is carried as the message that component gave.
#[derive(Debug)]
pub enum AppError {
    /// Serialization or identifier translation failed.
    InternalServerError(String),
    /// An input or output operation failed.
    IOError(String),
    /// The document store failed or could not be reached.
    DbError(String),
    /// The TLS setup failed.
    SSLError(String),
    /// The request was malformed.
    BadRequest(String),
    /// The query matched no document.
    NotFound(String),
    /// The caller may not see this data.
    Forbidden,
}

/// The body sent to a client for a failed request.
#[derive(Debug)]
pub struct ErrorMessage {
    pub message: String,
    pub status: u16,
}

/// The status class of each kind of error.
pub open spec fn status_of(e: AppError) -> int {
    match e {
        AppError::InternalServerError(_) => 500,
        AppError::IOError(_) => 503,
        AppError::DbError(_) => 503,
        AppError::SSLError(_) => 503,
        AppError::BadRequest(_) => 400,
        AppError::NotFound(_) => 404,
        AppError::Forbidden => 403,
    }
}

/// The human-readable text of each error.
pub open spec fn message_of(e: AppError) -> Seq<char> {
    match e {
        AppError::InternalServerError(m) => m@,
        AppError::IOError(m) => m@,
        AppError::DbError(m) => m@,
        AppError::SSLError(m) => m@,
        AppError::BadRequest(m) => m@,
        AppError::NotFound(m) => m@,
        AppError::Forbidden => "You are unauthorized to access this data"@,
    }
}

impl AppError {
    /// The HTTP status code that reports this error.
    pub fn status_code(&self) -> (code: u16)
        ensures
            code == status_of(*self),
    {
        match self {
            AppError::InternalServerError(_) => 500,
            AppError::IOError(_) => 503,
            AppError::DbError(_) => 503,
            AppError::SSLError(_) => 503,
            AppError::BadRequest(_) => 400,
            AppError::NotFound(_) => 404,
            AppError::Forbidden => 403,
        }
    }

    /// The message shown to the client.
    pub fn message(&self) -> (text: String)
        ensures
            text@ == message_of(*self),
    {
        match self {
            AppError::InternalServerError(m) => m.clone(),
            AppError::IOError(m) => m.clone(),
            AppError::DbError(m) => m.clone(),
            AppError::SSLError(m) => m.clone(),
            AppError::BadRequest(m) => m.clone(),
            AppError::NotFound(m) => m.clone(),
            AppError::Forbidden => String::from_str("You are unauthorized to access this data"),
        }
    }

    /// The body of the error response: the message and the status.
    pub fn error_response(&self) -> (body: ErrorMessage)
        ensures
            body.message@ == message_of(*self),
            body.status == status_of(*self),
    {
        ErrorMessage { message: self.message(), status: self.status_code() }
    }
}

} // verus!
