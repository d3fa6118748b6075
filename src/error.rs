use vstd::prelude::*;
use vstd::string::StringExecFns;

verus! {

/// Every way a request can fail.
#[derive(Clone, Debug, PartialEq)]
pub enum ApiError {
    /// The storage layer failed; `detail` describes the underlying cause.
    Database { detail: String },
    /// No record exists under the identifier asked for.
    NotFound { message: String },
    /// Storage accepted a write but handed back no record.
    Internal { message: String },
    /// A required configuration variable is missing or unreadable.
    EnvVar { detail: String },
    /// Reading a file at startup failed.
    Io { detail: String },
}

/// The uniform error envelope a client receives.
#[derive(Clone, Debug, PartialEq)]
pub struct ErrorResponse {
    pub error: String,
    pub status: u16,
}

pub const STATUS_NOT_FOUND: u16 = 404;

pub const STATUS_SERVER_ERROR: u16 = 500;

/// The status class of an error: only a missing record is the client's concern.
pub open spec fn error_status(e: ApiError) -> u16 {
    match e {
        ApiError::NotFound { .. } => STATUS_NOT_FOUND,
        _ => STATUS_SERVER_ERROR,
    }
}

/// The message shown to a client for an error.
pub open spec fn error_text(e: ApiError) -> Seq<char> {
    match e {
        ApiError::Database { detail } => "Database error: "@ + detail@,
        ApiError::NotFound { message } => message@,
        ApiError::Internal { message } => message@,
        ApiError::EnvVar { detail } => "Configuration error: "@ + detail@,
        ApiError::Io { detail } => "IO error: "@ + detail@,
    }
}

/// Whether `r` is the not-found error with the given message.
pub open spec fn is_not_found<T>(r: Result<T, ApiError>, text: Seq<char>) -> bool {
    match r {
        Err(ApiError::NotFound { message }) => message@ == text,
        _ => false,
    }
}

/// Whether `r` is the internal error with the given message.
pub open spec fn is_internal<T>(r: Result<T, ApiError>, text: Seq<char>) -> bool {
    match r {
        Err(ApiError::Internal { message }) => message@ == text,
        _ => false,
    }
}

/// The outcome of a lookup: the record found, or not-found with `missing`.
pub open spec fn fetched<T>(found: Option<T>, r: Result<T, ApiError>, missing: Seq<char>) -> bool {
    match found {
        Some(v) => r == Ok::<T, ApiError>(v),
        None => is_not_found(r, missing),
    }
}

/// The outcome of a write: the record storage returned, or an internal
/// error with `failure` when it returned none.
pub open spec fn written<T>(stored: Option<T>, r: Result<T, ApiError>, failure: Seq<char>) -> bool {
    match stored {
        Some(v) => r == Ok::<T, ApiError>(v),
        None => is_internal(r, failure),
    }
}

/// The message for a record of kind `kind` missing under `id`.
pub open spec fn missing_text(kind: Seq<char>, id: Seq<char>) -> Seq<char> {
    kind + " with id '"@ + id + "' not found"@
}

/// Builds the message for a record of kind `kind` missing under `id`.
pub fn missing_message(kind: &str, id: &str) -> (r: String)
    ensures
        r@ == missing_text(kind@, id@),
{
    let mut s = kind.to_owned();
    s.append(" with id '");
    s.append(id);
    s.append("' not found");
    s
}

/// Builds `prefix` followed by `detail`.
fn prefixed(prefix: &str, detail: &str) -> (r: String)
    ensures
        r@ == prefix@ + detail@,
{
    let mut s = prefix.to_owned();
    s.append(detail);
    s
}

impl ApiError {
    /// The envelope sent to the client: the status class and the message.
    pub fn into_response(self) -> (r: ErrorResponse)
        ensures
            r.status == error_status(self),
            r.error@ == error_text(self),
    {
        match self {
            ApiError::Database { detail } => ErrorResponse {
                error: prefixed("Database error: ", detail.as_str()),
                status: STATUS_SERVER_ERROR,
            },
            ApiError::NotFound { message } => ErrorResponse { error: message, status: STATUS_NOT_FOUND },
            ApiError::Internal { message } => ErrorResponse { error: message, status: STATUS_SERVER_ERROR },
            ApiError::EnvVar { detail } => ErrorResponse {
                error: prefixed("Configuration error: ", detail.as_str()),
                status: STATUS_SERVER_ERROR,
            },
            ApiError::Io { detail } => ErrorResponse {
                error: prefixed("IO error: ", detail.as_str()),
                status: STATUS_SERVER_ERROR,
            },
        }
    }
}

} // verus!
