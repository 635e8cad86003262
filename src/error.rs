//! The error taxonomy of the library and the response body that each error
//! is reported with.
use vstd::prelude::*;
use vstd::string::*;

verus! {

/// What went wrong in storage.
#[derive(Debug, Clone, PartialEq, Eq)]
pub enum StorageFault {
    /// A write would break a uniqueness constraint (external id, or provider
    /// and provider subject id).
    UniqueViolation,
    /// No further id can be assigned.
    IdSpaceExhausted,
    /// The backend reported a failure; the text is its cause.
    Backend(String),
}

/// Every error that the library reports.
#[derive(Debug, Clone, PartialEq, Eq)]
pub enum AppError {
    /// A storage failure, with its cause.
    Storage(StorageFault),
    /// An expected row is absent.
    NotFound,
    /// A unit of work was used after it was committed or rolled back.
    TransactionState,
    /// A repository capability was never registered.
    Configuration,
    InternalServerError(String),
    BadRequest(String),
    Conflict(String),
    Unauthorized(String),
    Forbidden(String),
}

pub type AppResult<T> = Result<T, AppError>;

/// `r` is a bad request whose message reads `msg`.
pub open spec fn is_bad_request<T>(r: AppResult<T>, msg: Seq<char>) -> bool {
    match r {
        Err(AppError::BadRequest(m)) => m@ == msg,
        _ => false,
    }
}

/// `r` is an internal error whose message reads `msg`.
pub open spec fn is_internal_error<T>(r: AppResult<T>, msg: Seq<char>) -> bool {
    match r {
        Err(AppError::InternalServerError(m)) => m@ == msg,
        _ => false,
    }
}

/// `r` is an authentication failure whose message reads `msg`.
pub open spec fn is_unauthorized<T>(r: AppResult<T>, msg: Seq<char>) -> bool {
    match r {
        Err(AppError::Unauthorized(m)) => m@ == msg,
        _ => false,
    }
}

/// `r` is a refusal whose message reads `msg`.
pub open spec fn is_forbidden<T>(r: AppResult<T>, msg: Seq<char>) -> bool {
    match r {
        Err(AppError::Forbidden(m)) => m@ == msg,
        _ => false,
    }
}

/// The body of an error response: the HTTP status code, a message for the
/// client, and two diagnostic fields.
#[derive(Debug, Clone, PartialEq, Eq)]
pub struct ErrorBody {
    pub error_code: u16,
    pub error: String,
    pub pp: String,
    pub pa: String,
}

/// The HTTP status code that `e` is reported with.
pub open spec fn status_of(e: AppError) -> u16 {
    match e {
        AppError::Storage(_) => 500,
        AppError::NotFound => 404,
        AppError::TransactionState => 500,
        AppError::Configuration => 500,
        AppError::InternalServerError(_) => 500,
        AppError::BadRequest(_) => 400,
        AppError::Conflict(_) => 409,
        AppError::Unauthorized(_) => 401,
        AppError::Forbidden(_) => 403,
    }
}

/// The response body that `e` is reported with.
pub open spec fn body_of(e: AppError) -> (Seq<char>, Seq<char>, Seq<char>) {
    match e {
        AppError::Storage(_) => ("Database error"@, ""@, "INTERNAL_SERVER_ERROR"@),
        AppError::NotFound => ("Not found"@, "404"@, "APP_UPDATE_REQUIRED"@),
        AppError::TransactionState => (
            "Internal server error"@,
            "transaction already finished"@,
            "INTERNAL_SERVER_ERROR"@,
        ),
        AppError::Configuration => (
            "Internal server error"@,
            "repository not registered"@,
            "INTERNAL_SERVER_ERROR"@,
        ),
        AppError::InternalServerError(m) => (
            "Internal server error"@,
            m@,
            "INTERNAL_SERVER_ERROR"@,
        ),
        AppError::BadRequest(m) => (m@, m@, "APP_UPDATE_REQUIRED"@),
        AppError::Conflict(m) => (m@, "409"@, "CONFLICT"@),
        AppError::Unauthorized(m) => (m@, "401"@, "UNAUTHORIZED"@),
        AppError::Forbidden(m) => (m@, "403"@, "FORBIDDEN"@),
    }
}

fn text(s: &str) -> (r: String)
    ensures
        r@ == s@,
{
    String::from_str(s)
}

impl AppError {
    /// The response body that this error is reported with. A storage failure
    /// is reported without its cause.
    pub fn response_body(&self) -> (r: ErrorBody)
        ensures
            r.error_code == status_of(*self),
            (r.error@, r.pp@, r.pa@) == body_of(*self),
    {
        let (code, error, pp, pa) = match self {
            AppError::Storage(_) => (500u16, text("Database error"), text(""), text("INTERNAL_SERVER_ERROR")),
            AppError::NotFound => (404u16, text("Not found"), text("404"), text("APP_UPDATE_REQUIRED")),
            AppError::TransactionState => (
                500u16,
                text("Internal server error"),
                text("transaction already finished"),
                text("INTERNAL_SERVER_ERROR"),
            ),
            AppError::Configuration => (
                500u16,
                text("Internal server error"),
                text("repository not registered"),
                text("INTERNAL_SERVER_ERROR"),
            ),
            AppError::InternalServerError(m) => (
                500u16,
                text("Internal server error"),
                m.clone(),
                text("INTERNAL_SERVER_ERROR"),
            ),
            AppError::BadRequest(m) => (400u16, m.clone(), m.clone(), text("APP_UPDATE_REQUIRED")),
            AppError::Conflict(m) => (409u16, m.clone(), text("409"), text("CONFLICT")),
            AppError::Unauthorized(m) => (401u16, m.clone(), text("401"), text("UNAUTHORIZED")),
            AppError::Forbidden(m) => (403u16, m.clone(), text("403"), text("FORBIDDEN")),
        };
        ErrorBody { error_code: code, error, pp, pa }
    }
}

} // verus!
