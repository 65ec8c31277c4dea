//! Error taxonomy: what went wrong inside, and what a caller at the API
//! boundary is told.

use crate::text::join2;
use vstd::prelude::*;

verus! {

/// A fatal configuration fault, found once at start-up.
#[derive(Debug, Clone, Copy, PartialEq, Eq, Structural)]
pub enum ConfigError {
    /// No signing secret was configured.
    MissingSecret,
    /// The signing secret is shorter than 32 bytes.
    WeakSecret,
}

/// Why an authorization step failed. Only `Unauthorized` and `Conflict` are
/// meant for a caller's eyes; the others are kept for the log.
#[derive(Debug, Clone, Copy, PartialEq, Eq, Structural)]
pub enum AuthError {
    InvalidSignature,
    Expired,
    WrongKind,
    Unauthorized,
    Conflict,
}

/// A storage operation that could not be carried out.
#[derive(Debug, Clone, Copy, PartialEq, Eq, Structural)]
pub enum StorageError {
    /// No further surrogate key can be handed out.
    KeysExhausted,
    /// A record with the same unique value is already present.
    Duplicate,
}

/// The error of a request handler, with the detail that is logged.
#[derive(Debug, Clone, PartialEq, Eq)]
pub enum AppError {
    /// The database failed.
    Db(String),
    /// A body was no valid JSON.
    Json(String),
    /// The caller is not authorized; the text says why, for the log.
    AuthError(String),
    /// A storage operation could not be carried out.
    DatabaseError(String),
    /// What was to be created is there already.
    Conflict(String),
    /// The named input field is missing or out of range.
    Validation(String),
}

/// `AppError` with its texts as sequences of characters.
pub enum AppErrorView {
    Db(Seq<char>),
    Json(Seq<char>),
    AuthError(Seq<char>),
    DatabaseError(Seq<char>),
    Conflict(Seq<char>),
    Validation(Seq<char>),
}

impl View for AppError {
    type V = AppErrorView;

    open spec fn view(&self) -> AppErrorView {
        match self {
            AppError::Db(detail) => AppErrorView::Db(detail@),
            AppError::Json(detail) => AppErrorView::Json(detail@),
            AppError::AuthError(detail) => AppErrorView::AuthError(detail@),
            AppError::DatabaseError(detail) => AppErrorView::DatabaseError(detail@),
            AppError::Conflict(detail) => AppErrorView::Conflict(detail@),
            AppError::Validation(detail) => AppErrorView::Validation(detail@),
        }
    }
}

/// The HTTP status that stands for an error at the API boundary.
pub open spec fn status_of(error: AppErrorView) -> int {
    match error {
        AppErrorView::Db(_) => 500,
        AppErrorView::Json(_) => 400,
        AppErrorView::AuthError(_) => 401,
        AppErrorView::DatabaseError(_) => 500,
        AppErrorView::Conflict(_) => 409,
        AppErrorView::Validation(_) => 422,
    }
}

/// The text a caller is shown. Authorization failures all read the same,
/// whatever check failed; storage failures carry no detail.
pub open spec fn public_message_of(error: AppErrorView) -> Seq<char> {
    match error {
        AppErrorView::Db(_) => "database errors"@,
        AppErrorView::Json(_) => "json errors"@,
        AppErrorView::AuthError(_) => "Unauthorized"@,
        AppErrorView::DatabaseError(_) => "database errors"@,
        AppErrorView::Conflict(detail) => detail,
        AppErrorView::Validation(field) => "invalid field: "@ + field,
    }
}

/// The line written to the log for an error.
pub open spec fn log_line_of(error: AppErrorView) -> Seq<char> {
    match error {
        AppErrorView::Db(detail) => "Database errors: "@ + detail,
        AppErrorView::Json(detail) => "JSON errors: "@ + detail,
        AppErrorView::AuthError(detail) => "Authentication errors: "@ + detail,
        AppErrorView::DatabaseError(detail) => "Database operation errors: "@ + detail,
        AppErrorView::Conflict(detail) => "Conflict: "@ + detail,
        AppErrorView::Validation(field) => "Validation errors: "@ + field,
    }
}

impl AppError {
    /// Status code and body text of the response that reports this error.
    pub fn into_response(&self) -> (response: (u16, String))
        ensures
            response.0 as int == status_of(self@),
            response.1@ == public_message_of(self@),
    {
        match self {
            AppError::Db(_) => (500, String::from_str("database errors")),
            AppError::Json(_) => (400, String::from_str("json errors")),
            AppError::AuthError(_) => (401, String::from_str("Unauthorized")),
            AppError::DatabaseError(_) => (500, String::from_str("database errors")),
            AppError::Conflict(detail) => (409, detail.clone()),
            AppError::Validation(field) => (422, join2("invalid field: ", field.as_str())),
        }
    }

    /// The line for the log, with the detail that the response leaves out.
    pub fn to_string(&self) -> (line: String)
        ensures
            line@ == log_line_of(self@),
    {
        match self {
            AppError::Db(detail) => join2("Database errors: ", detail.as_str()),
            AppError::Json(detail) => join2("JSON errors: ", detail.as_str()),
            AppError::AuthError(detail) => join2("Authentication errors: ", detail.as_str()),
            AppError::DatabaseError(detail) => join2(
                "Database operation errors: ",
                detail.as_str(),
            ),
            AppError::Conflict(detail) => join2("Conflict: ", detail.as_str()),
            AppError::Validation(field) => join2("Validation errors: ", field.as_str()),
        }
    }

    /// The handler error that stands for an authorization failure.
    pub fn from_auth(error: AuthError) -> (app: AppError)
        ensures
            app@ == app_error_of_auth(error),
    {
        match error {
            AuthError::InvalidSignature => AppError::AuthError(String::from_str("Invalid token")),
            AuthError::Expired => AppError::AuthError(String::from_str("Token expired")),
            AuthError::WrongKind => AppError::AuthError(String::from_str("Invalid token type")),
            AuthError::Unauthorized => AppError::AuthError(String::from_str("Unauthorized")),
            AuthError::Conflict => AppError::Conflict(String::from_str("Username already exists")),
        }
    }
}

/// The handler error that stands for an authorization failure.
pub open spec fn app_error_of_auth(error: AuthError) -> AppErrorView {
    match error {
        AuthError::InvalidSignature => AppErrorView::AuthError("Invalid token"@),
        AuthError::Expired => AppErrorView::AuthError("Token expired"@),
        AuthError::WrongKind => AppErrorView::AuthError("Invalid token type"@),
        AuthError::Unauthorized => AppErrorView::AuthError("Unauthorized"@),
        AuthError::Conflict => AppErrorView::Conflict("Username already exists"@),
    }
}

/// Whatever the authorization failure, short of a conflict, the response is
/// the same: status 401 and one fixed text.
pub proof fn lemma_auth_failures_look_alike(first: AuthError, second: AuthError)
    requires
        first != AuthError::Conflict,
        second != AuthError::Conflict,
    ensures
        status_of(app_error_of_auth(first)) == status_of(app_error_of_auth(second)),
        public_message_of(app_error_of_auth(first)) == public_message_of(
            app_error_of_auth(second),
        ),
{
}

} // verus!
