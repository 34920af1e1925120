use vstd::prelude::*;

verus! {

/// Broad classification of an error, deciding the HTTP class a caller sees.
#[derive(Clone, Copy, Debug, PartialEq, Eq, Structural)]
pub enum AppErrorType {
    DbError,
    HostError,
    CritError,
    AuthError,
    UserError,
}

/// A caller-facing error: an HTTP status class, a stable machine-readable
/// code, and an optional human message.
#[derive(Clone, Debug)]
pub struct AppError {
    pub status_code: u16,
    pub error_code: String,
    pub message: Option<String>,
    pub error_type: AppErrorType,
}

impl AppError {
    /// An error of the store/database kind (not-found and query failures).
    pub fn db_error(status_code: u16, error_code: &str, message: Option<String>) -> (r: AppError)
        ensures
            r.status_code == status_code,
            r.error_code@ == error_code@,
            r.message == message,
            r.error_type == AppErrorType::DbError,
    {
        AppError {
            status_code,
            error_code: error_code.to_owned(),
            message,
            error_type: AppErrorType::DbError,
        }
    }

    /// A validation or uniqueness error on user-supplied input.
    pub fn user_error(status_code: u16, error_code: &str, message: Option<String>) -> (r: AppError)
        ensures
            r.status_code == status_code,
            r.error_code@ == error_code@,
            r.message == message,
            r.error_type == AppErrorType::UserError,
    {
        AppError {
            status_code,
            error_code: error_code.to_owned(),
            message,
            error_type: AppErrorType::UserError,
        }
    }

    /// An authentication failure: invalid, expired or replayed credentials.
    pub fn auth_error(status_code: u16, error_code: &str, message: Option<String>) -> (r: AppError)
        ensures
            r.status_code == status_code,
            r.error_code@ == error_code@,
            r.message == message,
            r.error_type == AppErrorType::AuthError,
    {
        AppError {
            status_code,
            error_code: error_code.to_owned(),
            message,
            error_type: AppErrorType::AuthError,
        }
    }

    /// A fatal, non-recoverable error; always surfaced with status 500.
    pub fn crit_error(error_code: &str, message: Option<String>) -> (r: AppError)
        ensures
            r.status_code == 500,
            r.error_code@ == error_code@,
            r.message == message,
            r.error_type == AppErrorType::CritError,
    {
        AppError {
            status_code: 500,
            error_code: error_code.to_owned(),
            message,
            error_type: AppErrorType::CritError,
        }
    }
}

} // verus!
