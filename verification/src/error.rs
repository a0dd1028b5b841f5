//! The errors of the platform, with the HTTP status and the text of each.
use vstd::prelude::*;

verus! {

/// An error of the platform. Each carries its message; the Redis variant
/// carries the text of the client's error.
#[derive(Debug, Clone)]
pub enum AppError {
    Database(String),
    Nats(String),
    Redis(String),
    Validation(String),
    BadRequest(String),
    Unauthorized(String),
    Authentication(String),
    Forbidden(String),
    Authorization(String),
    NotFound(String),
    Internal(String),
    ExternalService(String),
}

/// The HTTP status of an error: 500 for the database, NATS, Redis and
/// internal errors, 400 for validation and bad requests, 401 for missing or
/// failed authentication, 403 for refused access, 404 for what is not found,
/// 502 for failing outside services.
pub open spec fn status_of(e: AppError) -> u16 {
    match e {
        AppError::Database(_) => 500,
        AppError::Nats(_) => 500,
        AppError::Redis(_) => 500,
        AppError::Validation(_) => 400,
        AppError::BadRequest(_) => 400,
        AppError::Unauthorized(_) => 401,
        AppError::Authentication(_) => 401,
        AppError::Forbidden(_) => 403,
        AppError::Authorization(_) => 403,
        AppError::NotFound(_) => 404,
        AppError::Internal(_) => 500,
        AppError::ExternalService(_) => 502,
    }
}

/// The message an error carries.
pub open spec fn message_of(e: AppError) -> Seq<char> {
    match e {
        AppError::Database(m) => m@,
        AppError::Nats(m) => m@,
        AppError::Redis(m) => m@,
        AppError::Validation(m) => m@,
        AppError::BadRequest(m) => m@,
        AppError::Unauthorized(m) => m@,
        AppError::Authentication(m) => m@,
        AppError::Forbidden(m) => m@,
        AppError::Authorization(m) => m@,
        AppError::NotFound(m) => m@,
        AppError::Internal(m) => m@,
        AppError::ExternalService(m) => m@,
    }
}

/// The prefix of an error's text.
pub open spec fn prefix_of(e: AppError) -> Seq<char> {
    match e {
        AppError::Database(_) => "Database error: "@,
        AppError::Nats(_) => "NATS error: "@,
        AppError::Redis(_) => "Redis error: "@,
        AppError::Validation(_) => "Validation error: "@,
        AppError::BadRequest(_) => "Bad request: "@,
        AppError::Unauthorized(_) => "Unauthorized: "@,
        AppError::Authentication(_) => "Authentication error: "@,
        AppError::Forbidden(_) => "Forbidden: "@,
        AppError::Authorization(_) => "Authorization error: "@,
        AppError::NotFound(_) => "NotFound: "@,
        AppError::Internal(_) => "Internal error: "@,
        AppError::ExternalService(_) => "External service error: "@,
    }
}

impl AppError {
    /// The HTTP status that answers the error.
    pub fn status_code(&self) -> (r: u16)
        ensures
            r == status_of(*self),
    {
        match self {
            AppError::Database(_) => 500,
            AppError::Nats(_) => 500,
            AppError::Redis(_) => 500,
            AppError::Validation(_) => 400,
            AppError::BadRequest(_) => 400,
            AppError::Unauthorized(_) => 401,
            AppError::Authentication(_) => 401,
            AppError::Forbidden(_) => 403,
            AppError::Authorization(_) => 403,
            AppError::NotFound(_) => 404,
            AppError::Internal(_) => 500,
            AppError::ExternalService(_) => 502,
        }
    }

    /// The message of the error, as the response body carries it.
    pub fn message(&self) -> (r: String)
        ensures
            r@ == message_of(*self),
    {
        match self {
            AppError::Database(m) => m.clone(),
            AppError::Nats(m) => m.clone(),
            AppError::Redis(m) => m.clone(),
            AppError::Validation(m) => m.clone(),
            AppError::BadRequest(m) => m.clone(),
            AppError::Unauthorized(m) => m.clone(),
            AppError::Authentication(m) => m.clone(),
            AppError::Forbidden(m) => m.clone(),
            AppError::Authorization(m) => m.clone(),
            AppError::NotFound(m) => m.clone(),
            AppError::Internal(m) => m.clone(),
            AppError::ExternalService(m) => m.clone(),
        }
    }

    /// The text of the error: its kind, then its message.
    pub fn to_text(&self) -> (r: String)
        ensures
            r@ == prefix_of(*self) + message_of(*self),
    {
        let mut s = match self {
            AppError::Database(_) => String::from_str("Database error: "),
            AppError::Nats(_) => String::from_str("NATS error: "),
            AppError::Redis(_) => String::from_str("Redis error: "),
            AppError::Validation(_) => String::from_str("Validation error: "),
            AppError::BadRequest(_) => String::from_str("Bad request: "),
            AppError::Unauthorized(_) => String::from_str("Unauthorized: "),
            AppError::Authentication(_) => String::from_str("Authentication error: "),
            AppError::Forbidden(_) => String::from_str("Forbidden: "),
            AppError::Authorization(_) => String::from_str("Authorization error: "),
            AppError::NotFound(_) => String::from_str("NotFound: "),
            AppError::Internal(_) => String::from_str("Internal error: "),
            AppError::ExternalService(_) => String::from_str("External service error: "),
        };
        let m = self.message();
        s.append(m.as_str());
        s
    }
}

/// Every error is answered with a client error (4xx) or a server error (5xx),
/// and only errors of the request (validation, bad request, authentication,
/// access, not found) with a client error.
pub proof fn lemma_status_classes(e: AppError)
    ensures
        400 <= status_of(e) < 600,
        status_of(e) < 500 <==> (e is Validation || e is BadRequest || e is Unauthorized || e is Authentication
            || e is Forbidden || e is Authorization || e is NotFound),
{
}

} // verus!
