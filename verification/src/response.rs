//! What the service answers over HTTP: a status, a message and, on success,
//! the data.

use axum::http::StatusCode;
use vstd::prelude::*;

verus! {

/// The status of a success.
pub const OK: u16 = 200;

/// The status of a request without valid credentials.
pub const UNAUTHORIZED: u16 = 401;

/// The status of a request for what is not there.
pub const NOT_FOUND: u16 = 404;

/// The status of a request that clashes with what is there.
pub const CONFLICT: u16 = 409;

/// The status of a request whose body fails validation.
pub const UNPROCESSABLE_ENTITY: u16 = 422;

/// The status of a failure on the server's side.
pub const INTERNAL_SERVER_ERROR: u16 = 500;

/// The body of every answer.
#[derive(Debug)]
pub struct ApiBody<T> {
    pub code: u16,
    pub message: String,
    pub data: Option<T>,
}

/// The answers that the service gives.
#[derive(Debug)]
pub enum ApiResponse<T> {
    Success(T),
    UnprocessableEntity(String),
    InternalServerError,
    Conflict(String),
    NotFound,
    Unauthorized(String),
}

/// The standard phrase of the three statuses that answer without a message
/// of their own.
pub open spec fn reason_phrase(code: u16) -> Seq<char> {
    if code == OK {
        "OK"@
    } else if code == NOT_FOUND {
        "Not Found"@
    } else {
        "Internal Server Error"@
    }
}

/// Looks the phrase up with `StatusCode::canonical_reason`, after
/// `StatusCode::from_u16`. The contract gives three lines of that table:
/// 200, 404 and 500.
#[verifier::external_body]
fn canonical_reason(code: u16) -> (r: String)
    requires
        code == OK || code == NOT_FOUND || code == INTERNAL_SERVER_ERROR,
    ensures
        r@ == reason_phrase(code),
{
    match StatusCode::from_u16(code) {
        Ok(status) => status.canonical_reason().unwrap_or(status.as_str()).to_owned(),
        Err(_) => String::new(),
    }
}

impl<T> ApiResponse<T> {
    /// The HTTP status of the answer.
    pub open spec fn status(&self) -> u16 {
        match self {
            ApiResponse::Success(_) => OK,
            ApiResponse::UnprocessableEntity(_) => UNPROCESSABLE_ENTITY,
            ApiResponse::InternalServerError => INTERNAL_SERVER_ERROR,
            ApiResponse::Conflict(_) => CONFLICT,
            ApiResponse::NotFound => NOT_FOUND,
            ApiResponse::Unauthorized(_) => UNAUTHORIZED,
        }
    }

    /// The message of the answer: its own where it carries one, the
    /// standard phrase of its status where it does not.
    pub open spec fn message_text(&self) -> Seq<char> {
        match self {
            ApiResponse::UnprocessableEntity(message) => message@,
            ApiResponse::Conflict(message) => message@,
            ApiResponse::Unauthorized(message) => message@,
            _ => reason_phrase(self.status()),
        }
    }

    /// The data of the answer, which only a success has.
    pub open spec fn payload(self) -> Option<T> {
        match self {
            ApiResponse::Success(data) => Some(data),
            _ => None,
        }
    }

    /// The HTTP status of the answer.
    pub fn status_code(&self) -> (r: u16)
        ensures
            r == self.status(),
    {
        match self {
            ApiResponse::Success(_) => OK,
            ApiResponse::UnprocessableEntity(_) => UNPROCESSABLE_ENTITY,
            ApiResponse::InternalServerError => INTERNAL_SERVER_ERROR,
            ApiResponse::Conflict(_) => CONFLICT,
            ApiResponse::NotFound => NOT_FOUND,
            ApiResponse::Unauthorized(_) => UNAUTHORIZED,
        }
    }

    /// The body that goes out for the answer.
    pub fn into_body(self) -> (r: ApiBody<T>)
        ensures
            r.code == self.status(),
            r.message@ == self.message_text(),
            r.data == self.payload(),
    {
        match self {
            ApiResponse::Success(data) => ApiBody {
                code: OK,
                message: canonical_reason(OK),
                data: Some(data),
            },
            ApiResponse::UnprocessableEntity(message) => ApiBody {
                code: UNPROCESSABLE_ENTITY,
                message,
                data: None,
            },
            ApiResponse::InternalServerError => ApiBody {
                code: INTERNAL_SERVER_ERROR,
                message: canonical_reason(INTERNAL_SERVER_ERROR),
                data: None,
            },
            ApiResponse::NotFound => ApiBody {
                code: NOT_FOUND,
                message: canonical_reason(NOT_FOUND),
                data: None,
            },
            ApiResponse::Unauthorized(message) => ApiBody {
                code: UNAUTHORIZED,
                message,
                data: None,
            },
            ApiResponse::Conflict(message) => ApiBody { code: CONFLICT, message, data: None },
        }
    }
}

} // verus!
