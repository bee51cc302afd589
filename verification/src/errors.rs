//! API errors and the responses they are answered with.

use vstd::prelude::*;

verus! {

/// API errors.
///
/// Each variant holds what the error's answer and its message are made of.
pub enum ApiError {
    /// Database error; `unique_violation` is set when a unique index refused the write.
    Diesel { unique_violation: bool, message: String },
    /// Password hashing error.
    Argon2 { message: String },
    /// Blocking-operation thread error.
    ActixBlocking { message: String },
    /// Database pool error.
    R2d2 { message: String },
    /// Token encoding error.
    Jwt { message: String },
    /// Invalid credentials were given when asking for a token.
    InvalidCredentials {},
    /// The clock gave a time whose expiration date cannot be represented.
    InvalidTimestamp {},
}

/// Body of an error answer.
pub struct ErrorPayload<'a> {
    pub reason: &'a str,
}

/// Status code and body of an error answer.
pub struct ErrorResponse {
    pub status: u16,
    pub payload: ErrorPayload<'static>,
}

/// HTTP status of the answer to `e`.
pub open spec fn status_of(e: ApiError) -> u16 {
    match e {
        ApiError::InvalidCredentials {} => 400,
        ApiError::Diesel { unique_violation, .. } => if unique_violation { 409 } else { 500 },
        _ => 500,
    }
}

/// Reason given in the body of the answer to `e`.
pub open spec fn reason_of(e: ApiError) -> Seq<char> {
    match e {
        ApiError::InvalidCredentials {} => "Invalid credentials"@,
        ApiError::Diesel { unique_violation, .. } => if unique_violation {
            "Resource already exists"@
        } else {
            "Internal server error"@
        },
        _ => "Internal server error"@,
    }
}

/// Whether answering `e` is worth a log line: the errors that nothing but a fault explains.
pub open spec fn is_logged(e: ApiError) -> bool {
    match e {
        ApiError::ActixBlocking { .. } => true,
        ApiError::Argon2 { .. } => true,
        ApiError::R2d2 { .. } => true,
        ApiError::Jwt { .. } => true,
        _ => false,
    }
}

/// Human-readable message of `e`.
pub open spec fn message_of(e: ApiError) -> Seq<char> {
    match e {
        ApiError::Diesel { message, .. } => "Database error: "@ + message@,
        ApiError::Argon2 { message } => "Hashing error: "@ + message@,
        ApiError::ActixBlocking { message } => "Actix blocking operation error: "@ + message@,
        ApiError::R2d2 { message } => "Database pool error: "@ + message@,
        ApiError::Jwt { message } => "JWT error: "@ + message@,
        ApiError::InvalidCredentials {} => "Invalid credentials provided"@,
        ApiError::InvalidTimestamp {} => "Invalid expiration timestamp"@,
    }
}

/// The generic "internal server error" answer.
pub fn generic_ise() -> (r: ErrorResponse)
    ensures
        r.status == 500,
        r.payload.reason@ == "Internal server error"@,
{
    ErrorResponse { status: 500, payload: ErrorPayload { reason: "Internal server error" } }
}

fn prefixed(prefix: &str, message: &String) -> (s: String)
    ensures
        s@ == prefix@ + message@,
{
    let mut s = prefix.to_owned();
    s.append(message.as_str());
    s
}

impl ApiError {
    /// The answer to this error.
    pub fn respond_to(&self) -> (r: ErrorResponse)
        ensures
            r.status == status_of(*self),
            r.payload.reason@ == reason_of(*self),
    {
        match self {
            ApiError::InvalidCredentials {} => ErrorResponse {
                status: 400,
                payload: ErrorPayload { reason: "Invalid credentials" },
            },
            ApiError::Diesel { unique_violation, .. } => {
                if *unique_violation {
                    ErrorResponse {
                        status: 409,
                        payload: ErrorPayload { reason: "Resource already exists" },
                    }
                } else {
                    generic_ise()
                }
            },
            _ => generic_ise(),
        }
    }

    /// Whether answering this error is worth a log line.
    pub fn is_logged(&self) -> (b: bool)
        ensures
            b == is_logged(*self),
    {
        match self {
            ApiError::ActixBlocking { .. } => true,
            ApiError::Argon2 { .. } => true,
            ApiError::R2d2 { .. } => true,
            ApiError::Jwt { .. } => true,
            _ => false,
        }
    }

    /// Human-readable message of this error.
    pub fn to_message(&self) -> (s: String)
        ensures
            s@ == message_of(*self),
    {
        match self {
            ApiError::Diesel { message, .. } => prefixed("Database error: ", message),
            ApiError::Argon2 { message } => prefixed("Hashing error: ", message),
            ApiError::ActixBlocking { message } => prefixed(
                "Actix blocking operation error: ",
                message,
            ),
            ApiError::R2d2 { message } => prefixed("Database pool error: ", message),
            ApiError::Jwt { message } => prefixed("JWT error: ", message),
            ApiError::InvalidCredentials {} => "Invalid credentials provided".to_owned(),
            ApiError::InvalidTimestamp {} => "Invalid expiration timestamp".to_owned(),
        }
    }
}

} // verus!
