//! Mapping of tagged errors to wire responses.
//!
//! Every component's error enum maps to tagged response data: an HTTP
//! status, a server-side description for the log, and a client-safe code.
//! One central function turns that data into the response body; internal
//! faults carry a fresh correlation identifier so support can match a
//! response to its log line without leaking internals, while client-input
//! and authentication-denial responses are fully deterministic.

use vstd::prelude::*;

use crate::auth::{AuthorizateError, RegisterError};
use crate::codec::{dec_digits, u128_to_dec};
use crate::oauth::{AuthorizedError, GoogleError};
use crate::session::SessionContextError;
use crate::validator::ValidatedJsonError;

verus! {

/// The client-safe code of every internal fault.
pub const INTERNAL_SERVER_ERROR_STR: &'static str = "InternalServerError";

/// What an error means on the wire: status, log description, client code.
pub struct ApiErrorData {
    pub status_code: u16,
    pub description: String,
    pub client_description: String,
}

/// The body of an error response.
pub struct ErrorResponseData {
    /// The client-safe machine-readable code.
    pub kind: String,
    /// The correlation identifier, present exactly on internal faults.
    pub uuid: Option<String>,
}

/// An error response as sent to the client.
pub struct ErrorResponse {
    pub error: ErrorResponseData,
}

/// Turn tagged error data into the response: the status is kept, the body
/// carries the client code, and a correlation identifier is attached to
/// internal faults alone, so that authentication denials stay deterministic.
pub fn api_error_to_response(error: ApiErrorData, correlation_id: u128) -> (r: (
    u16,
    ErrorResponse,
))
    ensures
        r.0 == error.status_code,
        r.1.error.kind@ == error.client_description@,
        error.status_code == 500 ==> (r.1.error.uuid matches Some(u) && u@ == dec_digits(
            correlation_id as nat,
        )),
        error.status_code != 500 ==> r.1.error.uuid is None,
{
    let uuid = if error.status_code == 500 {
        Some(u128_to_dec(correlation_id))
    } else {
        None
    };
    (error.status_code, ErrorResponse { error: ErrorResponseData { kind: error.client_description, uuid } })
}

/// Status, log description and client code of an authentication failure.
/// The two denials share the one client-facing pair.
pub open spec fn authorizate_error_view(e: AuthorizateError) -> (u16, Seq<char>, Seq<char>) {
    match e {
        AuthorizateError::AccountNotExists => (
            400u16,
            "the account does not exist"@,
            "InvalidEmailOrPassword"@,
        ),
        AuthorizateError::InvalidPassword => (
            400u16,
            "invalid password"@,
            "InvalidEmailOrPassword"@,
        ),
        AuthorizateError::PasswordHashError(_) => (
            500u16,
            "password error"@,
            INTERNAL_SERVER_ERROR_STR@,
        ),
        AuthorizateError::Db => (500u16, "db error"@, INTERNAL_SERVER_ERROR_STR@),
        AuthorizateError::RedisError => (500u16, "redis error"@, INTERNAL_SERVER_ERROR_STR@),
    }
}

impl AuthorizateError {
    /// The wire data for this failure.
    pub fn api_error_data(&self) -> (r: ApiErrorData)
        ensures
            r.status_code == authorizate_error_view(*self).0,
            r.description@ == authorizate_error_view(*self).1,
            r.client_description@ == authorizate_error_view(*self).2,
    {
        match self {
            AuthorizateError::AccountNotExists => make_data(
                400,
                "the account does not exist",
                "InvalidEmailOrPassword",
            ),
            AuthorizateError::InvalidPassword => make_data(
                400,
                "invalid password",
                "InvalidEmailOrPassword",
            ),
            AuthorizateError::PasswordHashError(_) => make_data(
                500,
                "password error",
                INTERNAL_SERVER_ERROR_STR,
            ),
            AuthorizateError::Db => make_data(500, "db error", INTERNAL_SERVER_ERROR_STR),
            AuthorizateError::RedisError => make_data(500, "redis error", INTERNAL_SERVER_ERROR_STR),
        }
    }
}

/// Status, log description and client code of a registration failure.
pub open spec fn register_error_view(e: RegisterError) -> (u16, Seq<char>, Seq<char>) {
    match e {
        RegisterError::AccountWithSameEmailAlreadyExists => (
            400u16,
            "account with the same email already exists"@,
            "AccountWithSameEmailAlreadyExists"@,
        ),
        RegisterError::Db => (500u16, "db error"@, INTERNAL_SERVER_ERROR_STR@),
        RegisterError::PasswordHash(_) => (500u16, "password error"@, INTERNAL_SERVER_ERROR_STR@),
        RegisterError::Redis => (500u16, "redis error"@, INTERNAL_SERVER_ERROR_STR@),
    }
}

impl RegisterError {
    /// The wire data for this failure.
    pub fn api_error_data(&self) -> (r: ApiErrorData)
        ensures
            r.status_code == register_error_view(*self).0,
            r.description@ == register_error_view(*self).1,
            r.client_description@ == register_error_view(*self).2,
    {
        match self {
            RegisterError::AccountWithSameEmailAlreadyExists => make_data(
                400,
                "account with the same email already exists",
                "AccountWithSameEmailAlreadyExists",
            ),
            RegisterError::Db => make_data(500, "db error", INTERNAL_SERVER_ERROR_STR),
            RegisterError::PasswordHash(_) => make_data(
                500,
                "password error",
                INTERNAL_SERVER_ERROR_STR,
            ),
            RegisterError::Redis => make_data(500, "redis error", INTERNAL_SERVER_ERROR_STR),
        }
    }
}

/// Status, log description and client code of a session-resolution failure.
/// Both denials are the 401-equivalent; they deny the request, never the
/// process.
pub open spec fn session_error_view(e: SessionContextError) -> (u16, Seq<char>, Seq<char>) {
    match e {
        SessionContextError::AuthFailNoSessionToken => (
            401u16,
            "request should have the session token cookie"@,
            "Unauthenticated"@,
        ),
        SessionContextError::AuthFailInvalidSessionToken => (
            401u16,
            "invalid/expired session token"@,
            "Unauthenticated"@,
        ),
        SessionContextError::UuidError => (500u16, "uuid error"@, INTERNAL_SERVER_ERROR_STR@),
        SessionContextError::RedisError => (500u16, "redis error"@, INTERNAL_SERVER_ERROR_STR@),
    }
}

impl SessionContextError {
    /// The wire data for this failure.
    pub fn api_error_data(&self) -> (r: ApiErrorData)
        ensures
            r.status_code == session_error_view(*self).0,
            r.description@ == session_error_view(*self).1,
            r.client_description@ == session_error_view(*self).2,
    {
        match self {
            SessionContextError::AuthFailNoSessionToken => make_data(
                401,
                "request should have the session token cookie",
                "Unauthenticated",
            ),
            SessionContextError::AuthFailInvalidSessionToken => make_data(
                401,
                "invalid/expired session token",
                "Unauthenticated",
            ),
            SessionContextError::UuidError => make_data(500, "uuid error", INTERNAL_SERVER_ERROR_STR),
            SessionContextError::RedisError => make_data(
                500,
                "redis error",
                INTERNAL_SERVER_ERROR_STR,
            ),
        }
    }
}

/// Status, log description and client code of a callback failure.  The
/// consumed-state failure is terminal for the flow and told to the client;
/// provider and store failures are internal.
pub open spec fn authorized_error_view(e: AuthorizedError) -> (u16, Seq<char>, Seq<char>) {
    match e {
        AuthorizedError::InvalidOrExpiredState => (
            400u16,
            "invalid or expired state"@,
            "InvalidOrExpiredState"@,
        ),
        AuthorizedError::RedisError => (500u16, "redis error"@, INTERNAL_SERVER_ERROR_STR@),
        AuthorizedError::RequestTokenError => (
            500u16,
            "request token error"@,
            INTERNAL_SERVER_ERROR_STR@,
        ),
        AuthorizedError::Reqwest => (500u16, "reqwest error"@, INTERNAL_SERVER_ERROR_STR@),
        AuthorizedError::FailedToRevokeToken => (
            500u16,
            "failed to revoke token"@,
            INTERNAL_SERVER_ERROR_STR@,
        ),
        AuthorizedError::Db => (500u16, "db error"@, INTERNAL_SERVER_ERROR_STR@),
    }
}

impl AuthorizedError {
    /// The wire data for this failure.
    pub fn api_error_data(&self) -> (r: ApiErrorData)
        ensures
            r.status_code == authorized_error_view(*self).0,
            r.description@ == authorized_error_view(*self).1,
            r.client_description@ == authorized_error_view(*self).2,
    {
        match self {
            AuthorizedError::InvalidOrExpiredState => make_data(
                400,
                "invalid or expired state",
                "InvalidOrExpiredState",
            ),
            AuthorizedError::RedisError => make_data(500, "redis error", INTERNAL_SERVER_ERROR_STR),
            AuthorizedError::RequestTokenError => make_data(
                500,
                "request token error",
                INTERNAL_SERVER_ERROR_STR,
            ),
            AuthorizedError::Reqwest => make_data(500, "reqwest error", INTERNAL_SERVER_ERROR_STR),
            AuthorizedError::FailedToRevokeToken => make_data(
                500,
                "failed to revoke token",
                INTERNAL_SERVER_ERROR_STR,
            ),
            AuthorizedError::Db => make_data(500, "db error", INTERNAL_SERVER_ERROR_STR),
        }
    }
}

/// Status, log description and client code of an initiation failure.
pub open spec fn google_error_view(e: GoogleError) -> (u16, Seq<char>, Seq<char>) {
    match e {
        GoogleError::RedisError => (500u16, "redis error"@, INTERNAL_SERVER_ERROR_STR@),
    }
}

impl GoogleError {
    /// The wire data for this failure.
    pub fn api_error_data(&self) -> (r: ApiErrorData)
        ensures
            r.status_code == google_error_view(*self).0,
            r.description@ == google_error_view(*self).1,
            r.client_description@ == google_error_view(*self).2,
    {
        match self {
            GoogleError::RedisError => make_data(500, "redis error", INTERNAL_SERVER_ERROR_STR),
        }
    }
}

/// Status, log description and client code of a payload rejection.
pub open spec fn validated_json_error_view(e: ValidatedJsonError) -> (u16, Seq<char>, Seq<char>) {
    match e {
        ValidatedJsonError::JsonRejection => (400u16, "json rejection"@, "JsonRejection"@),
        ValidatedJsonError::ValidationError => (400u16, "validation error"@, "ValidationError"@),
    }
}

impl ValidatedJsonError {
    /// The wire data for this failure.
    pub fn api_error_data(&self) -> (r: ApiErrorData)
        ensures
            r.status_code == validated_json_error_view(*self).0,
            r.description@ == validated_json_error_view(*self).1,
            r.client_description@ == validated_json_error_view(*self).2,
    {
        match self {
            ValidatedJsonError::JsonRejection => make_data(400, "json rejection", "JsonRejection"),
            ValidatedJsonError::ValidationError => make_data(
                400,
                "validation error",
                "ValidationError",
            ),
        }
    }
}

/// Assemble one tagged wire datum.
fn make_data(status_code: u16, description: &'static str, client_description: &'static str) -> (r:
    ApiErrorData)
    ensures
        r.status_code == status_code,
        r.description@ == description@,
        r.client_description@ == client_description@,
{
    ApiErrorData {
        status_code,
        description: description.to_owned(),
        client_description: client_description.to_owned(),
    }
}

/// Enumeration resistance: an unknown account and a wrong password map to
/// one and the same status and client-facing code — and, both being
/// 400-class, to responses without a correlation identifier — so the two
/// causes are indistinguishable to the client.
pub proof fn lemma_enumeration_resistance()
    ensures
        authorizate_error_view(AuthorizateError::AccountNotExists).0 == authorizate_error_view(
            AuthorizateError::InvalidPassword,
        ).0,
        authorizate_error_view(AuthorizateError::AccountNotExists).2 == authorizate_error_view(
            AuthorizateError::InvalidPassword,
        ).2,
        authorizate_error_view(AuthorizateError::AccountNotExists).0 == 400,
{
}

} // verus!
