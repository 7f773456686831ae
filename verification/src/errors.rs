//! Errors surfaced by the HTTP API: codes, status numbers and messages.

use vstd::prelude::*;
use vstd::string::*;
use crate::text::{decimal, push_decimal};

verus! {

/// Machine-readable error codes.
#[derive(Debug, Clone, Copy, PartialEq, Eq, Hash, Structural)]
pub enum ErrorCode {
    ContainsNullValues,
    ContentTooLarge,
    EmailLimitExceeded,
    Forbidden,
    IllegalAssetTransformation,
    Internal,
    InvalidCredentials,
    InvalidForeignKey,
    InvalidIp,
    InvalidOtp,
    InvalidPayload,
    InvalidPathParameter,
    InvalidProvider,
    InvalidProviderConfig,
    InvalidQuery,
    InvalidToken,
    LimitExceeded,
    MethodNotAllowed,
    NotNullViolation,
    OutOfDate,
    RangeNotSatisfiable,
    RecordNotUnique,
    RequestsExceeded,
    RouteNotFound,
    ServiceUnavailable,
    TokenExpired,
    UnexpectedResponse,
    UnprocessableContent,
    UnsupportedMediaType,
    UserSuspended,
    ValueOutOfRange,
    ValueTooLong,
}

/// The error type of the API.
#[derive(Debug, Clone)]
pub enum NexusError {
    ContainsNullValues { collection: String, field: String },
    ContentTooLarge,
    EmailLimitExceeded { points: Option<u64>, duration: Option<u64>, message: Option<String> },
    Forbidden { reason: Option<String> },
    IllegalAssetTransformation { invalid_transformations: Vec<String> },
    Internal,
    InvalidCredentials,
    InvalidForeignKey { collection: Option<String>, field: Option<String>, value: Option<String> },
    InvalidIp,
    InvalidOtp,
    InvalidPayload { reason: String },
    InvalidPathParameter { reason: String },
    InvalidProvider,
    InvalidProviderConfig { provider: String, reason: Option<String> },
    InvalidQuery { reason: String },
    InvalidToken,
    LimitExceeded { category: String },
    MethodNotAllowed { allowed: Vec<String>, current: String },
    NotNullViolation { collection: Option<String>, field: Option<String> },
    OutOfDate,
    RangeNotSatisfiable { start: Option<u64>, end: Option<u64> },
    RecordNotUnique { collection: Option<String>, field: Option<String>, value: Option<String> },
    RequestsExceeded { limit: u64, reset: String, ms: u64 },
    RouteNotFound { path: String },
    ServiceUnavailable { service: String, reason: String },
    TokenExpired,
    UnexpectedResponse,
    UnprocessableContent { reason: String },
    UnsupportedMediaType { media_type: String, location: String },
    UserSuspended,
    ValueOutOfRange { collection: Option<String>, field: Option<String>, value: Option<String> },
    ValueTooLong { collection: Option<String>, field: Option<String>, value: Option<String> },
}

/// The code that belongs to each error variant.
pub open spec fn spec_code(e: NexusError) -> ErrorCode {
    match e {
        NexusError::ContainsNullValues { .. } => ErrorCode::ContainsNullValues,
        NexusError::ContentTooLarge => ErrorCode::ContentTooLarge,
        NexusError::EmailLimitExceeded { .. } => ErrorCode::EmailLimitExceeded,
        NexusError::Forbidden { .. } => ErrorCode::Forbidden,
        NexusError::IllegalAssetTransformation { .. } => ErrorCode::IllegalAssetTransformation,
        NexusError::Internal => ErrorCode::Internal,
        NexusError::InvalidCredentials => ErrorCode::InvalidCredentials,
        NexusError::InvalidForeignKey { .. } => ErrorCode::InvalidForeignKey,
        NexusError::InvalidIp => ErrorCode::InvalidIp,
        NexusError::InvalidOtp => ErrorCode::InvalidOtp,
        NexusError::InvalidPayload { .. } => ErrorCode::InvalidPayload,
        NexusError::InvalidPathParameter { .. } => ErrorCode::InvalidPathParameter,
        NexusError::InvalidProvider => ErrorCode::InvalidProvider,
        NexusError::InvalidProviderConfig { .. } => ErrorCode::InvalidProviderConfig,
        NexusError::InvalidQuery { .. } => ErrorCode::InvalidQuery,
        NexusError::InvalidToken => ErrorCode::InvalidToken,
        NexusError::LimitExceeded { .. } => ErrorCode::LimitExceeded,
        NexusError::MethodNotAllowed { .. } => ErrorCode::MethodNotAllowed,
        NexusError::NotNullViolation { .. } => ErrorCode::NotNullViolation,
        NexusError::OutOfDate => ErrorCode::OutOfDate,
        NexusError::RangeNotSatisfiable { .. } => ErrorCode::RangeNotSatisfiable,
        NexusError::RecordNotUnique { .. } => ErrorCode::RecordNotUnique,
        NexusError::RequestsExceeded { .. } => ErrorCode::RequestsExceeded,
        NexusError::RouteNotFound { .. } => ErrorCode::RouteNotFound,
        NexusError::ServiceUnavailable { .. } => ErrorCode::ServiceUnavailable,
        NexusError::TokenExpired => ErrorCode::TokenExpired,
        NexusError::UnexpectedResponse => ErrorCode::UnexpectedResponse,
        NexusError::UnprocessableContent { .. } => ErrorCode::UnprocessableContent,
        NexusError::UnsupportedMediaType { .. } => ErrorCode::UnsupportedMediaType,
        NexusError::UserSuspended => ErrorCode::UserSuspended,
        NexusError::ValueOutOfRange { .. } => ErrorCode::ValueOutOfRange,
        NexusError::ValueTooLong { .. } => ErrorCode::ValueTooLong,
    }
}

/// The HTTP status number of each error code.
pub open spec fn spec_status(c: ErrorCode) -> u16 {
    match c {
        ErrorCode::ContainsNullValues => 400,
        ErrorCode::ContentTooLarge => 413,
        ErrorCode::EmailLimitExceeded => 429,
        ErrorCode::Forbidden => 403,
        ErrorCode::IllegalAssetTransformation => 400,
        ErrorCode::Internal => 500,
        ErrorCode::InvalidCredentials => 401,
        ErrorCode::InvalidForeignKey => 400,
        ErrorCode::InvalidIp => 401,
        ErrorCode::InvalidOtp => 401,
        ErrorCode::InvalidPayload => 400,
        ErrorCode::InvalidPathParameter => 400,
        ErrorCode::InvalidProvider => 403,
        ErrorCode::InvalidProviderConfig => 503,
        ErrorCode::InvalidQuery => 400,
        ErrorCode::InvalidToken => 403,
        ErrorCode::LimitExceeded => 403,
        ErrorCode::MethodNotAllowed => 405,
        ErrorCode::NotNullViolation => 400,
        ErrorCode::OutOfDate => 503,
        ErrorCode::RangeNotSatisfiable => 416,
        ErrorCode::RecordNotUnique => 400,
        ErrorCode::RequestsExceeded => 429,
        ErrorCode::RouteNotFound => 404,
        ErrorCode::ServiceUnavailable => 503,
        ErrorCode::TokenExpired => 401,
        ErrorCode::UnexpectedResponse => 503,
        ErrorCode::UnprocessableContent => 422,
        ErrorCode::UnsupportedMediaType => 415,
        ErrorCode::UserSuspended => 401,
        ErrorCode::ValueOutOfRange => 400,
        ErrorCode::ValueTooLong => 400,
    }
}

/// The wire name of each error code.
pub open spec fn spec_code_name(c: ErrorCode) -> Seq<char> {
    match c {
        ErrorCode::ContainsNullValues => "CONTAINS_NULL_VALUES"@,
        ErrorCode::ContentTooLarge => "CONTENT_TOO_LARGE"@,
        ErrorCode::EmailLimitExceeded => "EMAIL_LIMIT_EXCEEDED"@,
        ErrorCode::Forbidden => "FORBIDDEN"@,
        ErrorCode::IllegalAssetTransformation => "ILLEGAL_ASSET_TRANSFORMATION"@,
        ErrorCode::Internal => "INTERNAL_SERVER_ERROR"@,
        ErrorCode::InvalidCredentials => "INVALID_CREDENTIALS"@,
        ErrorCode::InvalidForeignKey => "INVALID_FOREIGN_KEY"@,
        ErrorCode::InvalidIp => "INVALID_IP"@,
        ErrorCode::InvalidOtp => "INVALID_OTP"@,
        ErrorCode::InvalidPayload => "INVALID_PAYLOAD"@,
        ErrorCode::InvalidPathParameter => "INVALID_PATH_PARAMETER"@,
        ErrorCode::InvalidProvider => "INVALID_PROVIDER"@,
        ErrorCode::InvalidProviderConfig => "INVALID_PROVIDER_CONFIG"@,
        ErrorCode::InvalidQuery => "INVALID_QUERY"@,
        ErrorCode::InvalidToken => "INVALID_TOKEN"@,
        ErrorCode::LimitExceeded => "LIMIT_EXCEEDED"@,
        ErrorCode::MethodNotAllowed => "METHOD_NOT_ALLOWED"@,
        ErrorCode::NotNullViolation => "NOT_NULL_VIOLATION"@,
        ErrorCode::OutOfDate => "OUT_OF_DATE"@,
        ErrorCode::RangeNotSatisfiable => "RANGE_NOT_SATISFIABLE"@,
        ErrorCode::RecordNotUnique => "RECORD_NOT_UNIQUE"@,
        ErrorCode::RequestsExceeded => "REQUESTS_EXCEEDED"@,
        ErrorCode::RouteNotFound => "ROUTE_NOT_FOUND"@,
        ErrorCode::ServiceUnavailable => "SERVICE_UNAVAILABLE"@,
        ErrorCode::TokenExpired => "TOKEN_EXPIRED"@,
        ErrorCode::UnexpectedResponse => "UNEXPECTED_RESPONSE"@,
        ErrorCode::UnprocessableContent => "UNPROCESSABLE_CONTENT"@,
        ErrorCode::UnsupportedMediaType => "UNSUPPORTED_MEDIA_TYPE"@,
        ErrorCode::UserSuspended => "USER_SUSPENDED"@,
        ErrorCode::ValueOutOfRange => "VALUE_OUT_OF_RANGE"@,
        ErrorCode::ValueTooLong => "VALUE_TOO_LONG"@,
    }
}

/// The human-readable message of each error.
pub open spec fn spec_message(e: NexusError) -> Seq<char> {
    match e {
        NexusError::ContainsNullValues { collection, field } =>
            "Field \""@ + field@ + "\" in collection \""@ + collection@ + "\" contains null values."@,
        NexusError::ContentTooLarge => "Uploaded content is too large."@,
        NexusError::EmailLimitExceeded { .. } => "Email sending limit exceeded."@,
        NexusError::Forbidden { reason } => match reason {
            Some(r) => r@,
            None => "You don't have permission to access this."@,
        },
        NexusError::IllegalAssetTransformation { .. } => "Illegal asset transformation."@,
        NexusError::Internal => "An unexpected error occurred."@,
        NexusError::InvalidCredentials => "Invalid user credentials."@,
        NexusError::InvalidForeignKey { .. } => "Invalid foreign key for field in collection."@,
        NexusError::InvalidIp => "Invalid IP address."@,
        NexusError::InvalidOtp => "Invalid user OTP."@,
        NexusError::InvalidPayload { reason } => "Invalid payload. "@ + reason@ + "."@,
        NexusError::InvalidPathParameter { reason } => "Invalid path parameter. "@ + reason@ + "."@,
        NexusError::InvalidProvider => "Invalid provider."@,
        NexusError::InvalidProviderConfig { provider, .. } =>
            "Invalid config for provider \""@ + provider@ + "\"."@,
        NexusError::InvalidQuery { reason } => "Invalid query. "@ + reason@ + "."@,
        NexusError::InvalidToken => "Invalid token."@,
        NexusError::LimitExceeded { category } => category@ + " limit exceeded."@,
        NexusError::MethodNotAllowed { current, .. } => "Invalid method \""@ + current@ + "\" used."@,
        NexusError::NotNullViolation { .. } => "Value for field can't be null."@,
        NexusError::OutOfDate =>
            "Operation could not be executed: Your current instance of Nexus is out of date."@,
        NexusError::RangeNotSatisfiable { .. } =>
            "Range is invalid or the file's size doesn't match the requested range."@,
        NexusError::RecordNotUnique { .. } => "Value has to be unique."@,
        NexusError::RequestsExceeded { ms, .. } =>
            "Too many requests, retry after "@ + decimal(ms as nat) + "ms."@,
        NexusError::RouteNotFound { path } => "Route "@ + path@ + " doesn't exist."@,
        NexusError::ServiceUnavailable { service, reason } =>
            "Service \""@ + service@ + "\" is unavailable. "@ + reason@ + "."@,
        NexusError::TokenExpired => "Token expired."@,
        NexusError::UnexpectedResponse => "Received an unexpected response."@,
        NexusError::UnprocessableContent { reason } => "Can't process content. "@ + reason@ + "."@,
        NexusError::UnsupportedMediaType { media_type, location } =>
            "Unsupported media type \""@ + media_type@ + "\" in "@ + location@ + "."@,
        NexusError::UserSuspended => "User suspended."@,
        NexusError::ValueOutOfRange { .. } => "Numeric value is out of range."@,
        NexusError::ValueTooLong { .. } => "Value is too long."@,
    }
}

impl ErrorCode {
    /// The HTTP status number of this code.
    pub fn status(&self) -> (r: u16)
        ensures
            r == spec_status(*self),
    {
        match self {
            ErrorCode::ContainsNullValues => 400,
            ErrorCode::ContentTooLarge => 413,
            ErrorCode::EmailLimitExceeded => 429,
            ErrorCode::Forbidden => 403,
            ErrorCode::IllegalAssetTransformation => 400,
            ErrorCode::Internal => 500,
            ErrorCode::InvalidCredentials => 401,
            ErrorCode::InvalidForeignKey => 400,
            ErrorCode::InvalidIp => 401,
            ErrorCode::InvalidOtp => 401,
            ErrorCode::InvalidPayload => 400,
            ErrorCode::InvalidPathParameter => 400,
            ErrorCode::InvalidProvider => 403,
            ErrorCode::InvalidProviderConfig => 503,
            ErrorCode::InvalidQuery => 400,
            ErrorCode::InvalidToken => 403,
            ErrorCode::LimitExceeded => 403,
            ErrorCode::MethodNotAllowed => 405,
            ErrorCode::NotNullViolation => 400,
            ErrorCode::OutOfDate => 503,
            ErrorCode::RangeNotSatisfiable => 416,
            ErrorCode::RecordNotUnique => 400,
            ErrorCode::RequestsExceeded => 429,
            ErrorCode::RouteNotFound => 404,
            ErrorCode::ServiceUnavailable => 503,
            ErrorCode::TokenExpired => 401,
            ErrorCode::UnexpectedResponse => 503,
            ErrorCode::UnprocessableContent => 422,
            ErrorCode::UnsupportedMediaType => 415,
            ErrorCode::UserSuspended => 401,
            ErrorCode::ValueOutOfRange => 400,
            ErrorCode::ValueTooLong => 400,
        }
    }

    /// The wire name of this code (as it appears in `extensions.code`).
    pub fn code_name(&self) -> (r: &'static str)
        ensures
            r@ == spec_code_name(*self),
    {
        match self {
            ErrorCode::ContainsNullValues => "CONTAINS_NULL_VALUES",
            ErrorCode::ContentTooLarge => "CONTENT_TOO_LARGE",
            ErrorCode::EmailLimitExceeded => "EMAIL_LIMIT_EXCEEDED",
            ErrorCode::Forbidden => "FORBIDDEN",
            ErrorCode::IllegalAssetTransformation => "ILLEGAL_ASSET_TRANSFORMATION",
            ErrorCode::Internal => "INTERNAL_SERVER_ERROR",
            ErrorCode::InvalidCredentials => "INVALID_CREDENTIALS",
            ErrorCode::InvalidForeignKey => "INVALID_FOREIGN_KEY",
            ErrorCode::InvalidIp => "INVALID_IP",
            ErrorCode::InvalidOtp => "INVALID_OTP",
            ErrorCode::InvalidPayload => "INVALID_PAYLOAD",
            ErrorCode::InvalidPathParameter => "INVALID_PATH_PARAMETER",
            ErrorCode::InvalidProvider => "INVALID_PROVIDER",
            ErrorCode::InvalidProviderConfig => "INVALID_PROVIDER_CONFIG",
            ErrorCode::InvalidQuery => "INVALID_QUERY",
            ErrorCode::InvalidToken => "INVALID_TOKEN",
            ErrorCode::LimitExceeded => "LIMIT_EXCEEDED",
            ErrorCode::MethodNotAllowed => "METHOD_NOT_ALLOWED",
            ErrorCode::NotNullViolation => "NOT_NULL_VIOLATION",
            ErrorCode::OutOfDate => "OUT_OF_DATE",
            ErrorCode::RangeNotSatisfiable => "RANGE_NOT_SATISFIABLE",
            ErrorCode::RecordNotUnique => "RECORD_NOT_UNIQUE",
            ErrorCode::RequestsExceeded => "REQUESTS_EXCEEDED",
            ErrorCode::RouteNotFound => "ROUTE_NOT_FOUND",
            ErrorCode::ServiceUnavailable => "SERVICE_UNAVAILABLE",
            ErrorCode::TokenExpired => "TOKEN_EXPIRED",
            ErrorCode::UnexpectedResponse => "UNEXPECTED_RESPONSE",
            ErrorCode::UnprocessableContent => "UNPROCESSABLE_CONTENT",
            ErrorCode::UnsupportedMediaType => "UNSUPPORTED_MEDIA_TYPE",
            ErrorCode::UserSuspended => "USER_SUSPENDED",
            ErrorCode::ValueOutOfRange => "VALUE_OUT_OF_RANGE",
            ErrorCode::ValueTooLong => "VALUE_TOO_LONG",
        }
    }
}

fn s(t: &str) -> (r: String)
    ensures
        r@ == t@,
{
    String::from_str(t)
}

impl NexusError {
    /// The error code of this error.
    pub fn code(&self) -> (r: ErrorCode)
        ensures
            r == spec_code(*self),
    {
        match self {
            NexusError::ContainsNullValues { .. } => ErrorCode::ContainsNullValues,
            NexusError::ContentTooLarge => ErrorCode::ContentTooLarge,
            NexusError::EmailLimitExceeded { .. } => ErrorCode::EmailLimitExceeded,
            NexusError::Forbidden { .. } => ErrorCode::Forbidden,
            NexusError::IllegalAssetTransformation { .. } => ErrorCode::IllegalAssetTransformation,
            NexusError::Internal => ErrorCode::Internal,
            NexusError::InvalidCredentials => ErrorCode::InvalidCredentials,
            NexusError::InvalidForeignKey { .. } => ErrorCode::InvalidForeignKey,
            NexusError::InvalidIp => ErrorCode::InvalidIp,
            NexusError::InvalidOtp => ErrorCode::InvalidOtp,
            NexusError::InvalidPayload { .. } => ErrorCode::InvalidPayload,
            NexusError::InvalidPathParameter { .. } => ErrorCode::InvalidPathParameter,
            NexusError::InvalidProvider => ErrorCode::InvalidProvider,
            NexusError::InvalidProviderConfig { .. } => ErrorCode::InvalidProviderConfig,
            NexusError::InvalidQuery { .. } => ErrorCode::InvalidQuery,
            NexusError::InvalidToken => ErrorCode::InvalidToken,
            NexusError::LimitExceeded { .. } => ErrorCode::LimitExceeded,
            NexusError::MethodNotAllowed { .. } => ErrorCode::MethodNotAllowed,
            NexusError::NotNullViolation { .. } => ErrorCode::NotNullViolation,
            NexusError::OutOfDate => ErrorCode::OutOfDate,
            NexusError::RangeNotSatisfiable { .. } => ErrorCode::RangeNotSatisfiable,
            NexusError::RecordNotUnique { .. } => ErrorCode::RecordNotUnique,
            NexusError::RequestsExceeded { .. } => ErrorCode::RequestsExceeded,
            NexusError::RouteNotFound { .. } => ErrorCode::RouteNotFound,
            NexusError::ServiceUnavailable { .. } => ErrorCode::ServiceUnavailable,
            NexusError::TokenExpired => ErrorCode::TokenExpired,
            NexusError::UnexpectedResponse => ErrorCode::UnexpectedResponse,
            NexusError::UnprocessableContent { .. } => ErrorCode::UnprocessableContent,
            NexusError::UnsupportedMediaType { .. } => ErrorCode::UnsupportedMediaType,
            NexusError::UserSuspended => ErrorCode::UserSuspended,
            NexusError::ValueOutOfRange { .. } => ErrorCode::ValueOutOfRange,
            NexusError::ValueTooLong { .. } => ErrorCode::ValueTooLong,
        }
    }

    /// The HTTP status number of this error.
    pub fn status_code(&self) -> (r: u16)
        ensures
            r == spec_status(spec_code(*self)),
    {
        self.code().status()
    }

    /// The human-readable message of this error.
    pub fn message(&self) -> (r: String)
        ensures
            r@ == spec_message(*self),
    {
        match self {
            NexusError::ContainsNullValues { collection, field } => {
                let mut m = s("Field \"");
                m.append(field.as_str());
                m.append("\" in collection \"");
                m.append(collection.as_str());
                m.append("\" contains null values.");
                m
            },
            NexusError::ContentTooLarge => s("Uploaded content is too large."),
            NexusError::EmailLimitExceeded { .. } => s("Email sending limit exceeded."),
            NexusError::Forbidden { reason } => match reason {
                Some(r) => r.clone(),
                None => s("You don't have permission to access this."),
            },
            NexusError::IllegalAssetTransformation { .. } => s("Illegal asset transformation."),
            NexusError::Internal => s("An unexpected error occurred."),
            NexusError::InvalidCredentials => s("Invalid user credentials."),
            NexusError::InvalidForeignKey { .. } => s("Invalid foreign key for field in collection."),
            NexusError::InvalidIp => s("Invalid IP address."),
            NexusError::InvalidOtp => s("Invalid user OTP."),
            NexusError::InvalidPayload { reason } => {
                let mut m = s("Invalid payload. ");
                m.append(reason.as_str());
                m.append(".");
                m
            },
            NexusError::InvalidPathParameter { reason } => {
                let mut m = s("Invalid path parameter. ");
                m.append(reason.as_str());
                m.append(".");
                m
            },
            NexusError::InvalidProvider => s("Invalid provider."),
            NexusError::InvalidProviderConfig { provider, .. } => {
                let mut m = s("Invalid config for provider \"");
                m.append(provider.as_str());
                m.append("\".");
                m
            },
            NexusError::InvalidQuery { reason } => {
                let mut m = s("Invalid query. ");
                m.append(reason.as_str());
                m.append(".");
                m
            },
            NexusError::InvalidToken => s("Invalid token."),
            NexusError::LimitExceeded { category } => {
                let mut m = category.clone();
                m.append(" limit exceeded.");
                m
            },
            NexusError::MethodNotAllowed { current, .. } => {
                let mut m = s("Invalid method \"");
                m.append(current.as_str());
                m.append("\" used.");
                m
            },
            NexusError::NotNullViolation { .. } => s("Value for field can't be null."),
            NexusError::OutOfDate => s(
                "Operation could not be executed: Your current instance of Nexus is out of date.",
            ),
            NexusError::RangeNotSatisfiable { .. } => s(
                "Range is invalid or the file's size doesn't match the requested range.",
            ),
            NexusError::RecordNotUnique { .. } => s("Value has to be unique."),
            NexusError::RequestsExceeded { ms, .. } => {
                let mut m = s("Too many requests, retry after ");
                push_decimal(&mut m, *ms);
                m.append("ms.");
                m
            },
            NexusError::RouteNotFound { path } => {
                let mut m = s("Route ");
                m.append(path.as_str());
                m.append(" doesn't exist.");
                m
            },
            NexusError::ServiceUnavailable { service, reason } => {
                let mut m = s("Service \"");
                m.append(service.as_str());
                m.append("\" is unavailable. ");
                m.append(reason.as_str());
                m.append(".");
                m
            },
            NexusError::TokenExpired => s("Token expired."),
            NexusError::UnexpectedResponse => s("Received an unexpected response."),
            NexusError::UnprocessableContent { reason } => {
                let mut m = s("Can't process content. ");
                m.append(reason.as_str());
                m.append(".");
                m
            },
            NexusError::UnsupportedMediaType { media_type, location } => {
                let mut m = s("Unsupported media type \"");
                m.append(media_type.as_str());
                m.append("\" in ");
                m.append(location.as_str());
                m.append(".");
                m
            },
            NexusError::UserSuspended => s("User suspended."),
            NexusError::ValueOutOfRange { .. } => s("Numeric value is out of range."),
            NexusError::ValueTooLong { .. } => s("Value is too long."),
        }
    }
}

/// The `extensions` object of one reported error.
#[derive(Debug, Clone)]
pub struct ErrorExtensions {
    pub code: ErrorCode,
}

/// One reported error.
#[derive(Debug, Clone)]
pub struct ErrorDetail {
    pub message: String,
    pub extensions: ErrorExtensions,
}

/// The `{ "errors": [...] }` response body.
#[derive(Debug, Clone)]
pub struct ErrorResponse {
    pub errors: Vec<ErrorDetail>,
}

impl ErrorResponse {
    /// The response body that reports `err`: one entry with its message and code.
    pub fn from(err: &NexusError) -> (r: ErrorResponse)
        ensures
            r.errors@.len() == 1,
            r.errors@[0].message@ == spec_message(*err),
            r.errors@[0].extensions.code == spec_code(*err),
    {
        let detail = ErrorDetail {
            message: err.message(),
            extensions: ErrorExtensions { code: err.code() },
        };
        let mut errors: Vec<ErrorDetail> = Vec::new();
        errors.push(detail);
        ErrorResponse { errors }
    }
}

/// A `Forbidden` error carrying the optional reason.
pub fn forbidden(reason: Option<&str>) -> (r: NexusError)
    ensures
        r matches NexusError::Forbidden { reason: rr } && match reason {
            Some(t) => rr matches Some(x) && x@ == t@,
            None => rr is None,
        },
{
    match reason {
        Some(t) => NexusError::Forbidden { reason: Some(String::from_str(t)) },
        None => NexusError::Forbidden { reason: None },
    }
}

/// An `InvalidPayload` error with the given reason.
pub fn invalid_payload(reason: &str) -> (r: NexusError)
    ensures
        r matches NexusError::InvalidPayload { reason: rr } && rr@ == reason@,
{
    NexusError::InvalidPayload { reason: String::from_str(reason) }
}

/// An `InvalidQuery` error with the given reason.
pub fn invalid_query(reason: &str) -> (r: NexusError)
    ensures
        r matches NexusError::InvalidQuery { reason: rr } && rr@ == reason@,
{
    NexusError::InvalidQuery { reason: String::from_str(reason) }
}

/// Every error is reported with a client-error or server-error status
/// (a number from 400 to 599).
pub proof fn status_is_error_class(e: NexusError)
    ensures
        400 <= spec_status(spec_code(e)) <= 599,
{
}

/// Exactly the server-side failures (internal errors and unavailable
/// services) are reported with a 5xx status.
pub proof fn server_errors_are_5xx(c: ErrorCode)
    ensures
        spec_status(c) >= 500 <==> (c == ErrorCode::Internal || c == ErrorCode::InvalidProviderConfig
            || c == ErrorCode::OutOfDate || c == ErrorCode::ServiceUnavailable
            || c == ErrorCode::UnexpectedResponse),
{
}

/// The status of every error code, by kind: rate limits are 429, failed
/// authentication 401, refused access 403, malformed or invalid input 400,
/// an unknown route 404, a wrong method 405, an oversized body 413, an
/// unsupported media type 415, an unsatisfiable range 416, unprocessable
/// content 422, an internal error 500 and an unavailable service 503.
pub proof fn status_by_kind(c: ErrorCode)
    ensures
        spec_status(c) == 429 <==> (c == ErrorCode::RequestsExceeded || c == ErrorCode::EmailLimitExceeded),
        spec_status(c) == 401 <==> (c == ErrorCode::InvalidCredentials || c == ErrorCode::InvalidIp
            || c == ErrorCode::InvalidOtp || c == ErrorCode::TokenExpired || c == ErrorCode::UserSuspended),
        spec_status(c) == 403 <==> (c == ErrorCode::Forbidden || c == ErrorCode::InvalidProvider
            || c == ErrorCode::InvalidToken || c == ErrorCode::LimitExceeded),
        spec_status(c) == 400 <==> (c == ErrorCode::ContainsNullValues || c == ErrorCode::IllegalAssetTransformation
            || c == ErrorCode::InvalidForeignKey || c == ErrorCode::InvalidPayload
            || c == ErrorCode::InvalidPathParameter || c == ErrorCode::InvalidQuery
            || c == ErrorCode::NotNullViolation || c == ErrorCode::RecordNotUnique
            || c == ErrorCode::ValueOutOfRange || c == ErrorCode::ValueTooLong),
        spec_status(c) == 404 <==> c == ErrorCode::RouteNotFound,
        spec_status(c) == 405 <==> c == ErrorCode::MethodNotAllowed,
        spec_status(c) == 413 <==> c == ErrorCode::ContentTooLarge,
        spec_status(c) == 415 <==> c == ErrorCode::UnsupportedMediaType,
        spec_status(c) == 416 <==> c == ErrorCode::RangeNotSatisfiable,
        spec_status(c) == 422 <==> c == ErrorCode::UnprocessableContent,
        spec_status(c) == 500 <==> c == ErrorCode::Internal,
        spec_status(c) == 503 <==> (c == ErrorCode::InvalidProviderConfig || c == ErrorCode::OutOfDate
            || c == ErrorCode::ServiceUnavailable || c == ErrorCode::UnexpectedResponse),
{
}

/// Exceeding a rate limit, whether of requests or of e-mails, is reported
/// as 429 Too Many Requests, whatever the limit and reset time.
pub proof fn rate_limits_are_429(e: NexusError)
    ensures
        (e is RequestsExceeded || e is EmailLimitExceeded) ==> spec_status(spec_code(e)) == 429,
{
}

} // verus!
