//! The error an API handler answers with: an HTTP status class and a
//! message for the client.
use vstd::prelude::*;

use crate::text::owned;

verus! {

/// The HTTP status classes the API answers errors with.
#[derive(Debug, Clone, Copy, PartialEq, Eq, Structural)]
pub enum ApiErrorKind {
    BadRequest,
    Unauthorized,
    NotFound,
    Conflict,
    PayloadTooLarge,
    Internal,
}

/// The HTTP status code of each class.
pub open spec fn status_code(kind: ApiErrorKind) -> u16 {
    match kind {
        ApiErrorKind::BadRequest => 400,
        ApiErrorKind::Unauthorized => 401,
        ApiErrorKind::NotFound => 404,
        ApiErrorKind::Conflict => 409,
        ApiErrorKind::PayloadTooLarge => 413,
        ApiErrorKind::Internal => 500,
    }
}

/// An error answer: its status class and the message shown to the client.
#[derive(Debug, Clone)]
pub struct ApiError {
    pub kind: ApiErrorKind,
    pub message: String,
}

impl ApiError {
    /// The error of class `kind` with message `message`.
    pub fn new(kind: ApiErrorKind, message: &str) -> (res: ApiError)
        ensures
            res.kind == kind,
            res.message@ == message@,
    {
        ApiError { kind, message: owned(message) }
    }

    /// A 400 answer.
    pub fn bad_request(message: &str) -> (res: ApiError)
        ensures
            res.kind == ApiErrorKind::BadRequest,
            res.message@ == message@,
    {
        Self::new(ApiErrorKind::BadRequest, message)
    }

    /// A 401 answer.
    pub fn unauthorized(message: &str) -> (res: ApiError)
        ensures
            res.kind == ApiErrorKind::Unauthorized,
            res.message@ == message@,
    {
        Self::new(ApiErrorKind::Unauthorized, message)
    }

    /// A 404 answer.
    pub fn not_found(message: &str) -> (res: ApiError)
        ensures
            res.kind == ApiErrorKind::NotFound,
            res.message@ == message@,
    {
        Self::new(ApiErrorKind::NotFound, message)
    }

    /// A 409 answer.
    pub fn conflict(message: &str) -> (res: ApiError)
        ensures
            res.kind == ApiErrorKind::Conflict,
            res.message@ == message@,
    {
        Self::new(ApiErrorKind::Conflict, message)
    }

    /// A 413 answer.
    pub fn payload_too_large(message: &str) -> (res: ApiError)
        ensures
            res.kind == ApiErrorKind::PayloadTooLarge,
            res.message@ == message@,
    {
        Self::new(ApiErrorKind::PayloadTooLarge, message)
    }

    /// A 500 answer.
    pub fn internal(message: &str) -> (res: ApiError)
        ensures
            res.kind == ApiErrorKind::Internal,
            res.message@ == message@,
    {
        Self::new(ApiErrorKind::Internal, message)
    }

    /// The HTTP status code of this answer.
    pub fn status(&self) -> (res: u16)
        ensures
            res == status_code(self.kind),
    {
        match self.kind {
            ApiErrorKind::BadRequest => 400,
            ApiErrorKind::Unauthorized => 401,
            ApiErrorKind::NotFound => 404,
            ApiErrorKind::Conflict => 409,
            ApiErrorKind::PayloadTooLarge => 413,
            ApiErrorKind::Internal => 500,
        }
    }
}

/// Each error class answers with its HTTP status: 400 for a bad request,
/// 401 unauthorized, 404 not found, 409 conflict, 413 payload too large,
/// 500 internal error.
pub proof fn law_error_statuses()
    ensures
        status_code(ApiErrorKind::BadRequest) == 400,
        status_code(ApiErrorKind::Unauthorized) == 401,
        status_code(ApiErrorKind::NotFound) == 404,
        status_code(ApiErrorKind::Conflict) == 409,
        status_code(ApiErrorKind::PayloadTooLarge) == 413,
        status_code(ApiErrorKind::Internal) == 500,
{
}

} // verus!
