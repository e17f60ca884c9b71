//! How failures of team operations become API answers.
//!
//! A failure is described by what the handlers can tell about it: a
//! missing row, a database constraint error (its code and message), a
//! completed run that cannot be resumed, a refused runtime start, or
//! anything else.
use vstd::prelude::*;
use vstd::string::*;

use crate::api_error::{ApiError, ApiErrorKind};
use crate::text::{contains_spec, owned, str_contains};

verus! {

/// The SQLite extended result code of a UNIQUE constraint violation.
pub open spec fn sqlite_unique_code() -> Seq<char> {
    "2067"@
}

/// Why a team runtime could not start.
#[derive(Debug, Clone, Copy, PartialEq, Eq, Structural)]
pub enum RuntimeStartErrorKind {
    InvalidConfig,
    MissingMemberAgent,
    MemberRuntimeStart,
}

/// What a handler can tell about a failed team operation.
#[derive(Debug, Clone)]
pub enum TeamFailure {
    /// A query expected a row and found none.
    RowNotFound,
    /// The database refused a statement.
    Database { code: Option<String>, message: String },
    /// A completed run was asked to resume.
    CompletedRun,
    /// The team runtime refused to start; `display` is its rendered message.
    RuntimeStart { kind: RuntimeStartErrorKind, display: String },
    /// Anything else.
    Other { message: String },
}

/// The status codes of the actor service.
#[derive(Debug, Clone, Copy, PartialEq, Eq, Structural)]
pub enum ActorServiceErrorCode {
    BadRequest,
    UnprocessableEntity,
    Unauthorized,
    Forbidden,
    NotFound,
    Gone,
    Conflict,
    TooManyRequests,
    Internal,
}

/// An error reported by the actor service.
#[derive(Debug, Clone)]
pub struct ActorServiceError {
    pub code: ActorServiceErrorCode,
    pub message: String,
}

/// Whether a failure is a missing row.
pub open spec fn is_row_not_found_spec(err: TeamFailure) -> bool {
    err is RowNotFound
}

/// Whether a failure is a UNIQUE violation whose message names `constraint`.
pub open spec fn is_unique_violation_spec(err: TeamFailure, constraint: Seq<char>) -> bool {
    match err {
        TeamFailure::Database { code, message } => code.deep_view() == Some(sqlite_unique_code())
            && contains_spec(message@, constraint),
        _ => false,
    }
}

/// The constraint that keeps team names unique.
pub open spec fn team_name_constraint() -> Seq<char> {
    "team_definitions.name"@
}

/// The constraint that keeps one attempt per step and run.
pub open spec fn step_attempt_constraint() -> Seq<char> {
    "team_steps.run_id, team_steps.step_key, team_steps.attempt"@
}

/// Whether a failure is a missing row.
pub fn is_row_not_found(err: &TeamFailure) -> (res: bool)
    ensures
        res == is_row_not_found_spec(*err),
{
    match err {
        TeamFailure::RowNotFound => true,
        _ => false,
    }
}

/// Whether a failure is a UNIQUE violation of `constraint`.
pub fn is_unique_violation_for(err: &TeamFailure, constraint: &str) -> (res: bool)
    ensures
        res == is_unique_violation_spec(*err, constraint@),
{
    match err {
        TeamFailure::Database { code, message } => {
            match code {
                Some(c) => {
                    let unique = owned("2067");
                    if *c == unique {
                        str_contains(message.as_str(), constraint)
                    } else {
                        false
                    }
                },
                None => false,
            }
        },
        _ => false,
    }
}

/// Whether a failure is a duplicate team name.
pub fn is_unique_team_name_violation(err: &TeamFailure) -> (res: bool)
    ensures
        res == is_unique_violation_spec(*err, team_name_constraint()),
{
    is_unique_violation_for(err, "team_definitions.name")
}

/// Whether a failure is a duplicate step attempt.
pub fn is_unique_step_attempt_violation(err: &TeamFailure) -> (res: bool)
    ensures
        res == is_unique_violation_spec(*err, step_attempt_constraint()),
{
    is_unique_violation_for(err, "team_steps.run_id, team_steps.step_key, team_steps.attempt")
}

/// Whether an answer is the opaque internal error, which hides the cause.
pub open spec fn is_internal_answer(res: ApiError) -> bool {
    res.kind == ApiErrorKind::Internal && res.message@ == "internal server error"@
}

/// Any failure without a more specific answer: a 500 that does not reveal
/// the cause, whatever it was.
pub fn map_team_internal_error(_err: &TeamFailure) -> (res: ApiError)
    ensures
        is_internal_answer(res),
{
    ApiError::internal("internal server error")
}

/// A failed team creation: a duplicate name is a 409, anything else
/// internal.
pub fn map_create_team_error(err: &TeamFailure) -> (res: ApiError)
    ensures
        if is_unique_violation_spec(*err, team_name_constraint()) {
            res.kind == ApiErrorKind::Conflict && res.message@ == "team name already exists"@
        } else {
            is_internal_answer(res)
        },
{
    if is_unique_team_name_violation(err) {
        return ApiError::conflict("team name already exists");
    }
    map_team_internal_error(err)
}

/// A failed step submission: a duplicate attempt is a 409, anything else
/// internal.
pub fn map_submit_step_error(err: &TeamFailure) -> (res: ApiError)
    ensures
        if is_unique_violation_spec(*err, step_attempt_constraint()) {
            res.kind == ApiErrorKind::Conflict && res.message@ == "step already exists for run"@
        } else {
            is_internal_answer(res)
        },
{
    if is_unique_step_attempt_violation(err) {
        return ApiError::conflict("step already exists for run");
    }
    map_team_internal_error(err)
}

/// A failed lookup: a missing row is a 404 with `msg`, anything else
/// internal.
pub fn map_not_found_error(err: &TeamFailure, msg: &str) -> (res: ApiError)
    ensures
        if is_row_not_found_spec(*err) {
            res.kind == ApiErrorKind::NotFound && res.message@ == msg@
        } else {
            is_internal_answer(res)
        },
{
    if is_row_not_found(err) {
        return ApiError::not_found(msg);
    }
    map_team_internal_error(err)
}

/// A failed run resume: a completed run is a 409 pointing to restart; a
/// missing run a 404; anything else internal.
pub fn map_resume_run_error(err: &TeamFailure) -> (res: ApiError)
    ensures
        if *err is CompletedRun {
            res.kind == ApiErrorKind::Conflict
                && res.message@ == "completed run cannot be resumed; use restart"@
        } else if is_row_not_found_spec(*err) {
            res.kind == ApiErrorKind::NotFound && res.message@ == "run not found"@
        } else {
            is_internal_answer(res)
        },
{
    match err {
        TeamFailure::CompletedRun => {
            return ApiError::conflict("completed run cannot be resumed; use restart");
        },
        _ => {},
    }
    map_not_found_error(err, "run not found")
}

/// A refused runtime start: a bad configuration or a missing member agent
/// is a 400, a member runtime that failed to start a 409, each with the
/// refusal's message; anything else internal.
pub fn map_runtime_start_error(err: &TeamFailure) -> (res: ApiError)
    ensures
        match *err {
            TeamFailure::RuntimeStart { kind, display } => res.message@ == display@ && res.kind == match kind {
                RuntimeStartErrorKind::MemberRuntimeStart => ApiErrorKind::Conflict,
                _ => ApiErrorKind::BadRequest,
            },
            _ => is_internal_answer(res),
        },
{
    match err {
        TeamFailure::RuntimeStart { kind, display } => {
            match kind {
                RuntimeStartErrorKind::InvalidConfig | RuntimeStartErrorKind::MissingMemberAgent => {
                    ApiError::bad_request(display.as_str())
                },
                RuntimeStartErrorKind::MemberRuntimeStart => ApiError::conflict(display.as_str()),
            }
        },
        _ => map_team_internal_error(err),
    }
}

/// The answer class each actor service code maps to; `None` for the codes
/// answered as internal errors.
pub open spec fn actor_service_kind(code: ActorServiceErrorCode) -> Option<ApiErrorKind> {
    match code {
        ActorServiceErrorCode::BadRequest | ActorServiceErrorCode::UnprocessableEntity => Some(ApiErrorKind::BadRequest),
        ActorServiceErrorCode::Unauthorized | ActorServiceErrorCode::Forbidden => Some(ApiErrorKind::Unauthorized),
        ActorServiceErrorCode::NotFound | ActorServiceErrorCode::Gone => Some(ApiErrorKind::NotFound),
        ActorServiceErrorCode::Conflict => Some(ApiErrorKind::Conflict),
        ActorServiceErrorCode::TooManyRequests | ActorServiceErrorCode::Internal => None,
    }
}

/// An actor service error as an API answer: client errors keep their
/// message; rate limiting and internal errors become the opaque internal
/// error.
pub fn map_actor_service_api_error(err: &ActorServiceError) -> (res: ApiError)
    ensures
        match actor_service_kind(err.code) {
            Some(k) => res.kind == k && res.message@ == err.message@,
            None => is_internal_answer(res),
        },
{
    let msg = err.message.as_str();
    match err.code {
        ActorServiceErrorCode::BadRequest | ActorServiceErrorCode::UnprocessableEntity => ApiError::bad_request(msg),
        ActorServiceErrorCode::Unauthorized | ActorServiceErrorCode::Forbidden => ApiError::unauthorized(msg),
        ActorServiceErrorCode::NotFound | ActorServiceErrorCode::Gone => ApiError::not_found(msg),
        ActorServiceErrorCode::Conflict => ApiError::conflict(msg),
        ActorServiceErrorCode::TooManyRequests | ActorServiceErrorCode::Internal => {
            ApiError::internal("internal server error")
        },
    }
}

/// A failure is a duplicate team name exactly when the database reported
/// SQLite's unique-constraint code `2067` with a message naming
/// `team_definitions.name`; a duplicate step attempt likewise for the step
/// constraint; no other failure is either.
pub proof fn law_unique_violations(err: TeamFailure)
    ensures
        is_unique_violation_spec(err, team_name_constraint()) <==> (err matches TeamFailure::Database { code, message }
            && code.deep_view() == Some("2067"@) && contains_spec(message@, "team_definitions.name"@)),
        is_unique_violation_spec(err, step_attempt_constraint()) <==> (err matches TeamFailure::Database { code, message }
            && code.deep_view() == Some("2067"@)
            && contains_spec(message@, "team_steps.run_id, team_steps.step_key, team_steps.attempt"@)),
{
}

} // verus!
