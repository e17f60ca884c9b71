use agenthub::team_tasks::check_team_task_fields;
use agenthub::api_error::ApiErrorKind;
use agenthub::team_errors::{
    is_unique_step_attempt_violation, is_unique_team_name_violation, map_actor_service_api_error,
    map_create_team_error, map_not_found_error, map_resume_run_error, map_runtime_start_error,
    map_submit_step_error, ActorServiceError, ActorServiceErrorCode, RuntimeStartErrorKind, TeamFailure,
};

#[test]
fn map_runtime_start_error_maps_typed_runtime_config_errors_to_bad_request() {
    let api_err = map_runtime_start_error(&TeamFailure::RuntimeStart {
        kind: RuntimeStartErrorKind::InvalidConfig,
        display: "bad runtime config".to_string(),
    });
    assert_eq!(api_err.status(), 400);
}

#[test]
fn map_runtime_start_error_maps_member_runtime_failures_to_conflict() {
    let api_err = map_runtime_start_error(&TeamFailure::RuntimeStart {
        kind: RuntimeStartErrorKind::MemberRuntimeStart,
        display: "member runtime failed".to_string(),
    });
    assert_eq!(api_err.status(), 409);
}

#[test]
fn map_runtime_start_error_keeps_unknown_errors_internal() {
    let api_err = map_runtime_start_error(&TeamFailure::Other {
        message: "unexpected".to_string(),
    });
    assert_eq!(api_err.status(), 500);
    assert_eq!(api_err.message, "internal server error");
}

fn unique_violation(message: &str) -> TeamFailure {
    TeamFailure::Database {
        code: Some("2067".to_string()),
        message: message.to_string(),
    }
}

#[test]
fn unique_violations_are_recognised_by_code_and_constraint() {
    let name = unique_violation("UNIQUE constraint failed: team_definitions.name");
    assert!(is_unique_team_name_violation(&name));
    assert!(!is_unique_step_attempt_violation(&name));
    let other_code = TeamFailure::Database {
        code: Some("787".to_string()),
        message: "UNIQUE constraint failed: team_definitions.name".to_string(),
    };
    assert!(!is_unique_team_name_violation(&other_code));
    let step = unique_violation(
        "UNIQUE constraint failed: team_steps.run_id, team_steps.step_key, team_steps.attempt",
    );
    assert!(is_unique_step_attempt_violation(&step));
}

#[test]
fn create_and_submit_conflicts_are_409() {
    let err = map_create_team_error(&unique_violation("UNIQUE constraint failed: team_definitions.name"));
    assert_eq!(err.status(), 409);
    assert_eq!(err.message, "team name already exists");
    assert_eq!(map_create_team_error(&TeamFailure::RowNotFound).status(), 500);
    let err = map_submit_step_error(&unique_violation(
        "UNIQUE constraint failed: team_steps.run_id, team_steps.step_key, team_steps.attempt",
    ));
    assert_eq!(err.message, "step already exists for run");
}

#[test]
fn resume_errors_distinguish_completed_and_missing_runs() {
    let err = map_resume_run_error(&TeamFailure::CompletedRun);
    assert_eq!(err.status(), 409);
    assert_eq!(err.message, "completed run cannot be resumed; use restart");
    let err = map_resume_run_error(&TeamFailure::RowNotFound);
    assert_eq!(err.status(), 404);
    assert_eq!(err.message, "run not found");
    let err = map_not_found_error(&TeamFailure::RowNotFound, "team not found");
    assert_eq!(err.message, "team not found");
    assert_eq!(map_resume_run_error(&TeamFailure::Other { message: "x".to_string() }).status(), 500);
}

#[test]
fn actor_service_codes_map_to_statuses() {
    let cases = [
        (ActorServiceErrorCode::BadRequest, ApiErrorKind::BadRequest),
        (ActorServiceErrorCode::UnprocessableEntity, ApiErrorKind::BadRequest),
        (ActorServiceErrorCode::Unauthorized, ApiErrorKind::Unauthorized),
        (ActorServiceErrorCode::Forbidden, ApiErrorKind::Unauthorized),
        (ActorServiceErrorCode::NotFound, ApiErrorKind::NotFound),
        (ActorServiceErrorCode::Gone, ApiErrorKind::NotFound),
        (ActorServiceErrorCode::Conflict, ApiErrorKind::Conflict),
        (ActorServiceErrorCode::TooManyRequests, ApiErrorKind::Internal),
        (ActorServiceErrorCode::Internal, ApiErrorKind::Internal),
    ];
    for (code, kind) in cases {
        let err = map_actor_service_api_error(&ActorServiceError {
            code,
            message: "boom".to_string(),
        });
        assert_eq!(err.kind, kind);
        if kind == ApiErrorKind::Internal {
            assert_eq!(err.message, "internal server error");
        } else {
            assert_eq!(err.message, "boom");
        }
    }
}

#[test]
fn team_task_fields_are_checked_in_order() {
    assert_eq!(
        check_team_task_fields(" Fix bug ", " high ", true, " planner ").unwrap(),
        ("Fix bug".to_string(), "high".to_string(), "planner".to_string())
    );
    let err = check_team_task_fields(" ", "", false, "").unwrap_err();
    assert_eq!(err.status(), 400);
    assert_eq!(err.message, "title is required");
    assert_eq!(check_team_task_fields("t", " ", false, "").unwrap_err().message, "priority is required");
    assert_eq!(
        check_team_task_fields("t", "urgent", false, "").unwrap_err().message,
        "invalid task priority; expected one of: critical, high, medium, low"
    );
    assert_eq!(
        check_team_task_fields("t", "low", true, "  ").unwrap_err().message,
        "assigned_member_id is required"
    );
}
