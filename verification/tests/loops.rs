use agenthub::api_error::ApiErrorKind;
use agenthub::loops::{
    check_loop_preflight, loop_preflight_failure, map_loop_configuration_error, page_limit, require_member,
    require_registration_owner, validate_firing_cursor,
};

#[test]
fn page_limit_defaults_and_bounds() {
    assert_eq!(page_limit(None).unwrap(), 64);
    assert_eq!(page_limit(Some(1)).unwrap(), 1);
    assert_eq!(page_limit(Some(256)).unwrap(), 256);
    let err = page_limit(Some(0)).unwrap_err();
    assert_eq!(err.status(), 400);
    assert_eq!(err.message, "limit must be between 1 and 256");
    assert!(page_limit(Some(257)).is_err());
}

#[test]
fn members_must_belong_to_the_team() {
    let members = vec!["planner".to_string(), "critic".to_string()];
    assert!(require_member(&members, "critic").is_ok());
    let err = require_member(&members, "stranger").unwrap_err();
    assert_eq!(err.status(), 404);
    assert_eq!(err.message, "team member not found");
}

#[test]
fn schedule_checks_refuse_bad_cursors_and_foreign_registrations() {
    assert!(validate_firing_cursor(None).is_ok());
    assert!(validate_firing_cursor(Some(0)).is_ok());
    let err = validate_firing_cursor(Some(-1)).unwrap_err();
    assert_eq!(err.message, "invalid firing cursor");
    assert!(require_registration_owner("planner", "planner").is_ok());
    let err = require_registration_owner("planner", "critic").unwrap_err();
    assert_eq!(err.kind, ApiErrorKind::NotFound);
    assert_eq!(err.message, "registration not found for member");
}

#[test]
fn preflight_failures_are_conflicts() {
    let msg = loop_preflight_failure(&vec!["no agent".to_string(), "no repo".to_string()]);
    assert_eq!(msg, "loop preflight failed: no agent, no repo");
    let err = map_loop_configuration_error(&msg);
    assert_eq!(err.status(), 409);
    assert_eq!(err.message, msg);
    let err = map_loop_configuration_error("database locked");
    assert_eq!(err.status(), 500);
    assert_eq!(err.message, "internal server error");
}

#[test]
fn enabling_a_loop_needs_a_ready_preflight() {
    let blockers = vec!["no agent".to_string(), "no model".to_string()];
    assert_eq!(check_loop_preflight(true, true, &blockers), Ok(()));
    assert_eq!(check_loop_preflight(false, false, &blockers), Ok(()));
    assert_eq!(
        check_loop_preflight(true, false, &blockers),
        Err("loop preflight failed: no agent, no model".to_string())
    );
}
