use agenthub::daemon_tasks::{next_phase_to_stop, phase_stopped, ShutdownStage, TaskPhaseKind};
use agenthub::daemon_tasks::{
    join_strings, panic_payload_message, task_failure, PanicPayload, TaskOutcome, TaskPhaseState,
};

#[test]
fn shutdown_surfaces_failures_and_rejects_new_tasks() {
    let mut phase = TaskPhaseState::new();
    assert!(phase.check_admission("panic-probe").is_ok());
    phase.record_outcome(
        "panic-probe",
        &TaskOutcome::Panicked {
            payload: PanicPayload::Text("probe panic".to_string()),
        },
        false,
        false,
    );
    phase.begin_shutdown();
    let error = phase.finish_shutdown("background").expect_err("surface tracked panic");
    assert!(error.contains("panic-probe"));
    assert!(error.contains("probe panic"));
    assert_eq!(
        error,
        "daemon background task shutdown reported 1 failure(s): task 'panic-probe' panicked: probe panic"
    );
    assert_eq!(
        phase.check_admission("late-task").unwrap_err(),
        "daemon task phase is shutting down; rejected task 'late-task'"
    );
    assert_eq!(phase.failure_count(), 0);
    assert!(phase.finish_shutdown("background").is_ok());
}

#[test]
fn shutdown_reports_join_timeouts() {
    let mut phase = TaskPhaseState::new();
    phase.begin_shutdown();
    phase.record_join_timeout("background", 10, 1);
    let error = phase.finish_shutdown("background").expect_err("surface join timeout");
    assert!(error.contains("timed out"));
    assert!(error.contains("1 task(s) remaining"));
    assert_eq!(
        error,
        "daemon background task shutdown reported 1 failure(s): background task join timed out after 10 ms with 1 task(s) remaining"
    );
}

#[test]
fn clean_shutdown_succeeds() {
    let mut phase = TaskPhaseState::new();
    phase.record_outcome("job", &TaskOutcome::Completed, true, false);
    phase.record_outcome("worker", &TaskOutcome::Completed, false, true);
    assert_eq!(phase.failure_count(), 0);
    phase.begin_shutdown();
    assert!(!phase.is_accepting());
    assert!(phase.finish_shutdown("runtime").is_ok());
}

#[test]
fn task_failures_are_described_by_outcome() {
    assert_eq!(task_failure("job", &TaskOutcome::Completed, true, false), None);
    assert_eq!(task_failure("worker", &TaskOutcome::Completed, false, true), None);
    assert_eq!(
        task_failure("worker", &TaskOutcome::Completed, false, false),
        Some("task 'worker' exited unexpectedly".to_string())
    );
    assert_eq!(
        task_failure(
            "sync",
            &TaskOutcome::Failed {
                error: "outer: inner".to_string()
            },
            true,
            true
        ),
        Some("task 'sync' failed: outer: inner".to_string())
    );
    assert_eq!(
        task_failure(
            "odd",
            &TaskOutcome::Panicked {
                payload: PanicPayload::Other
            },
            true,
            false
        ),
        Some("task 'odd' panicked: non-string panic payload".to_string())
    );
    assert_eq!(panic_payload_message(&PanicPayload::Text("x".to_string())), "x");
}

#[test]
fn several_failures_are_reported_in_order() {
    let mut phase = TaskPhaseState::new();
    phase.record_outcome("a", &TaskOutcome::Completed, false, false);
    phase.record_outcome("b", &TaskOutcome::Failed { error: "e".to_string() }, true, false);
    let error = phase.finish_shutdown("runtime").unwrap_err();
    assert_eq!(
        error,
        "daemon runtime task shutdown reported 2 failure(s): task 'a' exited unexpectedly; task 'b' failed: e"
    );
    assert_eq!(join_strings(&vec![], "; "), "");
}

#[test]
fn shutdown_stops_background_before_runtime() {
    let mut stage = ShutdownStage::Running;
    let mut order = Vec::new();
    while let Some(phase) = next_phase_to_stop(stage) {
        order.push(phase);
        stage = phase_stopped(stage);
    }
    assert_eq!(order, vec![TaskPhaseKind::Background, TaskPhaseKind::Runtime]);
    assert_eq!(stage, ShutdownStage::Stopped);
}
