use agenthub::history::{cleanup_cutoff_ts, should_vacuum, AgentEventCleanupResult};

#[test]
fn cleanup_cutoff_subtracts_retention_days() {
    let now = 1_700_000_000_i64;
    assert_eq!(cleanup_cutoff_ts(now, 5), now - 5 * 86_400);
    assert_eq!(cleanup_cutoff_ts(now, 0), now);
    let old_ts = now - 10 * 24 * 60 * 60;
    let new_ts = now - 2 * 24 * 60 * 60;
    let cutoff = cleanup_cutoff_ts(now, 5);
    assert!(cutoff > old_ts);
    assert!(cutoff < new_ts);
}

#[test]
fn cleanup_cutoff_saturates() {
    assert_eq!(cleanup_cutoff_ts(i64::MIN + 10, 1), i64::MIN);
    assert_eq!(cleanup_cutoff_ts(i64::MIN, u32::MAX), i64::MIN);
}

#[test]
fn vacuum_runs_only_after_deletions_when_enabled() {
    assert!(should_vacuum(true, 3));
    assert!(!should_vacuum(true, 0));
    assert!(!should_vacuum(false, 3));
    let result = AgentEventCleanupResult {
        cutoff_ts: 1,
        deleted_rows: 2,
        vacuum_ran: false,
    };
    assert_eq!(result.deleted_rows, 2);
}

#[test]
fn later_cleanups_never_keep_what_earlier_ones_deleted() {
    let earlier = cleanup_cutoff_ts(1_000_000, 5);
    let later = cleanup_cutoff_ts(1_086_400, 5);
    assert_eq!(later - earlier, 86_400);
    assert!(cleanup_cutoff_ts(1_000_000, 7) < cleanup_cutoff_ts(1_000_000, 5));
}
