//! Retention of agent event history: which events a cleanup deletes and
//! whether it compacts the database afterwards.
use vstd::prelude::*;

verus! {

/// Seconds in a day.
pub const SECONDS_PER_DAY: i64 = 24 * 60 * 60;

/// What one cleanup of the agent event history did.
#[derive(Debug, Clone, Copy, PartialEq, Eq)]
pub struct AgentEventCleanupResult {
    /// Events with a timestamp strictly before this were deleted.
    pub cutoff_ts: i64,
    /// How many events were deleted.
    pub deleted_rows: u64,
    /// Whether the database was compacted afterwards.
    pub vacuum_ran: bool,
}

/// The cutoff of a cleanup at time `now` keeping `retention_days` days:
/// `now` minus that many days, saturating at the smallest timestamp.
pub open spec fn cutoff_spec(now: i64, retention_days: u32) -> int {
    let c = now - retention_days * SECONDS_PER_DAY;
    if c < i64::MIN { i64::MIN as int } else { c }
}

/// The timestamp before which events are deleted.
pub fn cleanup_cutoff_ts(now: i64, retention_days: u32) -> (res: i64)
    ensures
        res == cutoff_spec(now, retention_days),
{
    let days: i64 = retention_days as i64;
    assert(days * SECONDS_PER_DAY <= 4294967295 * 86400) by (nonlinear_arith)
        requires 0 <= days <= 4294967295;
    let retention_seconds: i64 = days * SECONDS_PER_DAY;
    if now < i64::MIN + retention_seconds {
        i64::MIN
    } else {
        now - retention_seconds
    }
}

/// Whether an event with timestamp `ts` is deleted by a cleanup with
/// cutoff `cutoff_ts`.
pub open spec fn is_expired(ts: i64, cutoff_ts: i64) -> bool {
    ts < cutoff_ts
}

/// A cleanup compacts the database only when asked to and when it deleted
/// something.
pub fn should_vacuum(vacuum_on_cleanup: bool, deleted_rows: u64) -> (res: bool)
    ensures
        res == (vacuum_on_cleanup && deleted_rows > 0),
{
    vacuum_on_cleanup && deleted_rows > 0
}

/// A longer retention never deletes an event that a shorter one keeps: the
/// cutoff moves back (or stays) as the retention grows.
pub proof fn law_longer_retention_keeps_more(now: i64, shorter: u32, longer: u32, ts: i64)
    requires
        shorter <= longer,
    ensures
        cutoff_spec(now, longer) <= cutoff_spec(now, shorter),
        ts < cutoff_spec(now, longer) ==> ts < cutoff_spec(now, shorter),
{
    assert(longer * SECONDS_PER_DAY >= shorter * SECONDS_PER_DAY) by (nonlinear_arith)
        requires shorter <= longer;
}

/// A later cleanup with the same retention never keeps an event that an
/// earlier one deleted: the cutoff moves forward (or stays) with time.
pub proof fn law_later_cleanup_cuts_later(earlier: i64, later: i64, retention_days: u32, ts: i64)
    requires
        earlier <= later,
    ensures
        cutoff_spec(earlier, retention_days) <= cutoff_spec(later, retention_days),
        ts < cutoff_spec(earlier, retention_days) ==> ts < cutoff_spec(later, retention_days),
{
}

} // verus!
