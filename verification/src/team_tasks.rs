//! The checks a request to create a team task passes before the task is
//! stored.
use vstd::prelude::*;
use vstd::string::*;

use crate::api_error::{ApiError, ApiErrorKind};
use crate::text::{owned, str_trim, trim_spec};

verus! {

/// The outcome of checking a task request's fields, in the order title,
/// priority, assigned member: the trimmed title, priority and member, or
/// the first refusal. `priority_parses` tells whether the trimmed priority
/// names a known priority.
pub open spec fn task_fields_spec(
    title: Seq<char>,
    priority: Seq<char>,
    priority_parses: bool,
    assigned_member_id: Seq<char>,
) -> Result<(Seq<char>, Seq<char>, Seq<char>), Seq<char>> {
    if trim_spec(title).len() == 0 {
        Err("title is required"@)
    } else if trim_spec(priority).len() == 0 {
        Err("priority is required"@)
    } else if !priority_parses {
        Err("invalid task priority; expected one of: critical, high, medium, low"@)
    } else if trim_spec(assigned_member_id).len() == 0 {
        Err("assigned_member_id is required"@)
    } else {
        Ok((trim_spec(title), trim_spec(priority), trim_spec(assigned_member_id)))
    }
}

/// Checks the fields of a request to create a team task; each refusal is a
/// 400. Whether the priority names a known priority is decided by the
/// priority type's parser and passed in as `priority_parses`.
pub fn check_team_task_fields(
    title: &str,
    priority: &str,
    priority_parses: bool,
    assigned_member_id: &str,
) -> (res: Result<(String, String, String), ApiError>)
    ensures
        match (res, task_fields_spec(title@, priority@, priority_parses, assigned_member_id@)) {
            (Ok((t, p, a)), Ok((st, sp, sa))) => t@ == st && p@ == sp && a@ == sa,
            (Err(e), Err(m)) => e.kind == ApiErrorKind::BadRequest && e.message@ == m,
            _ => false,
        },
{
    let title = str_trim(title);
    if title.is_empty() {
        return Err(ApiError::bad_request("title is required"));
    }
    let priority = str_trim(priority);
    if priority.is_empty() {
        return Err(ApiError::bad_request("priority is required"));
    }
    if !priority_parses {
        return Err(ApiError::bad_request("invalid task priority; expected one of: critical, high, medium, low"));
    }
    let assigned = str_trim(assigned_member_id);
    if assigned.is_empty() {
        return Err(ApiError::bad_request("assigned_member_id is required"));
    }
    Ok((owned(title), owned(priority), owned(assigned)))
}

/// A task request passes exactly when its title, priority and assigned
/// member are non-blank once trimmed and the priority is known; it then
/// keeps all three trimmed.
pub proof fn law_team_task_fields(title: Seq<char>, priority: Seq<char>, priority_parses: bool, assigned_member_id: Seq<char>)
    ensures
        task_fields_spec(title, priority, priority_parses, assigned_member_id) is Ok <==> (
            trim_spec(title).len() > 0 && trim_spec(priority).len() > 0 && priority_parses
            && trim_spec(assigned_member_id).len() > 0
        ),
        task_fields_spec(title, priority, priority_parses, assigned_member_id) is Ok ==> task_fields_spec(
            title, priority, priority_parses, assigned_member_id)->Ok_0
            == (trim_spec(title), trim_spec(priority), trim_spec(assigned_member_id)),
        trim_spec(title).len() == 0 ==> task_fields_spec(title, priority, priority_parses, assigned_member_id)
            == Err::<(Seq<char>, Seq<char>, Seq<char>), Seq<char>>("title is required"@),
{
}

} // verus!
