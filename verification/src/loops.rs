//! The checks the loop configuration, scheduling and history endpoints
//! make on their requests.
use vstd::prelude::*;
use vstd::string::*;

use crate::api_error::{ApiError, ApiErrorKind};
use crate::daemon_tasks::{join_spec, join_strings, lemma_join_contains_part};
use crate::text::{contains_spec, owned, starts_with_spec, str_starts_with};

verus! {

/// The page size used when a listing request names none.
pub const DEFAULT_PAGE_LIMIT: u32 = 64;

/// The largest page size a listing request may ask for.
pub const MAX_PAGE_LIMIT: u32 = 256;

/// The page size of a schedule listing: an absent limit means 64; a limit
/// outside `1..=256` is refused with a 400.
pub fn page_limit(limit: Option<u32>) -> (res: Result<u32, ApiError>)
    ensures
        ({
            let l = match limit { Some(l) => l, None => DEFAULT_PAGE_LIMIT };
            match res {
                Ok(v) => 1 <= l <= MAX_PAGE_LIMIT && v == l,
                Err(e) => !(1 <= l <= MAX_PAGE_LIMIT) && e.kind == ApiErrorKind::BadRequest
                    && e.message@ == "limit must be between 1 and 256"@,
            }
        }),
{
    let limit = match limit {
        Some(l) => l,
        None => DEFAULT_PAGE_LIMIT,
    };
    if limit < 1 || limit > MAX_PAGE_LIMIT {
        return Err(ApiError::bad_request("limit must be between 1 and 256"));
    }
    Ok(limit)
}

/// Refuses, with a 404, an actor that is not a member of the team.
pub fn require_member(member_ids: &Vec<String>, actor_id: &str) -> (res: Result<(), ApiError>)
    ensures
        match res {
            Ok(()) => member_ids.deep_view().contains(actor_id@),
            Err(e) => !member_ids.deep_view().contains(actor_id@) && e.kind == ApiErrorKind::NotFound
                && e.message@ == "team member not found"@,
        },
{
    let key = owned(actor_id);
    let mut i: usize = 0;
    while i < member_ids.len()
        invariant
            i <= member_ids.len(),
            key@ == actor_id@,
            forall|j: int| 0 <= j < i ==> member_ids.deep_view()[j] != actor_id@,
        decreases member_ids.len() - i,
    {
        if member_ids[i] == key {
            assert(member_ids.deep_view()[i as int] == actor_id@);
            return Ok(());
        }
        i = i + 1;
    }
    proof {
        if member_ids.deep_view().contains(actor_id@) {
            let j = choose|j: int| 0 <= j < member_ids.deep_view().len() && member_ids.deep_view()[j] == actor_id@;
            assert(member_ids.deep_view()[j] != actor_id@);
        }
    }
    Err(ApiError::not_found("team member not found"))
}

/// Refuses, with a 400, a negative firing cursor.
pub fn validate_firing_cursor(cursor: Option<i64>) -> (res: Result<(), ApiError>)
    ensures
        match res {
            Ok(()) => !(cursor matches Some(c) && c < 0),
            Err(e) => (cursor matches Some(c) && c < 0) && e.kind == ApiErrorKind::BadRequest
                && e.message@ == "invalid firing cursor"@,
        },
{
    match cursor {
        Some(c) => {
            if c < 0 {
                return Err(ApiError::bad_request("invalid firing cursor"));
            }
        },
        None => {},
    }
    Ok(())
}

/// Refuses, with a 404, a schedule registration that belongs to another
/// member than the one named in the request.
pub fn require_registration_owner(registration_actor_id: &str, actor_id: &str) -> (res: Result<(), ApiError>)
    ensures
        match res {
            Ok(()) => registration_actor_id@ == actor_id@,
            Err(e) => registration_actor_id@ != actor_id@ && e.kind == ApiErrorKind::NotFound
                && e.message@ == "registration not found for member"@,
        },
{
    if owned(registration_actor_id) == owned(actor_id) {
        Ok(())
    } else {
        Err(ApiError::not_found("registration not found for member"))
    }
}

/// The error that enabling a loop reports when its preflight found
/// blockers.
pub open spec fn preflight_failure_spec(blockers: Seq<Seq<char>>) -> Seq<char> {
    "loop preflight failed: "@ + join_spec(blockers, ", "@)
}

/// The error that enabling a loop reports when its preflight found
/// blockers: the blockers, comma-separated.
pub fn loop_preflight_failure(blockers: &Vec<String>) -> (res: String)
    ensures
        res@ == preflight_failure_spec(blockers.deep_view()),
{
    let mut s = owned("loop preflight failed: ");
    s.append(join_strings(blockers, ", ").as_str());
    s
}

/// Whether a loop configuration may be stored after its preflight: a
/// request that enables the loop is refused, with the preflight failure,
/// unless the preflight found the member ready; a request that leaves the
/// loop paused or disabled always passes.
pub fn check_loop_preflight(enabling: bool, ready: bool, blockers: &Vec<String>) -> (res: Result<(), String>)
    ensures
        match res {
            Ok(()) => !enabling || ready,
            Err(e) => enabling && !ready && e@ == preflight_failure_spec(blockers.deep_view()),
        },
{
    if enabling && !ready {
        return Err(loop_preflight_failure(blockers));
    }
    Ok(())
}

/// The answer to a failed loop configuration: a failed preflight is a 409
/// carrying its message; anything else is an internal error.
pub fn map_loop_configuration_error(message: &str) -> (res: ApiError)
    ensures
        if starts_with_spec(message@, "loop preflight failed:"@) {
            res.kind == ApiErrorKind::Conflict && res.message@ == message@
        } else {
            res.kind == ApiErrorKind::Internal && res.message@ == "internal server error"@
        },
{
    if str_starts_with(message, "loop preflight failed:") {
        ApiError::conflict(message)
    } else {
        ApiError::internal("internal server error")
    }
}

/// A failed preflight refuses to enable a loop with an error that names
/// every blocker, and that error is answered as a conflict carrying it.
pub proof fn law_preflight_failure_is_conflict(blockers: Seq<Seq<char>>)
    ensures
        starts_with_spec(preflight_failure_spec(blockers), "loop preflight failed:"@),
        forall|i: int| 0 <= i < blockers.len() ==> contains_spec(preflight_failure_spec(blockers), #[trigger] blockers[i]),
{
    let m = preflight_failure_spec(blockers);
    let pre = "loop preflight failed: "@;
    let j = join_spec(blockers, ", "@);
    reveal_strlit("loop preflight failed: ");
    reveal_strlit("loop preflight failed:");
    assert(m.subrange(0, "loop preflight failed:"@.len() as int) =~= "loop preflight failed:"@);
    assert forall|i: int| 0 <= i < blockers.len() implies contains_spec(m, #[trigger] blockers[i]) by {
        lemma_join_contains_part(blockers, ", "@, i);
        let b = blockers[i];
        let k = choose|k: int| 0 <= k && k + b.len() <= j.len() && #[trigger] j.subrange(k, k + b.len()) == b;
        assert(m.subrange(pre.len() + k, pre.len() + k + b.len()) =~= j.subrange(k, k + b.len()));
    }
}

} // verus!
