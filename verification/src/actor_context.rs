//! The skill context a team member's agent runs with, and when a running
//! agent's context still fits its team membership.
use vstd::prelude::*;
use vstd::string::*;

use crate::text::owned;

verus! {

/// The channel actors talk on unless told otherwise.
pub open spec fn default_actor_channel() -> Seq<char> {
    "default"@
}

/// One member of a team as its specification declares it.
#[derive(Debug, Clone)]
pub struct TeamMemberSpec {
    pub member_id: String,
    pub role: String,
    pub model: Option<String>,
    pub description: Option<String>,
    pub prompt: Option<String>,
}

/// The context an agent is started with when it acts for a team member.
#[derive(Debug, Clone, PartialEq, Eq)]
pub struct AcpActorSkillContext {
    pub team_id: Option<String>,
    pub current_run_id: Option<String>,
    pub actor_id: String,
    pub default_channel: String,
    pub member_role: Option<String>,
    pub member_skills: Vec<String>,
    pub contract_version: Option<String>,
    pub continuity: Option<String>,
}

/// The part of a context that decides whether an agent may keep running
/// for a member: everything but the contract version and continuity.
pub open spec fn context_identity(c: AcpActorSkillContext) -> (
    Option<Seq<char>>,
    Option<Seq<char>>,
    Seq<char>,
    Seq<char>,
    Option<Seq<char>>,
    Seq<Seq<char>>,
) {
    (
        c.team_id.deep_view(),
        c.current_run_id.deep_view(),
        c.actor_id@,
        c.default_channel@,
        c.member_role.deep_view(),
        c.member_skills.deep_view(),
    )
}

/// The context for `member` of team `team_id`: no run yet, the default
/// channel, the member's role, and no skills.
pub fn build_team_member_actor_context(team_id: &str, member: &TeamMemberSpec) -> (res: Result<AcpActorSkillContext, String>)
    ensures
        res is Ok,
        res->Ok_0.team_id.deep_view() == Some(team_id@),
        res->Ok_0.current_run_id is None,
        res->Ok_0.actor_id@ == member.member_id@,
        res->Ok_0.default_channel@ == default_actor_channel(),
        res->Ok_0.member_role.deep_view() == Some(member.role@),
        res->Ok_0.member_skills@.len() == 0,
        res->Ok_0.contract_version is None,
        res->Ok_0.continuity is None,
{
    Ok(AcpActorSkillContext {
        team_id: Some(owned(team_id)),
        current_run_id: None,
        actor_id: member.member_id.clone(),
        default_channel: owned("default"),
        member_role: Some(member.role.clone()),
        member_skills: Vec::new(),
        contract_version: None,
        continuity: None,
    })
}

fn same_opt(a: &Option<String>, b: &Option<String>) -> (res: bool)
    ensures
        res == (a.deep_view() == b.deep_view()),
{
    match (a, b) {
        (Some(x), Some(y)) => *x == *y,
        (None, None) => true,
        _ => false,
    }
}

fn same_list(a: &Vec<String>, b: &Vec<String>) -> (res: bool)
    ensures
        res == (a.deep_view() == b.deep_view()),
{
    if a.len() != b.len() {
        proof {
            assert(a.deep_view().len() != b.deep_view().len());
        }
        return false;
    }
    let mut i: usize = 0;
    while i < a.len()
        invariant
            a.len() == b.len(),
            i <= a.len(),
            forall|j: int| 0 <= j < i ==> a.deep_view()[j] == b.deep_view()[j],
        decreases a.len() - i,
    {
        if a[i] != b[i] {
            assert(a.deep_view()[i as int] != b.deep_view()[i as int]);
            return false;
        }
        i = i + 1;
    }
    assert(a.deep_view() =~= b.deep_view());
    true
}

/// Whether a running agent's context (if any) fits the expected member
/// context: same team, run, actor, channel, role and skills.
pub fn team_member_actor_context_matches(current: Option<&AcpActorSkillContext>, expected: &AcpActorSkillContext) -> (res: bool)
    ensures
        res == match current {
            Some(c) => context_identity(*c) == context_identity(*expected),
            None => false,
        },
{
    let current = match current {
        Some(c) => c,
        None => return false,
    };
    same_opt(&current.team_id, &expected.team_id)
        && same_opt(&current.current_run_id, &expected.current_run_id)
        && current.actor_id == expected.actor_id
        && current.default_channel == expected.default_channel
        && same_opt(&current.member_role, &expected.member_role)
        && same_list(&current.member_skills, &expected.member_skills)
}

} // verus!
