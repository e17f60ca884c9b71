use agenthub::actor_context::{
    build_team_member_actor_context, team_member_actor_context_matches, AcpActorSkillContext, TeamMemberSpec,
};
use agenthub::mailbox::build_actor_mailbox_immediate_hint_prompt_for_test;

#[test]
fn team_member_actor_context_match_rejects_mismatched_team_runtime() {
    let expected = build_team_member_actor_context(
        "team-runtime-startup",
        &TeamMemberSpec {
            member_id: "planner".to_string(),
            role: "coordinator".to_string(),
            model: None,
            description: None,
            prompt: None,
        },
    )
    .expect("expected team member actor context");

    let mismatched = AcpActorSkillContext {
        team_id: Some("other-team".to_string()),
        current_run_id: None,
        actor_id: "planner".to_string(),
        default_channel: "default".to_string(),
        member_role: Some("coordinator".to_string()),
        member_skills: Vec::new(),
        contract_version: None,
        continuity: None,
    };

    assert!(!team_member_actor_context_matches(Some(&mismatched), &expected));
    assert!(team_member_actor_context_matches(Some(&expected), &expected));
    assert!(!team_member_actor_context_matches(None, &expected));
}

#[test]
fn member_context_ignores_contract_version_and_continuity() {
    let expected = build_team_member_actor_context(
        "t",
        &TeamMemberSpec {
            member_id: "m".to_string(),
            role: "r".to_string(),
            model: Some("x".to_string()),
            description: None,
            prompt: None,
        },
    )
    .unwrap();
    assert_eq!(expected.default_channel, "default");
    let mut current = expected.clone();
    current.contract_version = Some("v2".to_string());
    current.continuity = Some("summary".to_string());
    assert!(team_member_actor_context_matches(Some(&current), &expected));
    current.member_skills.push("triage".to_string());
    assert!(!team_member_actor_context_matches(Some(&current), &expected));
}

#[test]
fn mailbox_type_hint_helpers_build_prompt_contains_context() {
    let prompt = build_actor_mailbox_immediate_hint_prompt_for_test("run-42", "direct_agent_message");
    assert!(prompt.contains("run-42"));
    assert!(prompt.contains("Direct mailbox message pending"));
    assert!(prompt.contains("agenthub actor inbox"));
    assert!(prompt.contains("actor inbox"));
}

#[test]
fn mailbox_hint_for_other_reasons_is_generic() {
    let prompt = build_actor_mailbox_immediate_hint_prompt_for_test("r", "broadcast");
    assert_eq!(
        prompt,
        "Mailbox message pending in run r (reason: broadcast). Read it with `agenthub actor inbox` before continuing."
    );
}
