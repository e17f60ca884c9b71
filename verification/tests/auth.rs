use agenthub::auth::{
    any_credential_changed, check_existing_user_role, device_enrolment, expect_authentication,
    expect_registration, login_next_step, validate_login, validate_registration, AuthInputError,
    LoginFacts, LoginNextStep, PendingChallenge, PendingChallengeStore,
};

#[test]
fn registration_input_rules_apply_in_order() {
    assert_eq!(
        validate_registration(" alice ", " Alice ", "member", None).unwrap(),
        ("alice".to_string(), "Alice".to_string())
    );
    assert_eq!(
        validate_registration("  ", "", "root", None).unwrap_err(),
        AuthInputError::EmptyUsername
    );
    assert_eq!(
        validate_registration("a@b", "A", "member", None).unwrap_err(),
        AuthInputError::UsernameHasAt
    );
    assert_eq!(
        validate_registration("a", " ", "member", None).unwrap_err(),
        AuthInputError::EmptyDisplayName
    );
    assert_eq!(
        validate_registration("root", "Root", "root", Some("  ")).unwrap_err(),
        AuthInputError::RootNeedsPassword
    );
    assert_eq!(
        validate_registration("root", "Root", "root", None).unwrap_err().message(),
        "root user requires a password"
    );
    assert!(validate_registration("root", "Root", "root", Some("pw")).is_ok());
    assert_eq!(
        AuthInputError::UsernameHasAt.message(),
        "username cannot contain @ (reserved for mentions)"
    );
}

#[test]
fn login_input_must_not_be_blank() {
    assert_eq!(
        validate_login(" bob ", " pw ").unwrap(),
        ("bob".to_string(), "pw".to_string())
    );
    assert_eq!(validate_login("", "pw").unwrap_err().message(), "username cannot be empty");
    assert_eq!(validate_login("bob", " ").unwrap_err().message(), "password cannot be empty");
}

#[test]
fn only_named_devices_are_enrolled() {
    assert_eq!(
        device_enrolment("device", Some("laptop".to_string()), None),
        Some(("laptop".to_string(), "unknown".to_string()))
    );
    assert_eq!(
        device_enrolment("device", Some("laptop".to_string()), Some("curl".to_string())),
        Some(("laptop".to_string(), "curl".to_string()))
    );
    assert_eq!(device_enrolment("device", None, Some("curl".to_string())), None);
    assert_eq!(device_enrolment("member", Some("laptop".to_string()), None), None);
}

#[test]
fn pending_challenges_are_taken_once() {
    let mut store: PendingChallengeStore<u32, u64> = PendingChallengeStore::new();
    store.insert_registration(
        "c1".to_string(),
        "u1".to_string(),
        7,
        "device".to_string(),
        Some("phone".to_string()),
        None,
    );
    store.insert_authentication("c2".to_string(), "u2".to_string(), 9);
    match store.take("c1") {
        Some(PendingChallenge::Registration { user_id, state, role, device_name, user_agent }) => {
            assert_eq!(user_id, "u1");
            assert_eq!(state, 7);
            assert_eq!(role, "device");
            assert_eq!(device_name, Some("phone".to_string()));
            assert_eq!(user_agent, None);
        }
        other => panic!("unexpected {other:?}"),
    }
    assert!(store.take("c1").is_none());
    match store.take("c2") {
        Some(PendingChallenge::Authentication { user_id, state }) => {
            assert_eq!(user_id, "u2");
            assert_eq!(state, 9);
        }
        other => panic!("unexpected {other:?}"),
    }
    assert!(store.take("missing").is_none());
}

#[test]
fn pending_challenge_ids_are_replaced_on_reuse() {
    let mut store: PendingChallengeStore<u32, u64> = PendingChallengeStore::new();
    store.insert_authentication("c".to_string(), "old".to_string(), 1);
    store.insert_authentication("c".to_string(), "new".to_string(), 2);
    match store.take("c") {
        Some(PendingChallenge::Authentication { user_id, state }) => {
            assert_eq!(user_id, "new");
            assert_eq!(state, 2);
        }
        other => panic!("unexpected {other:?}"),
    }
    assert!(store.take("c").is_none());
}

#[test]
fn existing_user_must_keep_its_role() {
    assert_eq!(check_existing_user_role("member", "member"), Ok(()));
    assert_eq!(
        check_existing_user_role("member", "root"),
        Err("username already exists".to_string())
    );
}

fn facts(found: bool, has_pw: bool, ok: bool, passkeys: bool, count: usize) -> LoginFacts {
    LoginFacts {
        user_found: found,
        has_password: has_pw,
        password_matches: ok,
        passkeys_enabled: passkeys,
        passkey_count: count,
    }
}

#[test]
fn password_login_decides_the_next_step() {
    assert_eq!(
        login_next_step(&facts(false, true, true, true, 1)),
        Err("user not found".to_string())
    );
    assert_eq!(
        login_next_step(&facts(true, false, true, true, 1)),
        Err("password not set".to_string())
    );
    assert_eq!(
        login_next_step(&facts(true, true, false, true, 1)),
        Err("invalid password".to_string())
    );
    assert_eq!(login_next_step(&facts(true, true, true, false, 3)), Ok(LoginNextStep::Complete));
    assert_eq!(
        login_next_step(&facts(true, true, true, true, 0)),
        Ok(LoginNextStep::RegisterPasskey)
    );
    assert_eq!(
        login_next_step(&facts(true, true, true, true, 2)),
        Ok(LoginNextStep::AuthenticatePasskey)
    );
}

fn registration(state: u32) -> PendingChallenge<u32, u64> {
    PendingChallenge::Registration {
        user_id: "u1".to_string(),
        state,
        role: "member".to_string(),
        device_name: None,
        user_agent: Some("curl".to_string()),
    }
}

fn authentication(state: u64) -> PendingChallenge<u32, u64> {
    PendingChallenge::Authentication { user_id: "u2".to_string(), state }
}

#[test]
fn second_step_checks_the_challenge_kind() {
    let ok = expect_registration(Some(registration(5)), true).unwrap();
    assert_eq!(ok.user_id, "u1");
    assert_eq!(ok.state, 5);
    assert_eq!(ok.role, "member");
    assert_eq!(ok.device_name, None);
    assert_eq!(ok.user_agent, Some("curl".to_string()));
    assert_eq!(expect_registration::<u32, u64>(None, true).unwrap_err(), "invalid challenge");
    assert_eq!(
        expect_registration(Some(authentication(1)), true).unwrap_err(),
        "invalid challenge type"
    );
    assert_eq!(
        expect_registration(Some(registration(5)), false).unwrap_err(),
        "passkey registration is disabled"
    );

    assert_eq!(
        expect_authentication(Some(authentication(8)), true).unwrap(),
        ("u2".to_string(), 8)
    );
    assert_eq!(expect_authentication::<u32, u64>(None, true).unwrap_err(), "invalid challenge");
    assert_eq!(
        expect_authentication(Some(registration(1)), true).unwrap_err(),
        "invalid challenge type"
    );
    assert_eq!(
        expect_authentication(Some(authentication(8)), false).unwrap_err(),
        "passkey authentication is disabled"
    );
}

#[test]
fn credentials_are_saved_only_when_one_changed() {
    assert!(!any_credential_changed(&vec![]));
    assert!(!any_credential_changed(&vec![None, Some(false), None]));
    assert!(any_credential_changed(&vec![None, Some(true), Some(false)]));
}
