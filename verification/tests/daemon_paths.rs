use agenthub::daemon_binary::{daemon_binary_candidate, resolve_daemon_binary_path};
use agenthub::daemon_lock::{lock_busy_message, lock_path_for, new_db_path_parts, to_hex, DaemonClaim};
use agenthub::database::{default_db_path, is_duplicate_column_error, parent_dir_to_create};
use sha2::Digest;

#[test]
fn lock_path_sits_beside_the_database() {
    let path = lock_path_for("/var/lib/agenthub/agenthub.db", "main").unwrap();
    let mut data = b"/var/lib/agenthub/agenthub.db".to_vec();
    data.push(0);
    data.extend_from_slice(b"main");
    let digest: Vec<u8> = sha2::Sha256::digest(&data).to_vec();
    let hex: String = digest.iter().map(|b| format!("{b:02x}")).collect();
    assert_eq!(path, format!("/var/lib/agenthub/.agenthub-daemon-{hex}.lock"));
    assert_ne!(path, lock_path_for("/var/lib/agenthub/agenthub.db", "node-east").unwrap());
    assert_ne!(path, lock_path_for("/srv/agenthub.db", "main").unwrap());
    assert_eq!(
        lock_path_for("/", "main").unwrap_err(),
        "canonical database path must include a parent directory"
    );
}

#[test]
fn hex_encoding_is_lower_case_two_digits_per_byte() {
    assert_eq!(to_hex(&vec![0x00, 0x0f, 0xab, 0xff]), "000fabff");
    assert_eq!(to_hex(&vec![]), "");
}

#[test]
fn daemon_candidate_is_next_to_the_executable() {
    assert_eq!(
        daemon_binary_candidate(Some("/opt/agenthub/bin/agenthub"), ""),
        Some("/opt/agenthub/bin/agenthubd".to_string())
    );
    assert_eq!(
        daemon_binary_candidate(Some("/work/target/debug/deps/agenthub-tests"), ""),
        Some("/work/target/debug/agenthubd".to_string())
    );
    assert_eq!(daemon_binary_candidate(None, ""), None);
}

#[test]
fn falls_back_to_path_lookup() {
    assert_eq!(
        resolve_daemon_binary_path(Some("/missing/agenthubd".to_string()), false, ""),
        "agenthubd"
    );
    assert_eq!(
        resolve_daemon_binary_path(Some("/opt/agenthubd".to_string()), true, ""),
        "/opt/agenthubd"
    );
    assert_eq!(resolve_daemon_binary_path(None, true, ".exe"), "agenthubd.exe");
}

#[test]
fn database_directory_is_the_nonempty_parent() {
    assert_eq!(parent_dir_to_create("/tmp/agenthub/data.db"), Some("/tmp/agenthub".to_string()));
    assert_eq!(parent_dir_to_create("/data.db"), Some("/".to_string()));
    assert_eq!(parent_dir_to_create("data.db"), None);
    assert_eq!(parent_dir_to_create("/"), None);
}

#[test]
fn new_database_paths_split_into_directory_and_name() {
    assert_eq!(
        new_db_path_parts("/srv/agenthub/agenthub.db"),
        Ok(("/srv/agenthub".to_string(), "agenthub.db".to_string()))
    );
    assert_eq!(new_db_path_parts("agenthub.db"), Ok(("".to_string(), "agenthub.db".to_string())));
    assert_eq!(
        new_db_path_parts("/srv/.."),
        Err("database path must include a file name".to_string())
    );
}

#[test]
fn a_busy_lock_names_node_database_and_lock() {
    assert_eq!(
        lock_busy_message("main", "/srv/a.db", "/srv/.x.lock"),
        "daemon instance already owns node \"main\" for database /srv/a.db; lock: /srv/.x.lock"
    );
}

#[test]
fn a_generation_is_claimed_once_and_verified() {
    let mut claim = DaemonClaim::new("node-east".to_string());
    assert_eq!(claim.node_id(), "node-east");
    assert_eq!(claim.generation(), None);
    assert_eq!(
        claim.claimed_generation(),
        Err("daemon generation has not been claimed".to_string())
    );
    assert_eq!(claim.check_unclaimed(), Ok(()));
    claim.record_claim(7);
    assert_eq!(claim.generation(), Some(7));
    assert_eq!(
        claim.check_unclaimed(),
        Err("daemon generation has already been claimed".to_string())
    );
    assert_eq!(claim.claimed_generation(), Ok(7));
    assert_eq!(claim.current_outcome(7, true), Ok(()));
    assert_eq!(
        claim.current_outcome(7, false),
        Err("daemon generation 7 for node \"node-east\" is no longer current".to_string())
    );
    assert_eq!(
        claim.current_outcome(-3, false),
        Err("daemon generation -3 for node \"node-east\" is no longer current".to_string())
    );
}

#[test]
fn database_lives_under_the_home_directory() {
    assert_eq!(default_db_path(Some("/home/ada")), "/home/ada/.agenthub/agenthub.db");
    assert_eq!(default_db_path(Some("/home/ada/")), "/home/ada/.agenthub/agenthub.db");
    assert_eq!(default_db_path(None), "./.agenthub/agenthub.db");
}

#[test]
fn only_duplicate_columns_are_expected_schema_failures() {
    assert!(is_duplicate_column_error("error returned from database: duplicate column name: kind"));
    assert!(!is_duplicate_column_error("no such table: agents"));
}
