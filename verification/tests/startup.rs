use agenthub::startup::{
    config_log_lines, pyroscope_bootstrap_options, resolve_server_node_id, validate_startup_config,
    ConfigReport, LogLevel, ServerRole,
};

fn report(role: ServerRole) -> ConfigReport {
    ConfigReport {
        file_exists: true,
        path: "/tmp/agenthub/config.toml".to_string(),
        env_overrides: vec!["AGENTHUB_LISTEN".to_string()],
        listen: "127.0.0.1:8080".to_string(),
        role,
        configured_node_id: None,
        node_id: Ok("main".to_string()),
        log_path: Some("/tmp/agenthub/logs/service.log".to_string()),
        log_spec: Some(("/tmp/agenthub/logs".to_string(), "service.log".to_string())),
        rp_id: "localhost".to_string(),
        rp_origin: "http://localhost:8080".to_string(),
        rp_name: "AgentHub".to_string(),
        configured_web_dir: None,
        release_build: false,
        web_dir: Some("web/dist".to_string()),
        codex_acp_binary: "agenthub-codex-acp".to_string(),
        codex_acp_default_mode: None,
        codex_acp_multi_agent_enabled: false,
        vapid_subject: "mailto:admin@example.com".to_string(),
        vapid_keys_path: "/home/u/.agenthub/vapid.json".to_string(),
        default_worktree_root: "~/.agenthub/worktrees".to_string(),
        internal_grpc_enabled: false,
        internal_grpc_listen: "127.0.0.1:50051".to_string(),
        internal_grpc_security_mode: "tls".to_string(),
    }
}

#[test]
fn log_config_details_handles_all_branches() {
    let lines = config_log_lines(&report(ServerRole::Main));
    let texts: Vec<&str> = lines.iter().map(|l| l.text.as_str()).collect();
    assert_eq!(texts[0], "config source: file");
    assert_eq!(texts[1], "config path: /tmp/agenthub/config.toml");
    assert_eq!(lines[2].level, LogLevel::Warn);
    assert_eq!(texts[2], "env overrides ignored: AGENTHUB_LISTEN");
    assert!(texts.contains(&"config log_path: /tmp/agenthub/logs/service.log (dir /tmp/agenthub/logs, file service.log)"));
    assert!(texts.contains(&"config rp_id: localhost"));
    assert!(texts.contains(&"effective web_dir: web/dist"));
    assert!(texts.contains(&"config vapid_subject: mailto:admin@example.com"));
    assert_eq!(*texts.last().unwrap(), "config internal_grpc.security.mode: tls");

    let mut defaults = report(ServerRole::Main);
    defaults.file_exists = false;
    defaults.env_overrides = vec![];
    defaults.log_path = None;
    defaults.log_spec = None;
    defaults.web_dir = None;
    let lines = config_log_lines(&defaults);
    let texts: Vec<&str> = lines.iter().map(|l| l.text.as_str()).collect();
    assert_eq!(texts[0], "config source: defaults");
    assert_eq!(texts[1], "config path: /tmp/agenthub/config.toml (missing)");
    assert!(lines.iter().all(|l| l.level == LogLevel::Info));
    assert!(texts.contains(&"config log_path: <stdout>"));
    assert!(texts.contains(&"effective web_dir: embedded"));
}

#[test]
fn log_config_details_handles_node_mode_branches() {
    let mut node = report(ServerRole::Node);
    node.configured_node_id = Some("node-east".to_string());
    node.node_id = Ok("node-east".to_string());
    node.configured_web_dir = Some("web/custom".to_string());
    node.release_build = true;
    let lines = config_log_lines(&node);
    let texts: Vec<&str> = lines.iter().map(|l| l.text.as_str()).collect();
    assert!(texts.contains(&"config server.role: node"));
    assert!(texts.contains(&"config server.node_id: node-east"));
    assert!(texts.contains(&"effective server.node_id: node-east"));
    assert!(texts.contains(&"config web auth settings: ignored in node mode"));
    assert!(texts.contains(&"config web_dir ignored in release build"));
    assert!(texts.contains(&"config web_dir: web/custom (ignored in node mode)"));
    assert!(texts.contains(&"effective web_dir: <disabled>"));
    assert!(texts.contains(&"config push settings: disabled in node mode"));
    assert!(!texts.iter().any(|t| t.starts_with("config rp_id")));
}

#[test]
fn validate_startup_config_rejects_node_mode_without_internal_grpc() {
    assert_eq!(
        validate_startup_config(ServerRole::Node, &Some("node-east".to_string()), false)
            .expect_err("node role should require internal grpc"),
        "server.role = \"node\" requires internal_grpc.enabled = true"
    );
}

#[test]
fn validate_startup_config_rejects_node_mode_without_node_id() {
    assert_eq!(
        validate_startup_config(ServerRole::Node, &None, true)
            .expect_err("node mode should require explicit node id"),
        "server.node_id is required when server.role = \"node\""
    );
}

#[test]
fn validate_startup_config_rejects_reserved_main_node_id() {
    assert_eq!(
        validate_startup_config(ServerRole::Node, &Some("main".to_string()), true)
            .expect_err("reserved node id should fail validation"),
        "server.node_id must not be \"main\" when server.role = \"node\""
    );
}

#[test]
fn validate_startup_config_accepts_node_mode_with_internal_grpc() {
    validate_startup_config(ServerRole::Node, &Some("node-east".to_string()), true)
        .expect("node role should validate");
}

#[test]
fn validate_startup_config_accepts_main_role_without_internal_grpc() {
    validate_startup_config(ServerRole::Main, &None, false)
        .expect("main role should not require internal grpc");
}

#[test]
fn pyroscope_bootstrap_options_use_role_scoped_application_names() {
    let main_options = pyroscope_bootstrap_options(ServerRole::Main, "1.2.3");
    assert_eq!(main_options.application_name, "agenthub.server");
    assert_eq!(main_options.application_version, "1.2.3");

    let node_options = pyroscope_bootstrap_options(ServerRole::Node, "1.2.3");
    assert_eq!(node_options.application_name, "agenthub.node");
    assert_eq!(node_options.application_version, "1.2.3");
}

#[test]
fn node_ids_resolve_by_role() {
    assert_eq!(resolve_server_node_id(ServerRole::Main, &None), Ok("main".to_string()));
    assert_eq!(
        resolve_server_node_id(ServerRole::Node, &Some("node-west".to_string())),
        Ok("node-west".to_string())
    );
    assert_eq!(ServerRole::Node.as_str(), "node");
}
