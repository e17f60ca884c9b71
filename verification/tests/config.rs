use agenthub::config::{
    config_path, detect_env_overrides, env_override_keys, expand_tilde, AcpProviderDefaults,
    AcpProviderDefaultsConfig, AppConfig, CodexAcpConfig, HistoryConfig, InternalGrpcAuthConfig,
    InternalGrpcBootstrapConfig, InternalGrpcConfig, InternalGrpcSecurityConfig, ProxyConfig, PushConfig,
    ServerConfig, WebConfig, WorktreeConfig,
};

#[test]
fn default_worktree_root_uses_builtin_default() {
    let config = AppConfig::default();
    assert_eq!(config.default_worktree_root(), "~/.agenthub/worktrees");
}

#[test]
fn default_worktree_root_uses_configured_value() {
    let config = AppConfig {
        worktree: Some(WorktreeConfig {
            default_root: Some("/tmp/custom-worktrees".to_string()),
        }),
        ..Default::default()
    };
    assert_eq!(config.default_worktree_root(), "/tmp/custom-worktrees");
}

#[test]
fn default_worktree_root_trims_blank_value() {
    let config = AppConfig {
        worktree: Some(WorktreeConfig {
            default_root: Some("   ".to_string()),
        }),
        ..Default::default()
    };
    assert_eq!(config.default_worktree_root(), "~/.agenthub/worktrees");
}

#[test]
fn safe_paths_includes_default_worktrees_path() {
    let config = AppConfig::default();
    assert_eq!(config.safe_paths(), vec!["~/.agenthub/worktrees".to_string()]);
}

#[test]
fn safe_paths_merges_configured_paths_and_deduplicates() {
    let config = AppConfig {
        safe_paths: Some(vec![
            " /tmp/a ".to_string(),
            "~/.agenthub/worktrees".to_string(),
            "".to_string(),
            "/tmp/a".to_string(),
        ]),
        ..Default::default()
    };
    assert_eq!(
        config.safe_paths(),
        vec!["~/.agenthub/worktrees".to_string(), "/tmp/a".to_string()]
    );
}

#[test]
fn internal_grpc_defaults_are_stable() {
    let config = AppConfig::default();
    assert!(!config.internal_grpc_enabled());
    assert_eq!(config.internal_grpc_listen_addr(), "127.0.0.1:50051");
    assert_eq!(config.internal_grpc_security_mode(), "tls");
    assert!(config.internal_grpc_auth_shared_secret().is_none());
    assert!(config.internal_grpc_auth_issuer().is_none());
    assert!(config.internal_grpc_auth_audience().is_none());
    assert!(config.internal_grpc_bootstrap_token().is_none());
}

#[test]
fn history_defaults_use_five_days_and_no_vacuum() {
    let config = AppConfig::default();
    assert_eq!(config.history_event_retention_days(), Some(5));
    assert!(!config.history_vacuum_on_cleanup());
}

#[test]
fn history_config_applies_custom_values() {
    let config = AppConfig {
        history: Some(HistoryConfig {
            event_retention_days: Some(14),
            vacuum_on_cleanup: Some(true),
        }),
        ..Default::default()
    };
    assert_eq!(config.history_event_retention_days(), Some(14));
    assert!(config.history_vacuum_on_cleanup());
}

#[test]
fn history_retention_can_be_disabled_with_zero() {
    let config = AppConfig {
        history: Some(HistoryConfig {
            event_retention_days: Some(0),
            vacuum_on_cleanup: Some(false),
        }),
        ..Default::default()
    };
    assert_eq!(config.history_event_retention_days(), None);
}

#[test]
fn acp_provider_defaults_supports_legacy_codex_defaults() {
    let config = AppConfig {
        codex_acp: Some(CodexAcpConfig {
            binary: None,
            default_mode: Some(" code ".to_string()),
            default_model: Some(" gpt-5 ".to_string()),
            provider_defaults: None,
        }),
        ..Default::default()
    };

    let defaults = config.acp_provider_defaults();
    assert_eq!(
        defaults.get("codex"),
        Some(&AcpProviderDefaults {
            default_mode: Some("code".to_string()),
            default_model: Some("gpt-5".to_string()),
        })
    );
}

#[test]
fn acp_provider_defaults_reads_provider_map() {
    let provider_defaults = vec![
        (
            "Gemini".to_string(),
            AcpProviderDefaultsConfig {
                default_mode: Some("default".to_string()),
                default_model: Some("gemini-2.5-pro".to_string()),
            },
        ),
        (
            "linkerdog".to_string(),
            AcpProviderDefaultsConfig {
                default_mode: Some("planning".to_string()),
                default_model: None,
            },
        ),
    ];
    let config = AppConfig {
        codex_acp: Some(CodexAcpConfig {
            binary: None,
            default_mode: None,
            default_model: None,
            provider_defaults: Some(provider_defaults),
        }),
        ..Default::default()
    };

    let defaults = config.acp_provider_defaults();
    assert_eq!(
        defaults.get("gemini"),
        Some(&AcpProviderDefaults {
            default_mode: Some("default".to_string()),
            default_model: Some("gemini-2.5-pro".to_string()),
        })
    );
    assert_eq!(
        defaults.get("linkerdog"),
        Some(&AcpProviderDefaults {
            default_mode: Some("planning".to_string()),
            default_model: None,
        })
    );
}

#[test]
fn acp_provider_defaults_prefers_provider_specific_codex_values() {
    let provider_defaults = vec![(
        "codex".to_string(),
        AcpProviderDefaultsConfig {
            default_mode: Some("safe".to_string()),
            default_model: None,
        },
    )];
    let config = AppConfig {
        codex_acp: Some(CodexAcpConfig {
            binary: None,
            default_mode: Some("code".to_string()),
            default_model: Some("gpt-5".to_string()),
            provider_defaults: Some(provider_defaults),
        }),
        ..Default::default()
    };

    let defaults = config.acp_provider_defaults();
    assert_eq!(
        defaults.get("codex"),
        Some(&AcpProviderDefaults {
            default_mode: Some("safe".to_string()),
            default_model: Some("gpt-5".to_string()),
        })
    );
}

#[test]
fn acp_provider_defaults_skips_blank_entries_and_later_entries_win() {
    let provider_defaults = vec![
        (
            "  ".to_string(),
            AcpProviderDefaultsConfig {
                default_mode: Some("x".to_string()),
                default_model: None,
            },
        ),
        (
            "Empty".to_string(),
            AcpProviderDefaultsConfig {
                default_mode: Some("  ".to_string()),
                default_model: None,
            },
        ),
        (
            " Mistral ".to_string(),
            AcpProviderDefaultsConfig {
                default_mode: Some("first".to_string()),
                default_model: None,
            },
        ),
        (
            "mistral".to_string(),
            AcpProviderDefaultsConfig {
                default_mode: None,
                default_model: Some(" opus ".to_string()),
            },
        ),
    ];
    let config = AppConfig {
        codex_acp: Some(CodexAcpConfig {
            binary: None,
            default_mode: None,
            default_model: None,
            provider_defaults: Some(provider_defaults),
        }),
        ..Default::default()
    };
    let defaults = config.acp_provider_defaults();
    assert_eq!(defaults.len(), 1);
    assert_eq!(defaults.get("empty"), None);
    assert_eq!(
        defaults.get("mistral"),
        Some(&AcpProviderDefaults {
            default_mode: None,
            default_model: Some("opus".to_string()),
        })
    );
    assert!(defaults.get("codex").is_none());
}

#[test]
fn plain_settings_fall_back_to_builtin_defaults() {
    let config = AppConfig::default();
    assert_eq!(config.listen_addr(), "127.0.0.1:8080");
    assert_eq!(config.rp_id(), "localhost");
    assert_eq!(config.rp_origin(), "http://localhost:8080");
    assert_eq!(config.rp_name(), "AgentHub");
    assert_eq!(config.codex_acp_binary(), "agenthub-codex-acp");
    assert_eq!(config.vapid_subject(), "mailto:admin@example.com");
    assert_eq!(config.codex_acp_default_mode(), None);
    assert_eq!(config.codex_acp_default_model(), None);
    assert!(config.proxy_env().is_empty());
    assert_eq!(config.log_path(Some("/home/u")), None);
}

#[test]
fn plain_settings_are_taken_as_written() {
    let config = AppConfig {
        server: Some(ServerConfig {
            listen: Some(" 0.0.0.0:9000".to_string()),
        }),
        web: Some(WebConfig {
            rp_id: Some("example.com".to_string()),
            rp_origin: Some("https://example.com".to_string()),
            rp_name: Some("Hub".to_string()),
        }),
        push: Some(PushConfig {
            subject: Some("mailto:ops@example.com".to_string()),
            keys_path: Some("/etc/vapid.json".to_string()),
        }),
        ..Default::default()
    };
    assert_eq!(config.listen_addr(), " 0.0.0.0:9000");
    assert_eq!(config.rp_id(), "example.com");
    assert_eq!(config.rp_origin(), "https://example.com");
    assert_eq!(config.rp_name(), "Hub");
    assert_eq!(config.vapid_subject(), "mailto:ops@example.com");
    assert_eq!(config.vapid_keys_path(Some("/home/u")), "/etc/vapid.json");
}

#[test]
fn internal_grpc_settings_are_trimmed() {
    let config = AppConfig {
        internal_grpc: Some(InternalGrpcConfig {
            enabled: Some(true),
            listen: Some(" 10.0.0.1:7000 ".to_string()),
            security: Some(InternalGrpcSecurityConfig {
                mode: Some(" insecure ".to_string()),
                cert_dir: Some(" ~/certs ".to_string()),
            }),
            auth: Some(InternalGrpcAuthConfig {
                shared_secret: Some(" s3cret ".to_string()),
                issuer: Some("  ".to_string()),
                audience: Some("hub".to_string()),
            }),
            bootstrap: Some(InternalGrpcBootstrapConfig {
                token: Some(" tok ".to_string()),
            }),
        }),
        ..Default::default()
    };
    assert!(config.internal_grpc_enabled());
    assert_eq!(config.internal_grpc_listen_addr(), "10.0.0.1:7000");
    assert_eq!(config.internal_grpc_security_mode(), "insecure");
    assert_eq!(config.internal_grpc_cert_dir(Some("/home/u")), "/home/u/certs");
    assert_eq!(config.internal_grpc_auth_shared_secret(), Some("s3cret".to_string()));
    assert_eq!(config.internal_grpc_auth_issuer(), None);
    assert_eq!(config.internal_grpc_auth_audience(), Some("hub".to_string()));
    assert_eq!(config.internal_grpc_bootstrap_token(), Some("tok".to_string()));
}

#[test]
fn home_relative_paths_use_home_or_current_dir() {
    let config = AppConfig::default();
    assert_eq!(config.internal_grpc_cert_dir(Some("/home/u")), "/home/u/.agenthub/internal-grpc");
    assert_eq!(config.internal_grpc_cert_dir(None), "./.agenthub/internal-grpc");
    assert_eq!(config.vapid_keys_path(Some("/home/u/")), "/home/u/.agenthub/vapid.json");
    assert_eq!(config_path(Some("/root")), "/root/.agenthub/config.toml");
    assert_eq!(config_path(None), "./.agenthub/config.toml");
}

#[test]
fn log_path_is_trimmed_and_tilde_expanded() {
    let config = AppConfig {
        log_path: Some("  ~/logs/hub.log ".to_string()),
        ..Default::default()
    };
    assert_eq!(config.log_path(Some("/home/u")), Some("/home/u/logs/hub.log".to_string()));
    assert_eq!(config.log_path(None), Some("~/logs/hub.log".to_string()));
    let blank = AppConfig {
        log_path: Some("   ".to_string()),
        ..Default::default()
    };
    assert_eq!(blank.log_path(Some("/home/u")), None);
}

#[test]
fn expand_tilde_handles_each_form() {
    assert_eq!(expand_tilde("~", Some("/home/u")), "/home/u");
    assert_eq!(expand_tilde("~", None), "~");
    assert_eq!(expand_tilde("~/a/b", Some("/home/u")), "/home/u/a/b");
    assert_eq!(expand_tilde("~/a/b", None), "~/a/b");
    assert_eq!(expand_tilde("~user/a", Some("/home/u")), "~user/a");
    assert_eq!(expand_tilde("/abs", Some("/home/u")), "/abs");
    assert_eq!(expand_tilde("~//etc", Some("/home/u")), "/etc");
}


#[test]
fn effective_web_dir_only_in_debug_builds() {
    let config = AppConfig {
        web_dir: Some(" web/custom ".to_string()),
        ..Default::default()
    };
    assert_eq!(config.effective_web_dir(true), Some("web/custom".to_string()));
    assert_eq!(config.effective_web_dir(false), None);
    assert_eq!(AppConfig::default().effective_web_dir(true), Some("web/dist".to_string()));
}

#[test]
fn proxy_env_lists_upper_and_lower_case_variables_in_order() {
    let config = AppConfig {
        proxy: Some(ProxyConfig {
            http: Some("http://p:1".to_string()),
            https: None,
            all: Some("socks5://p:2".to_string()),
        }),
        ..Default::default()
    };
    assert_eq!(
        config.proxy_env(),
        vec![
            ("HTTP_PROXY".to_string(), "http://p:1".to_string()),
            ("http_proxy".to_string(), "http://p:1".to_string()),
            ("ALL_PROXY".to_string(), "socks5://p:2".to_string()),
            ("all_proxy".to_string(), "socks5://p:2".to_string()),
        ]
    );
}

#[test]
fn env_overrides_report_only_non_empty_values() {
    let keys = env_override_keys();
    assert_eq!(keys.len(), 26);
    assert_eq!(keys[0], "AGENTHUB_LISTEN");
    assert_eq!(keys[25], "AGENTHUB_VAPID_PRIVATE_KEY");
    let found = vec![
        ("AGENTHUB_LISTEN".to_string(), Some("0.0.0.0:1".to_string())),
        ("AGENTHUB_RP_ID".to_string(), Some(String::new())),
        ("AGENTHUB_RP_NAME".to_string(), None),
        ("AGENTHUB_WEB_DIR".to_string(), Some("x".to_string())),
    ];
    assert_eq!(
        detect_env_overrides(&found),
        vec!["AGENTHUB_LISTEN".to_string(), "AGENTHUB_WEB_DIR".to_string()]
    );
}

#[test]
fn acp_provider_defaults_are_empty_without_a_codex_acp_section() {
    let config = AppConfig::default();
    let defaults = config.acp_provider_defaults();
    assert_eq!(defaults.len(), 0);
    assert!(defaults.get("codex").is_none());
}
