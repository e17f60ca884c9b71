//! Application settings as read from `~/.agenthub/config.toml`, and the
//! effective values the service derives from them.
use vstd::prelude::*;
use vstd::string::*;

use crate::paths::{path_joined, path_join};
use crate::text::{owned, starts_with_spec, str_starts_with, trimmed_nonempty, trimmed_setting};

verus! {

/// Where a configuration came from: the file consulted, whether it existed,
/// and which environment overrides were set (and ignored).
#[derive(Debug, Clone)]
pub struct ConfigLoadInfo {
    pub path: String,
    pub file_exists: bool,
    pub env_overrides: Vec<String>,
}

/// The whole configuration file; every section is optional.
#[derive(Debug, Clone, Default)]
pub struct AppConfig {
    pub server: Option<ServerConfig>,
    pub web: Option<WebConfig>,
    pub proxy: Option<ProxyConfig>,
    pub worktree: Option<WorktreeConfig>,
    pub codex_acp: Option<CodexAcpConfig>,
    pub history: Option<HistoryConfig>,
    pub push: Option<PushConfig>,
    pub internal_grpc: Option<InternalGrpcConfig>,
    pub safe_paths: Option<Vec<String>>,
    pub web_dir: Option<String>,
    pub log_path: Option<String>,
}

#[derive(Debug, Clone)]
pub struct ServerConfig {
    pub listen: Option<String>,
}

#[derive(Debug, Clone)]
pub struct WebConfig {
    pub rp_id: Option<String>,
    pub rp_origin: Option<String>,
    pub rp_name: Option<String>,
}

#[derive(Debug, Clone)]
pub struct ProxyConfig {
    pub http: Option<String>,
    pub https: Option<String>,
    pub all: Option<String>,
}

#[derive(Debug, Clone)]
pub struct WorktreeConfig {
    pub default_root: Option<String>,
}

/// The `[codex_acp]` section. The per-provider table is kept as the list of
/// its `(provider, settings)` entries.
#[derive(Debug, Clone)]
pub struct CodexAcpConfig {
    pub binary: Option<String>,
    pub default_mode: Option<String>,
    pub default_model: Option<String>,
    pub provider_defaults: Option<Vec<(String, AcpProviderDefaultsConfig)>>,
}

#[derive(Debug, Clone)]
pub struct AcpProviderDefaultsConfig {
    pub default_mode: Option<String>,
    pub default_model: Option<String>,
}

/// The effective defaults for one ACP provider.
#[derive(Debug, Clone, PartialEq, Eq, Default)]
pub struct AcpProviderDefaults {
    pub default_mode: Option<String>,
    pub default_model: Option<String>,
}

#[derive(Debug, Clone)]
pub struct PushConfig {
    pub subject: Option<String>,
    pub keys_path: Option<String>,
}

#[derive(Debug, Clone)]
pub struct HistoryConfig {
    pub event_retention_days: Option<u32>,
    pub vacuum_on_cleanup: Option<bool>,
}

#[derive(Debug, Clone)]
pub struct InternalGrpcConfig {
    pub enabled: Option<bool>,
    pub listen: Option<String>,
    pub security: Option<InternalGrpcSecurityConfig>,
    pub auth: Option<InternalGrpcAuthConfig>,
    pub bootstrap: Option<InternalGrpcBootstrapConfig>,
}

#[derive(Debug, Clone)]
pub struct InternalGrpcSecurityConfig {
    pub mode: Option<String>,
    pub cert_dir: Option<String>,
}

#[derive(Debug, Clone)]
pub struct InternalGrpcAuthConfig {
    pub shared_secret: Option<String>,
    pub issuer: Option<String>,
    pub audience: Option<String>,
}

#[derive(Debug, Clone)]
pub struct InternalGrpcBootstrapConfig {
    pub token: Option<String>,
}

/// The worktree root used when none is configured; it is always a safe path.
pub open spec fn default_safe_path() -> Seq<char> {
    "~/.agenthub/worktrees"@
}

/// The event retention, in days, used when none is configured.
pub const DEFAULT_HISTORY_EVENT_RETENTION_DAYS: u32 = 5;

/// The home directory used when `HOME` is not set.
pub open spec fn home_or_current(home: Option<Seq<char>>) -> Seq<char> {
    match home {
        Some(h) => h,
        None => "."@,
    }
}

/// A leading `~` (alone, or followed by `/`) replaced by the home
/// directory, when one is known.
pub open spec fn expand_tilde_spec(path: Seq<char>, home: Option<Seq<char>>) -> Seq<char> {
    if path == "~"@ {
        match home {
            Some(h) => h,
            None => path,
        }
    } else if starts_with_spec(path, "~/"@) {
        match home {
            Some(h) => path_joined(h, path.subrange(2, path.len() as int)),
            None => path,
        }
    } else {
        path
    }
}

/// Replaces a leading `~` or `~/` by `home`; without a home directory the
/// path is returned unchanged.
pub fn expand_tilde(path: &str, home: Option<&str>) -> (res: String)
    ensures
        res@ == expand_tilde_spec(path@, match home { Some(h) => Some(h@), None => None }),
{
    let tilde_slash = "~/";
    proof {
        reveal_strlit("~");
        reveal_strlit("~/");
    }
    if path.unicode_len() == 1 && path.get_char(0) == '~' {
        proof {
            assert(path@ =~= "~"@);
        }
        match home {
            Some(h) => owned(h),
            None => owned(path),
        }
    } else if str_starts_with(path, tilde_slash) {
        proof {
            assert(path@ != "~"@);
        }
        match home {
            Some(h) => {
                let n = path.unicode_len();
                let rest = path.substring_char(2, n);
                path_join(h, rest)
            },
            None => owned(path),
        }
    } else {
        proof {
            if path@ == "~"@ {
                assert(path@.len() == 1 && path@[0] == '~');
            }
        }
        owned(path)
    }
}

impl AppConfig {
    pub open spec fn spec_worktree_default_root(self) -> Option<Seq<char>> {
        match self.worktree {
            Some(w) => w.default_root.deep_view(),
            None => None,
        }
    }

    /// The root under which new worktrees are created: the configured value,
    /// trimmed, or `~/.agenthub/worktrees` when it is absent or blank.
    pub fn default_worktree_root(&self) -> (res: String)
        ensures
            res@ == match trimmed_nonempty(self.spec_worktree_default_root()) {
                Some(v) => v,
                None => default_safe_path(),
            },
    {
        let configured = match &self.worktree {
            Some(w) => trimmed_setting(&w.default_root),
            None => None,
        };
        match configured {
            Some(v) => v,
            None => owned("~/.agenthub/worktrees"),
        }
    }

    /// The directory the web UI is served from: only in debug builds, the
    /// configured `web_dir` trimmed, or `web/dist` when it is absent or
    /// blank. Release builds serve the embedded assets (`None`).
    pub fn effective_web_dir(&self, debug_build: bool) -> (res: Option<String>)
        ensures
            !debug_build ==> res is None,
            debug_build ==> res is Some && res->0@ == match trimmed_nonempty(self.web_dir.deep_view()) {
                Some(v) => v,
                None => "web/dist"@,
            },
    {
        if debug_build {
            let dir = match trimmed_setting(&self.web_dir) {
                Some(v) => v,
                None => owned("web/dist"),
            };
            return Some(dir);
        }
        None
    }

    pub open spec fn spec_server_listen(self) -> Option<Seq<char>> {
        match self.server {
            Some(s) => s.listen.deep_view(),
            None => None,
        }
    }

    /// The HTTP listen address: `server.listen` as written, or
    /// `127.0.0.1:8080`.
    pub fn listen_addr(&self) -> (res: String)
        ensures
            res@ == match self.spec_server_listen() {
                Some(v) => v,
                None => "127.0.0.1:8080"@,
            },
    {
        match &self.server {
            Some(s) => match &s.listen {
                Some(l) => return l.clone(),
                None => {},
            },
            None => {},
        }
        owned("127.0.0.1:8080")
    }

    pub open spec fn spec_web_rp_id(self) -> Option<Seq<char>> {
        match self.web {
            Some(w) => w.rp_id.deep_view(),
            None => None,
        }
    }

    pub open spec fn spec_web_rp_origin(self) -> Option<Seq<char>> {
        match self.web {
            Some(w) => w.rp_origin.deep_view(),
            None => None,
        }
    }

    pub open spec fn spec_web_rp_name(self) -> Option<Seq<char>> {
        match self.web {
            Some(w) => w.rp_name.deep_view(),
            None => None,
        }
    }

    /// The WebAuthn relying-party id: `web.rp_id` as written, or `localhost`.
    pub fn rp_id(&self) -> (res: String)
        ensures
            res@ == match self.spec_web_rp_id() {
                Some(v) => v,
                None => "localhost"@,
            },
    {
        match &self.web {
            Some(w) => match &w.rp_id {
                Some(v) => return v.clone(),
                None => {},
            },
            None => {},
        }
        owned("localhost")
    }

    /// The WebAuthn relying-party origin: `web.rp_origin` as written, or
    /// `http://localhost:8080`.
    pub fn rp_origin(&self) -> (res: String)
        ensures
            res@ == match self.spec_web_rp_origin() {
                Some(v) => v,
                None => "http://localhost:8080"@,
            },
    {
        match &self.web {
            Some(w) => match &w.rp_origin {
                Some(v) => return v.clone(),
                None => {},
            },
            None => {},
        }
        owned("http://localhost:8080")
    }

    /// The WebAuthn relying-party display name: `web.rp_name` as written, or
    /// `AgentHub`.
    pub fn rp_name(&self) -> (res: String)
        ensures
            res@ == match self.spec_web_rp_name() {
                Some(v) => v,
                None => "AgentHub"@,
            },
    {
        match &self.web {
            Some(w) => match &w.rp_name {
                Some(v) => return v.clone(),
                None => {},
            },
            None => {},
        }
        owned("AgentHub")
    }

    /// The service log file: the configured `log_path` trimmed, with a
    /// leading `~` expanded against `home`; `None` (log to stdout) when it is
    /// absent or blank.
    pub fn log_path(&self, home: Option<&str>) -> (res: Option<String>)
        ensures
            res.deep_view() == match trimmed_nonempty(self.log_path.deep_view()) {
                Some(v) => Some(expand_tilde_spec(v, match home { Some(h) => Some(h@), None => None })),
                None => None,
            },
    {
        match trimmed_setting(&self.log_path) {
            Some(v) => Some(expand_tilde(v.as_str(), home)),
            None => None,
        }
    }

    pub open spec fn spec_codex_binary(self) -> Option<Seq<char>> {
        match self.codex_acp {
            Some(c) => c.binary.deep_view(),
            None => None,
        }
    }

    pub open spec fn spec_codex_default_mode(self) -> Option<Seq<char>> {
        match self.codex_acp {
            Some(c) => c.default_mode.deep_view(),
            None => None,
        }
    }

    pub open spec fn spec_codex_default_model(self) -> Option<Seq<char>> {
        match self.codex_acp {
            Some(c) => c.default_model.deep_view(),
            None => None,
        }
    }

    /// The ACP bridge executable: `codex_acp.binary` as written, or
    /// `agenthub-codex-acp`.
    pub fn codex_acp_binary(&self) -> (res: String)
        ensures
            res@ == match self.spec_codex_binary() {
                Some(v) => v,
                None => "agenthub-codex-acp"@,
            },
    {
        match &self.codex_acp {
            Some(c) => match &c.binary {
                Some(v) => return v.clone(),
                None => {},
            },
            None => {},
        }
        owned("agenthub-codex-acp")
    }

    /// The legacy `codex_acp.default_mode`, trimmed; `None` when absent or
    /// blank.
    pub fn codex_acp_default_mode(&self) -> (res: Option<String>)
        ensures
            res.deep_view() == trimmed_nonempty(self.spec_codex_default_mode()),
    {
        match &self.codex_acp {
            Some(c) => trimmed_setting(&c.default_mode),
            None => None,
        }
    }

    /// The legacy `codex_acp.default_model`, trimmed; `None` when absent or
    /// blank.
    pub fn codex_acp_default_model(&self) -> (res: Option<String>)
        ensures
            res.deep_view() == trimmed_nonempty(self.spec_codex_default_model()),
    {
        match &self.codex_acp {
            Some(c) => trimmed_setting(&c.default_model),
            None => None,
        }
    }

    pub open spec fn spec_history_retention(self) -> Option<u32> {
        match self.history {
            Some(h) => h.event_retention_days,
            None => None,
        }
    }

    pub open spec fn spec_history_vacuum(self) -> Option<bool> {
        match self.history {
            Some(h) => h.vacuum_on_cleanup,
            None => None,
        }
    }

    /// How many days of agent events are kept: the configured value or 5;
    /// `None` (keep everything) when it is 0.
    pub fn history_event_retention_days(&self) -> (res: Option<u32>)
        ensures
            ({
                let days = match self.spec_history_retention() {
                    Some(d) => d,
                    None => DEFAULT_HISTORY_EVENT_RETENTION_DAYS,
                };
                res == if days == 0 { None::<u32> } else { Some(days) }
            }),
    {
        let days = match &self.history {
            Some(h) => match h.event_retention_days {
                Some(d) => d,
                None => DEFAULT_HISTORY_EVENT_RETENTION_DAYS,
            },
            None => DEFAULT_HISTORY_EVENT_RETENTION_DAYS,
        };
        if days == 0 {
            return None;
        }
        Some(days)
    }

    /// Whether a cleanup that deleted events should also compact the
    /// database; off unless configured.
    pub fn history_vacuum_on_cleanup(&self) -> (res: bool)
        ensures
            res == (self.spec_history_vacuum() == Some(true)),
    {
        match &self.history {
            Some(h) => match h.vacuum_on_cleanup {
                Some(v) => v,
                None => false,
            },
            None => false,
        }
    }

    pub open spec fn spec_grpc_enabled(self) -> Option<bool> {
        match self.internal_grpc {
            Some(g) => g.enabled,
            None => None,
        }
    }

    pub open spec fn spec_grpc_listen(self) -> Option<Seq<char>> {
        match self.internal_grpc {
            Some(g) => g.listen.deep_view(),
            None => None,
        }
    }

    pub open spec fn spec_grpc_security_mode(self) -> Option<Seq<char>> {
        match self.internal_grpc {
            Some(g) => match g.security {
                Some(s) => s.mode.deep_view(),
                None => None,
            },
            None => None,
        }
    }

    pub open spec fn spec_grpc_cert_dir(self) -> Option<Seq<char>> {
        match self.internal_grpc {
            Some(g) => match g.security {
                Some(s) => s.cert_dir.deep_view(),
                None => None,
            },
            None => None,
        }
    }

    pub open spec fn spec_grpc_shared_secret(self) -> Option<Seq<char>> {
        match self.internal_grpc {
            Some(g) => match g.auth {
                Some(a) => a.shared_secret.deep_view(),
                None => None,
            },
            None => None,
        }
    }

    pub open spec fn spec_grpc_issuer(self) -> Option<Seq<char>> {
        match self.internal_grpc {
            Some(g) => match g.auth {
                Some(a) => a.issuer.deep_view(),
                None => None,
            },
            None => None,
        }
    }

    pub open spec fn spec_grpc_audience(self) -> Option<Seq<char>> {
        match self.internal_grpc {
            Some(g) => match g.auth {
                Some(a) => a.audience.deep_view(),
                None => None,
            },
            None => None,
        }
    }

    pub open spec fn spec_grpc_bootstrap_token(self) -> Option<Seq<char>> {
        match self.internal_grpc {
            Some(g) => match g.bootstrap {
                Some(b) => b.token.deep_view(),
                None => None,
            },
            None => None,
        }
    }

    /// Whether the internal gRPC endpoint runs; off unless configured.
    pub fn internal_grpc_enabled(&self) -> (res: bool)
        ensures
            res == (self.spec_grpc_enabled() == Some(true)),
    {
        match &self.internal_grpc {
            Some(g) => match g.enabled {
                Some(v) => v,
                None => false,
            },
            None => false,
        }
    }

    /// The internal gRPC listen address, trimmed, or `127.0.0.1:50051` when
    /// absent or blank.
    pub fn internal_grpc_listen_addr(&self) -> (res: String)
        ensures
            res@ == match trimmed_nonempty(self.spec_grpc_listen()) {
                Some(v) => v,
                None => "127.0.0.1:50051"@,
            },
    {
        let configured = match &self.internal_grpc {
            Some(g) => trimmed_setting(&g.listen),
            None => None,
        };
        match configured {
            Some(v) => v,
            None => owned("127.0.0.1:50051"),
        }
    }

    /// The internal gRPC transport security mode, trimmed, or `tls` when
    /// absent or blank.
    pub fn internal_grpc_security_mode(&self) -> (res: String)
        ensures
            res@ == match trimmed_nonempty(self.spec_grpc_security_mode()) {
                Some(v) => v,
                None => "tls"@,
            },
    {
        let configured = match &self.internal_grpc {
            Some(g) => match &g.security {
                Some(s) => trimmed_setting(&s.mode),
                None => None,
            },
            None => None,
        };
        match configured {
            Some(v) => v,
            None => owned("tls"),
        }
    }

    /// The directory holding the internal gRPC certificates: the configured
    /// value, trimmed and with `~` expanded, or `<home>/.agenthub/internal-grpc`
    /// (home being `.` when unknown).
    pub fn internal_grpc_cert_dir(&self, home: Option<&str>) -> (res: String)
        ensures
            ({
                let h = match home { Some(h) => Some(h@), None => None };
                res@ == match trimmed_nonempty(self.spec_grpc_cert_dir()) {
                    Some(v) => expand_tilde_spec(v, h),
                    None => path_joined(home_or_current(h), ".agenthub/internal-grpc"@),
                }
            }),
    {
        let configured = match &self.internal_grpc {
            Some(g) => match &g.security {
                Some(s) => trimmed_setting(&s.cert_dir),
                None => None,
            },
            None => None,
        };
        match configured {
            Some(v) => expand_tilde(v.as_str(), home),
            None => {
                let base = match home {
                    Some(h) => h,
                    None => ".",
                };
                path_join(base, ".agenthub/internal-grpc")
            },
        }
    }

    /// The shared secret for internal gRPC authentication, trimmed; `None`
    /// when absent or blank.
    pub fn internal_grpc_auth_shared_secret(&self) -> (res: Option<String>)
        ensures
            res.deep_view() == trimmed_nonempty(self.spec_grpc_shared_secret()),
    {
        match &self.internal_grpc {
            Some(g) => match &g.auth {
                Some(a) => trimmed_setting(&a.shared_secret),
                None => None,
            },
            None => None,
        }
    }

    /// The token issuer for internal gRPC authentication, trimmed; `None`
    /// when absent or blank.
    pub fn internal_grpc_auth_issuer(&self) -> (res: Option<String>)
        ensures
            res.deep_view() == trimmed_nonempty(self.spec_grpc_issuer()),
    {
        match &self.internal_grpc {
            Some(g) => match &g.auth {
                Some(a) => trimmed_setting(&a.issuer),
                None => None,
            },
            None => None,
        }
    }

    /// The token audience for internal gRPC authentication, trimmed; `None`
    /// when absent or blank.
    pub fn internal_grpc_auth_audience(&self) -> (res: Option<String>)
        ensures
            res.deep_view() == trimmed_nonempty(self.spec_grpc_audience()),
    {
        match &self.internal_grpc {
            Some(g) => match &g.auth {
                Some(a) => trimmed_setting(&a.audience),
                None => None,
            },
            None => None,
        }
    }

    /// The bootstrap token for internal gRPC enrolment, trimmed; `None` when
    /// absent or blank.
    pub fn internal_grpc_bootstrap_token(&self) -> (res: Option<String>)
        ensures
            res.deep_view() == trimmed_nonempty(self.spec_grpc_bootstrap_token()),
    {
        match &self.internal_grpc {
            Some(g) => match &g.bootstrap {
                Some(b) => trimmed_setting(&b.token),
                None => None,
            },
            None => None,
        }
    }

    pub open spec fn spec_push_subject(self) -> Option<Seq<char>> {
        match self.push {
            Some(p) => p.subject.deep_view(),
            None => None,
        }
    }

    pub open spec fn spec_push_keys_path(self) -> Option<Seq<char>> {
        match self.push {
            Some(p) => p.keys_path.deep_view(),
            None => None,
        }
    }

    /// The VAPID subject for web push: `push.subject` as written, or
    /// `mailto:admin@example.com`.
    pub fn vapid_subject(&self) -> (res: String)
        ensures
            res@ == match self.spec_push_subject() {
                Some(v) => v,
                None => "mailto:admin@example.com"@,
            },
    {
        match &self.push {
            Some(p) => match &p.subject {
                Some(v) => return v.clone(),
                None => {},
            },
            None => {},
        }
        owned("mailto:admin@example.com")
    }

    /// The VAPID key file: `push.keys_path` as written, or
    /// `<home>/.agenthub/vapid.json` (home being `.` when unknown).
    pub fn vapid_keys_path(&self, home: Option<&str>) -> (res: String)
        ensures
            res@ == match self.spec_push_keys_path() {
                Some(v) => v,
                None => path_joined(
                    home_or_current(match home { Some(h) => Some(h@), None => None }),
                    ".agenthub/vapid.json"@,
                ),
            },
    {
        match &self.push {
            Some(p) => match &p.keys_path {
                Some(v) => return v.clone(),
                None => {},
            },
            None => {},
        }
        let base = match home {
            Some(h) => h,
            None => ".",
        };
        path_join(base, ".agenthub/vapid.json")
    }
}

/// The configuration file: `<home>/.agenthub/config.toml`, home being `.`
/// when unknown.
pub fn config_path(home: Option<&str>) -> (res: String)
    ensures
        res@ == path_joined(
            home_or_current(match home { Some(h) => Some(h@), None => None }),
            ".agenthub/config.toml"@,
        ),
{
    let base = match home {
        Some(h) => h,
        None => ".",
    };
    path_join(base, ".agenthub/config.toml")
}

/// The names of the ignored override variables.
pub open spec fn env_override_key_list() -> Seq<Seq<char>> {
    seq![
        "AGENTHUB_LISTEN"@,
        "AGENTHUB_RP_ID"@,
        "AGENTHUB_RP_ORIGIN"@,
        "AGENTHUB_RP_NAME"@,
        "AGENTHUB_SAFE_PATHS"@,
        "AGENTHUB_WEB_DIR"@,
        "AGENTHUB_LOG_PATH"@,
        "AGENTHUB_CODEX_ACP_BINARY"@,
        "AGENTHUB_CODEX_ACP_DEFAULT_MODE"@,
        "AGENTHUB_CODEX_ACP_DEFAULT_MODEL"@,
        "AGENTHUB_HISTORY_EVENT_RETENTION_DAYS"@,
        "AGENTHUB_HISTORY_VACUUM_ON_CLEANUP"@,
        "AGENTHUB_INTERNAL_GRPC_ENABLED"@,
        "AGENTHUB_INTERNAL_GRPC_LISTEN"@,
        "AGENTHUB_INTERNAL_GRPC_SECURITY_MODE"@,
        "AGENTHUB_INTERNAL_GRPC_CERT_DIR"@,
        "AGENTHUB_INTERNAL_GRPC_AUTH_SHARED_SECRET"@,
        "AGENTHUB_INTERNAL_GRPC_AUTH_ISSUER"@,
        "AGENTHUB_INTERNAL_GRPC_AUTH_AUDIENCE"@,
        "AGENTHUB_INTERNAL_GRPC_BOOTSTRAP_TOKEN"@,
        "AGENTHUB_HTTP_PROXY"@,
        "AGENTHUB_HTTPS_PROXY"@,
        "AGENTHUB_ALL_PROXY"@,
        "AGENTHUB_VAPID_SUBJECT"@,
        "AGENTHUB_VAPID_PUBLIC_KEY"@,
        "AGENTHUB_VAPID_PRIVATE_KEY"@,
    ]
}

/// The environment variables that older releases read as overrides; they
/// are now ignored, and only reported.
pub fn env_override_keys() -> (res: Vec<&'static str>)
    ensures
        res@.map_values(|k: &str| k@) == env_override_key_list(),
{
    let keys = vec![
        "AGENTHUB_LISTEN",
        "AGENTHUB_RP_ID",
        "AGENTHUB_RP_ORIGIN",
        "AGENTHUB_RP_NAME",
        "AGENTHUB_SAFE_PATHS",
        "AGENTHUB_WEB_DIR",
        "AGENTHUB_LOG_PATH",
        "AGENTHUB_CODEX_ACP_BINARY",
        "AGENTHUB_CODEX_ACP_DEFAULT_MODE",
        "AGENTHUB_CODEX_ACP_DEFAULT_MODEL",
        "AGENTHUB_HISTORY_EVENT_RETENTION_DAYS",
        "AGENTHUB_HISTORY_VACUUM_ON_CLEANUP",
        "AGENTHUB_INTERNAL_GRPC_ENABLED",
        "AGENTHUB_INTERNAL_GRPC_LISTEN",
        "AGENTHUB_INTERNAL_GRPC_SECURITY_MODE",
        "AGENTHUB_INTERNAL_GRPC_CERT_DIR",
        "AGENTHUB_INTERNAL_GRPC_AUTH_SHARED_SECRET",
        "AGENTHUB_INTERNAL_GRPC_AUTH_ISSUER",
        "AGENTHUB_INTERNAL_GRPC_AUTH_AUDIENCE",
        "AGENTHUB_INTERNAL_GRPC_BOOTSTRAP_TOKEN",
        "AGENTHUB_HTTP_PROXY",
        "AGENTHUB_HTTPS_PROXY",
        "AGENTHUB_ALL_PROXY",
        "AGENTHUB_VAPID_SUBJECT",
        "AGENTHUB_VAPID_PUBLIC_KEY",
        "AGENTHUB_VAPID_PRIVATE_KEY",
    ];
    assert(keys@.map_values(|k: &str| k@) =~= env_override_key_list());
    keys
}

/// The keys, in order, whose looked-up value is set and non-empty.
pub open spec fn set_env_keys(found: Seq<(Seq<char>, Option<Seq<char>>)>) -> Seq<Seq<char>>
    decreases found.len(),
{
    if found.len() == 0 {
        Seq::empty()
    } else {
        let prev = set_env_keys(found.drop_last());
        match found.last().1 {
            Some(v) => if v.len() > 0 { prev.push(found.last().0) } else { prev },
            None => prev,
        }
    }
}

/// The override variables that are set: from `(key, value)` pairs as read
/// from the environment, the keys whose value is present and non-empty.
pub fn detect_env_overrides(found: &Vec<(String, Option<String>)>) -> (res: Vec<String>)
    ensures
        res.deep_view() == set_env_keys(found.deep_view()),
{
    let ghost fs = found.deep_view();
    let mut out: Vec<String> = Vec::new();
    let mut i: usize = 0;
    proof {
        assert(fs.take(0) =~= Seq::<(Seq<char>, Option<Seq<char>>)>::empty());
    }
    while i < found.len()
        invariant
            i <= found.len(),
            fs == found.deep_view(),
            out.deep_view() == set_env_keys(fs.take(i as int)),
        decreases found.len() - i,
    {
        proof {
            assert(fs.take(i + 1).drop_last() =~= fs.take(i as int));
            assert(fs.take(i + 1).last() == fs[i as int]);
        }
        let (key, value) = &found[i];
        match value {
            Some(v) => {
                if v.as_str().is_empty() {
                } else {
                    let ghost before = out.deep_view();
                    out.push(key.clone());
                    assert(out.deep_view() =~= before.push(key@));
                }
            },
            None => {},
        }
        i = i + 1;
    }
    proof {
        assert(fs.take(found.len() as int) =~= fs);
    }
    out
}

/// Tilde expansion only touches a leading `~` or `~/`, and only when the
/// home directory is known: `~` becomes the home directory, `~/rest` the
/// home directory joined with `rest`; any other path, or any path without
/// a home, is kept.
pub proof fn law_expand_tilde(path: Seq<char>, home: Option<Seq<char>>)
    ensures
        home is None ==> expand_tilde_spec(path, home) == path,
        (path.len() == 0 || path[0] != '~') ==> expand_tilde_spec(path, home) == path,
        path == "~"@ && home is Some ==> expand_tilde_spec(path, home) == home->0,
        path.len() >= 2 && path[0] == '~' && path[1] == '/' && home is Some
            ==> expand_tilde_spec(path, home) == path_joined(home->0, path.subrange(2, path.len() as int)),
{
    reveal_strlit("~");
    reveal_strlit("~/");
    if path.len() >= 2 && path[0] == '~' && path[1] == '/' {
        assert(path.subrange(0, 2) =~= "~/"@);
        assert(path != "~"@);
    }
    if path.len() == 0 || path[0] != '~' {
        assert(path != "~"@);
        if path.len() >= 2 {
            assert(path.subrange(0, 2)[0] != "~/"@[0]);
        }
    }
}

} // verus!
