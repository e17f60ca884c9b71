//! Start-up of the service: the role it runs in, the checks on its
//! configuration, and the configuration report it logs.
use vstd::prelude::*;
use vstd::string::*;

use crate::daemon_tasks::{join_spec, join_strings};
use crate::text::{owned, trimmed_nonempty, trimmed_setting};

verus! {

/// The role a service instance plays: the main server, or a node that
/// only runs agents for it.
#[derive(Debug, Clone, Copy, PartialEq, Eq, Structural)]
pub enum ServerRole {
    Main,
    Node,
}

/// The name of a role as configured and reported.
pub open spec fn role_name(role: ServerRole) -> Seq<char> {
    match role {
        ServerRole::Main => "main"@,
        ServerRole::Node => "node"@,
    }
}

impl ServerRole {
    /// The name of the role: `main` or `node`.
    pub fn as_str(&self) -> (res: &'static str)
        ensures
            res@ == role_name(*self),
    {
        match self {
            ServerRole::Main => "main",
            ServerRole::Node => "node",
        }
    }
}

/// The node id of an instance: the main server is `main`; a node must name
/// itself, and may not take the name `main`.
pub open spec fn node_id_spec(role: ServerRole, configured: Option<Seq<char>>) -> Result<Seq<char>, Seq<char>> {
    match role {
        ServerRole::Main => Ok("main"@),
        ServerRole::Node => match configured {
            None => Err("server.node_id is required when server.role = \"node\""@),
            Some(id) => if id == "main"@ {
                Err("server.node_id must not be \"main\" when server.role = \"node\""@)
            } else {
                Ok(id)
            },
        },
    }
}

/// The node id an instance runs under, or why its configuration has none.
pub fn resolve_server_node_id(role: ServerRole, configured: &Option<String>) -> (res: Result<String, String>)
    ensures
        match (res, node_id_spec(role, configured.deep_view())) {
            (Ok(a), Ok(b)) => a@ == b,
            (Err(a), Err(b)) => a@ == b,
            _ => false,
        },
{
    match role {
        ServerRole::Main => Ok(owned("main")),
        ServerRole::Node => match configured {
            None => Err(owned("server.node_id is required when server.role = \"node\"")),
            Some(id) => {
                if *id == owned("main") {
                    Err(owned("server.node_id must not be \"main\" when server.role = \"node\""))
                } else {
                    Ok(id.clone())
                }
            },
        },
    }
}

/// The outcome of the start-up checks: the node id must resolve, and a node
/// needs the internal gRPC endpoint, through which the main server reaches
/// it.
pub open spec fn startup_check_spec(role: ServerRole, configured_node_id: Option<Seq<char>>, internal_grpc_enabled: bool) -> Result<(), Seq<char>> {
    match node_id_spec(role, configured_node_id) {
        Err(e) => Err(e),
        Ok(_) => if role == ServerRole::Node && !internal_grpc_enabled {
            Err("server.role = \"node\" requires internal_grpc.enabled = true"@)
        } else {
            Ok(())
        },
    }
}

/// Checks that a configuration can start: see `startup_check_spec`.
pub fn validate_startup_config(role: ServerRole, configured_node_id: &Option<String>, internal_grpc_enabled: bool) -> (res: Result<(), String>)
    ensures
        match (res, startup_check_spec(role, configured_node_id.deep_view(), internal_grpc_enabled)) {
            (Ok(()), Ok(())) => true,
            (Err(a), Err(b)) => a@ == b,
            _ => false,
        },
{
    match resolve_server_node_id(role, configured_node_id) {
        Err(e) => return Err(e),
        Ok(_) => {},
    }
    match role {
        ServerRole::Node => {
            if !internal_grpc_enabled {
                return Err(owned("server.role = \"node\" requires internal_grpc.enabled = true"));
            }
        },
        ServerRole::Main => {},
    }
    Ok(())
}

/// A configuration that starts gives the process a node id that tells it
/// apart: the main server is `main`, and a node, which must reach the main
/// server over the internal endpoint, never runs under that id.
pub proof fn law_started_node_ids(role: ServerRole, configured_node_id: Option<Seq<char>>, internal_grpc_enabled: bool)
    requires
        startup_check_spec(role, configured_node_id, internal_grpc_enabled) is Ok,
    ensures
        node_id_spec(role, configured_node_id) is Ok,
        role == ServerRole::Main ==> node_id_spec(role, configured_node_id) == Ok::<Seq<char>, Seq<char>>("main"@),
        role == ServerRole::Node ==> internal_grpc_enabled && configured_node_id is Some
            && node_id_spec(role, configured_node_id) == Ok::<Seq<char>, Seq<char>>(configured_node_id->0)
            && configured_node_id->0 != "main"@,
{
}

/// What the profiler is told about this process.
#[derive(Debug, Clone)]
pub struct PyroscopeBootstrapOptions {
    pub application_name: String,
    pub application_version: String,
}

/// The profiler's application name for a role.
pub open spec fn pyroscope_application_name(role: ServerRole) -> Seq<char> {
    match role {
        ServerRole::Main => "agenthub.server"@,
        ServerRole::Node => "agenthub.node"@,
    }
}

/// The profiler options of a process of role `role` built as `version`:
/// the main server profiles as `agenthub.server`, a node as `agenthub.node`.
pub fn pyroscope_bootstrap_options(role: ServerRole, version: &str) -> (res: PyroscopeBootstrapOptions)
    ensures
        res.application_name@ == pyroscope_application_name(role),
        res.application_version@ == version@,
{
    let name = match role {
        ServerRole::Main => owned("agenthub.server"),
        ServerRole::Node => owned("agenthub.node"),
    };
    PyroscopeBootstrapOptions { application_name: name, application_version: owned(version) }
}

/// The severity of a reported line.
#[derive(Debug, Clone, Copy, PartialEq, Eq, Structural)]
pub enum LogLevel {
    Info,
    Warn,
}

/// One line of the configuration report.
#[derive(Debug, Clone)]
pub struct LogLine {
    pub level: LogLevel,
    pub text: String,
}

/// Everything the configuration report shows, as the configuration and the
/// start-up code resolved it.
#[derive(Debug)]
pub struct ConfigReport {
    pub file_exists: bool,
    pub path: String,
    pub env_overrides: Vec<String>,
    pub listen: String,
    pub role: ServerRole,
    pub configured_node_id: Option<String>,
    pub node_id: Result<String, String>,
    pub log_path: Option<String>,
    pub log_spec: Option<(String, String)>,
    pub rp_id: String,
    pub rp_origin: String,
    pub rp_name: String,
    pub configured_web_dir: Option<String>,
    pub release_build: bool,
    pub web_dir: Option<String>,
    pub codex_acp_binary: String,
    pub codex_acp_default_mode: Option<String>,
    pub codex_acp_multi_agent_enabled: bool,
    pub vapid_subject: String,
    pub vapid_keys_path: String,
    pub default_worktree_root: String,
    pub internal_grpc_enabled: bool,
    pub internal_grpc_listen: String,
    pub internal_grpc_security_mode: String,
}

/// `v`, or `fallback` when absent.
pub open spec fn or_text(v: Option<Seq<char>>, fallback: Seq<char>) -> Seq<char> {
    match v {
        Some(s) => s,
        None => fallback,
    }
}

/// `true` or `false`.
pub open spec fn bool_text(b: bool) -> Seq<char> {
    if b { "true"@ } else { "false"@ }
}

/// An informational line.
pub open spec fn info(text: Seq<char>) -> (LogLevel, Seq<char>) {
    (LogLevel::Info, text)
}

/// The lines about where the configuration came from.
pub open spec fn source_lines(r: ConfigReport) -> Seq<(LogLevel, Seq<char>)> {
    let source = if r.file_exists {
        seq![info("config source: file"@), info("config path: "@ + r.path@)]
    } else {
        seq![info("config source: defaults"@), info("config path: "@ + r.path@ + " (missing)"@)]
    };
    let overrides = if r.env_overrides@.len() > 0 {
        seq![(LogLevel::Warn, "env overrides ignored: "@ + join_spec(r.env_overrides.deep_view(), ", "@))]
    } else {
        Seq::empty()
    };
    source + overrides
}

/// The lines about the server's identity and logging.
pub open spec fn server_lines(r: ConfigReport) -> Seq<(LogLevel, Seq<char>)> {
    seq![
        info("config listen: "@ + r.listen@),
        info("config server.role: "@ + role_name(r.role)),
        info("config server.node_id: "@ + or_text(r.configured_node_id.deep_view(), "<unset>"@)),
        info("effective server.node_id: "@ + match r.node_id { Ok(id) => id@, Err(_) => "<invalid>"@ }),
        match r.log_spec {
            Some((dir, file)) => info("config log_path: "@ + or_text(r.log_path.deep_view(), "<stdout>"@)
                + " (dir "@ + dir@ + ", file "@ + file@ + ")"@),
            None => info("config log_path: <stdout>"@),
        },
    ]
}

/// The lines about the web front end.
pub open spec fn web_lines(r: ConfigReport) -> Seq<(LogLevel, Seq<char>)> {
    let node = r.role == ServerRole::Node;
    let auth = if node {
        seq![info("config web auth settings: ignored in node mode"@)]
    } else {
        seq![
            info("config rp_id: "@ + r.rp_id@),
            info("config rp_origin: "@ + r.rp_origin@),
            info("config rp_name: "@ + r.rp_name@),
        ]
    };
    let configured = or_text(trimmed_nonempty(r.configured_web_dir.deep_view()), "<unset>"@);
    let release = if r.release_build && r.configured_web_dir is Some {
        seq![info("config web_dir ignored in release build"@)]
    } else {
        Seq::empty()
    };
    let dirs = if node {
        seq![
            info("config web_dir: "@ + configured + " (ignored in node mode)"@),
            info("effective web_dir: <disabled>"@),
        ]
    } else {
        seq![
            info("config web_dir: "@ + configured),
            info("effective web_dir: "@ + or_text(r.web_dir.deep_view(), "embedded"@)),
        ]
    };
    auth + release + dirs
}

/// The lines about agents, push and the internal endpoint.
pub open spec fn runtime_lines(r: ConfigReport) -> Seq<(LogLevel, Seq<char>)> {
    let acp = seq![
        info("config codex_acp_binary: "@ + r.codex_acp_binary@),
        info("config codex_acp_default_mode: "@ + or_text(r.codex_acp_default_mode.deep_view(), "<unset>"@)),
        info("config codex_acp_multi_agent_enabled: "@ + bool_text(r.codex_acp_multi_agent_enabled)),
    ];
    let push = if r.role == ServerRole::Node {
        seq![info("config push settings: disabled in node mode"@)]
    } else {
        seq![
            info("config vapid_subject: "@ + r.vapid_subject@),
            info("config vapid_keys_path: "@ + r.vapid_keys_path@),
        ]
    };
    let rest = seq![
        info("config worktree.default_root: "@ + r.default_worktree_root@),
        info("config internal_grpc.enabled: "@ + bool_text(r.internal_grpc_enabled)),
        info("config internal_grpc.listen: "@ + r.internal_grpc_listen@),
        info("config internal_grpc.security.mode: "@ + r.internal_grpc_security_mode@),
    ];
    acp + push + rest
}

/// The whole configuration report, line by line.
pub open spec fn config_report_spec(r: ConfigReport) -> Seq<(LogLevel, Seq<char>)> {
    source_lines(r) + server_lines(r) + web_lines(r) + runtime_lines(r)
}

/// The view of reported lines.
pub open spec fn lines_view(lines: Seq<LogLine>) -> Seq<(LogLevel, Seq<char>)> {
    lines.map_values(|l: LogLine| (l.level, l.text@))
}

fn push_line(lines: &mut Vec<LogLine>, level: LogLevel, text: String)
    ensures
        lines_view(final(lines)@) == lines_view(old(lines)@).push((level, text@)),
{
    lines.push(LogLine { level, text });
    assert(lines_view(lines@) =~= lines_view(old(lines)@).push((level, text@)));
}

fn concat2(a: &str, b: &str) -> (res: String)
    ensures
        res@ == a@ + b@,
{
    let mut s = owned(a);
    s.append(b);
    s
}

fn opt_or<'a>(v: &'a Option<String>, fallback: &'a str) -> (res: &'a str)
    ensures
        res@ == or_text(v.deep_view(), fallback@),
{
    match v {
        Some(s) => s.as_str(),
        None => fallback,
    }
}

fn bool_str(b: bool) -> (res: &'static str)
    ensures
        res@ == bool_text(b),
{
    if b { "true" } else { "false" }
}

fn push_source_lines(lines: &mut Vec<LogLine>, r: &ConfigReport)
    ensures
        lines_view(final(lines)@) == lines_view(old(lines)@) + source_lines(*r),
{
    let ghost start = lines_view(lines@);
    if r.file_exists {
        push_line(lines, LogLevel::Info, owned("config source: file"));
        push_line(lines, LogLevel::Info, concat2("config path: ", r.path.as_str()));
    } else {
        push_line(lines, LogLevel::Info, owned("config source: defaults"));
        let mut t = concat2("config path: ", r.path.as_str());
        t.append(" (missing)");
        push_line(lines, LogLevel::Info, t);
    }
    if r.env_overrides.len() > 0 {
        let joined = join_strings(&r.env_overrides, ", ");
        push_line(lines, LogLevel::Warn, concat2("env overrides ignored: ", joined.as_str()));
    }
    assert(lines_view(lines@) =~= start + source_lines(*r));
}

fn push_server_lines(lines: &mut Vec<LogLine>, r: &ConfigReport)
    ensures
        lines_view(final(lines)@) == lines_view(old(lines)@) + server_lines(*r),
{
    let ghost start = lines_view(lines@);
    push_line(lines, LogLevel::Info, concat2("config listen: ", r.listen.as_str()));
    push_line(lines, LogLevel::Info, concat2("config server.role: ", r.role.as_str()));
    push_line(lines, LogLevel::Info, concat2("config server.node_id: ", opt_or(&r.configured_node_id, "<unset>")));
    let effective = match &r.node_id {
        Ok(id) => id.as_str(),
        Err(_) => "<invalid>",
    };
    push_line(lines, LogLevel::Info, concat2("effective server.node_id: ", effective));
    match &r.log_spec {
        Some((dir, file)) => {
            let mut t = concat2("config log_path: ", opt_or(&r.log_path, "<stdout>"));
            t.append(" (dir ");
            t.append(dir.as_str());
            t.append(", file ");
            t.append(file.as_str());
            t.append(")");
            push_line(lines, LogLevel::Info, t);
        },
        None => {
            push_line(lines, LogLevel::Info, owned("config log_path: <stdout>"));
        },
    }
    assert(lines_view(lines@) =~= start + server_lines(*r));
}

fn push_web_lines(lines: &mut Vec<LogLine>, r: &ConfigReport)
    ensures
        lines_view(final(lines)@) == lines_view(old(lines)@) + web_lines(*r),
{
    let ghost start = lines_view(lines@);
    let node = r.role == ServerRole::Node;
    if node {
        push_line(lines, LogLevel::Info, owned("config web auth settings: ignored in node mode"));
    } else {
        push_line(lines, LogLevel::Info, concat2("config rp_id: ", r.rp_id.as_str()));
        push_line(lines, LogLevel::Info, concat2("config rp_origin: ", r.rp_origin.as_str()));
        push_line(lines, LogLevel::Info, concat2("config rp_name: ", r.rp_name.as_str()));
    }
    let ghost after_auth = lines_view(lines@);
    let configured_dir = trimmed_setting(&r.configured_web_dir);
    let configured = opt_or(&configured_dir, "<unset>");
    if r.release_build && r.configured_web_dir.is_some() {
        push_line(lines, LogLevel::Info, owned("config web_dir ignored in release build"));
    }
    let ghost after_release = lines_view(lines@);
    if node {
        let mut t = concat2("config web_dir: ", configured);
        t.append(" (ignored in node mode)");
        push_line(lines, LogLevel::Info, t);
        push_line(lines, LogLevel::Info, owned("effective web_dir: <disabled>"));
    } else {
        push_line(lines, LogLevel::Info, concat2("config web_dir: ", configured));
        push_line(lines, LogLevel::Info, concat2("effective web_dir: ", opt_or(&r.web_dir, "embedded")));
    }
    assert(lines_view(lines@) =~= start + web_lines(*r));
}

fn push_runtime_lines(lines: &mut Vec<LogLine>, r: &ConfigReport)
    ensures
        lines_view(final(lines)@) == lines_view(old(lines)@) + runtime_lines(*r),
{
    let ghost start = lines_view(lines@);
    push_line(lines, LogLevel::Info, concat2("config codex_acp_binary: ", r.codex_acp_binary.as_str()));
    push_line(
        lines,
        LogLevel::Info,
        concat2("config codex_acp_default_mode: ", opt_or(&r.codex_acp_default_mode, "<unset>")),
    );
    push_line(
        lines,
        LogLevel::Info,
        concat2("config codex_acp_multi_agent_enabled: ", bool_str(r.codex_acp_multi_agent_enabled)),
    );
    let ghost after_acp = lines_view(lines@);
    if r.role == ServerRole::Node {
        push_line(lines, LogLevel::Info, owned("config push settings: disabled in node mode"));
    } else {
        push_line(lines, LogLevel::Info, concat2("config vapid_subject: ", r.vapid_subject.as_str()));
        push_line(lines, LogLevel::Info, concat2("config vapid_keys_path: ", r.vapid_keys_path.as_str()));
    }
    let ghost after_push = lines_view(lines@);
    push_line(lines, LogLevel::Info, concat2("config worktree.default_root: ", r.default_worktree_root.as_str()));
    push_line(lines, LogLevel::Info, concat2("config internal_grpc.enabled: ", bool_str(r.internal_grpc_enabled)));
    push_line(lines, LogLevel::Info, concat2("config internal_grpc.listen: ", r.internal_grpc_listen.as_str()));
    push_line(
        lines,
        LogLevel::Info,
        concat2("config internal_grpc.security.mode: ", r.internal_grpc_security_mode.as_str()),
    );
    assert(lines_view(lines@) =~= start + runtime_lines(*r));
}

/// The lines the service logs about its configuration at start-up.
pub fn config_log_lines(r: &ConfigReport) -> (res: Vec<LogLine>)
    ensures
        lines_view(res@) == config_report_spec(*r),
{
    let mut lines: Vec<LogLine> = Vec::new();
    push_source_lines(&mut lines, r);
    push_server_lines(&mut lines, r);
    push_web_lines(&mut lines, r);
    push_runtime_lines(&mut lines, r);
    assert(lines_view(Seq::<LogLine>::empty()) =~= Seq::<(LogLevel, Seq<char>)>::empty());
    assert(lines_view(lines@) =~= config_report_spec(*r));
    lines
}

/// A line of one part of the report is a line of the report.
proof fn lemma_report_holds_parts(r: ConfigReport, x: (LogLevel, Seq<char>))
    ensures
        source_lines(r).contains(x) || server_lines(r).contains(x) || web_lines(r).contains(x)
            || runtime_lines(r).contains(x) ==> config_report_spec(r).contains(x),
{
    let a = source_lines(r);
    let b = server_lines(r);
    let c = web_lines(r);
    let d = runtime_lines(r);
    let all = config_report_spec(r);
    assert(all == a + b + c + d);
    if a.contains(x) {
        let i = choose|i: int| 0 <= i < a.len() && a[i] == x;
        assert(all[i] == x);
    } else if b.contains(x) {
        let i = choose|i: int| 0 <= i < b.len() && b[i] == x;
        assert(all[a.len() + i] == x);
    } else if c.contains(x) {
        let i = choose|i: int| 0 <= i < c.len() && c[i] == x;
        assert(all[a.len() + b.len() + i] == x);
    } else if d.contains(x) {
        let i = choose|i: int| 0 <= i < d.len() && d[i] == x;
        assert(all[a.len() + b.len() + c.len() + i] == x);
    }
}

/// The configuration report says where the configuration came from, warns
/// about ignored overrides, and names the listen address, the role and the
/// internal endpoint settings.
pub proof fn law_report_source_and_server(r: ConfigReport)
    ensures
        r.file_exists ==> config_report_spec(r).contains((LogLevel::Info, "config source: file"@))
            && config_report_spec(r).contains((LogLevel::Info, "config path: "@ + r.path@)),
        !r.file_exists ==> config_report_spec(r).contains((LogLevel::Info, "config source: defaults"@))
            && config_report_spec(r).contains((LogLevel::Info, "config path: "@ + r.path@ + " (missing)"@)),
        r.env_overrides@.len() > 0 ==> config_report_spec(r).contains(
            (LogLevel::Warn, "env overrides ignored: "@ + join_spec(r.env_overrides.deep_view(), ", "@)),
        ),
        config_report_spec(r).contains((LogLevel::Info, "config listen: "@ + r.listen@)),
        r.role == ServerRole::Main ==> config_report_spec(r).contains((LogLevel::Info, "config server.role: main"@)),
        r.role == ServerRole::Node ==> config_report_spec(r).contains((LogLevel::Info, "config server.role: node"@)),
        config_report_spec(r).contains((LogLevel::Info, "config internal_grpc.listen: "@ + r.internal_grpc_listen@)),
        r.internal_grpc_enabled ==> config_report_spec(r).contains((LogLevel::Info, "config internal_grpc.enabled: true"@)),
        !r.internal_grpc_enabled ==> config_report_spec(r).contains((LogLevel::Info, "config internal_grpc.enabled: false"@)),
{
    let a = source_lines(r);
    let b = server_lines(r);
    let d = runtime_lines(r);
    reveal_strlit("config source: file");
    reveal_strlit("config source: defaults");
    reveal_strlit("config server.role: main");
    reveal_strlit("config server.role: node");
    reveal_strlit("config server.role: ");
    reveal_strlit("main");
    reveal_strlit("node");
    reveal_strlit("config internal_grpc.enabled: true");
    reveal_strlit("config internal_grpc.enabled: false");
    reveal_strlit("config internal_grpc.enabled: ");
    reveal_strlit("true");
    reveal_strlit("false");
    assert(a[0] == info(if r.file_exists { "config source: file"@ } else { "config source: defaults"@ }));
    lemma_report_holds_parts(r, a[0]);
    assert(a.contains(a[1]));
    lemma_report_holds_parts(r, a[1]);
    if r.env_overrides@.len() > 0 {
        assert(a.contains(a[2]));
        lemma_report_holds_parts(r, a[2]);
    }
    assert(b.contains(b[0]));
    lemma_report_holds_parts(r, b[0]);
    assert(b[1] == info("config server.role: "@ + role_name(r.role)));
    assert("config server.role: "@ + "main"@ =~= "config server.role: main"@);
    assert("config server.role: "@ + "node"@ =~= "config server.role: node"@);
    assert(b.contains(b[1]));
    lemma_report_holds_parts(r, b[1]);
    let n = d.len();
    assert(d[n - 3] == info("config internal_grpc.enabled: "@ + bool_text(r.internal_grpc_enabled)));
    assert("config internal_grpc.enabled: "@ + "true"@ =~= "config internal_grpc.enabled: true"@);
    assert("config internal_grpc.enabled: "@ + "false"@ =~= "config internal_grpc.enabled: false"@);
    assert(d.contains(d[n - 3]));
    lemma_report_holds_parts(r, d[n - 3]);
    assert(d.contains(d[n - 2]));
    lemma_report_holds_parts(r, d[n - 2]);
}

/// A release build that has a `web_dir` configured says that it ignores
/// it, whatever the role; a node says that it ignores the web settings and
/// push, and serves no web UI; the main server names its relying party,
/// the web UI it serves and its push settings.
pub proof fn law_report_web_and_push(r: ConfigReport)
    ensures
        r.release_build && r.configured_web_dir is Some ==> config_report_spec(r).contains(
            (LogLevel::Info, "config web_dir ignored in release build"@),
        ),
        r.role == ServerRole::Node ==> config_report_spec(r).contains(
            (LogLevel::Info, "config web auth settings: ignored in node mode"@),
        ) && config_report_spec(r).contains((LogLevel::Info, "effective web_dir: <disabled>"@))
            && config_report_spec(r).contains((LogLevel::Info, "config push settings: disabled in node mode"@)),
        r.role == ServerRole::Main ==> config_report_spec(r).contains((LogLevel::Info, "config rp_id: "@ + r.rp_id@))
            && config_report_spec(r).contains((LogLevel::Info, "config rp_origin: "@ + r.rp_origin@))
            && config_report_spec(r).contains((LogLevel::Info, "config rp_name: "@ + r.rp_name@))
            && config_report_spec(r).contains((LogLevel::Info, "config vapid_subject: "@ + r.vapid_subject@))
            && config_report_spec(r).contains((LogLevel::Info, "config vapid_keys_path: "@ + r.vapid_keys_path@)),
        r.role == ServerRole::Main && r.web_dir is None ==> config_report_spec(r).contains(
            (LogLevel::Info, "effective web_dir: embedded"@),
        ),
        r.role == ServerRole::Main && r.web_dir is Some ==> config_report_spec(r).contains(
            (LogLevel::Info, "effective web_dir: "@ + r.web_dir->0@),
        ),
{
    let c = web_lines(r);
    let d = runtime_lines(r);
    reveal_strlit("effective web_dir: embedded");
    reveal_strlit("effective web_dir: ");
    reveal_strlit("embedded");
    let auth_len: int = if r.role == ServerRole::Node { 1 } else { 3 };
    let rel_len: int = if r.release_build && r.configured_web_dir is Some { 1 } else { 0 };
    if r.release_build && r.configured_web_dir is Some {
        assert(c[auth_len] == info("config web_dir ignored in release build"@));
        assert(c.contains(c[auth_len]));
        lemma_report_holds_parts(r, c[auth_len]);
    }
    if r.role == ServerRole::Node {
        assert(c.contains(c[0]));
        lemma_report_holds_parts(r, c[0]);
        assert(c[auth_len + rel_len + 1] == info("effective web_dir: <disabled>"@));
        assert(c.contains(c[auth_len + rel_len + 1]));
        lemma_report_holds_parts(r, c[auth_len + rel_len + 1]);
        assert(d[3] == info("config push settings: disabled in node mode"@));
        assert(d.contains(d[3]));
        lemma_report_holds_parts(r, d[3]);
    } else {
        assert(c.contains(c[0]));
        lemma_report_holds_parts(r, c[0]);
        assert(c.contains(c[1]));
        lemma_report_holds_parts(r, c[1]);
        assert(c.contains(c[2]));
        lemma_report_holds_parts(r, c[2]);
        assert(d.contains(d[3]));
        lemma_report_holds_parts(r, d[3]);
        assert(d.contains(d[4]));
        lemma_report_holds_parts(r, d[4]);
        let e = c[auth_len + rel_len + 1];
        assert(e == info("effective web_dir: "@ + or_text(r.web_dir.deep_view(), "embedded"@)));
        assert("effective web_dir: "@ + "embedded"@ =~= "effective web_dir: embedded"@);
        assert(c.contains(e));
        lemma_report_holds_parts(r, e);
    }
}

/// A configuration starts exactly when its role is `main`, or it is a node
/// with a node id other than `main` and the internal endpoint enabled; a
/// refused one names what is wrong, the node id first.
pub proof fn law_startup_refusals(role: ServerRole, configured_node_id: Option<Seq<char>>, internal_grpc_enabled: bool)
    ensures
        startup_check_spec(role, configured_node_id, internal_grpc_enabled) is Ok <==> (
            role == ServerRole::Main || (configured_node_id is Some && configured_node_id->0 != "main"@
                && internal_grpc_enabled)
        ),
        role == ServerRole::Node && configured_node_id is None ==> startup_check_spec(role, configured_node_id,
            internal_grpc_enabled) == Err::<(), Seq<char>>("server.node_id is required when server.role = \"node\""@),
        role == ServerRole::Node && configured_node_id == Some("main"@) ==> startup_check_spec(role,
            configured_node_id, internal_grpc_enabled)
            == Err::<(), Seq<char>>("server.node_id must not be \"main\" when server.role = \"node\""@),
        role == ServerRole::Node && configured_node_id is Some && configured_node_id->0 != "main"@
            && !internal_grpc_enabled ==> startup_check_spec(role, configured_node_id, internal_grpc_enabled)
            == Err::<(), Seq<char>>("server.role = \"node\" requires internal_grpc.enabled = true"@),
{
}

/// The profiler names the main server `agenthub.server` and a node
/// `agenthub.node`.
pub proof fn law_profiler_names()
    ensures
        pyroscope_application_name(ServerRole::Main) == "agenthub.server"@,
        pyroscope_application_name(ServerRole::Node) == "agenthub.node"@,
{
}

} // verus!
