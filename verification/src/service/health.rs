//! Service health: what the service manager, the port, the registry and
//! the data directories say, and the issues that call for a repair.
use vstd::prelude::*;

use super::{DEFAULT_PORT, LEGACY_SERVICE_QUALIFIED_NAME, SERVICE_GENERATION, SERVICE_QUALIFIED_NAME};
use super::manage::opt_text;
use super::registry::{path_equal, paths_match, ServiceRegistry};
use crate::paths::{legacy_data_dir, legacy_data_path};
use crate::text::{append_chars, append_str, decimal, decimal_chars, str_eq,
    string_from_chars};

verus! {

/// State of a service as the service manager reports it.
#[derive(Debug, Clone, Copy, PartialEq, Eq, Structural)]
pub enum ScmStatus {
    /// Not installed.
    NotInstalled,
    /// Running.
    Running,
    /// Stopped.
    Stopped,
}

/// The text of a service manager state.
pub open spec fn scm_text(s: ScmStatus) -> Seq<char> {
    match s {
        ScmStatus::NotInstalled => "not-installed"@,
        ScmStatus::Running => "running"@,
        ScmStatus::Stopped => "stopped"@,
    }
}

/// The text of a service manager state.
pub fn scm_status_text(s: ScmStatus) -> (t: &'static str)
    ensures
        t@ == scm_text(s),
{
    match s {
        ScmStatus::NotInstalled => "not-installed",
        ScmStatus::Running => "running",
        ScmStatus::Stopped => "stopped",
    }
}

/// The earlier service is installed: its state is known and is not
/// `not-installed`.
pub fn legacy_service_installed(status: Option<ScmStatus>) -> (b: bool)
    ensures
        b == (status matches Some(s) && s != ScmStatus::NotInstalled),
{
    match status {
        Some(s) => s != ScmStatus::NotInstalled,
        None => false,
    }
}

/// Who listens on the service port.
#[derive(Debug, Clone, PartialEq, Eq)]
pub struct ListenerInfo {
    /// Process id.
    pub pid: u32,
    /// Its command line, when known.
    pub command_line: Option<String>,
    /// It is an astral-core process.
    pub is_astral_core: bool,
    /// It runs with the earlier layout or name.
    pub is_legacy: bool,
    /// It carries the current generation marker.
    pub generation_match: bool,
}

/// Health report (shared by the GUI and the command line).
#[derive(Debug, Clone)]
pub struct ServiceHealthReport {
    /// Service name.
    pub service_name: String,
    /// Service generation.
    pub service_generation: String,
    /// Listen address.
    pub listen: String,
    /// Service manager state text.
    pub scm_status: String,
    /// The earlier service is installed.
    pub legacy_service_installed: bool,
    /// The earlier service's state text.
    pub legacy_service_status: Option<String>,
    /// Who listens on the port.
    pub listener: Option<ListenerInfo>,
    /// The registry has instances.
    pub registry_present: bool,
    /// Generation the registry records.
    pub registry_generation: Option<String>,
    /// Data directory the registry records.
    pub registry_data_dir: Option<String>,
    /// Data directory.
    pub data_dir: String,
    /// Earlier data directory.
    pub legacy_data_dir: String,
    /// The earlier data directory exists.
    pub legacy_data_dir_exists: bool,
    /// Problems found.
    pub issues: Vec<String>,
    /// A repair is needed.
    pub needs_repair: bool,
}

/// What the health check observed.
#[derive(Debug)]
pub struct HealthProbe {
    /// Data root.
    pub data_dir: String,
    /// Whether the earlier data directory (`instances/default` under the
    /// root) exists.
    pub legacy_data_dir_exists: bool,
    /// State of the service.
    pub scm: ScmStatus,
    /// State of the earlier service, when it could be queried.
    pub legacy_status: Option<ScmStatus>,
    /// Who listens on the port.
    pub listener: Option<ListenerInfo>,
    /// The registry, when it could be read.
    pub registry: Option<ServiceRegistry>,
}

/// The earlier service is installed according to a probe.
pub open spec fn probe_legacy_installed(p: HealthProbe) -> bool {
    p.legacy_status matches Some(s) && s != ScmStatus::NotInstalled
}

/// The registry is present and has instances.
pub open spec fn probe_registry_present(p: HealthProbe) -> bool {
    p.registry matches Some(r) && r.instances@.len() > 0
}

/// The issue about the earlier service, if any.
pub open spec fn issue_legacy_service(p: HealthProbe) -> Seq<Seq<char>> {
    if probe_legacy_installed(p) {
        seq!["旧服务仍存在: "@ + LEGACY_SERVICE_QUALIFIED_NAME@]
    } else {
        Seq::empty()
    }
}

/// The issue about the earlier data directory, if any.
pub open spec fn issue_legacy_dir(p: HealthProbe) -> Seq<Seq<char>> {
    if p.legacy_data_dir_exists {
        seq!["旧数据目录仍存在: "@ + legacy_data_path(p.data_dir@)]
    } else {
        Seq::empty()
    }
}

/// The issue about who listens on the port, if any.
pub open spec fn issue_listener(p: HealthProbe) -> Seq<Seq<char>> {
    match p.listener {
        Some(l) => if l.is_astral_core && (!l.generation_match || l.is_legacy) {
            seq![
                "端口 "@ + decimal(DEFAULT_PORT as nat) + " 被旧参数 astral-core 占用 (pid="@
                    + decimal(l.pid as nat) + ")"@,
            ]
        } else if l.is_astral_core && p.scm != ScmStatus::Running {
            seq![
                "端口 "@ + decimal(DEFAULT_PORT as nat) + " 有 astral-core 监听，但 SCM 状态为 "@
                    + scm_text(p.scm),
            ]
        } else {
            Seq::empty()
        },
        None => Seq::empty(),
    }
}

/// The issue about the registry's generation, if any.
pub open spec fn issue_generation(p: HealthProbe) -> Seq<Seq<char>> {
    if probe_registry_present(p) && !(p.registry->0.service_generation matches Some(g) && g@
        == SERVICE_GENERATION@) {
        seq!["登记文件代际过旧或缺失"@]
    } else {
        Seq::empty()
    }
}

/// The issue about the registry's data directory, if any.
pub open spec fn issue_data_dir(p: HealthProbe) -> Seq<Seq<char>> {
    if probe_registry_present(p) && !paths_match(
        p.registry->0.instances@[0].data_dir@,
        p.data_dir@,
    ) {
        seq!["登记 data_dir 与当前默认不一致: "@ + p.registry->0.instances@[0].data_dir@]
    } else {
        Seq::empty()
    }
}

/// The issues a probe shows, in order.
pub open spec fn health_issues(p: HealthProbe) -> Seq<Seq<char>> {
    issue_legacy_service(p) + issue_legacy_dir(p) + issue_listener(p) + issue_generation(p)
        + issue_data_dir(p)
}

/// The text of a list of strings.
pub open spec fn texts(v: Seq<String>) -> Seq<Seq<char>> {
    v.map_values(|s: String| s@)
}

fn push_issue(issues: &mut Vec<String>, issue: Option<String>)
    ensures
        texts(final(issues)@) == texts(old(issues)@) + match issue {
            Some(s) => seq![s@],
            None => Seq::<Seq<char>>::empty(),
        },
{
    match issue {
        Some(s) => {
            issues.push(s);
        },
        None => {},
    }
    assert(texts(issues@) =~= texts(old(issues)@) + match issue {
        Some(s) => seq![s@],
        None => Seq::<Seq<char>>::empty(),
    });
}

/// The one-issue list as an option.
pub open spec fn one_issue(o: Option<String>, expected: Seq<Seq<char>>) -> bool {
    match o {
        Some(s) => expected == seq![s@],
        None => expected.len() == 0,
    }
}

fn legacy_service_issue(p: &HealthProbe) -> (o: Option<String>)
    ensures
        one_issue(o, issue_legacy_service(*p)),
{
    if legacy_service_installed(p.legacy_status) {
        let mut m: Vec<char> = Vec::new();
        append_str(&mut m, "旧服务仍存在: ");
        append_str(&mut m, LEGACY_SERVICE_QUALIFIED_NAME);
        Some(string_from_chars(m.as_slice()))
    } else {
        None
    }
}

fn legacy_dir_issue(p: &HealthProbe) -> (o: Option<String>)
    ensures
        one_issue(o, issue_legacy_dir(*p)),
{
    if p.legacy_data_dir_exists {
        let legacy = legacy_data_dir(p.data_dir.as_str());
        let mut m: Vec<char> = Vec::new();
        append_str(&mut m, "旧数据目录仍存在: ");
        append_str(&mut m, legacy.as_str());
        Some(string_from_chars(m.as_slice()))
    } else {
        None
    }
}

fn listener_issue(p: &HealthProbe) -> (o: Option<String>)
    ensures
        one_issue(o, issue_listener(*p)),
{
    match &p.listener {
        Some(l) => {
            if l.is_astral_core && (!l.generation_match || l.is_legacy) {
                let mut m: Vec<char> = Vec::new();
                append_str(&mut m, "端口 ");
                append_chars(&mut m, &decimal_chars(DEFAULT_PORT as u64));
                append_str(&mut m, " 被旧参数 astral-core 占用 (pid=");
                append_chars(&mut m, &decimal_chars(l.pid as u64));
                append_str(&mut m, ")");
                Some(string_from_chars(m.as_slice()))
            } else if l.is_astral_core && p.scm != ScmStatus::Running {
                let mut m: Vec<char> = Vec::new();
                append_str(&mut m, "端口 ");
                append_chars(&mut m, &decimal_chars(DEFAULT_PORT as u64));
                append_str(&mut m, " 有 astral-core 监听，但 SCM 状态为 ");
                append_str(&mut m, scm_status_text(p.scm));
                Some(string_from_chars(m.as_slice()))
            } else {
                None
            }
        },
        None => None,
    }
}

fn generation_issue(p: &HealthProbe) -> (o: Option<String>)
    ensures
        one_issue(o, issue_generation(*p)),
{
    match &p.registry {
        Some(r) => {
            if r.instances.len() > 0 {
                let current = match &r.service_generation {
                    Some(g) => str_eq(g.as_str(), SERVICE_GENERATION),
                    None => false,
                };
                if !current {
                    return Some("登记文件代际过旧或缺失".to_string());
                }
            }
            None
        },
        None => None,
    }
}

fn data_dir_issue(p: &HealthProbe) -> (o: Option<String>)
    ensures
        one_issue(o, issue_data_dir(*p)),
{
    match &p.registry {
        Some(r) => {
            if r.instances.len() > 0 {
                let dir = &r.instances[0].data_dir;
                if !path_equal(dir.as_str(), p.data_dir.as_str()) {
                    let mut m: Vec<char> = Vec::new();
                    append_str(&mut m, "登记 data_dir 与当前默认不一致: ");
                    append_str(&mut m, dir.as_str());
                    return Some(string_from_chars(m.as_slice()));
                }
            }
            None
        },
        None => None,
    }
}

/// The issues of a probe, in the order of `health_issues`.
pub fn issue_list(p: &HealthProbe) -> (v: Vec<String>)
    ensures
        texts(v@) == health_issues(*p),
{
    let mut v: Vec<String> = Vec::new();
    assert(texts(v@) =~= Seq::<Seq<char>>::empty());
    push_issue(&mut v, legacy_service_issue(p));
    push_issue(&mut v, legacy_dir_issue(p));
    push_issue(&mut v, listener_issue(p));
    push_issue(&mut v, generation_issue(p));
    push_issue(&mut v, data_dir_issue(p));
    assert(texts(v@) =~= health_issues(*p));
    v
}

/// The report of a probe: the issues found and whether a repair is
/// needed (exactly when there is an issue).
pub fn inspect_health(probe: HealthProbe) -> (r: ServiceHealthReport)
    ensures
        texts(r.issues@) == health_issues(probe),
        r.needs_repair == (health_issues(probe).len() > 0),
        r.service_name@ == SERVICE_QUALIFIED_NAME@,
        r.service_generation@ == SERVICE_GENERATION@,
        r.listen@ == "127.0.0.1:50051"@,
        r.scm_status@ == scm_text(probe.scm),
        r.legacy_service_installed == probe_legacy_installed(probe),
        opt_text(r.legacy_service_status) == if probe_legacy_installed(probe) {
            Some(scm_text(probe.legacy_status->0))
        } else {
            None
        },
        r.registry_generation == match probe.registry {
            Some(g) => g.service_generation,
            None => None,
        },
        r.registry_data_dir == match probe.registry {
            Some(g) => if g.instances@.len() > 0 {
                Some(g.instances@[0].data_dir)
            } else {
                None
            },
            None => None,
        },
        r.listener == probe.listener,
        r.registry_present == probe_registry_present(probe),
        r.data_dir == probe.data_dir,
        r.legacy_data_dir@ == legacy_data_path(probe.data_dir@),
        r.legacy_data_dir_exists == probe.legacy_data_dir_exists,
{
    let issues = issue_list(&probe);
    let legacy_installed = legacy_service_installed(probe.legacy_status);
    let legacy_status_text = if legacy_installed {
        match probe.legacy_status {
            Some(s) => Some(scm_status_text(s).to_string()),
            None => None,
        }
    } else {
        None
    };
    let present = match &probe.registry {
        Some(r) => r.instances.len() > 0,
        None => false,
    };
    let mut registry_generation: Option<String> = None;
    let mut registry_data_dir: Option<String> = None;
    match &probe.registry {
        Some(r) => {
            registry_generation = match &r.service_generation {
                Some(g) => Some(g.clone()),
                None => None,
            };
            if r.instances.len() > 0 {
                registry_data_dir = Some(r.instances[0].data_dir.clone());
            }
        },
        None => {},
    }
    let needs_repair = issues.len() > 0;
    let legacy_dir = legacy_data_dir(probe.data_dir.as_str());
    ServiceHealthReport {
        service_name: SERVICE_QUALIFIED_NAME.to_string(),
        service_generation: SERVICE_GENERATION.to_string(),
        listen: "127.0.0.1:50051".to_string(),
        scm_status: scm_status_text(probe.scm).to_string(),
        legacy_service_installed: legacy_installed,
        legacy_service_status: legacy_status_text,
        listener: probe.listener,
        registry_present: present,
        registry_generation,
        registry_data_dir,
        data_dir: probe.data_dir,
        legacy_data_dir: legacy_dir,
        legacy_data_dir_exists: probe.legacy_data_dir_exists,
        issues,
        needs_repair,
    }
}

/// Whether a report calls for the "still needs repair" warning.
pub fn verify_service_consistency(report: &ServiceHealthReport) -> (warn: bool)
    ensures
        warn == report.needs_repair,
{
    report.needs_repair
}

} // verus!
