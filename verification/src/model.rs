//! Data exchanged with the GUI: instance states, summaries, metadata and
//! the structured network configuration.
use vstd::prelude::*;

verus! {

/// Runtime state of an instance.
#[derive(Debug, Clone, Copy, PartialEq, Eq, Structural)]
pub enum InstanceState {
    /// Unspecified.
    Unspecified,
    /// Stopped.
    Stopped,
    /// Starting.
    Starting,
    /// Running.
    Running,
    /// Stopping.
    Stopping,
    /// Error.
    Error,
}

/// Summary of an instance.
#[derive(Debug, Clone)]
pub struct InstanceSummary {
    /// Instance id.
    pub instance_id: String,
    /// Display name.
    pub display_name: String,
    /// Runtime state.
    pub state: InstanceState,
    /// Whether it counts as running.
    pub running: bool,
    /// Error text.
    pub error_message: String,
    /// Virtual device name.
    pub dev_name: String,
    /// Network name.
    pub network_name: String,
    /// Host name.
    pub hostname: String,
    /// Start of the current run (Unix ms); `None` when not running.
    pub started_at_unix_ms: Option<u64>,
}

/// Lightweight listing metadata of an instance.
#[derive(Debug, Clone)]
pub struct InstanceMeta {
    /// Instance id.
    pub instance_id: String,
    /// Display name.
    pub display_name: String,
    /// Runtime state.
    pub state: InstanceState,
    /// Whether it counts as running.
    pub running: bool,
    /// Where the configuration came from.
    pub source_path: String,
    /// Error text.
    pub error_message: String,
    /// Start of the current run (Unix ms); `None` when not running.
    pub started_at_unix_ms: Option<u64>,
}

/// A port forward of the structured configuration.
#[derive(Debug, Clone)]
pub struct PortForwardEntry {
    /// `tcp` or `udp`.
    pub protocol: String,
    /// Bind address.
    pub bind_ip: String,
    /// Bind port.
    pub bind_port: u32,
    /// Destination address.
    pub dst_ip: String,
    /// Destination port.
    pub dst_port: u32,
}

impl Default for PortForwardEntry {
    fn default() -> (p: PortForwardEntry)
        ensures
            p.protocol@.len() == 0 && p.bind_ip@.len() == 0 && p.bind_port == 0
                && p.dst_ip@.len() == 0 && p.dst_port == 0,
    {
        PortForwardEntry {
            protocol: String::new(),
            bind_ip: String::new(),
            bind_port: 0,
            dst_ip: String::new(),
            dst_port: 0,
        }
    }
}

/// Structured network configuration (the engine still accepts it; the
/// JSON-RPC start and stop calls use TOML).
#[derive(Debug, Clone)]
pub struct NetworkConfig {
    /// Instance id.
    pub instance_id: String,
    /// Host name.
    pub hostname: String,
    /// Network name.
    pub network_name: String,
    /// Network secret.
    pub network_secret: String,
    /// DHCP.
    pub dhcp: bool,
    /// Virtual IPv4.
    pub ipv4: String,
    /// Prefix length.
    pub network_length: i32,
    /// Virtual IPv6.
    pub ipv6: String,
    /// Listener URLs.
    pub listeners: Vec<String>,
    /// Peer URLs.
    pub peers: Vec<String>,
    /// Mapped listeners.
    pub mapped_listeners: Vec<String>,
    /// Proxied networks.
    pub proxy_cidrs: Vec<String>,
    /// Static routes.
    pub routes: Vec<String>,
    /// Exit nodes.
    pub exit_nodes: Vec<String>,
    /// VPN portal.
    pub enable_vpn_portal: bool,
    /// VPN listen port.
    pub vpn_portal_listen_port: i32,
    /// VPN client network.
    pub vpn_portal_client_network: String,
    /// VPN client prefix length.
    pub vpn_portal_client_network_len: i32,
    /// Device name.
    pub dev_name: String,
    /// MTU.
    pub mtu: i32,
    /// Latency first.
    pub latency_first: bool,
    /// Multi-threaded.
    pub multi_thread: bool,
    /// Encryption.
    pub enable_encryption: bool,
    /// IPv6.
    pub enable_ipv6: bool,
    /// KCP proxy.
    pub enable_kcp_proxy: bool,
    /// QUIC proxy.
    pub enable_quic_proxy: bool,
    /// P2P.
    pub enable_p2p: bool,
    /// UDP hole punching.
    pub enable_udp_hole_punching: bool,
    /// TUN device.
    pub enable_tun: bool,
    /// smoltcp stack.
    pub use_smoltcp: bool,
    /// Magic DNS.
    pub enable_magic_dns: bool,
    /// Private mode.
    pub enable_private_mode: bool,
    /// Act as exit node.
    pub enable_exit_node: bool,
    /// SOCKS5.
    pub enable_socks5: bool,
    /// SOCKS5 port.
    pub socks5_port: i32,
    /// Bind to the device.
    pub bind_device: bool,
    /// Forward through the system.
    pub proxy_forward_by_system: bool,
    /// Relay all peer RPC.
    pub relay_all_peer_rpc: bool,
    /// Relay whitelist.
    pub relay_network_whitelist: Vec<String>,
    /// Port forwards.
    pub port_forwards: Vec<PortForwardEntry>,
    /// Extra settings (key, value).
    pub extra: Vec<(String, String)>,
}

impl Default for NetworkConfig {
    fn default() -> (c: NetworkConfig)
        ensures
            c.instance_id@.len() == 0 && c.hostname@.len() == 0 && c.network_name@.len() == 0
                && c.network_secret@.len() == 0 && !c.dhcp && c.ipv4@.len() == 0
                && c.network_length == 0 && c.ipv6@.len() == 0,
            c.listeners@.len() == 0 && c.peers@.len() == 0 && c.mapped_listeners@.len() == 0
                && c.proxy_cidrs@.len() == 0 && c.routes@.len() == 0 && c.exit_nodes@.len() == 0
                && c.relay_network_whitelist@.len() == 0 && c.port_forwards@.len() == 0
                && c.extra@.len() == 0,
            !c.enable_vpn_portal && c.vpn_portal_listen_port == 0
                && c.vpn_portal_client_network@.len() == 0 && c.vpn_portal_client_network_len == 0
                && c.dev_name@.len() == 0 && c.mtu == 0 && c.socks5_port == 0,
            !c.latency_first && !c.multi_thread && !c.enable_encryption && !c.enable_ipv6
                && !c.enable_kcp_proxy && !c.enable_quic_proxy && !c.enable_p2p
                && !c.enable_udp_hole_punching && !c.enable_tun && !c.use_smoltcp
                && !c.enable_magic_dns && !c.enable_private_mode && !c.enable_exit_node
                && !c.enable_socks5 && !c.bind_device && !c.proxy_forward_by_system
                && !c.relay_all_peer_rpc,
    {
        NetworkConfig {
            instance_id: String::new(),
            hostname: String::new(),
            network_name: String::new(),
            network_secret: String::new(),
            dhcp: false,
            ipv4: String::new(),
            network_length: 0,
            ipv6: String::new(),
            listeners: Vec::new(),
            peers: Vec::new(),
            mapped_listeners: Vec::new(),
            proxy_cidrs: Vec::new(),
            routes: Vec::new(),
            exit_nodes: Vec::new(),
            enable_vpn_portal: false,
            vpn_portal_listen_port: 0,
            vpn_portal_client_network: String::new(),
            vpn_portal_client_network_len: 0,
            dev_name: String::new(),
            mtu: 0,
            latency_first: false,
            multi_thread: false,
            enable_encryption: false,
            enable_ipv6: false,
            enable_kcp_proxy: false,
            enable_quic_proxy: false,
            enable_p2p: false,
            enable_udp_hole_punching: false,
            enable_tun: false,
            use_smoltcp: false,
            enable_magic_dns: false,
            enable_private_mode: false,
            enable_exit_node: false,
            enable_socks5: false,
            socks5_port: 0,
            bind_device: false,
            proxy_forward_by_system: false,
            relay_all_peer_rpc: false,
            relay_network_whitelist: Vec::new(),
            port_forwards: Vec::new(),
            extra: Vec::new(),
        }
    }
}

/// The state reported for an instance the engine has running information
/// of: running without error, else error, else starting if the engine
/// runs it, else stopped.
pub open spec fn derived_state(running: bool, error: Seq<char>) -> InstanceState {
    if running && error.len() == 0 {
        InstanceState::Running
    } else if error.len() > 0 {
        InstanceState::Error
    } else if running {
        InstanceState::Starting
    } else {
        InstanceState::Stopped
    }
}

/// The state reported from a run reflects it: running exactly when the
/// engine runs the instance without error, an error exactly when there
/// is an error message, and stopped when it neither runs nor failed
/// (never starting: a run without error is reported running).
pub proof fn state_reflects_run(running: bool, error: Seq<char>)
    ensures
        derived_state(running, error) == InstanceState::Running <==> running && error.len() == 0,
        derived_state(running, error) == InstanceState::Error <==> error.len() > 0,
        !running && error.len() == 0 ==> derived_state(running, error) == InstanceState::Stopped,
        derived_state(running, error) != InstanceState::Starting,
        derived_state(running, error) != InstanceState::Unspecified,
        derived_state(running, error) != InstanceState::Stopping,
{
}

/// The text of an optional value, empty when absent.
pub open spec fn text_or_empty(s: Option<String>) -> Seq<char> {
    match s {
        Some(t) => t@,
        None => Seq::empty(),
    }
}

fn text_or_default(s: Option<String>) -> (r: String)
    ensures
        r@ == text_or_empty(s),
{
    match s {
        Some(t) => t,
        None => String::new(),
    }
}

/// `s` is the summary of an instance the engine reports running
/// information for: its state derived from the run flag and the error,
/// running only without error, the device name and host name reported.
pub open spec fn running_summary(
    s: InstanceSummary,
    instance_id: String,
    display_name: String,
    running: bool,
    error_msg: Option<String>,
    dev_name: Option<String>,
    hostname: String,
) -> bool {
    &&& s.instance_id == instance_id
    &&& s.display_name == display_name
    &&& s.error_message@ == text_or_empty(error_msg)
    &&& s.running == (running && text_or_empty(error_msg).len() == 0)
    &&& s.state == derived_state(running, text_or_empty(error_msg))
    &&& s.dev_name@ == text_or_empty(dev_name)
    &&& s.network_name@.len() == 0
    &&& s.hostname == hostname
    &&& s.started_at_unix_ms is None
}

/// `s` is the summary of an instance the engine manages without running
/// information yet: starting, not running, with its latest error.
pub open spec fn starting_summary(
    s: InstanceSummary,
    instance_id: String,
    display_name: String,
    latest_error: Option<String>,
) -> bool {
    &&& s.instance_id == instance_id
    &&& s.display_name == display_name
    &&& s.state == InstanceState::Starting
    &&& !s.running
    &&& s.error_message@ == text_or_empty(latest_error)
    &&& s.dev_name@.len() == 0 && s.network_name@.len() == 0 && s.hostname@.len() == 0
    &&& s.started_at_unix_ms is None
}

/// `s` is the summary of an instance the engine does not manage:
/// stopped, "instance not found".
pub open spec fn missing_summary(s: InstanceSummary, instance_id: String, display_name: String) -> bool {
    &&& s.instance_id == instance_id
    &&& s.display_name == display_name
    &&& s.state == InstanceState::Stopped
    &&& !s.running
    &&& s.error_message@ == "instance not found"@
    &&& s.dev_name@.len() == 0 && s.network_name@.len() == 0 && s.hostname@.len() == 0
    &&& s.started_at_unix_ms is None
}

/// Summary of an instance the engine reports running information for.
pub fn summary_from_running(
    instance_id: String,
    display_name: String,
    running: bool,
    error_msg: Option<String>,
    dev_name: Option<String>,
    hostname: String,
) -> (s: InstanceSummary)
    ensures
        running_summary(s, instance_id, display_name, running, error_msg, dev_name, hostname),
        s.state == InstanceState::Running <==> running && text_or_empty(error_msg).len() == 0,
        s.state == InstanceState::Error <==> text_or_empty(error_msg).len() > 0,
        !running && text_or_empty(error_msg).len() == 0 ==> s.state == InstanceState::Stopped,
        s.running <==> s.state == InstanceState::Running,
{
    let err = text_or_default(error_msg);
    let no_error = err.as_str().is_empty();
    let is_running = running && no_error;
    let state = if is_running {
        InstanceState::Running
    } else if !no_error {
        InstanceState::Error
    } else if running {
        InstanceState::Starting
    } else {
        InstanceState::Stopped
    };
    InstanceSummary {
        instance_id,
        display_name,
        state,
        running: is_running,
        error_message: err,
        dev_name: text_or_default(dev_name),
        network_name: String::new(),
        hostname,
        started_at_unix_ms: None,
    }
}

/// Summary of an instance the engine manages but has no running
/// information for yet: starting, with its latest error if any.
pub fn summary_starting(instance_id: String, display_name: String, latest_error: Option<String>) -> (s:
    InstanceSummary)
    ensures
        starting_summary(s, instance_id, display_name, latest_error),
{
    InstanceSummary {
        instance_id,
        display_name,
        state: InstanceState::Starting,
        running: false,
        error_message: text_or_default(latest_error),
        dev_name: String::new(),
        network_name: String::new(),
        hostname: String::new(),
        started_at_unix_ms: None,
    }
}

/// Summary of an instance the engine does not manage: stopped, "instance
/// not found".
pub fn summary_missing(instance_id: String, display_name: String) -> (s: InstanceSummary)
    ensures
        missing_summary(s, instance_id, display_name),
{
    InstanceSummary {
        instance_id,
        display_name,
        state: InstanceState::Stopped,
        running: false,
        error_message: "instance not found".to_string(),
        dev_name: String::new(),
        network_name: String::new(),
        hostname: String::new(),
        started_at_unix_ms: None,
    }
}

/// What the engine reported of an instance's run.
#[derive(Debug, Clone)]
pub struct EngineRunInfo {
    /// The engine runs it.
    pub running: bool,
    /// Its error message, when any.
    pub error_msg: Option<String>,
    /// Its device name, when any.
    pub dev_name: Option<String>,
    /// The local host name.
    pub hostname: String,
}

/// What the engine knows of an instance.
#[derive(Debug, Clone)]
pub enum EngineSighting {
    /// Running information.
    Running(EngineRunInfo),
    /// Managed, without running information yet; its latest error.
    Managed(Option<String>),
    /// Not managed.
    Unknown,
}

/// The summary of an instance from what the engine knows of it: from its
/// running information when there is some, else starting when the engine
/// manages it, else stopped and not found.
pub fn summary_of(instance_id: String, display_name: String, seen: EngineSighting) -> (s:
    InstanceSummary)
    ensures
        match seen {
            EngineSighting::Running(i) => running_summary(
                s,
                instance_id,
                display_name,
                i.running,
                i.error_msg,
                i.dev_name,
                i.hostname,
            ),
            EngineSighting::Managed(e) => starting_summary(s, instance_id, display_name, e),
            EngineSighting::Unknown => missing_summary(s, instance_id, display_name),
        },
{
    match seen {
        EngineSighting::Running(i) => summary_from_running(
            instance_id,
            display_name,
            i.running,
            i.error_msg,
            i.dev_name,
            i.hostname,
        ),
        EngineSighting::Managed(e) => summary_starting(instance_id, display_name, e),
        EngineSighting::Unknown => summary_missing(instance_id, display_name),
    }
}

/// Listing metadata from a summary and the configuration's source path.
pub fn instance_meta(s: InstanceSummary, source_path: String) -> (m: InstanceMeta)
    ensures
        m.instance_id == s.instance_id,
        m.display_name == s.display_name,
        m.state == s.state,
        m.running == s.running,
        m.source_path == source_path,
        m.error_message == s.error_message,
        m.started_at_unix_ms == s.started_at_unix_ms,
{
    InstanceMeta {
        instance_id: s.instance_id,
        display_name: s.display_name,
        state: s.state,
        running: s.running,
        source_path,
        error_message: s.error_message,
        started_at_unix_ms: s.started_at_unix_ms,
    }
}

/// Whether a listing filter selects an instance: an empty filter selects
/// all, else the id must be listed.
pub fn meta_selected(filter: &Vec<String>, instance_id: &str) -> (b: bool)
    ensures
        b == (filter@.len() == 0 || exists|i: int| 0 <= i < filter@.len() && (#[trigger] filter@[i])@
            == instance_id@),
{
    if filter.len() == 0 {
        return true;
    }
    let mut i: usize = 0;
    while i < filter.len()
        invariant
            i <= filter@.len(),
            forall|k: int| 0 <= k < i ==> (#[trigger] filter@[k])@ != instance_id@,
        decreases filter@.len() - i,
    {
        if crate::text::str_eq(filter[i].as_str(), instance_id) {
            return true;
        }
        i = i + 1;
    }
    false
}

/// The snake_case name of a state, as it appears in JSON.
pub fn state_name(s: InstanceState) -> (r: &'static str)
    ensures
        s == InstanceState::Unspecified ==> r@ == "unspecified"@,
        s == InstanceState::Stopped ==> r@ == "stopped"@,
        s == InstanceState::Starting ==> r@ == "starting"@,
        s == InstanceState::Running ==> r@ == "running"@,
        s == InstanceState::Stopping ==> r@ == "stopping"@,
        s == InstanceState::Error ==> r@ == "error"@,
{
    match s {
        InstanceState::Unspecified => "unspecified",
        InstanceState::Stopped => "stopped",
        InstanceState::Starting => "starting",
        InstanceState::Running => "running",
        InstanceState::Stopping => "stopping",
        InstanceState::Error => "error",
    }
}

} // verus!
