//! The structured network configuration as the engine takes it: the
//! engine's own configuration record, and the settings applied one by
//! one when that record is refused.
use vstd::prelude::*;

use crate::digest::{parse_uuid, uuid_parse};
use crate::error::CoreError;
use crate::model::{NetworkConfig, PortForwardEntry};
use crate::service::manage::opt_text;
use crate::sessions::copy_strings;
use crate::text::{append_chars, append_str, contains_chars, contains_seq, decimal, decimal_chars,
    str_chars, string_from_chars};

verus! {

/// A port forward in the engine's configuration record.
#[derive(Debug, Clone)]
pub struct EtPortForward {
    /// Bind address.
    pub bind_ip: String,
    /// Bind port.
    pub bind_port: u32,
    /// Destination address.
    pub dst_ip: String,
    /// Destination port.
    pub dst_port: u32,
    /// Protocol.
    pub proto: String,
}

/// The engine's network configuration record, with the settings this
/// daemon fills in (those it leaves unset are not held).
#[derive(Debug, Clone)]
pub struct EtNetworkConfig {
    /// Instance id.
    pub instance_id: Option<String>,
    /// DHCP.
    pub dhcp: Option<bool>,
    /// Virtual IPv4.
    pub virtual_ipv4: Option<String>,
    /// Prefix length.
    pub network_length: Option<i32>,
    /// Host name.
    pub hostname: Option<String>,
    /// Network name.
    pub network_name: Option<String>,
    /// Network secret.
    pub network_secret: Option<String>,
    /// Peer URLs.
    pub peer_urls: Vec<String>,
    /// Proxied networks.
    pub proxy_cidrs: Vec<String>,
    /// VPN portal.
    pub enable_vpn_portal: Option<bool>,
    /// VPN listen port.
    pub vpn_portal_listen_port: Option<i32>,
    /// VPN client network address.
    pub vpn_portal_client_network_addr: Option<String>,
    /// VPN client prefix length.
    pub vpn_portal_client_network_len: Option<i32>,
    /// Advanced settings in use.
    pub advanced_settings: Option<bool>,
    /// Listener URLs.
    pub listener_urls: Vec<String>,
    /// Latency first.
    pub latency_first: Option<bool>,
    /// Device name.
    pub dev_name: Option<String>,
    /// smoltcp stack.
    pub use_smoltcp: Option<bool>,
    /// IPv6 off.
    pub disable_ipv6: Option<bool>,
    /// KCP proxy.
    pub enable_kcp_proxy: Option<bool>,
    /// P2P off.
    pub disable_p2p: Option<bool>,
    /// Bind to the device.
    pub bind_device: Option<bool>,
    /// No TUN device.
    pub no_tun: Option<bool>,
    /// Act as exit node.
    pub enable_exit_node: Option<bool>,
    /// Relay all peer RPC.
    pub relay_all_peer_rpc: Option<bool>,
    /// Multi-threaded.
    pub multi_thread: Option<bool>,
    /// Relay whitelist in use.
    pub enable_relay_network_whitelist: Option<bool>,
    /// Relay whitelist.
    pub relay_network_whitelist: Vec<String>,
    /// Manual routes in use.
    pub enable_manual_routes: Option<bool>,
    /// Routes.
    pub routes: Vec<String>,
    /// Exit nodes.
    pub exit_nodes: Vec<String>,
    /// Forward through the system.
    pub proxy_forward_by_system: Option<bool>,
    /// Encryption off.
    pub disable_encryption: Option<bool>,
    /// SOCKS5.
    pub enable_socks5: Option<bool>,
    /// SOCKS5 port.
    pub socks5_port: Option<i32>,
    /// UDP hole punching off.
    pub disable_udp_hole_punching: Option<bool>,
    /// MTU.
    pub mtu: Option<i32>,
    /// Mapped listeners.
    pub mapped_listeners: Vec<String>,
    /// Magic DNS.
    pub enable_magic_dns: Option<bool>,
    /// Private mode.
    pub enable_private_mode: Option<bool>,
    /// QUIC proxy.
    pub enable_quic_proxy: Option<bool>,
    /// Port forwards.
    pub port_forwards: Vec<EtPortForward>,
}

/// A text, absent when empty.
pub open spec fn nonempty_text(s: Seq<char>) -> Option<Seq<char>> {
    if s.len() == 0 {
        None
    } else {
        Some(s)
    }
}

/// A number, absent when zero.
pub open spec fn nonzero(n: i32) -> Option<i32> {
    if n != 0 {
        Some(n)
    } else {
        None
    }
}

fn nonempty(s: &String) -> (r: Option<String>)
    ensures
        opt_text(r) == nonempty_text(s@),
        r matches Some(t) ==> t == *s,
{
    if s.as_str().is_empty() {
        None
    } else {
        Some(s.clone())
    }
}

fn nonzero_i32(n: i32) -> (r: Option<i32>)
    ensures
        r == nonzero(n),
{
    if n != 0 {
        Some(n)
    } else {
        None
    }
}

/// The port forward as the engine's record holds it.
pub open spec fn et_forward_of(p: PortForwardEntry, e: EtPortForward) -> bool {
    &&& e.bind_ip@ == p.bind_ip@
    &&& e.bind_port == p.bind_port
    &&& e.dst_ip@ == p.dst_ip@
    &&& e.dst_port == p.dst_port
    &&& e.proto@ == p.protocol@
}

fn et_forwards(v: &Vec<PortForwardEntry>) -> (r: Vec<EtPortForward>)
    ensures
        r@.len() == v@.len(),
        forall|i: int| 0 <= i < v@.len() ==> et_forward_of(v@[i], #[trigger] r@[i]),
{
    let mut r: Vec<EtPortForward> = Vec::new();
    let mut i: usize = 0;
    while i < v.len()
        invariant
            i <= v@.len(),
            r@.len() == i,
            forall|k: int| 0 <= k < i ==> et_forward_of(v@[k], #[trigger] r@[k]),
        decreases v@.len() - i,
    {
        let p = &v[i];
        r.push(
            EtPortForward {
                bind_ip: p.bind_ip.clone(),
                bind_port: p.bind_port,
                dst_ip: p.dst_ip.clone(),
                dst_port: p.dst_port,
                proto: p.protocol.clone(),
            },
        );
        i = i + 1;
    }
    r
}

/// The engine's configuration record for a structured configuration:
/// empty texts and zero numbers left unset, the "enable" switches turned
/// into the engine's "disable" ones, whitelist and manual routes in use
/// exactly when given.
pub fn astral_to_et_network_config(c: &NetworkConfig) -> (e: EtNetworkConfig)
    ensures
        opt_text(e.instance_id) == nonempty_text(c.instance_id@),
        e.dhcp == Some(c.dhcp),
        opt_text(e.virtual_ipv4) == nonempty_text(c.ipv4@),
        e.network_length == nonzero(c.network_length),
        opt_text(e.hostname) == nonempty_text(c.hostname@),
        opt_text(e.network_name) == nonempty_text(c.network_name@),
        opt_text(e.network_secret) == nonempty_text(c.network_secret@),
        e.peer_urls@ == c.peers@,
        e.proxy_cidrs@ == c.proxy_cidrs@,
        e.enable_vpn_portal == Some(c.enable_vpn_portal),
        e.vpn_portal_listen_port == nonzero(c.vpn_portal_listen_port),
        opt_text(e.vpn_portal_client_network_addr) == nonempty_text(
            c.vpn_portal_client_network@,
        ),
        e.vpn_portal_client_network_len == nonzero(c.vpn_portal_client_network_len),
        e.advanced_settings == Some(true),
        e.listener_urls@ == c.listeners@,
        e.latency_first == Some(c.latency_first),
        opt_text(e.dev_name) == nonempty_text(c.dev_name@),
        e.use_smoltcp == Some(c.use_smoltcp),
        e.disable_ipv6 == Some(!c.enable_ipv6),
        e.enable_kcp_proxy == Some(c.enable_kcp_proxy),
        e.disable_p2p == Some(!c.enable_p2p),
        e.bind_device == Some(c.bind_device),
        e.no_tun == Some(!c.enable_tun),
        e.enable_exit_node == Some(c.enable_exit_node),
        e.relay_all_peer_rpc == Some(c.relay_all_peer_rpc),
        e.multi_thread == Some(c.multi_thread),
        e.enable_relay_network_whitelist == Some(c.relay_network_whitelist@.len() > 0),
        e.relay_network_whitelist@ == c.relay_network_whitelist@,
        e.enable_manual_routes == Some(c.routes@.len() > 0),
        e.routes@ == c.routes@,
        e.exit_nodes@ == c.exit_nodes@,
        e.proxy_forward_by_system == Some(c.proxy_forward_by_system),
        e.disable_encryption == Some(!c.enable_encryption),
        e.enable_socks5 == Some(c.enable_socks5),
        e.socks5_port == nonzero(c.socks5_port),
        e.disable_udp_hole_punching == Some(!c.enable_udp_hole_punching),
        e.mtu == nonzero(c.mtu),
        e.mapped_listeners@ == c.mapped_listeners@,
        e.enable_magic_dns == Some(c.enable_magic_dns),
        e.enable_private_mode == Some(c.enable_private_mode),
        e.enable_quic_proxy == Some(c.enable_quic_proxy),
        e.port_forwards@.len() == c.port_forwards@.len(),
        forall|i: int|
            0 <= i < c.port_forwards@.len() ==> et_forward_of(
                c.port_forwards@[i],
                #[trigger] e.port_forwards@[i],
            ),
{
    EtNetworkConfig {
        instance_id: nonempty(&c.instance_id),
        dhcp: Some(c.dhcp),
        virtual_ipv4: nonempty(&c.ipv4),
        network_length: nonzero_i32(c.network_length),
        hostname: nonempty(&c.hostname),
        network_name: nonempty(&c.network_name),
        network_secret: nonempty(&c.network_secret),
        peer_urls: copy_strings(&c.peers),
        proxy_cidrs: copy_strings(&c.proxy_cidrs),
        enable_vpn_portal: Some(c.enable_vpn_portal),
        vpn_portal_listen_port: nonzero_i32(c.vpn_portal_listen_port),
        vpn_portal_client_network_addr: nonempty(&c.vpn_portal_client_network),
        vpn_portal_client_network_len: nonzero_i32(c.vpn_portal_client_network_len),
        advanced_settings: Some(true),
        listener_urls: copy_strings(&c.listeners),
        latency_first: Some(c.latency_first),
        dev_name: nonempty(&c.dev_name),
        use_smoltcp: Some(c.use_smoltcp),
        disable_ipv6: Some(!c.enable_ipv6),
        enable_kcp_proxy: Some(c.enable_kcp_proxy),
        disable_p2p: Some(!c.enable_p2p),
        bind_device: Some(c.bind_device),
        no_tun: Some(!c.enable_tun),
        enable_exit_node: Some(c.enable_exit_node),
        relay_all_peer_rpc: Some(c.relay_all_peer_rpc),
        multi_thread: Some(c.multi_thread),
        enable_relay_network_whitelist: Some(c.relay_network_whitelist.len() > 0),
        relay_network_whitelist: copy_strings(&c.relay_network_whitelist),
        enable_manual_routes: Some(c.routes.len() > 0),
        routes: copy_strings(&c.routes),
        exit_nodes: copy_strings(&c.exit_nodes),
        proxy_forward_by_system: Some(c.proxy_forward_by_system),
        disable_encryption: Some(!c.enable_encryption),
        enable_socks5: Some(c.enable_socks5),
        socks5_port: nonzero_i32(c.socks5_port),
        disable_udp_hole_punching: Some(!c.enable_udp_hole_punching),
        mtu: nonzero_i32(c.mtu),
        mapped_listeners: copy_strings(&c.mapped_listeners),
        enable_magic_dns: Some(c.enable_magic_dns),
        enable_private_mode: Some(c.enable_private_mode),
        enable_quic_proxy: Some(c.enable_quic_proxy),
        port_forwards: et_forwards(&c.port_forwards),
    }
}

/// Engine flags set one by one.
#[derive(Debug, Clone)]
pub struct EngineFlags {
    /// Device name to set, when given.
    pub dev_name: Option<String>,
    /// Encryption.
    pub enable_encryption: bool,
    /// IPv6.
    pub enable_ipv6: bool,
    /// MTU to set, when positive.
    pub mtu: Option<u32>,
    /// Latency first.
    pub latency_first: bool,
    /// Act as exit node.
    pub enable_exit_node: bool,
    /// No TUN device.
    pub no_tun: bool,
    /// smoltcp stack.
    pub use_smoltcp: bool,
    /// P2P off.
    pub disable_p2p: bool,
    /// UDP hole punching off.
    pub disable_udp_hole_punching: bool,
    /// Multi-threaded.
    pub multi_thread: bool,
    /// Bind to the device.
    pub bind_device: bool,
    /// KCP proxy.
    pub enable_kcp_proxy: bool,
    /// QUIC proxy.
    pub enable_quic_proxy: bool,
    /// Forward through the system.
    pub proxy_forward_by_system: bool,
    /// Accept DNS (magic DNS).
    pub accept_dns: bool,
    /// Private mode.
    pub private_mode: bool,
    /// Relay all peer RPC.
    pub relay_all_peer_rpc: bool,
    /// Relay whitelist, space separated, when given.
    pub relay_network_whitelist: Option<String>,
}

/// Texts joined with one space between them.
pub open spec fn space_join(t: Seq<Seq<char>>) -> Seq<char>
    decreases t.len(),
{
    if t.len() == 0 {
        Seq::empty()
    } else if t.len() == 1 {
        t[0]
    } else {
        space_join(t.drop_last()) + seq![' '] + t.last()
    }
}

/// The texts of a list of strings.
pub open spec fn string_texts(v: Seq<String>) -> Seq<Seq<char>> {
    v.map_values(|s: String| s@)
}

/// `[String]::join(" ")`.
pub fn join_spaced(v: &Vec<String>) -> (r: String)
    ensures
        r@ == space_join(string_texts(v@)),
{
    let mut m: Vec<char> = Vec::new();
    let mut i: usize = 0;
    while i < v.len()
        invariant
            i <= v@.len(),
            m@ == space_join(string_texts(v@.take(i as int))),
        decreases v@.len() - i,
    {
        assert(string_texts(v@.take(i + 1)).drop_last() =~= string_texts(v@.take(i as int)));
        if i > 0 {
            m.push(' ');
        }
        append_str(&mut m, v[i].as_str());
        proof {
            let t = string_texts(v@.take(i + 1));
            assert(t.last() == v@[i as int]@);
            if i == 0 {
                assert(t =~= seq![v@[0]@]);
            }
        }
        i = i + 1;
    }
    assert(v@.take(i as int) =~= v@);
    string_from_chars(m.as_slice())
}

/// The engine flags `f` are those of the structured configuration `c`.
pub open spec fn flags_setting(c: NetworkConfig, f: EngineFlags) -> bool {
    &&& opt_text(f.dev_name) == nonempty_text(c.dev_name@)
    &&& f.enable_encryption == c.enable_encryption
    &&& f.enable_ipv6 == c.enable_ipv6
    &&& f.mtu == (if c.mtu > 0 {
            Some(c.mtu as u32)
        } else {
            None
        })
    &&& f.latency_first == c.latency_first
    &&& f.enable_exit_node == c.enable_exit_node
    &&& f.no_tun == !c.enable_tun
    &&& f.use_smoltcp == c.use_smoltcp
    &&& f.disable_p2p == !c.enable_p2p
    &&& f.disable_udp_hole_punching == !c.enable_udp_hole_punching
    &&& f.multi_thread == c.multi_thread
    &&& f.bind_device == c.bind_device
    &&& f.enable_kcp_proxy == c.enable_kcp_proxy
    &&& f.enable_quic_proxy == c.enable_quic_proxy
    &&& f.proxy_forward_by_system == c.proxy_forward_by_system
    &&& f.accept_dns == c.enable_magic_dns
    &&& f.private_mode == c.enable_private_mode
    &&& f.relay_all_peer_rpc == c.relay_all_peer_rpc
    &&& opt_text(f.relay_network_whitelist) == (if c.relay_network_whitelist@.len() > 0 {
            Some(space_join(string_texts(c.relay_network_whitelist@)))
        } else {
            None
        })
}

/// The flags applied for a structured configuration.
pub fn manual_flags(c: &NetworkConfig) -> (f: EngineFlags)
    ensures
        flags_setting(*c, f),
{
    EngineFlags {
        dev_name: nonempty(&c.dev_name),
        enable_encryption: c.enable_encryption,
        enable_ipv6: c.enable_ipv6,
        mtu: if c.mtu > 0 {
            Some(c.mtu as u32)
        } else {
            None
        },
        latency_first: c.latency_first,
        enable_exit_node: c.enable_exit_node,
        no_tun: !c.enable_tun,
        use_smoltcp: c.use_smoltcp,
        disable_p2p: !c.enable_p2p,
        disable_udp_hole_punching: !c.enable_udp_hole_punching,
        multi_thread: c.multi_thread,
        bind_device: c.bind_device,
        enable_kcp_proxy: c.enable_kcp_proxy,
        enable_quic_proxy: c.enable_quic_proxy,
        proxy_forward_by_system: c.proxy_forward_by_system,
        accept_dns: c.enable_magic_dns,
        private_mode: c.enable_private_mode,
        relay_all_peer_rpc: c.relay_all_peer_rpc,
        relay_network_whitelist: if c.relay_network_whitelist.len() > 0 {
            Some(join_spaced(&c.relay_network_whitelist))
        } else {
            None
        },
    }
}

/// The virtual IPv4 to set: none with DHCP or without an address; the
/// address as given when it has a `/`; else with `/` and the prefix
/// length (24 when not positive).
pub open spec fn ipv4_setting(c: NetworkConfig) -> Option<Seq<char>> {
    if !c.dhcp && c.ipv4@.len() > 0 {
        if contains_seq(c.ipv4@, seq!['/']) {
            Some(c.ipv4@)
        } else {
            Some(c.ipv4@ + seq!['/'] + decimal(
                if c.network_length > 0 {
                    c.network_length as nat
                } else {
                    24
                },
            ))
        }
    } else {
        None
    }
}

/// The virtual IPv4 text to parse and set.
pub fn manual_ipv4(c: &NetworkConfig) -> (r: Option<String>)
    ensures
        opt_text(r) == ipv4_setting(*c),
{
    if !c.dhcp && !c.ipv4.as_str().is_empty() {
        let slash = str_chars("/");
        proof {
            reveal_strlit("/");
            assert(slash@ =~= seq!['/']);
        }
        if contains_chars(&str_chars(c.ipv4.as_str()), &slash) {
            Some(c.ipv4.clone())
        } else {
            let len: u64 = if c.network_length > 0 {
                c.network_length as u64
            } else {
                24
            };
            let mut m = str_chars(c.ipv4.as_str());
            m.push('/');
            append_chars(&mut m, &decimal_chars(len));
            assert(m@ =~= c.ipv4@ + seq!['/'] + decimal(len as nat));
            Some(string_from_chars(m.as_slice()))
        }
    } else {
        None
    }
}

/// The VPN portal to set, when enabled: the client network (default
/// `10.100.100.0`) with its prefix length (default 24), and the
/// WireGuard listen address `0.0.0.0:{port}` with the port (default
/// 11013; a configured port is truncated to 16 bits).
pub open spec fn vpn_setting(c: NetworkConfig) -> Option<(Seq<char>, Seq<char>)> {
    if c.enable_vpn_portal {
        let addr = if c.vpn_portal_client_network@.len() == 0 {
            "10.100.100.0"@
        } else {
            c.vpn_portal_client_network@
        };
        let len: nat = if c.vpn_portal_client_network_len > 0 {
            c.vpn_portal_client_network_len as nat
        } else {
            24
        };
        let port: nat = if c.vpn_portal_listen_port > 0 {
            (c.vpn_portal_listen_port as int % 65536) as nat
        } else {
            11013
        };
        Some((addr + seq!['/'] + decimal(len), "0.0.0.0:"@ + decimal(port)))
    } else {
        None
    }
}

/// The VPN portal client network and listen address texts to parse.
pub fn manual_vpn(c: &NetworkConfig) -> (r: Option<(String, String)>)
    ensures
        match r {
            Some((a, b)) => vpn_setting(*c) == Some((a@, b@)),
            None => vpn_setting(*c) is None,
        },
{
    if !c.enable_vpn_portal {
        return None;
    }
    let mut cidr: Vec<char> = Vec::new();
    if c.vpn_portal_client_network.as_str().is_empty() {
        append_str(&mut cidr, "10.100.100.0");
    } else {
        append_str(&mut cidr, c.vpn_portal_client_network.as_str());
    }
    cidr.push('/');
    let len: u64 = if c.vpn_portal_client_network_len > 0 {
        c.vpn_portal_client_network_len as u64
    } else {
        24
    };
    append_chars(&mut cidr, &decimal_chars(len));
    let lp: i32 = c.vpn_portal_listen_port;
    let port: u16 = if lp > 0 {
        #[verifier::truncate]
        (lp as u16)
    } else {
        11013
    };
    assert(lp > 0 ==> port == lp % 65536) by (bit_vector)
        requires
            lp > 0 ==> port == lp as u16,
    ;
    let mut listen: Vec<char> = Vec::new();
    append_str(&mut listen, "0.0.0.0:");
    append_chars(&mut listen, &decimal_chars(port as u64));
    Some((string_from_chars(cidr.as_slice()), string_from_chars(listen.as_slice())))
}

/// The bind and destination address texts of a port forward, and its
/// protocol.
pub open spec fn forward_setting(p: PortForwardEntry) -> (Seq<char>, Seq<char>, Seq<char>) {
    (
        p.bind_ip@ + seq![':'] + decimal(p.bind_port as nat),
        p.dst_ip@ + seq![':'] + decimal(p.dst_port as nat),
        p.protocol@,
    )
}

/// The port forward texts to parse, in order.
pub fn manual_forwards(v: &Vec<PortForwardEntry>) -> (r: Vec<(String, String, String)>)
    ensures
        r@.len() == v@.len(),
        forall|i: int|
            0 <= i < v@.len() ==> {
                let (a, b, p) = #[trigger] r@[i];
                forward_setting(v@[i]) == (a@, b@, p@)
            },
{
    let mut r: Vec<(String, String, String)> = Vec::new();
    let mut i: usize = 0;
    while i < v.len()
        invariant
            i <= v@.len(),
            r@.len() == i,
            forall|k: int|
                0 <= k < i ==> {
                    let (a, b, p) = #[trigger] r@[k];
                    forward_setting(v@[k]) == (a@, b@, p@)
                },
        decreases v@.len() - i,
    {
        let p = &v[i];
        let mut bind = str_chars(p.bind_ip.as_str());
        bind.push(':');
        append_chars(&mut bind, &decimal_chars(p.bind_port as u64));
        let mut dst = str_chars(p.dst_ip.as_str());
        dst.push(':');
        append_chars(&mut dst, &decimal_chars(p.dst_port as u64));
        r.push(
            (
                string_from_chars(bind.as_slice()),
                string_from_chars(dst.as_slice()),
                p.protocol.clone(),
            ),
        );
        i = i + 1;
    }
    r
}

/// The settings applied one by one when the engine refuses the record.
#[derive(Debug, Clone)]
pub struct ManualPlan {
    /// Instance id to set (when given and a valid UUID).
    pub id: Option<u128>,
    /// Host name to set, when given.
    pub hostname: Option<String>,
    /// DHCP.
    pub dhcp: bool,
    /// Network name and secret to set, when a name is given.
    pub network_identity: Option<(String, String)>,
    /// Listener URLs to parse; set when there are any.
    pub listeners: Vec<String>,
    /// Peer URLs to parse and set.
    pub peers: Vec<String>,
    /// Proxied networks to parse and add.
    pub proxy_cidrs: Vec<String>,
    /// Virtual IPv4 to parse and set.
    pub ipv4: Option<String>,
    /// Engine flags.
    pub flags: EngineFlags,
    /// Port forwards (bind, destination, protocol) to parse; set when
    /// there are any.
    pub forwards: Vec<(String, String, String)>,
    /// VPN portal (client network, listen address) to parse and set.
    pub vpn: Option<(String, String)>,
}

/// The settings for a structured configuration, in the order they are
/// applied.
pub fn manual_plan(c: &NetworkConfig) -> (p: ManualPlan)
    ensures
        p.id == (if c.instance_id@.len() > 0 {
            uuid_parse(c.instance_id@)
        } else {
            None
        }),
        opt_text(p.hostname) == nonempty_text(c.hostname@),
        p.dhcp == c.dhcp,
        match p.network_identity {
            Some((n, s)) => c.network_name@.len() > 0 && n@ == c.network_name@ && s@
                == c.network_secret@,
            None => c.network_name@.len() == 0,
        },
        p.listeners@ == c.listeners@,
        p.peers@ == c.peers@,
        p.proxy_cidrs@ == c.proxy_cidrs@,
        opt_text(p.ipv4) == ipv4_setting(*c),
        p.forwards@.len() == c.port_forwards@.len(),
        forall|i: int|
            0 <= i < c.port_forwards@.len() ==> {
                let (a, b, q) = #[trigger] p.forwards@[i];
                forward_setting(c.port_forwards@[i]) == (a@, b@, q@)
            },
        match p.vpn {
            Some((a, b)) => vpn_setting(*c) == Some((a@, b@)),
            None => vpn_setting(*c) is None,
        },
        flags_setting(*c, p.flags),
{
    let id = if !c.instance_id.as_str().is_empty() {
        parse_uuid(c.instance_id.as_str())
    } else {
        None
    };
    let network_identity = if !c.network_name.as_str().is_empty() {
        Some((c.network_name.clone(), c.network_secret.clone()))
    } else {
        None
    };
    ManualPlan {
        id,
        hostname: nonempty(&c.hostname),
        dhcp: c.dhcp,
        network_identity,
        listeners: copy_strings(&c.listeners),
        peers: copy_strings(&c.peers),
        proxy_cidrs: copy_strings(&c.proxy_cidrs),
        ipv4: manual_ipv4(c),
        flags: manual_flags(c),
        forwards: manual_forwards(&c.port_forwards),
        vpn: manual_vpn(c),
    }
}

/// How the parses of a plan's texts went: the parser's error text for
/// each text that did not parse, `None` for each that did.
#[derive(Debug)]
pub struct PlanParses {
    /// Each listener URL.
    pub listeners: Vec<Option<String>>,
    /// Each peer URL.
    pub peers: Vec<Option<String>>,
    /// Each proxied network.
    pub proxy_cidrs: Vec<Option<String>>,
    /// The virtual IPv4 (looked at only when the plan sets one).
    pub ipv4: Option<String>,
    /// Each port forward: its bind and its destination address.
    pub forwards: Vec<(Option<String>, Option<String>)>,
    /// The VPN portal's client network and listen address (looked at
    /// only when the plan sets a portal).
    pub vpn: (Option<String>, Option<String>),
}

/// The message of the first text that did not parse: its label, `: `
/// and the parser's error; `None` when all parsed.
pub open spec fn first_failure(labels: Seq<Seq<char>>, errs: Seq<Option<String>>) -> Option<
    Seq<char>,
>
    decreases errs.len(),
{
    if errs.len() == 0 {
        None
    } else {
        match errs[0] {
            Some(e) => Some(labels[0] + ": "@ + e@),
            None => first_failure(labels.drop_first(), errs.drop_first()),
        }
    }
}

/// A label per text: `prefix` followed by the text.
pub open spec fn labelled(prefix: Seq<char>, texts: Seq<String>) -> Seq<Seq<char>> {
    Seq::new(texts.len(), |i: int| prefix + texts[i]@)
}

/// The labels of `n` port forwards: bind, then destination, for each.
pub open spec fn forward_labels(n: nat) -> Seq<Seq<char>>
    decreases n,
{
    if n == 0 {
        Seq::empty()
    } else {
        seq!["bind 无效"@, "dst 无效"@] + forward_labels((n - 1) as nat)
    }
}

/// The outcomes of the port forwards: bind, then destination, for each.
pub open spec fn forward_errors(f: Seq<(Option<String>, Option<String>)>) -> Seq<Option<String>>
    decreases f.len(),
{
    if f.len() == 0 {
        Seq::empty()
    } else {
        seq![f[0].0, f[0].1] + forward_errors(f.drop_first())
    }
}

/// The labels of a plan's texts, in the order they are parsed.
pub open spec fn plan_labels(p: ManualPlan) -> Seq<Seq<char>> {
    labelled("listener 无效 "@, p.listeners@) + labelled("peer 无效 "@, p.peers@) + labelled(
        "proxy_cidr 无效 "@,
        p.proxy_cidrs@,
    ) + (if p.ipv4 is Some {
        seq!["ipv4 无效"@]
    } else {
        Seq::empty()
    }) + forward_labels(p.forwards@.len()) + (if p.vpn is Some {
        seq!["vpn cidr 无效"@, "vpn listen 无效"@]
    } else {
        Seq::empty()
    })
}

/// The parse outcomes of a plan's texts, in the same order.
pub open spec fn plan_errors(p: ManualPlan, o: PlanParses) -> Seq<Option<String>> {
    o.listeners@ + o.peers@ + o.proxy_cidrs@ + (if p.ipv4 is Some {
        seq![o.ipv4]
    } else {
        Seq::empty()
    }) + forward_errors(o.forwards@) + (if p.vpn is Some {
        seq![o.vpn.0, o.vpn.1]
    } else {
        Seq::empty()
    })
}

proof fn lemma_first_failure_concat(
    l1: Seq<Seq<char>>,
    e1: Seq<Option<String>>,
    l2: Seq<Seq<char>>,
    e2: Seq<Option<String>>,
)
    requires
        l1.len() == e1.len(),
    ensures
        first_failure(l1 + l2, e1 + e2) == match first_failure(l1, e1) {
            Some(m) => Some(m),
            None => first_failure(l2, e2),
        },
    decreases e1.len(),
{
    if e1.len() == 0 {
        assert(l1 + l2 =~= l2);
        assert(e1 + e2 =~= e2);
    } else {
        assert((l1 + l2).drop_first() =~= l1.drop_first() + l2);
        assert((e1 + e2).drop_first() =~= e1.drop_first() + e2);
        lemma_first_failure_concat(l1.drop_first(), e1.drop_first(), l2, e2);
    }
}

proof fn lemma_forward_lengths(f: Seq<(Option<String>, Option<String>)>)
    ensures
        forward_labels(f.len()).len() == forward_errors(f).len(),
    decreases f.len(),
{
    if f.len() > 0 {
        lemma_forward_lengths(f.drop_first());
    }
}

/// The message `{prefix}{text}: {error}`.
fn labelled_message(prefix: &str, text: &str, e: &str) -> (m: String)
    ensures
        m@ == prefix@ + text@ + ": "@ + e@,
{
    let mut v: Vec<char> = Vec::new();
    append_str(&mut v, prefix);
    append_str(&mut v, text);
    append_str(&mut v, ": ");
    append_str(&mut v, e);
    string_from_chars(v.as_slice())
}

/// The message `{label}: {error}`.
fn failure_message(label: &str, e: &str) -> (m: String)
    ensures
        m@ == label@ + ": "@ + e@,
{
    let mut v: Vec<char> = Vec::new();
    append_str(&mut v, label);
    append_str(&mut v, ": ");
    append_str(&mut v, e);
    string_from_chars(v.as_slice())
}

/// The first failure among two outcomes.
proof fn lemma_first_failure_two(a: Seq<char>, b: Seq<char>, x: Option<String>, y: Option<String>)
    ensures
        first_failure(seq![a, b], seq![x, y]) == match x {
            Some(e) => Some(a + ": "@ + e@),
            None => match y {
                Some(e) => Some(b + ": "@ + e@),
                None => None,
            },
        },
{
    reveal_with_fuel(first_failure, 3);
    assert(seq![a, b][0] == a && seq![x, y][0] == x);
    assert(seq![a, b].drop_first() =~= seq![b]);
    assert(seq![x, y].drop_first() =~= seq![y]);
    assert(seq![b][0] == b && seq![y][0] == y);
    assert(seq![b].drop_first() =~= Seq::<Seq<char>>::empty());
    assert(seq![y].drop_first() =~= Seq::<Option<String>>::empty());
}

/// The first failure among one outcome.
proof fn lemma_first_failure_one(a: Seq<char>, x: Option<String>)
    ensures
        first_failure(seq![a], seq![x]) == match x {
            Some(e) => Some(a + ": "@ + e@),
            None => None,
        },
{
    reveal_with_fuel(first_failure, 2);
    assert(seq![a][0] == a && seq![x][0] == x);
    assert(seq![a].drop_first() =~= Seq::<Seq<char>>::empty());
    assert(seq![x].drop_first() =~= Seq::<Option<String>>::empty());
}

/// The first of the texts that did not parse, labelled by `prefix`.
fn first_in(prefix: &str, texts: &Vec<String>, errs: &Vec<Option<String>>) -> (r: Option<String>)
    requires
        texts@.len() == errs@.len(),
    ensures
        opt_text(r) == first_failure(labelled(prefix@, texts@), errs@),
{
    let ghost l = labelled(prefix@, texts@);
    let mut i: usize = 0;
    assert(l.skip(0) =~= l);
    assert(errs@.skip(0) =~= errs@);
    while i < errs.len()
        invariant
            i <= errs@.len(),
            texts@.len() == errs@.len(),
            l == labelled(prefix@, texts@),
            first_failure(l, errs@) == first_failure(l.skip(i as int), errs@.skip(i as int)),
        decreases errs@.len() - i,
    {
        proof {
            assert(l.skip(i as int).drop_first() =~= l.skip(i + 1));
            assert(errs@.skip(i as int).drop_first() =~= errs@.skip(i + 1));
            assert(l.skip(i as int)[0] == prefix@ + texts@[i as int]@);
            assert(errs@.skip(i as int)[0] == errs@[i as int]);
        }
        match &errs[i] {
            Some(e) => {
                return Some(labelled_message(prefix, texts[i].as_str(), e.as_str()));
            },
            None => {},
        }
        i = i + 1;
    }
    assert(errs@.skip(i as int) =~= Seq::<Option<String>>::empty());
    None
}

/// The first port forward address that did not parse.
fn first_in_forwards(errs: &Vec<(Option<String>, Option<String>)>) -> (r: Option<String>)
    ensures
        opt_text(r) == first_failure(forward_labels(errs@.len()), forward_errors(errs@)),
{
    let mut i: usize = 0;
    assert(errs@.skip(0) =~= errs@);
    while i < errs.len()
        invariant
            i <= errs@.len(),
            first_failure(forward_labels(errs@.len()), forward_errors(errs@)) == first_failure(
                forward_labels((errs@.len() - i) as nat),
                forward_errors(errs@.skip(i as int)),
            ),
        decreases errs@.len() - i,
    {
        let ghost rest = errs@.skip(i as int);
        proof {
            assert(rest.drop_first() =~= errs@.skip(i + 1));
            assert(rest[0] == errs@[i as int]);
            lemma_first_failure_concat(
                seq!["bind 无效"@, "dst 无效"@],
                seq![rest[0].0, rest[0].1],
                forward_labels((errs@.len() - i - 1) as nat),
                forward_errors(errs@.skip(i + 1)),
            );
            lemma_first_failure_two("bind 无效"@, "dst 无效"@, rest[0].0, rest[0].1);
        }
        let (bind, dst) = &errs[i];
        match bind {
            Some(e) => {
                return Some(failure_message("bind 无效", e.as_str()));
            },
            None => {},
        }
        match dst {
            Some(e) => {
                return Some(failure_message("dst 无效", e.as_str()));
            },
            None => {},
        }
        i = i + 1;
    }
    assert(errs@.skip(i as int) =~= Seq::<(Option<String>, Option<String>)>::empty());
    None
}

/// The error of a plan whose texts did not all parse: invalid argument,
/// naming the first text that failed in the order the settings are
/// applied (listeners, peers, proxied networks, the virtual IPv4, port
/// forwards, the VPN portal) with the parser's error; `Ok` when all
/// parsed.
pub fn plan_parse_failure(p: &ManualPlan, o: &PlanParses) -> (r: Result<(), CoreError>)
    requires
        o.listeners@.len() == p.listeners@.len(),
        o.peers@.len() == p.peers@.len(),
        o.proxy_cidrs@.len() == p.proxy_cidrs@.len(),
        o.forwards@.len() == p.forwards@.len(),
    ensures
        match first_failure(plan_labels(*p), plan_errors(*p, *o)) {
            None => r is Ok,
            Some(m) => r matches Err(CoreError::InvalidArgument(x)) && x@ == m,
        },
{
    let ghost l1 = labelled("listener 无效 "@, p.listeners@);
    let ghost l2 = labelled("peer 无效 "@, p.peers@);
    let ghost l3 = labelled("proxy_cidr 无效 "@, p.proxy_cidrs@);
    let ghost l4: Seq<Seq<char>> = if p.ipv4 is Some {
        seq!["ipv4 无效"@]
    } else {
        Seq::empty()
    };
    let ghost e4: Seq<Option<String>> = if p.ipv4 is Some {
        seq![o.ipv4]
    } else {
        Seq::empty()
    };
    let ghost l5 = forward_labels(p.forwards@.len());
    let ghost e5 = forward_errors(o.forwards@);
    let ghost l6: Seq<Seq<char>> = if p.vpn is Some {
        seq!["vpn cidr 无效"@, "vpn listen 无效"@]
    } else {
        Seq::empty()
    };
    let ghost e6: Seq<Option<String>> = if p.vpn is Some {
        seq![o.vpn.0, o.vpn.1]
    } else {
        Seq::empty()
    };
    proof {
        lemma_forward_lengths(o.forwards@);
        let (e1, e2, e3) = (o.listeners@, o.peers@, o.proxy_cidrs@);
        lemma_first_failure_concat(l5, e5, l6, e6);
        lemma_first_failure_concat(l4, e4, l5 + l6, e5 + e6);
        lemma_first_failure_concat(l3, e3, l4 + (l5 + l6), e4 + (e5 + e6));
        lemma_first_failure_concat(l2, e2, l3 + (l4 + (l5 + l6)), e3 + (e4 + (e5 + e6)));
        lemma_first_failure_concat(
            l1,
            e1,
            l2 + (l3 + (l4 + (l5 + l6))),
            e2 + (e3 + (e4 + (e5 + e6))),
        );
        assert(plan_labels(*p) =~= l1 + (l2 + (l3 + (l4 + (l5 + l6)))));
        assert(plan_errors(*p, *o) =~= e1 + (e2 + (e3 + (e4 + (e5 + e6)))));
    }
    if let Some(m) = first_in("listener 无效 ", &p.listeners, &o.listeners) {
        return Err(CoreError::InvalidArgument(m));
    }
    if let Some(m) = first_in("peer 无效 ", &p.peers, &o.peers) {
        return Err(CoreError::InvalidArgument(m));
    }
    if let Some(m) = first_in("proxy_cidr 无效 ", &p.proxy_cidrs, &o.proxy_cidrs) {
        return Err(CoreError::InvalidArgument(m));
    }
    if p.ipv4.is_some() {
        proof {
            lemma_first_failure_one("ipv4 无效"@, o.ipv4);
        }
        if let Some(e) = &o.ipv4 {
            return Err(CoreError::InvalidArgument(failure_message("ipv4 无效", e.as_str())));
        }
    }
    if let Some(m) = first_in_forwards(&o.forwards) {
        return Err(CoreError::InvalidArgument(m));
    }
    if p.vpn.is_some() {
        proof {
            lemma_first_failure_two("vpn cidr 无效"@, "vpn listen 无效"@, o.vpn.0, o.vpn.1);
        }
        if let Some(e) = &o.vpn.0 {
            return Err(CoreError::InvalidArgument(failure_message("vpn cidr 无效", e.as_str())));
        }
        if let Some(e) = &o.vpn.1 {
            return Err(
                CoreError::InvalidArgument(failure_message("vpn listen 无效", e.as_str())),
            );
        }
    }
    Ok(())
}

} // verus!
