//! The controller side of agent sessions and its node directory: whom a
//! session is opened for, what each incoming frame calls for, and the
//! node service's answers.
use vstd::prelude::*;

use crate::agent::{handshake_verdict, AgentFrame, HandshakeAccepted, HandshakeResponse, TunnelResponse};
use crate::service::manage::opt_text;
use crate::structured::nonempty_text;
use crate::controller_auth::{auth_outcome, ControllerAuth, HandshakeRequest};
use crate::digest::{hex_lower, uuid_text};
use crate::error::{detail_of, message_prefix, CoreError};
use crate::frame::{RpcStatus, CODE_UNAUTHENTICATED};
use crate::net::CORE_VERSION;
use crate::sessions::{copy_strings, NodeInfo, NodeInfoView};
use crate::text::{append_str, string_from_chars};

verus! {

/// gRPC `NotFound`.
pub const CODE_NOT_FOUND: i32 = 5;

/// The directory entry of a node that completed its handshake: named by
/// the handshake (by its id when it gives no name), online, no labels.
pub open spec fn node_info_of(node_id: Seq<char>, hs: HandshakeRequest) -> NodeInfoView {
    NodeInfoView {
        node_id,
        name: if hs.name@.len() == 0 {
            node_id
        } else {
            hs.name@
        },
        version: hs.core_version@,
        os: hs.os@,
        arch: hs.arch@,
        online: true,
        labels: Seq::empty(),
        last_seen: None,
        capabilities: hs.capabilities@,
    }
}

/// The directory entry for a node of a session.
pub fn node_info_from_handshake(node_id: &str, hs: &HandshakeRequest) -> (n: NodeInfo)
    ensures
        n@ == node_info_of(node_id@, *hs),
{
    NodeInfo {
        node_id: node_id.to_string(),
        name: if hs.name.as_str().is_empty() {
            node_id.to_string()
        } else {
            hs.name.clone()
        },
        version: hs.core_version.clone(),
        os: hs.os.clone(),
        arch: hs.arch.clone(),
        online: true,
        labels: Vec::new(),
        last_seen: None,
        capabilities: copy_strings(&hs.capabilities),
    }
}

/// How a session opens.
#[derive(Debug)]
pub enum HubOpen {
    /// The first frame could not be read: the error goes back as is.
    Fail(String),
    /// The session is refused with this error frame.
    Reject(String),
    /// The node is accepted: its id, directory entry and the handshake
    /// answer to send.
    Accept {
        /// Node id.
        node_id: String,
        /// Directory entry.
        info: NodeInfo,
        /// Handshake answer.
        reply: HandshakeResponse,
    },
}

/// The handshake answer for an accepted node.
pub open spec fn handshake_answer(
    node_id: Seq<char>,
    issued: Option<String>,
    attestation: Seq<char>,
    reply: HandshakeResponse,
) -> bool {
    &&& reply.node_id@ == node_id
    &&& reply.device_credential@ == match issued {
        Some(c) => c@,
        None => Seq::empty(),
    }
    &&& reply.session_hint@.len() == 0
    &&& reply.controller_attestation@ == attestation
}

/// Opens a session from its first frame: it must be a handshake that
/// authentication accepts (an enrolled node gets id `node-<uuid>` when it
/// claims none, and a fresh `adev_…` credential).
pub fn hub_open(auth: &mut ControllerAuth, first: Option<Result<AgentFrame, String>>) -> (o: HubOpen)
    ensures
        final(auth).join_token() == old(auth).join_token(),
        final(auth).path() == old(auth).path(),
        match first {
            None => {
                &&& o matches HubOpen::Reject(m) && m@ == "空会话：需要 handshake 首帧"@
                &&& final(auth).devices() == old(auth).devices()
            },
            Some(Err(e)) => {
                &&& o == HubOpen::Fail(e)
                &&& final(auth).devices() == old(auth).devices()
            },
            Some(Ok(AgentFrame::Handshake(hs))) => exists|
                u: u128,
                b: Seq<u8>,
                res: Result<(String, Option<String>), CoreError>,
            |
                {
                    &&& b.len() == 32
                    &&& auth_outcome(
                        old(auth).devices(),
                        final(auth).devices(),
                        old(auth).join_token(),
                        hs,
                        "node-"@ + uuid_text(u),
                        "adev_"@ + hex_lower(b),
                        res,
                    )
                    &&& match res {
                        Ok((n, c)) => o matches HubOpen::Accept { node_id, info, reply } && node_id
                            == n && info@ == node_info_of(n@, hs) && handshake_answer(
                            n@,
                            c,
                            old(auth).join_token(),
                            reply,
                        ),
                        Err(e) => o matches HubOpen::Reject(m) && m@ == message_prefix(e)
                            + detail_of(e),
                    }
                },
            Some(Ok(_)) => {
                &&& o matches HubOpen::Reject(m) && m@ == "首帧必须是 handshake"@
                &&& final(auth).devices() == old(auth).devices()
            },
        },
{
    let frame = match first {
        None => {
            return HubOpen::Reject("空会话：需要 handshake 首帧".to_string());
        },
        Some(Err(e)) => {
            return HubOpen::Fail(e);
        },
        Some(Ok(f)) => f,
    };
    let hs = match frame {
        AgentFrame::Handshake(h) => h,
        _ => {
            return HubOpen::Reject("首帧必须是 handshake".to_string());
        },
    };
    let res = auth.authenticate(&hs);
    match res {
        Ok((node_id, device)) => {
            let info = node_info_from_handshake(node_id.as_str(), &hs);
            let reply = HandshakeResponse {
                node_id: node_id.clone(),
                device_credential: match device {
                    Some(c) => c,
                    None => String::new(),
                },
                session_hint: String::new(),
                controller_attestation: auth.attestation().to_string(),
            };
            HubOpen::Accept { node_id, info, reply }
        },
        Err(e) => HubOpen::Reject(e.to_message()),
    }
}

/// What the controller does with a frame of an open session.
#[derive(Debug)]
pub enum HubStep {
    /// Answer a heartbeat.
    ReplyHeartbeat,
    /// Complete a pending call of this node.
    Complete(TunnelResponse),
    /// Nothing.
    Ignore,
    /// End the session (the node reported an error, the stream failed or
    /// ended).
    Stop,
}

/// The controller's step for a frame from the node: heartbeats are
/// answered (whatever node id they claim), call answers complete the
/// node's own calls, an error frame or the end of the stream stops.
pub fn hub_inbound(frame: Option<Result<AgentFrame, String>>) -> (s: HubStep)
    ensures
        match frame {
            Some(Ok(AgentFrame::Heartbeat(_))) => s is ReplyHeartbeat,
            Some(Ok(AgentFrame::TunnelResponse(r))) => s == HubStep::Complete(r),
            Some(Ok(AgentFrame::Error(_))) => s is Stop,
            Some(Ok(_)) => s is Ignore,
            _ => s is Stop,
        },
{
    match frame {
        Some(Ok(AgentFrame::Heartbeat(_))) => HubStep::ReplyHeartbeat,
        Some(Ok(AgentFrame::TunnelResponse(r))) => HubStep::Complete(r),
        Some(Ok(AgentFrame::Error(_))) => HubStep::Stop,
        Some(Ok(_)) => HubStep::Ignore,
        _ => HubStep::Stop,
    }
}

/// The controller's own directory entry.
pub fn controller_self_node(os: &str, arch: &str) -> (n: NodeInfo)
    ensures
        n@.node_id == "controller"@,
        n@.name == "astral-controller"@,
        n@.version == CORE_VERSION@,
        n@.os == os@,
        n@.arch == arch@,
        n@.online,
        n@.labels.len() == 0,
        n@.last_seen is None,
        n@.capabilities.len() == 2 && n@.capabilities[0]@ == "controller"@
            && n@.capabilities[1]@ == "agent-hub"@,
{
    let mut capabilities: Vec<String> = Vec::new();
    capabilities.push("controller".to_string());
    capabilities.push("agent-hub".to_string());
    NodeInfo {
        node_id: "controller".to_string(),
        name: "astral-controller".to_string(),
        version: CORE_VERSION.to_string(),
        os: os.to_string(),
        arch: arch.to_string(),
        online: true,
        labels: Vec::new(),
        last_seen: None,
        capabilities,
    }
}

/// The nodes with `online` set, in order.
pub open spec fn online_nodes(s: Seq<NodeInfo>) -> Seq<NodeInfo>
    decreases s.len(),
{
    if s.len() == 0 {
        Seq::empty()
    } else if s.last().online {
        online_nodes(s.drop_last()).push(s.last())
    } else {
        online_nodes(s.drop_last())
    }
}

/// The node list answer: all nodes, or only the online ones.
pub fn list_nodes_reply(nodes: Vec<NodeInfo>, online_only: bool) -> (r: Vec<NodeInfo>)
    ensures
        online_only ==> r@ == online_nodes(nodes@),
        !online_only ==> r@ == nodes@,
{
    if !online_only {
        return nodes;
    }
    let ghost all = nodes@;
    let mut rest = nodes;
    let mut rev: Vec<NodeInfo> = Vec::new();
    while rest.len() > 0
        invariant
            rest@ + rev@.reverse() == all,
        decreases rest@.len(),
    {
        let ghost before = rest@;
        let x = rest.pop().unwrap();
        rev.push(x);
        assert(rest@ + rev@.reverse() =~= before + (rev@.drop_last()).reverse());
    }
    assert(rev@.reverse() =~= all);
    let mut out: Vec<NodeInfo> = Vec::new();
    let ghost mut j: int = 0;
    while rev.len() > 0
        invariant
            0 <= j <= all.len(),
            rev@.reverse() == all.subrange(j, all.len() as int),
            out@ == online_nodes(all.take(j)),
        decreases rev@.len(),
    {
        let ghost before = rev@;
        let x = rev.pop().unwrap();
        proof {
            let sub = all.subrange(j, all.len() as int);
            assert(before.reverse() == sub);
            assert(sub.len() == before.len());
            assert(before.reverse()[0] == before[before.len() - 1]);
            assert(before[before.len() - 1] == x);
            assert(sub[0] == all[j]);
            assert(all[j] == x);
            assert(rev@ =~= before.drop_last());
            assert forall|k: int| 0 <= k < rev@.len() implies #[trigger] rev@.reverse()[k] == all[j
                + 1 + k] by {
                assert(rev@.reverse()[k] == rev@[rev@.len() - 1 - k]);
                assert(rev@[rev@.len() - 1 - k] == before[before.len() - 2 - k]);
                assert(before.reverse()[k + 1] == before[before.len() - 1 - (k + 1)]);
                assert(sub[k + 1] == all[j + 1 + k]);
            }
            assert(rev@.reverse() =~= all.subrange(j + 1, all.len() as int));
            assert(all.take(j + 1).drop_last() =~= all.take(j));
            assert(all.take(j + 1).last() == x);
        }
        if x.online {
            out.push(x);
        }
        proof {
            j = j + 1;
        }
    }
    assert(all.subrange(j, all.len() as int).len() == 0);
    assert(all.take(j) =~= all);
    out
}

/// The answer for one node: its entry, or `NotFound` when it is not
/// connected.
pub fn get_node_reply(node_id: &str, found: Option<NodeInfo>) -> (r: Result<NodeInfo, RpcStatus>)
    ensures
        match found {
            Some(n) => r == Ok::<NodeInfo, RpcStatus>(n),
            None => r matches Err(s) && s.code == CODE_NOT_FOUND && s.message@ == "节点未连接: "@
                + node_id@,
        },
{
    match found {
        Some(n) => Ok(n),
        None => {
            let mut m: Vec<char> = Vec::new();
            append_str(&mut m, "节点未连接: ");
            append_str(&mut m, node_id);
            Err(RpcStatus { code: CODE_NOT_FOUND, message: string_from_chars(m.as_slice()) })
        },
    }
}

/// The unary handshake answer: the node's id, the issued credential and
/// the attestation; refused authentication is `Unauthenticated` with the
/// error's text.
pub fn handshake_reply(
    res: Result<(String, Option<String>), CoreError>,
    attestation: &str,
) -> (r: Result<HandshakeResponse, RpcStatus>)
    ensures
        match res {
            Ok((n, c)) => r matches Ok(reply) && handshake_answer(n@, c, attestation@, reply),
            Err(e) => r matches Err(s) && s.code == CODE_UNAUTHENTICATED && s.message@
                == message_prefix(e) + detail_of(e),
        },
{
    match res {
        Ok((node_id, device)) => Ok(
            HandshakeResponse {
                node_id,
                device_credential: match device {
                    Some(c) => c,
                    None => String::new(),
                },
                session_hint: String::new(),
                controller_attestation: attestation.to_string(),
            },
        ),
        Err(e) => Err(RpcStatus { code: CODE_UNAUTHENTICATED, message: e.to_message() }),
    }
}

/// A node holding the controller's join token accepts the controller's
/// handshake answer, under the node id the controller gave and keeping
/// the credential it issued; a node holding another secret refuses it.
pub proof fn agent_accepts_controller_answer(
    node_id: Seq<char>,
    issued: Option<String>,
    join_token: Seq<char>,
    token: Seq<char>,
    local_node_id: Seq<char>,
    reply: HandshakeResponse,
    r: Result<HandshakeAccepted, CoreError>,
)
    requires
        handshake_answer(node_id, issued, join_token, reply),
        handshake_verdict(Some(Ok(AgentFrame::HandshakeResult(reply))), token, local_node_id, r),
        join_token.len() > 0,
        node_id.len() > 0,
    ensures
        token == join_token ==> (r matches Ok(a) && a.node_id@ == node_id && opt_text(
            a.save_credential,
        ) == nonempty_text(
            match issued {
                Some(c) => c@,
                None => Seq::empty(),
            },
        )),
        token != join_token ==> r is Err,
{
}

/// The controller's server information.
#[derive(Debug, Clone)]
pub struct HubServerInfo {
    /// Interface version.
    pub api_version: String,
    /// Daemon version.
    pub core_version: String,
    /// Protocol package.
    pub protocol_package: String,
    /// Build time (empty).
    pub build_time: String,
    /// Commit (empty).
    pub git_commit: String,
    /// Capabilities.
    pub capabilities: Vec<String>,
}

/// The texts of a list of strings.
pub open spec fn texts_of(v: Seq<String>) -> Seq<Seq<char>> {
    v.map_values(|s: String| s@)
}

/// The controller's answer to a server-information request (control
/// mode): version `0.1.0` of package `astral.v1`, and what it offers.
pub fn hub_server_info() -> (i: HubServerInfo)
    ensures
        i.api_version@ == "0.1.0"@,
        i.core_version@ == CORE_VERSION@,
        i.protocol_package@ == "astral.v1"@,
        i.build_time@.len() == 0 && i.git_commit@.len() == 0,
        texts_of(i.capabilities@) == seq![
            "system.ping"@,
            "controller.hub"@,
            "agent.session"@,
            "tunnel.proxy"@,
        ],
{
    let mut capabilities: Vec<String> = Vec::new();
    capabilities.push("system.ping".to_string());
    capabilities.push("controller.hub".to_string());
    capabilities.push("agent.session".to_string());
    capabilities.push("tunnel.proxy".to_string());
    assert(texts_of(capabilities@) =~= seq![
        "system.ping"@,
        "controller.hub"@,
        "agent.session"@,
        "tunnel.proxy"@,
    ]);
    HubServerInfo {
        api_version: "0.1.0".to_string(),
        core_version: CORE_VERSION.to_string(),
        protocol_package: "astral.v1".to_string(),
        build_time: String::new(),
        git_commit: String::new(),
        capabilities,
    }
}

/// The services and features the controller reports.
pub fn hub_capabilities() -> (r: (Vec<String>, Vec<String>))
    ensures
        texts_of(r.0@) == seq!["SystemService"@, "NodeService"@],
        texts_of(r.1@) == seq!["agent-hub"@, "tunnel-proxy"@],
{
    let mut services: Vec<String> = Vec::new();
    services.push("SystemService".to_string());
    services.push("NodeService".to_string());
    let mut features: Vec<String> = Vec::new();
    features.push("agent-hub".to_string());
    features.push("tunnel-proxy".to_string());
    assert(texts_of(services@) =~= seq!["SystemService"@, "NodeService"@]);
    assert(texts_of(features@) =~= seq!["agent-hub"@, "tunnel-proxy"@]);
    (services, features)
}

} // verus!
