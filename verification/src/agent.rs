//! The agent session between a node and its controller: the frames, and
//! the node side's decisions (where to dial, what to send first, whether
//! the controller's answer is to be trusted, what to do with each frame,
//! how long to wait before dialling again).
use vstd::prelude::*;

use crate::controller_auth::HandshakeRequest;
use crate::error::CoreError;
use crate::net::CORE_VERSION;
use crate::paths::{join_path, path_join};
use crate::structured::nonempty_text;
use crate::service::manage::opt_text;
use crate::text::{append_str, has_prefix, starts_with_chars, str_chars, str_eq, string_from_chars,
    trim, trim_chars};

verus! {

/// The controller's answer to a handshake.
#[derive(Debug, Clone)]
pub struct HandshakeResponse {
    /// Node id the controller knows the node by.
    pub node_id: String,
    /// Device credential issued at enrollment (empty otherwise).
    pub device_credential: String,
    /// Session hint (unused).
    pub session_hint: String,
    /// The controller's proof of the shared secret.
    pub controller_attestation: String,
}

/// A unary call carried through the session.
#[derive(Debug, Clone)]
pub struct TunnelRequest {
    /// Request id (per node).
    pub id: u64,
    /// gRPC method path.
    pub full_method: String,
    /// Encoded request message.
    pub payload: Vec<u8>,
    /// Forwarded metadata.
    pub metadata: Vec<(String, String)>,
}

/// The answer to a tunnelled call.
#[derive(Debug, Clone)]
pub struct TunnelResponse {
    /// Request id it answers.
    pub id: u64,
    /// gRPC status code (0 for success).
    pub grpc_status: i32,
    /// Status message.
    pub message: String,
    /// Encoded response message.
    pub payload: Vec<u8>,
}

/// One frame of the agent session.
#[derive(Debug, Clone)]
pub enum AgentFrame {
    /// A frame without a body.
    Empty,
    /// Node → controller: first frame.
    Handshake(HandshakeRequest),
    /// Controller → node: answer to the handshake.
    HandshakeResult(HandshakeResponse),
    /// Node → controller: heartbeat with the node id.
    Heartbeat(String),
    /// Controller → node: heartbeat acknowledged.
    HeartbeatResult(bool),
    /// Controller → node: a call to run locally.
    TunnelRequest(TunnelRequest),
    /// Node → controller: the answer to a call.
    TunnelResponse(TunnelResponse),
    /// Either way: an error that ends the session.
    Error(String),
}

/// The name of a frame's kind.
pub open spec fn frame_kind(f: AgentFrame) -> Seq<char> {
    match f {
        AgentFrame::Empty => "Empty"@,
        AgentFrame::Handshake(_) => "Handshake"@,
        AgentFrame::HandshakeResult(_) => "HandshakeResult"@,
        AgentFrame::Heartbeat(_) => "Heartbeat"@,
        AgentFrame::HeartbeatResult(_) => "HeartbeatResult"@,
        AgentFrame::TunnelRequest(_) => "TunnelRequest"@,
        AgentFrame::TunnelResponse(_) => "TunnelResponse"@,
        AgentFrame::Error(_) => "Error"@,
    }
}

fn frame_kind_text(f: &AgentFrame) -> (t: &'static str)
    ensures
        t@ == frame_kind(*f),
{
    match f {
        AgentFrame::Empty => "Empty",
        AgentFrame::Handshake(_) => "Handshake",
        AgentFrame::HandshakeResult(_) => "HandshakeResult",
        AgentFrame::Heartbeat(_) => "Heartbeat",
        AgentFrame::HeartbeatResult(_) => "HeartbeatResult",
        AgentFrame::TunnelRequest(_) => "TunnelRequest",
        AgentFrame::TunnelResponse(_) => "TunnelResponse",
        AgentFrame::Error(_) => "Error",
    }
}

/// Outbound agent connection settings (waits in milliseconds).
#[derive(Debug, Clone)]
pub struct AgentConnectConfig {
    /// Controller address, `http://…` or `https://…`.
    pub controller: String,
    /// Shared secret: the enrollment token, and what the controller's
    /// attestation must equal.
    pub token: String,
    /// First wait before dialling again.
    pub retry_base_ms: u64,
    /// Longest wait before dialling again.
    pub retry_max_ms: u64,
    /// Heartbeat interval.
    pub heartbeat_interval_ms: u64,
}

/// How a session ended.
#[derive(Debug)]
pub enum SessionOutcome {
    /// The handshake succeeded and the session later ended.
    EstablishedThenEnded(Result<(), CoreError>),
    /// The session failed before the handshake succeeded.
    HandshakeFailed(CoreError),
}

/// How long to wait before dialling again, and the wait kept for next
/// time: after an established session the base wait; after a failed
/// handshake the current wait, then twice it (at most the maximum).
pub fn next_backoff(outcome: &SessionOutcome, backoff_ms: u64, base_ms: u64, max_ms: u64) -> (r: (
    u64,
    u64,
))
    requires
        backoff_ms <= u64::MAX / 2,
    ensures
        outcome is HandshakeFailed ==> r.0 == backoff_ms && r.1 == (if 2 * backoff_ms <= max_ms {
            2 * backoff_ms
        } else {
            max_ms as int
        }),
        outcome is EstablishedThenEnded ==> r.0 == base_ms && r.1 == base_ms,
        base_ms <= max_ms ==> r.1 <= max_ms,
{
    match outcome {
        SessionOutcome::HandshakeFailed(_) => {
            let doubled = backoff_ms * 2;
            (backoff_ms, if doubled <= max_ms {
                doubled
            } else {
                max_ms
            })
        },
        SessionOutcome::EstablishedThenEnded(_) => (base_ms, base_ms),
    }
}

/// The wait kept after a run of sessions, each `true` when its handshake
/// failed: the base wait at first and after an established session, and
/// after a failed handshake twice the wait before it, at most `max`.
pub open spec fn backoff_after(failed: Seq<bool>, base: int, max: int) -> int
    decreases failed.len(),
{
    if failed.len() == 0 {
        base
    } else {
        let b = backoff_after(failed.drop_last(), base, max);
        if failed.last() {
            if 2 * b <= max {
                2 * b
            } else {
                max
            }
        } else {
            base
        }
    }
}

/// The wait before dialling again after session `k` of a run: the wait
/// kept so far after a failed handshake, the base wait after an
/// established session.
pub open spec fn wait_after(failed: Seq<bool>, base: int, max: int, k: int) -> int {
    if failed[k] {
        backoff_after(failed.take(k), base, max)
    } else {
        base
    }
}

proof fn lemma_backoff_bounded(failed: Seq<bool>, base: int, max: int)
    requires
        0 <= base,
        0 <= max,
    ensures
        0 <= backoff_after(failed, base, max) <= if base <= max {
            max
        } else {
            base
        },
    decreases failed.len(),
{
    if failed.len() > 0 {
        lemma_backoff_bounded(failed.drop_last(), base, max);
    }
}

/// However the sessions of a run end, no wait before dialling again
/// exceeds the larger of the base and the maximum wait.
pub proof fn waits_stay_bounded(failed: Seq<bool>, base: u64, max: u64)
    ensures
        forall|k: int|
            0 <= k < failed.len() ==> #[trigger] wait_after(failed, base as int, max as int, k)
                <= if base <= max {
                max as int
            } else {
                base as int
            },
        backoff_after(failed, base as int, max as int) <= if base <= max {
            max as int
        } else {
            base as int
        },
{
    lemma_backoff_bounded(failed, base as int, max as int);
    assert forall|k: int| 0 <= k < failed.len() implies #[trigger] wait_after(
        failed,
        base as int,
        max as int,
        k,
    ) <= if base <= max {
        max as int
    } else {
        base as int
    } by {
        lemma_backoff_bounded(failed.take(k), base as int, max as int);
    }
}

/// `next_backoff` takes one step of a run: for the wait kept after the
/// sessions so far, it gives the wait of the next session and the wait
/// kept after it.
pub proof fn next_backoff_follows_run(failed: Seq<bool>, last_failed: bool, base: int, max: int)
    ensures
        wait_after(failed.push(last_failed), base, max, failed.len() as int) == if last_failed {
            backoff_after(failed, base, max)
        } else {
            base
        },
        backoff_after(failed.push(last_failed), base, max) == if last_failed {
            let b = backoff_after(failed, base, max);
            if 2 * b <= max {
                2 * b
            } else {
                max
            }
        } else {
            base
        },
{
    assert(failed.push(last_failed).take(failed.len() as int) =~= failed);
    assert(failed.push(last_failed).drop_last() =~= failed);
}

/// Whether `tonic::transport::Channel::from_shared` accepts the address;
/// it parses the text as a URI, so the answer depends on the text alone.
pub uninterp spec fn endpoint_accepts(url: Seq<char>) -> bool;

/// `tonic::transport::Channel::from_shared`: `Ok` when it accepts the
/// address (named by `endpoint_accepts`), else the parse error's text.
#[verifier::external_body]
fn check_endpoint(url: &str) -> (r: Result<(), String>)
    ensures
        r is Ok == endpoint_accepts(url@),
{
    match tonic::transport::Channel::from_shared(url.to_string()) {
        Ok(_) => Ok(()),
        Err(e) => Err(e.to_string()),
    }
}

/// The address is `https://…` (either case as written).
pub open spec fn is_https(url: Seq<char>) -> bool {
    has_prefix(url, "https://"@) || has_prefix(url, "HTTPS://"@)
}

/// The address is `http://…` (either case as written).
pub open spec fn is_http(url: Seq<char>) -> bool {
    has_prefix(url, "http://"@) || has_prefix(url, "HTTP://"@)
}

/// Where to dial: whether TLS is used (`https://`), or why the address is
/// refused (not a URI; neither `http://` nor `https://`).
pub fn connect_target(controller: &str) -> (r: Result<bool, CoreError>)
    ensures
        !endpoint_accepts(controller@) ==> (r matches Err(CoreError::InvalidArgument(m))
            && has_prefix(m@, "无效 controller URL: "@)),
        endpoint_accepts(controller@) && is_https(controller@) ==> r == Ok::<bool, CoreError>(true),
        endpoint_accepts(controller@) && !is_https(controller@) && is_http(controller@) ==> r == Ok::<
            bool,
            CoreError,
        >(false),
        endpoint_accepts(controller@) && !is_https(controller@) && !is_http(controller@) ==> (
        r matches Err(CoreError::InvalidArgument(m)) && m@
            == "controller URL 须以 http:// 或 https:// 开头"@),
{
    match check_endpoint(controller) {
        Ok(()) => {},
        Err(e) => {
            let mut m: Vec<char> = Vec::new();
            append_str(&mut m, "无效 controller URL: ");
            let ghost head = m@;
            append_str(&mut m, e.as_str());
            proof {
                reveal_strlit("无效 controller URL: ");
                assert(m@.subrange(0, head.len() as int) =~= head);
            }
            return Err(CoreError::InvalidArgument(string_from_chars(m.as_slice())));
        },
    }
    let s = str_chars(controller);
    let https = starts_with_chars(&s, &str_chars("https://")) || starts_with_chars(
        &s,
        &str_chars("HTTPS://"),
    );
    if https {
        return Ok(true);
    }
    let http = starts_with_chars(&s, &str_chars("http://")) || starts_with_chars(
        &s,
        &str_chars("HTTP://"),
    );
    if !http {
        return Err(
            CoreError::InvalidArgument("controller URL 须以 http:// 或 https:// 开头".to_string()),
        );
    }
    Ok(false)
}

/// The handshake a node sends: the enrollment token only when it has no
/// device credential yet, the credential (or nothing), its id, version,
/// the `tunnel.unary` capability, platform and the name `astral-core`.
pub fn agent_handshake(
    token: &str,
    node_id: &str,
    device_credential: Option<String>,
    os: &str,
    arch: &str,
) -> (h: HandshakeRequest)
    ensures
        h.enroll_token@ == (if device_credential is None {
            token@
        } else {
            Seq::empty()
        }),
        h.device_credential@ == match device_credential {
            Some(c) => c@,
            None => Seq::empty(),
        },
        h.node_id@ == node_id@,
        h.core_version@ == CORE_VERSION@,
        h.capabilities@.len() == 1 && h.capabilities@[0]@ == "tunnel.unary"@,
        h.os@ == os@,
        h.arch@ == arch@,
        h.name@ == "astral-core"@,
{
    let enroll_token = match &device_credential {
        None => token.to_string(),
        Some(_) => String::new(),
    };
    let credential = match device_credential {
        Some(c) => c,
        None => String::new(),
    };
    let mut capabilities: Vec<String> = Vec::new();
    capabilities.push("tunnel.unary".to_string());
    HandshakeRequest {
        enroll_token,
        device_credential: credential,
        node_id: node_id.to_string(),
        core_version: CORE_VERSION.to_string(),
        capabilities,
        os: os.to_string(),
        arch: arch.to_string(),
        name: "astral-core".to_string(),
    }
}

/// An accepted handshake: the credential to save (when one was issued)
/// and the node id the session runs under.
#[derive(Debug, Clone)]
pub struct HandshakeAccepted {
    /// Device credential to save.
    pub save_credential: Option<String>,
    /// Node id of the session.
    pub node_id: String,
}

/// What the node makes of the controller's first frame (`None`: the
/// stream closed; `Some(Err(..))`: it could not be read).
pub open spec fn handshake_verdict(
    first: Option<Result<AgentFrame, String>>,
    token: Seq<char>,
    local_node_id: Seq<char>,
    r: Result<HandshakeAccepted, CoreError>,
) -> bool {
    match first {
        None => r matches Err(CoreError::Internal(m)) && m@ == "控制端关闭流（握手前）"@,
        Some(Err(e)) => r matches Err(CoreError::Internal(m)) && m@ == "读握手响应失败: "@ + e@,
        Some(Ok(f)) => match f {
            AgentFrame::HandshakeResult(res) => if res.controller_attestation@.len() == 0 {
                r matches Err(CoreError::FailedPrecondition(m)) && m@
                    == "控制端未返回 attestation，拒绝建立会话"@
            } else if res.controller_attestation@ != token {
                r matches Err(CoreError::FailedPrecondition(m)) && m@
                    == "控制端 attestation 校验失败（密钥不匹配）"@
            } else {
                r matches Ok(a) && opt_text(a.save_credential) == nonempty_text(
                    res.device_credential@,
                ) && a.node_id@ == (if res.node_id@.len() == 0 {
                    local_node_id
                } else {
                    res.node_id@
                })
            },
            AgentFrame::Error(msg) => r matches Err(CoreError::FailedPrecondition(m)) && m@
                == "握手被拒绝: "@ + msg@,
            _ => r matches Err(CoreError::Internal(m)) && m@ == "握手阶段收到非预期帧: "@
                + frame_kind(f),
        },
    }
}

/// Checks the controller's first frame: it must be a handshake result
/// whose attestation equals the shared secret.
pub fn check_handshake_reply(
    first: Option<Result<AgentFrame, String>>,
    token: &str,
    local_node_id: &str,
) -> (r: Result<HandshakeAccepted, CoreError>)
    ensures
        handshake_verdict(first, token@, local_node_id@, r),
{
    let frame = match first {
        None => {
            return Err(CoreError::Internal("控制端关闭流（握手前）".to_string()));
        },
        Some(Err(e)) => {
            let mut m: Vec<char> = Vec::new();
            append_str(&mut m, "读握手响应失败: ");
            append_str(&mut m, e.as_str());
            return Err(CoreError::Internal(string_from_chars(m.as_slice())));
        },
        Some(Ok(f)) => f,
    };
    match frame {
        AgentFrame::HandshakeResult(res) => {
            if res.controller_attestation.as_str().is_empty() {
                return Err(
                    CoreError::FailedPrecondition(
                        "控制端未返回 attestation，拒绝建立会话".to_string(),
                    ),
                );
            }
            if !str_eq(res.controller_attestation.as_str(), token) {
                return Err(
                    CoreError::FailedPrecondition(
                        "控制端 attestation 校验失败（密钥不匹配）".to_string(),
                    ),
                );
            }
            let save_credential = if res.device_credential.as_str().is_empty() {
                None
            } else {
                Some(res.device_credential)
            };
            let node_id = if res.node_id.as_str().is_empty() {
                local_node_id.to_string()
            } else {
                res.node_id
            };
            Ok(HandshakeAccepted { save_credential, node_id })
        },
        AgentFrame::Error(msg) => {
            let mut m: Vec<char> = Vec::new();
            append_str(&mut m, "握手被拒绝: ");
            append_str(&mut m, msg.as_str());
            Err(CoreError::FailedPrecondition(string_from_chars(m.as_slice())))
        },
        other => {
            let mut m: Vec<char> = Vec::new();
            append_str(&mut m, "握手阶段收到非预期帧: ");
            append_str(&mut m, frame_kind_text(&other));
            Err(CoreError::Internal(string_from_chars(m.as_slice())))
        },
    }
}

/// What the node does with a frame of an established session.
#[derive(Debug)]
pub enum AgentStep {
    /// Run the call locally and send its answer.
    Dispatch(TunnelRequest),
    /// Nothing.
    Ignore,
    /// The session ends with this result.
    End(Result<(), CoreError>),
}

/// The node's step for an incoming frame: calls are run, other frames
/// ignored; a read error ends the session with an error, the end of the
/// stream ends it normally.
pub fn agent_inbound(frame: Option<Result<AgentFrame, String>>) -> (s: AgentStep)
    ensures
        match frame {
            None => s matches AgentStep::End(Ok(())),
            Some(Err(e)) => s matches AgentStep::End(Err(CoreError::Internal(m))) && m@
                == "读会话帧失败: "@ + e@,
            Some(Ok(AgentFrame::TunnelRequest(req))) => s == AgentStep::Dispatch(req),
            Some(Ok(_)) => s is Ignore,
        },
{
    match frame {
        None => AgentStep::End(Ok(())),
        Some(Err(e)) => {
            let mut m: Vec<char> = Vec::new();
            append_str(&mut m, "读会话帧失败: ");
            append_str(&mut m, e.as_str());
            AgentStep::End(Err(CoreError::Internal(string_from_chars(m.as_slice()))))
        },
        Some(Ok(AgentFrame::TunnelRequest(req))) => AgentStep::Dispatch(req),
        Some(Ok(_)) => AgentStep::Ignore,
    }
}

/// The answer frame for a call run locally.
pub fn tunnel_response_frame(id: u64, outcome: (i32, String, Vec<u8>)) -> (f: AgentFrame)
    ensures
        f matches AgentFrame::TunnelResponse(r) && r.id == id && r.grpc_status == outcome.0
            && r.message == outcome.1 && r.payload == outcome.2,
{
    AgentFrame::TunnelResponse(
        TunnelResponse { id, grpc_status: outcome.0, message: outcome.1, payload: outcome.2 },
    )
}

/// File name of the saved device credential (in the data directory).
pub const DEVICE_CREDENTIAL_FILE: &'static str = "agent_device_credential";

/// Path of the saved device credential.
pub fn device_credential_path(data_dir: &str) -> (p: String)
    ensures
        p@ == path_join(data_dir@, DEVICE_CREDENTIAL_FILE@),
{
    join_path(data_dir, DEVICE_CREDENTIAL_FILE)
}

/// The credential in the saved file's text: trimmed, none when empty.
pub fn credential_from_file_text(text: &str) -> (r: Option<String>)
    ensures
        opt_text(r) == nonempty_text(trim(text@)),
{
    let t = trim_chars(&str_chars(text));
    if t.len() == 0 {
        None
    } else {
        Some(string_from_chars(t.as_slice()))
    }
}

/// A credential may be saved only when it is not empty.
pub fn check_device_credential(credential: &str) -> (r: Result<(), CoreError>)
    ensures
        credential@.len() == 0 ==> (r matches Err(CoreError::InvalidArgument(m)) && m@
            == "空设备凭证"@),
        credential@.len() > 0 ==> r is Ok,
{
    if credential.is_empty() {
        Err(CoreError::InvalidArgument("空设备凭证".to_string()))
    } else {
        Ok(())
    }
}

} // verus!
