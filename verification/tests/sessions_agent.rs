use astral_core::agent::{
    agent_handshake, agent_inbound, check_device_credential, check_handshake_reply,
    connect_target, credential_from_file_text, next_backoff, tunnel_response_frame, AgentFrame,
    AgentStep, HandshakeResponse, SessionOutcome, TunnelRequest, TunnelResponse,
};
use astral_core::controller_auth::{ControllerAuth, HandshakeRequest};
use astral_core::error::CoreError;
use astral_core::hub::{
    controller_self_node, get_node_reply, handshake_reply, hub_inbound, hub_open,
    list_nodes_reply, node_info_from_handshake, HubOpen, HubStep, CODE_NOT_FOUND,
};
use astral_core::sessions::NodeInfo;

fn reply(att: &str, cred: &str, node: &str) -> Option<Result<AgentFrame, String>> {
    Some(Ok(AgentFrame::HandshakeResult(HandshakeResponse {
        node_id: node.into(),
        device_credential: cred.into(),
        session_hint: String::new(),
        controller_attestation: att.into(),
    })))
}

#[test]
fn backoff_doubles_to_the_maximum_and_resets() {
    let failed = SessionOutcome::HandshakeFailed(CoreError::Internal("x".into()));
    assert_eq!(next_backoff(&failed, 1000, 1000, 30000), (1000, 2000));
    assert_eq!(next_backoff(&failed, 20000, 1000, 30000), (20000, 30000));
    let ended = SessionOutcome::EstablishedThenEnded(Ok(()));
    assert_eq!(next_backoff(&ended, 16000, 1000, 30000), (1000, 1000));
}

#[test]
fn controller_address_schemes() {
    assert_eq!(connect_target("https://ctrl.example:8443").unwrap(), true);
    assert_eq!(connect_target("HTTPS://CTRL:1").unwrap(), true);
    assert_eq!(connect_target("http://127.0.0.1:8443").unwrap(), false);
    match connect_target("ftp://x") {
        Err(CoreError::InvalidArgument(m)) => {
            assert_eq!(m, "controller URL 须以 http:// 或 https:// 开头")
        }
        other => panic!("unexpected {:?}", other),
    }
    match connect_target("http://bad host") {
        Err(CoreError::InvalidArgument(m)) => assert!(m.starts_with("无效 controller URL: ")),
        other => panic!("unexpected {:?}", other),
    }
}

#[test]
fn agent_handshake_enrolls_only_without_credential() {
    let first = agent_handshake("join", "n1", None, "linux", "x86_64");
    assert_eq!(first.enroll_token, "join");
    assert_eq!(first.device_credential, "");
    assert_eq!(first.capabilities, vec!["tunnel.unary".to_string()]);
    assert_eq!(first.name, "astral-core");
    let again = agent_handshake("join", "n1", Some("adev_1".into()), "linux", "x86_64");
    assert_eq!(again.enroll_token, "");
    assert_eq!(again.device_credential, "adev_1");
}

#[test]
fn handshake_reply_must_carry_matching_attestation() {
    let ok = check_handshake_reply(reply("join", "adev_9", ""), "join", "local").unwrap();
    assert_eq!(ok.node_id, "local");
    assert_eq!(ok.save_credential.as_deref(), Some("adev_9"));
    let named = check_handshake_reply(reply("join", "", "n7"), "join", "local").unwrap();
    assert_eq!(named.node_id, "n7");
    assert!(named.save_credential.is_none());
    match check_handshake_reply(reply("", "", ""), "join", "l") {
        Err(CoreError::FailedPrecondition(m)) => {
            assert_eq!(m, "控制端未返回 attestation，拒绝建立会话")
        }
        other => panic!("unexpected {:?}", other),
    }
    match check_handshake_reply(reply("other", "", ""), "join", "l") {
        Err(CoreError::FailedPrecondition(m)) => {
            assert_eq!(m, "控制端 attestation 校验失败（密钥不匹配）")
        }
        other => panic!("unexpected {:?}", other),
    }
    match check_handshake_reply(Some(Ok(AgentFrame::Error("bad".into()))), "join", "l") {
        Err(CoreError::FailedPrecondition(m)) => assert_eq!(m, "握手被拒绝: bad"),
        other => panic!("unexpected {:?}", other),
    }
    match check_handshake_reply(None, "join", "l") {
        Err(CoreError::Internal(m)) => assert_eq!(m, "控制端关闭流（握手前）"),
        other => panic!("unexpected {:?}", other),
    }
    match check_handshake_reply(Some(Ok(AgentFrame::HeartbeatResult(true))), "join", "l") {
        Err(CoreError::Internal(m)) => assert_eq!(m, "握手阶段收到非预期帧: HeartbeatResult"),
        other => panic!("unexpected {:?}", other),
    }
}

#[test]
fn agent_session_frames() {
    let req = TunnelRequest {
        id: 3,
        full_method: "/astral.v1.SystemService/Ping".into(),
        payload: vec![],
        metadata: vec![],
    };
    assert!(matches!(agent_inbound(Some(Ok(AgentFrame::TunnelRequest(req)))), AgentStep::Dispatch(r) if r.id == 3));
    assert!(matches!(agent_inbound(Some(Ok(AgentFrame::HeartbeatResult(true)))), AgentStep::Ignore));
    assert!(matches!(agent_inbound(None), AgentStep::End(Ok(()))));
    match agent_inbound(Some(Err("reset".into()))) {
        AgentStep::End(Err(CoreError::Internal(m))) => assert_eq!(m, "读会话帧失败: reset"),
        other => panic!("unexpected {:?}", other),
    }
    match tunnel_response_frame(3, (0, String::new(), vec![1])) {
        AgentFrame::TunnelResponse(r) => assert_eq!((r.id, r.grpc_status, r.payload), (3, 0, vec![1])),
        other => panic!("unexpected {:?}", other),
    }
}

#[test]
fn device_credential_file_text() {
    assert_eq!(credential_from_file_text("  adev_x \n"), Some("adev_x".to_string()));
    assert_eq!(credential_from_file_text(" \n"), None);
    match check_device_credential("") {
        Err(CoreError::InvalidArgument(m)) => assert_eq!(m, "空设备凭证"),
        other => panic!("unexpected {:?}", other),
    }
    assert!(check_device_credential("adev_x").is_ok());
}

fn hs(name: &str) -> HandshakeRequest {
    HandshakeRequest {
        enroll_token: "join".into(),
        device_credential: String::new(),
        node_id: "n1".into(),
        core_version: "0.1.0".into(),
        capabilities: vec!["tunnel.unary".into()],
        os: "linux".into(),
        arch: "aarch64".into(),
        name: name.into(),
    }
}

#[test]
fn hub_opens_session_for_enrolling_node() {
    let mut auth = ControllerAuth::open("join".into(), "d.json".into(), Vec::new()).unwrap();
    match hub_open(&mut auth, Some(Ok(AgentFrame::Handshake(hs(""))))) {
        HubOpen::Accept { node_id, info, reply } => {
            assert_eq!(node_id, "n1");
            assert_eq!(info.name, "n1");
            assert!(info.online);
            assert_eq!(reply.controller_attestation, "join");
            assert!(reply.device_credential.starts_with("adev_"));
        }
        other => panic!("unexpected {:?}", other),
    }
    match hub_open(&mut auth, Some(Ok(AgentFrame::Handshake(hs("")))))  {
        HubOpen::Reject(m) => {
            assert_eq!(m, "前置条件失败: 节点已注册，请使用 device_credential 重连: n1")
        }
        other => panic!("unexpected {:?}", other),
    }
    match hub_open(&mut auth, None) {
        HubOpen::Reject(m) => assert_eq!(m, "空会话：需要 handshake 首帧"),
        other => panic!("unexpected {:?}", other),
    }
    match hub_open(&mut auth, Some(Ok(AgentFrame::Heartbeat("n1".into())))) {
        HubOpen::Reject(m) => assert_eq!(m, "首帧必须是 handshake"),
        other => panic!("unexpected {:?}", other),
    }
    assert!(matches!(hub_open(&mut auth, Some(Err("io".into()))), HubOpen::Fail(e) if e == "io"));
}

#[test]
fn hub_session_steps() {
    assert!(matches!(hub_inbound(Some(Ok(AgentFrame::Heartbeat("other".into())))), HubStep::ReplyHeartbeat));
    let resp = TunnelResponse { id: 4, grpc_status: 0, message: String::new(), payload: vec![] };
    assert!(matches!(hub_inbound(Some(Ok(AgentFrame::TunnelResponse(resp)))), HubStep::Complete(r) if r.id == 4));
    assert!(matches!(hub_inbound(Some(Ok(AgentFrame::Error("x".into())))), HubStep::Stop));
    assert!(matches!(hub_inbound(Some(Ok(AgentFrame::Empty))), HubStep::Ignore));
    assert!(matches!(hub_inbound(None), HubStep::Stop));
    assert!(matches!(hub_inbound(Some(Err("x".into()))), HubStep::Stop));
}

#[test]
fn hub_node_directory_answers() {
    let info = node_info_from_handshake("n2", &hs("box"));
    assert_eq!(info.name, "box");
    assert_eq!(info.arch, "aarch64");
    let me = controller_self_node("linux", "x86_64");
    assert_eq!(me.node_id, "controller");
    assert_eq!(me.capabilities, vec!["controller".to_string(), "agent-hub".to_string()]);
    let mut off: NodeInfo = node_info_from_handshake("n3", &hs(""));
    off.online = false;
    let nodes = vec![info, off];
    let online = list_nodes_reply(nodes, true);
    assert_eq!(online.len(), 1);
    assert_eq!(online[0].node_id, "n2");
    let e = get_node_reply("zz", None).unwrap_err();
    assert_eq!((e.code, e.message.as_str()), (CODE_NOT_FOUND, "节点未连接: zz"));
    let refused = handshake_reply(Err(CoreError::FailedPrecondition("设备凭证无效".into())), "join");
    assert_eq!(refused.unwrap_err().message, "前置条件失败: 设备凭证无效");
    let ok = handshake_reply(Ok(("n1".into(), None)), "join").unwrap();
    assert_eq!((ok.node_id.as_str(), ok.device_credential.as_str()), ("n1", ""));
}

#[test]
fn controller_server_info_and_capabilities() {
    let i = astral_core::hub::hub_server_info();
    assert_eq!(i.protocol_package, "astral.v1");
    assert_eq!(i.capabilities, vec!["system.ping", "controller.hub", "agent.session", "tunnel.proxy"]);
    let (services, features) = astral_core::hub::hub_capabilities();
    assert_eq!(services, vec!["SystemService", "NodeService"]);
    assert_eq!(features, vec!["agent-hub", "tunnel-proxy"]);
}

#[test]
fn node_accepts_answer_of_controller_with_same_secret() {
    let mut auth = ControllerAuth::open("join".into(), "d.json".into(), Vec::new()).unwrap();
    let reply = match hub_open(&mut auth, Some(Ok(AgentFrame::Handshake(hs(""))))) {
        HubOpen::Accept { reply, .. } => reply,
        other => panic!("unexpected {:?}", other),
    };
    let issued = reply.device_credential.clone();
    let ok = check_handshake_reply(Some(Ok(AgentFrame::HandshakeResult(reply.clone()))), "join", "x")
        .unwrap();
    assert_eq!(ok.node_id, "n1");
    assert_eq!(ok.save_credential, Some(issued));
    assert!(check_handshake_reply(Some(Ok(AgentFrame::HandshakeResult(reply))), "other", "x").is_err());
}

#[test]
fn backoff_schedule_stays_within_maximum() {
    let failed = SessionOutcome::HandshakeFailed(CoreError::Internal("x".into()));
    let mut backoff = 1000u64;
    let mut waits = Vec::new();
    for _ in 0..7 {
        let (wait, next) = next_backoff(&failed, backoff, 1000, 30000);
        waits.push(wait);
        backoff = next;
    }
    assert_eq!(waits, vec![1000, 2000, 4000, 8000, 16000, 30000, 30000]);
}
