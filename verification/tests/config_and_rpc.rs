use astral_core::error::CoreError;
use astral_core::events::{
    lagged_event, map_engine_event, map_et_event, EngineEvent, EventPayload, EventType,
};
use astral_core::model::{
    instance_meta, meta_selected, state_name, summary_from_running, summary_missing,
    summary_of, summary_starting, EngineRunInfo, EngineSighting, InstanceState, NetworkConfig,
    PortForwardEntry,
};
use astral_core::net::{
    default_listen, require_local_listen, IpAddress, RuntimeConfigBuilder, SocketAddress,
};
use astral_core::paths::{node_id_record, stored_node_id, strip_verbatim_prefix, DataPaths};
use astral_core::restore::{
    instance_rpc_timeout, instance_rpc_wait, restore_next, RestoreStep, RpcWait,
    INSTANCE_RPC_WAIT_MS,
};
use astral_core::rpc::{
    check_request_method, check_start_toml, error_reply, instance_not_found, logs_query,
    parse_failure, parse_instance_id, rpc_info, rpc_method, RpcMethod,
};
use astral_core::structured::{
    astral_to_et_network_config, join_spaced, manual_plan, plan_parse_failure, PlanParses,
};

#[test]
fn rpc_methods_and_unknown_method() {
    assert_eq!(rpc_method("logs.recent").unwrap(), RpcMethod::LogsRecent);
    assert_eq!(rpc_method("ping").unwrap(), RpcMethod::Ping);
    match rpc_method("nope") {
        Err(e) => {
            assert_eq!(error_reply(&e), (-32601, "未知方法: nope".to_string()));
        }
        other => panic!("unexpected {:?}", other),
    }
}

#[test]
fn rpc_envelope_errors() {
    assert_eq!(check_request_method(""), Err((-32600, "缺少 method".to_string())));
    assert!(check_request_method("ping").is_ok());
    assert_eq!(parse_failure("EOF"), (-32700, "JSON 解析失败: EOF".to_string()));
    let e = CoreError::InvalidArgument("缺少 toml".into());
    assert_eq!(error_reply(&e), (-32602, "无效参数: 缺少 toml".to_string()));
    let nf = instance_not_found("abc");
    assert_eq!(error_reply(&nf), (-32004, "未找到: 实例不存在: abc".to_string()));
    assert_eq!(error_reply(&CoreError::Io("disk".into())), (-32603, "disk".to_string()));
    let info = rpc_info("0.1.0");
    assert_eq!(info.protocol, "astral.jsonrpc.v1");
}

#[test]
fn instance_id_and_toml_checks() {
    let id = parse_instance_id("67e55044-10b1-426f-9247-bb680e5fe0c8").unwrap();
    assert_eq!(id, 0x67e5504410b1426f9247bb680e5fe0c8u128);
    match parse_instance_id("  ") {
        Err(CoreError::InvalidArgument(m)) => assert_eq!(m, "instance_id 为空"),
        other => panic!("unexpected {:?}", other),
    }
    match parse_instance_id("xyz") {
        Err(CoreError::InvalidArgument(m)) => assert_eq!(m, "无效 instance_id: xyz"),
        other => panic!("unexpected {:?}", other),
    }
    assert!(check_start_toml("a = 1").is_ok());
    match check_start_toml(" \n") {
        Err(CoreError::InvalidArgument(m)) => assert_eq!(m, "缺少 toml"),
        other => panic!("unexpected {:?}", other),
    }
}

#[test]
fn logs_query_defaults_and_trimming() {
    let q = logs_query(5, 0, "  i1 ");
    assert_eq!((q.after, q.limit, q.instance_id.as_deref()), (5, 200, Some("i1")));
    let q2 = logs_query(0, 9000, " ");
    assert_eq!((q2.limit, q2.instance_id), (2000, None));
}

#[test]
fn instance_summaries_and_meta() {
    let s = summary_from_running("id".into(), "n".into(), true, Some("boom".into()), None, "h".into());
    assert_eq!(s.state, InstanceState::Error);
    assert!(!s.running);
    let r = summary_from_running("id".into(), "n".into(), true, None, Some("tun0".into()), "h".into());
    assert_eq!(r.state, InstanceState::Running);
    assert_eq!(r.dev_name, "tun0");
    let st = summary_starting("id".into(), "n".into(), None);
    assert_eq!(st.state, InstanceState::Starting);
    let m = summary_missing("id".into(), "n".into());
    assert_eq!(m.state, InstanceState::Stopped);
    assert_eq!(m.error_message, "instance not found");
    let meta = instance_meta(r, "/p.toml".into());
    assert_eq!(meta.source_path, "/p.toml");
    assert!(meta_selected(&vec![], "x"));
    assert!(meta_selected(&vec!["x".into()], "x"));
    assert!(!meta_selected(&vec!["y".into()], "x"));
    assert_eq!(state_name(InstanceState::Running), "running");
}

#[test]
fn listen_addresses_stay_local() {
    let any = SocketAddress { ip: IpAddress::V4(0, 0, 0, 0), port: 9, scope_id: 0 };
    assert_eq!(
        require_local_listen(any).unwrap(),
        SocketAddress { ip: IpAddress::V4(127, 0, 0, 1), port: 9, scope_id: 0 }
    );
    let any6 = SocketAddress { ip: IpAddress::V6(0, 0, 0, 0, 0, 0, 0, 0), port: 9, scope_id: 0 };
    assert_eq!(require_local_listen(any6).unwrap().ip, IpAddress::V6(0, 0, 0, 0, 0, 0, 0, 1));
    let lan = SocketAddress { ip: IpAddress::V4(192, 168, 1, 2), port: 50051, scope_id: 0 };
    match require_local_listen(lan) {
        Err(CoreError::InvalidArgument(m)) => {
            assert_eq!(m, "astral-core 仅监听本机，不支持 192.168.1.2:50051")
        }
        other => panic!("unexpected {:?}", other),
    }
    let v6 = SocketAddress { ip: IpAddress::V6(0x2001, 0xdb8, 0, 0, 0, 0, 0, 1), port: 1, scope_id: 0 };
    match require_local_listen(v6) {
        Err(CoreError::InvalidArgument(m)) => assert!(m.ends_with("[2001:db8::1]:1")),
        other => panic!("unexpected {:?}", other),
    }
    let cfg = RuntimeConfigBuilder::new().listen(any).build().unwrap();
    assert_eq!(cfg.listen, SocketAddress { ip: IpAddress::V4(127, 0, 0, 1), port: 9, scope_id: 0 });
    assert_eq!(default_listen().port, 50051);
}

#[test]
fn data_paths_and_node_id_file() {
    let p = DataPaths::new("/data".into());
    assert_eq!(p.tokens_file(), "/data/tokens.json");
    assert_eq!(p.node_id_file(), "/data/node_id");
    assert_eq!(p.bootstrap_token_file(), "/data/bootstrap_token.txt");
    assert_eq!(p.profiles_dir(), "/data/profiles");
    assert_eq!(stored_node_id(" abc \n"), Some("abc".to_string()));
    assert_eq!(stored_node_id("\n"), None);
    assert_eq!(node_id_record("abc"), "abc\n");
    assert_eq!(strip_verbatim_prefix("\\\\?\\UNC\\srv\\share"), "\\\\srv\\share");
    assert_eq!(strip_verbatim_prefix("\\\\?\\C:\\x"), "C:\\x");
    assert_eq!(strip_verbatim_prefix("/usr/bin"), "/usr/bin");
}

fn config() -> NetworkConfig {
    let mut c = NetworkConfig::default();
    c.instance_id = "67e55044-10b1-426f-9247-bb680e5fe0c8".into();
    c.network_name = "net".into();
    c.network_secret = "sec".into();
    c.ipv4 = "10.0.0.2".into();
    c.network_length = 16;
    c.peers = vec!["tcp://1.2.3.4:11010".into()];
    c.relay_network_whitelist = vec!["a".into(), "b".into()];
    c.enable_vpn_portal = true;
    c.vpn_portal_listen_port = 70000;
    c.mtu = 1380;
    c.port_forwards = vec![PortForwardEntry {
        protocol: "tcp".into(),
        bind_ip: "0.0.0.0".into(),
        bind_port: 80,
        dst_ip: "10.0.0.9".into(),
        dst_port: 8080,
    }];
    c
}

#[test]
fn engine_record_of_structured_config() {
    let c = config();
    let e = astral_to_et_network_config(&c);
    assert_eq!(e.instance_id.as_deref(), Some("67e55044-10b1-426f-9247-bb680e5fe0c8"));
    assert_eq!(e.hostname, None);
    assert_eq!(e.network_length, Some(16));
    assert_eq!(e.mtu, Some(1380));
    assert_eq!(e.socks5_port, None);
    assert_eq!(e.no_tun, Some(true));
    assert_eq!(e.disable_encryption, Some(true));
    assert_eq!(e.enable_relay_network_whitelist, Some(true));
    assert_eq!(e.enable_manual_routes, Some(false));
    assert_eq!(e.advanced_settings, Some(true));
    assert_eq!(e.port_forwards.len(), 1);
    assert_eq!(e.port_forwards[0].dst_port, 8080);
}

#[test]
fn manual_settings_of_structured_config() {
    let c = config();
    let p = manual_plan(&c);
    assert_eq!(p.id, Some(0x67e5504410b1426f9247bb680e5fe0c8u128));
    assert_eq!(p.ipv4.as_deref(), Some("10.0.0.2/16"));
    assert_eq!(
        p.vpn,
        Some(("10.100.100.0/24".to_string(), "0.0.0.0:4464".to_string()))
    );
    assert_eq!(
        p.forwards,
        vec![("0.0.0.0:80".to_string(), "10.0.0.9:8080".to_string(), "tcp".to_string())]
    );
    assert_eq!(p.flags.relay_network_whitelist.as_deref(), Some("a b"));
    assert_eq!(p.flags.mtu, Some(1380));
    assert_eq!(p.network_identity, Some(("net".to_string(), "sec".to_string())));
    let mut d = NetworkConfig::default();
    d.dhcp = true;
    d.ipv4 = "10.0.0.3".into();
    assert_eq!(manual_plan(&d).ipv4, None);
    d.dhcp = false;
    d.ipv4 = "10.0.0.3/8".into();
    assert_eq!(manual_plan(&d).ipv4.as_deref(), Some("10.0.0.3/8"));
    d.ipv4 = "10.0.0.3".into();
    assert_eq!(manual_plan(&d).ipv4.as_deref(), Some("10.0.0.3/24"));
    assert_eq!(join_spaced(&vec![]), "");
}

#[test]
fn engine_events_are_mapped() {
    let e = map_engine_event("node", "inst", EngineEvent::TunDeviceReady("tun0".into()), "id1".into(), 9)
        .unwrap();
    assert_eq!(e.event_type, EventType::InstanceState);
    match e.payload {
        Some(EventPayload::InstanceState { state, running, dev_name, .. }) => {
            assert_eq!(state, InstanceState::Running);
            assert!(running);
            assert_eq!(dev_name, "tun0");
        }
        other => panic!("unexpected {:?}", other),
    }
    let c = map_engine_event("node", "inst", EngineEvent::ConnectError("refused".into()), "id2".into(), 9)
        .unwrap();
    match c.payload {
        Some(EventPayload::ControlError { code, message, .. }) => {
            assert_eq!((code.as_str(), message.as_str()), ("ENGINE_ERROR", "refused"))
        }
        other => panic!("unexpected {:?}", other),
    }
    let p = map_et_event("node", "inst", EngineEvent::PeerAdded).unwrap();
    assert_eq!(p.event_type, EventType::PeerChanged);
    assert_eq!(p.event_id.len(), 36);
    let l = lagged_event("node", "inst", 12, "id3".into(), 1);
    match l.payload {
        Some(EventPayload::ControlError { code, message, .. }) => {
            assert_eq!((code.as_str(), message.as_str()), ("EVENT_LAGGED", "丢弃 12 条引擎事件"))
        }
        other => panic!("unexpected {:?}", other),
    }
}

#[test]
fn restore_retries_with_growing_waits() {
    assert_eq!(restore_next(1, 0, 2000), (RestoreStep::Done, 4000));
    assert_eq!(restore_next(1, 2, 2000), (RestoreStep::RetryAfter(2000), 4000));
    assert_eq!(restore_next(5, 2, 30000), (RestoreStep::RetryAfter(30000), 30000));
    assert_eq!(restore_next(6, 1, 30000).0, RestoreStep::GiveUp);
}

#[test]
fn accepted_listen_address_is_accepted_unchanged_again() {
    let any = SocketAddress { ip: IpAddress::V4(0, 0, 0, 0), port: 4000, scope_id: 0 };
    let once = require_local_listen(any).unwrap();
    assert_eq!(require_local_listen(once).unwrap(), once);
}

#[test]
fn restore_wait_schedule() {
    let mut delay = astral_core::restore::RESTORE_FIRST_DELAY_MS;
    let mut waits = Vec::new();
    for attempt in 1..=5u32 {
        let (step, next) = restore_next(attempt, 1, delay);
        assert_eq!(step, RestoreStep::RetryAfter(delay));
        waits.push(delay);
        delay = next;
    }
    assert_eq!(waits, vec![2000, 4000, 8000, 16000, 30000]);
}

#[test]
fn error_codes_of_every_kind() {
    assert_eq!(error_reply(&CoreError::Json("bad json".into())), (-32603, "bad json".to_string()));
    assert_eq!(error_reply(&CoreError::Other("boom".into())), (-32603, "boom".to_string()));
    assert_eq!(
        error_reply(&CoreError::Internal("x".into())),
        (-32603, "内部错误: x".to_string())
    );
    assert_eq!(
        error_reply(&CoreError::FailedPrecondition("y".into())),
        (-32002, "前置条件失败: y".to_string())
    );
}

#[test]
fn instance_rpc_wait_polls_until_deadline() {
    assert_eq!(instance_rpc_wait(true, 9_000, INSTANCE_RPC_WAIT_MS), RpcWait::Ready);
    assert_eq!(instance_rpc_wait(false, 7_950, INSTANCE_RPC_WAIT_MS), RpcWait::PollAgain);
    assert_eq!(instance_rpc_wait(false, 8_000, INSTANCE_RPC_WAIT_MS), RpcWait::TimedOut);
    match instance_rpc_timeout("abc") {
        CoreError::FailedPrecondition(m) => assert_eq!(m, "等待实例 RPC 超时: abc"),
        other => panic!("unexpected {:?}", other),
    }
}

#[test]
fn bad_listener_is_reported_as_invalid_argument() {
    let mut c = NetworkConfig::default();
    c.listeners = vec!["tcp://0.0.0.0:11010".to_string(), "not a url".to_string()];
    c.peers = vec!["tcp://1.2.3.4:11010".to_string()];
    c.enable_encryption = true;
    let p = manual_plan(&c);
    assert!(p.flags.enable_encryption);
    let ok = PlanParses {
        listeners: vec![None, None],
        peers: vec![None],
        proxy_cidrs: Vec::new(),
        ipv4: None,
        forwards: Vec::new(),
        vpn: (None, None),
    };
    assert!(plan_parse_failure(&p, &ok).is_ok());
    let bad = PlanParses {
        listeners: vec![None, Some("relative URL without a base".to_string())],
        peers: vec![Some("ignored".to_string())],
        proxy_cidrs: Vec::new(),
        ipv4: None,
        forwards: Vec::new(),
        vpn: (None, None),
    };
    match plan_parse_failure(&p, &bad) {
        Err(CoreError::InvalidArgument(m)) => {
            assert_eq!(m, "listener 无效 not a url: relative URL without a base")
        }
        other => panic!("unexpected {:?}", other),
    }
    c.listeners = Vec::new();
    c.port_forwards = vec![astral_core::model::PortForwardEntry {
        bind_ip: "0.0.0.0".into(),
        bind_port: 80,
        dst_ip: "x".into(),
        dst_port: 8080,
        protocol: "tcp".into(),
    }];
    let p = manual_plan(&c);
    let fwd = PlanParses {
        listeners: Vec::new(),
        peers: vec![None],
        proxy_cidrs: Vec::new(),
        ipv4: Some("not looked at".to_string()),
        forwards: vec![(None, Some("invalid socket address syntax".to_string()))],
        vpn: (None, None),
    };
    match plan_parse_failure(&p, &fwd) {
        Err(CoreError::InvalidArgument(m)) => assert_eq!(m, "dst 无效: invalid socket address syntax"),
        other => panic!("unexpected {:?}", other),
    }
}

#[test]
fn summary_of_chooses_by_what_the_engine_knows() {
    let info = EngineRunInfo {
        running: true,
        error_msg: None,
        dev_name: Some("tun0".into()),
        hostname: "h".into(),
    };
    let r = summary_of("id".into(), "n".into(), EngineSighting::Running(info));
    assert_eq!(r.state, InstanceState::Running);
    assert!(r.running);
    assert_eq!(r.dev_name, "tun0");
    let s = summary_of("id".into(), "n".into(), EngineSighting::Managed(Some("late".into())));
    assert_eq!(s.state, InstanceState::Starting);
    assert!(!s.running);
    assert_eq!(s.error_message, "late");
    let m = summary_of("id".into(), "".into(), EngineSighting::Unknown);
    assert_eq!(m.state, InstanceState::Stopped);
    assert_eq!(m.error_message, "instance not found");
}
