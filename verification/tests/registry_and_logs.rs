use astral_core::error::CoreError;
use astral_core::logs::{
    captured_line, default_log_limit, last_seq_of, logs_recent_limit, strip_quotes,
    FieldCollector, LogHub, LogLevel, LogLine, RING_CAP,
};
use astral_core::sessions::{offline_replies, NodeInfo, SessionRegistry, TunnelFailure};

fn node(id: &str) -> NodeInfo {
    NodeInfo {
        node_id: id.to_string(),
        name: id.to_string(),
        version: "0.1.0".to_string(),
        os: "linux".to_string(),
        arch: "x86_64".to_string(),
        online: true,
        labels: Vec::new(),
        last_seen: None,
        capabilities: Vec::new(),
    }
}

fn line(msg: &str, instance: &str) -> LogLine {
    LogLine {
        seq: 0,
        unix_secs: 1,
        level: "info".into(),
        target: "t".into(),
        message: msg.into(),
        instance_id: instance.into(),
    }
}

#[test]
fn reconnect_survives_removal_of_stale_session() {
    let mut reg = SessionRegistry::new();
    let (g1, _) = reg.insert("n1".into(), node("n1"));
    let (g2, _) = reg.insert("n1".into(), node("n1"));
    assert_ne!(g1, g2);
    let failed = reg.remove("n1", g1);
    assert!(failed.is_empty());
    assert!(reg.get_node("n1").is_some());
    reg.remove("n1", g2);
    assert!(reg.get_node("n1").is_none());
    assert!(reg.list_nodes().is_empty());
}

#[test]
fn tunnel_calls_complete_only_for_their_node() {
    let mut reg = SessionRegistry::new();
    reg.insert("a".into(), node("a"));
    reg.insert("b".into(), node("b"));
    let id = reg.begin_tunnel("a").unwrap();
    assert_eq!(id, 1);
    assert!(!reg.complete_tunnel("b", id));
    assert!(reg.complete_tunnel("a", id));
    assert!(!reg.complete_tunnel("a", id));
    match reg.begin_tunnel("zz") {
        Err(CoreError::NotFound(m)) => assert_eq!(m, "节点未连接: zz"),
        other => panic!("unexpected {:?}", other),
    }
}

#[test]
fn removing_a_node_fails_its_pending_calls() {
    let mut reg = SessionRegistry::new();
    let (g, _) = reg.insert("a".into(), node("a"));
    let id = reg.begin_tunnel("a").unwrap();
    let failed = reg.remove("a", g);
    assert_eq!(failed.len(), 1);
    assert_eq!(failed[0].id, id);
    assert_eq!(failed[0].node_id, "a");
}

#[test]
fn listed_nodes_are_online() {
    let mut reg = SessionRegistry::new();
    let mut off = node("x");
    off.online = false;
    reg.insert("x".into(), off);
    let nodes = reg.list_nodes();
    assert_eq!(nodes.len(), 1);
    assert!(nodes[0].online);
    assert!(reg.get_node("x").unwrap().online);
}

#[test]
fn log_ring_numbers_lines_and_polls_after() {
    let mut hub = LogHub::new();
    hub.push(line("a", ""));
    hub.push(line("b", "i1"));
    hub.push(line("c", ""));
    let all = hub.recent_since(0, 10);
    assert_eq!(all.iter().map(|l| l.seq).collect::<Vec<_>>(), vec![1, 2, 3]);
    let newer = hub.recent_since(1, 10);
    assert_eq!(newer.iter().map(|l| l.message.as_str()).collect::<Vec<_>>(), vec!["b", "c"]);
    let last_two = hub.recent_since(0, 2);
    assert_eq!(last_two.iter().map(|l| l.seq).collect::<Vec<_>>(), vec![2, 3]);
    let first_after = hub.recent_since(0, 0);
    assert_eq!(first_after.len(), 1);
    assert_eq!(first_after[0].seq, 3);
    let only = hub.recent_since_for_instance(0, 10, "i1");
    assert_eq!(only.len(), 1);
    assert_eq!(only[0].message, "b");
    assert_eq!(last_seq_of(&newer, 1), 3);
    assert_eq!(last_seq_of(&Vec::new(), 7), 7);
}

#[test]
fn log_ring_keeps_the_newest_lines() {
    let mut hub = LogHub::new();
    for k in 0..(RING_CAP + 5) {
        hub.push(line(&format!("m{k}"), ""));
    }
    let all = hub.recent_since(0, 5000);
    assert_eq!(all.len(), RING_CAP);
    assert_eq!(all[0].seq, 6);
    assert_eq!(all[RING_CAP - 1].seq, (RING_CAP + 5) as u64);
}

#[test]
fn log_limits_and_field_collection() {
    assert_eq!(default_log_limit(), 200);
    assert_eq!(logs_recent_limit(0), 200);
    assert_eq!(logs_recent_limit(5000), 2000);
    assert_eq!(logs_recent_limit(20), 20);
    let mut f = FieldCollector::default();
    f.put("message", "hello".into());
    f.put("instance_id", "i9".into());
    f.put("other", "x".into());
    assert_eq!(strip_quotes("\"\"quoted\""), "quoted");
    assert_eq!(strip_quotes("\"\""), "");
    let l = captured_line(LogLevel::Warn, "astral_core::rpc", f, 42);
    assert_eq!(l.seq, 0);
    assert_eq!(l.level, "warn");
    assert_eq!(l.message, "hello");
    assert_eq!(l.instance_id, "i9");
    assert_eq!(l.unix_secs, 42);
}

#[test]
fn abandoned_tunnel_call_is_no_longer_pending() {
    let mut reg = SessionRegistry::new();
    reg.insert("a".into(), node("a"));
    let id = reg.begin_tunnel("a").unwrap();
    match reg.abandon_tunnel("a", id, TunnelFailure::TimedOut) {
        CoreError::Internal(m) => assert_eq!(m, "等待节点隧道响应超时"),
        other => panic!("unexpected {:?}", other),
    }
    assert!(!reg.complete_tunnel("a", id));
    let id2 = reg.begin_tunnel("a").unwrap();
    match reg.abandon_tunnel("a", id2, TunnelFailure::ChannelClosed) {
        CoreError::Internal(m) => assert_eq!(m, "隧道响应通道关闭"),
        other => panic!("unexpected {:?}", other),
    }
    assert!(reg.complete_tunnel("a", id2));
}

#[test]
fn unsent_tunnel_call_is_dropped() {
    let mut reg = SessionRegistry::new();
    reg.insert("a".into(), node("a"));
    let id = reg.begin_tunnel("a").unwrap();
    match reg.abandon_tunnel("a", id, TunnelFailure::SendFailed) {
        CoreError::Internal(m) => assert_eq!(m, "向节点发送隧道请求失败"),
        other => panic!("unexpected {:?}", other),
    }
    assert!(!reg.complete_tunnel("a", id));
}

#[test]
fn calls_of_a_removed_node_are_answered_unavailable() {
    let mut reg = SessionRegistry::new();
    let (g, _) = reg.insert("n1".to_string(), node("n1"));
    let a = reg.begin_tunnel("n1").unwrap();
    let b = reg.begin_tunnel("n1").unwrap();
    let failed = reg.remove("n1", g);
    let replies = offline_replies(&failed);
    assert_eq!(replies.len(), 2);
    assert_eq!(replies[0].id, a);
    assert_eq!(replies[1].id, b);
    for r in &replies {
        assert_eq!(r.grpc_status, 14);
        assert_eq!(r.message, "节点已离线");
        assert!(r.payload.is_empty());
    }
    assert!(reg.get_node("n1").is_none());
}
