use astral_core::peers::{
    has_local_peer, merge_local_peer, peer_route_pairs_from_info, peer_summaries_from_info,
    ConnStats, Metric, MyNodeInfo, PeerInfo, PeerRoutePair, PeerSummary, RouteInfo, RunningInfo,
};

fn summary(id: &str, host: &str, ipv4: &str, conn: &str) -> PeerSummary {
    PeerSummary {
        peer_id: id.into(),
        hostname: host.into(),
        ipv4: ipv4.into(),
        ipv6: String::new(),
        latency_ms: Metric::Measured(1.0f64.to_bits()),
        loss_percent: Metric::Zero,
        conn_type: conn.into(),
        rx_bytes: 0,
        tx_bytes: 0,
    }
}

#[test]
fn merge_local_on_empty_list() {
    let mut peers = Vec::new();
    merge_local_peer(&mut peers, "alpha", "10.126.126.1");
    assert_eq!(peers.len(), 1);
    assert_eq!(peers[0].peer_id, "0");
    assert_eq!(peers[0].conn_type, "local");
    assert_eq!(peers[0].hostname, "alpha");
    assert_eq!(peers[0].ipv4, "10.126.126.1");
}

#[test]
fn merge_local_skips_when_already_local() {
    let mut peers = vec![summary("0", "alpha", "10.126.126.1", "local")];
    merge_local_peer(&mut peers, "alpha", "10.126.126.1");
    assert_eq!(peers.len(), 1);
}

#[test]
fn merge_local_skips_same_ipv4() {
    let mut peers = vec![summary("9", "alpha", "10.126.126.1", "p2p")];
    merge_local_peer(&mut peers, "alpha", "10.126.126.1");
    assert_eq!(peers.len(), 1);
}

#[test]
fn merge_local_puts_local_node_first_before_other_peers() {
    let mut peers = vec![summary("7", "beta", "10.126.126.2", "p2p")];
    merge_local_peer(&mut peers, "alpha", "10.126.126.1");
    assert_eq!(peers.len(), 2);
    assert_eq!(peers[0].peer_id, "0");
    assert_eq!(peers[0].conn_type, "local");
    assert_eq!(peers[1].peer_id, "7");
}

#[test]
fn merge_local_twice_adds_one_entry() {
    let mut peers = vec![summary("7", "beta", "10.126.126.2", "relay")];
    merge_local_peer(&mut peers, "alpha", "10.126.126.1");
    merge_local_peer(&mut peers, "alpha", "10.126.126.1");
    assert_eq!(peers.len(), 2);
}

#[test]
fn local_connection_is_recognized_in_any_case() {
    let peers = vec![summary("5", "x", "10.0.0.5", "LOCAL")];
    assert!(has_local_peer(&peers));
    let peers = vec![summary("5", "x", "10.0.0.5", "p2p")];
    assert!(!has_local_peer(&peers));
}

fn route(id: u32, host: &str, ipv4: Option<&str>, cost: i32) -> RouteInfo {
    RouteInfo {
        peer_id: id,
        hostname: host.into(),
        ipv4_addr: ipv4.map(|s| s.to_string()),
        ipv6_addr: None,
        cost,
    }
}

fn running_info() -> RunningInfo {
    RunningInfo {
        peer_route_pairs: vec![
            PeerRoutePair {
                route: Some(route(11, "beta", Some("10.126.126.2"), 1)),
                peer: Some(PeerInfo {
                    peer_id: 11,
                    conns: vec![
                        Some(ConnStats { rx_bytes: 10, tx_bytes: 20 }),
                        None,
                        Some(ConnStats { rx_bytes: 5, tx_bytes: 1 }),
                    ],
                }),
                latency_ms: Some(3.5f64.to_bits()),
            },
            PeerRoutePair {
                route: Some(route(12, "gamma", None, 2)),
                peer: None,
                latency_ms: None,
            },
        ],
        derived_pairs: Vec::new(),
        peers: vec![
            PeerInfo { peer_id: 11, conns: Vec::new() },
            PeerInfo { peer_id: 13, conns: Vec::new() },
        ],
        my_node_info: Some(MyNodeInfo {
            hostname: "alpha".into(),
            virtual_ipv4: Some("10.126.126.1".into()),
        }),
    }
}

#[test]
fn route_pairs_add_direct_peers_without_route() {
    let pairs = peer_route_pairs_from_info(&running_info());
    assert_eq!(pairs.len(), 3);
    assert!(pairs[2].route.is_none());
    assert_eq!(pairs[2].peer.as_ref().map(|p| p.peer_id), Some(13));
}

#[test]
fn summaries_from_running_info_list_local_first() {
    let peers = peer_summaries_from_info(&running_info());
    assert_eq!(peers.len(), 3);
    assert_eq!(peers[0].peer_id, "0");
    assert_eq!(peers[0].hostname, "alpha");
    assert_eq!(peers[0].ipv4, "10.126.126.1");
    assert_eq!(peers[0].conn_type, "local");
    assert_eq!(peers[1].peer_id, "11");
    assert_eq!(peers[1].conn_type, "p2p");
    assert_eq!(peers[1].latency_ms, Metric::Measured(3.5f64.to_bits()));
    assert_eq!(peers[1].loss_percent, Metric::Unknown);
    assert_eq!((peers[1].rx_bytes, peers[1].tx_bytes), (15, 21));
    assert_eq!(peers[2].peer_id, "12");
    assert_eq!(peers[2].conn_type, "relay");
    assert_eq!(peers[2].latency_ms, Metric::Unknown);
    assert_eq!(peers[2].ipv4, "");
}
