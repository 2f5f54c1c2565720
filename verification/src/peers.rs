//! Peer summaries from the engine's running information; the local node is
//! always listed.
use vstd::prelude::*;

use std::collections::HashSet;

use crate::text::{
    decimal, decimal_chars, eq_ignore_ascii_case, eq_ignore_ascii_case_chars, str_chars, str_eq,
    string_from_chars, trim, trim_chars,
};

verus! {

/// A measured quantity of a peer (kept as the bit pattern of the reported
/// `f64`): unknown (reported as -1), zero, or a measured value.
#[derive(Debug, Clone, Copy, PartialEq, Eq, Structural)]
pub enum Metric {
    /// Unknown (-1).
    Unknown,
    /// Zero.
    Zero,
    /// A measured value: the IEEE-754 bits of the `f64`.
    Measured(u64),
}

/// Summary of one peer.
#[derive(Debug, Clone)]
pub struct PeerSummary {
    /// Peer id.
    pub peer_id: String,
    /// Host name.
    pub hostname: String,
    /// IPv4.
    pub ipv4: String,
    /// IPv6.
    pub ipv6: String,
    /// Latency in milliseconds.
    pub latency_ms: Metric,
    /// Loss in percent.
    pub loss_percent: Metric,
    /// `local`, `p2p` or `relay`.
    pub conn_type: String,
    /// Bytes received.
    pub rx_bytes: u64,
    /// Bytes sent.
    pub tx_bytes: u64,
}

/// Route of a peer as the engine reports it.
#[derive(Debug, Clone)]
pub struct RouteInfo {
    /// Peer id.
    pub peer_id: u32,
    /// Host name.
    pub hostname: String,
    /// IPv4 address text, when known.
    pub ipv4_addr: Option<String>,
    /// IPv6 address text, when known.
    pub ipv6_addr: Option<String>,
    /// Route cost (0 local, 1 direct).
    pub cost: i32,
}

/// Traffic counters of one connection.
#[derive(Debug, Clone, Copy)]
pub struct ConnStats {
    /// Bytes received.
    pub rx_bytes: u64,
    /// Bytes sent.
    pub tx_bytes: u64,
}

/// A directly connected peer and its connections (with counters when
/// reported).
#[derive(Debug, Clone)]
pub struct PeerInfo {
    /// Peer id.
    pub peer_id: u32,
    /// Counters of each connection.
    pub conns: Vec<Option<ConnStats>>,
}

/// A route and/or direct peer for one peer id; `latency_ms` is the
/// engine's latency of the pair, when it has one.
#[derive(Debug)]
pub struct PeerRoutePair {
    /// The route.
    pub route: Option<RouteInfo>,
    /// The direct peer.
    pub peer: Option<PeerInfo>,
    /// Latency in milliseconds (bits of the `f64`), when measured.
    pub latency_ms: Option<u64>,
}

/// The local node as the engine reports it.
#[derive(Debug, Clone)]
pub struct MyNodeInfo {
    /// Host name.
    pub hostname: String,
    /// Virtual IPv4 text, when assigned.
    pub virtual_ipv4: Option<String>,
}

/// The parts of an instance's running information peers are built from.
#[derive(Debug)]
pub struct RunningInfo {
    /// Peer/route pairs the engine reported.
    pub peer_route_pairs: Vec<PeerRoutePair>,
    /// Pairs the engine derives from its peers and routes (used when it
    /// reported none).
    pub derived_pairs: Vec<PeerRoutePair>,
    /// Directly connected peers.
    pub peers: Vec<PeerInfo>,
    /// The local node.
    pub my_node_info: Option<MyNodeInfo>,
}

/// The list already shows the local node: a `local` connection (any
/// ASCII case) or peer id `0`.
pub open spec fn has_local(p: Seq<PeerSummary>) -> bool {
    exists|i: int|
        0 <= i < p.len() && (eq_ignore_ascii_case((#[trigger] p[i]).conn_type@, "local"@)
            || p[i].peer_id@ == "0"@)
}

/// Some peer has IPv4 `ip`.
pub open spec fn has_ipv4(p: Seq<PeerSummary>, ip: Seq<char>) -> bool {
    exists|i: int| 0 <= i < p.len() && (#[trigger] p[i]).ipv4@ == ip
}

/// The synthesized entry of the local node.
pub open spec fn is_local_entry(s: PeerSummary, hostname: Seq<char>, ipv4: Seq<char>) -> bool {
    &&& s.peer_id@ == "0"@
    &&& s.hostname@ == (if trim(hostname).len() == 0 {
        "local"@
    } else {
        hostname
    })
    &&& s.ipv4@ == ipv4
    &&& s.ipv6@.len() == 0
    &&& s.latency_ms == Metric::Zero
    &&& s.loss_percent == Metric::Zero
    &&& s.conn_type@ == "local"@
    &&& s.rx_bytes == 0
    &&& s.tx_bytes == 0
}

/// What merging the local node into `before` gives (`after`).
pub open spec fn merged(
    before: Seq<PeerSummary>,
    after: Seq<PeerSummary>,
    hostname: Seq<char>,
    ipv4: Seq<char>,
) -> bool {
    if has_local(before) || (ipv4.len() > 0 && has_ipv4(before, ipv4)) {
        after == before
    } else {
        &&& after.len() == before.len() + 1
        &&& is_local_entry(after[0], hostname, ipv4)
        &&& after.drop_first() == before
    }
}

/// Whether the list already shows the local node.
pub fn has_local_peer(peers: &[PeerSummary]) -> (b: bool)
    ensures
        b == has_local(peers@),
{
    let local = str_chars("local");
    let zero = str_chars("0");
    let mut i: usize = 0;
    while i < peers.len()
        invariant
            i <= peers@.len(),
            local@ == "local"@,
            zero@ == "0"@,
            forall|k: int|
                0 <= k < i ==> !(eq_ignore_ascii_case((#[trigger] peers@[k]).conn_type@, "local"@)
                    || peers@[k].peer_id@ == "0"@),
        decreases peers@.len() - i,
    {
        let p = &peers[i];
        if eq_ignore_ascii_case_chars(&str_chars(p.conn_type.as_str()), &local) || str_eq(
            p.peer_id.as_str(),
            "0",
        ) {
            return true;
        }
        i = i + 1;
    }
    false
}

fn has_ipv4_exec(peers: &Vec<PeerSummary>, ip: &str) -> (b: bool)
    ensures
        b == has_ipv4(peers@, ip@),
{
    let mut i: usize = 0;
    while i < peers.len()
        invariant
            i <= peers@.len(),
            forall|k: int| 0 <= k < i ==> (#[trigger] peers@[k]).ipv4@ != ip@,
        decreases peers@.len() - i,
    {
        if str_eq(peers[i].ipv4.as_str(), ip) {
            return true;
        }
        i = i + 1;
    }
    false
}

/// Puts the local node at the head of the list unless it is already shown
/// (by a `local` entry, peer id `0`, or a peer with the same IPv4), so
/// that the node sees itself even without peers.
pub fn merge_local_peer(peers: &mut Vec<PeerSummary>, hostname: &str, ipv4: &str)
    ensures
        merged(old(peers)@, final(peers)@, hostname@, ipv4@),
{
    if has_local_peer(peers.as_slice()) {
        return;
    }
    if !ipv4.is_empty() && has_ipv4_exec(peers, ipv4) {
        return;
    }
    let trimmed = trim_chars(&str_chars(hostname));
    let name = if trimmed.len() == 0 {
        "local".to_string()
    } else {
        hostname.to_string()
    };
    let ghost before = peers@;
    peers.insert(
        0,
        PeerSummary {
            peer_id: "0".to_string(),
            hostname: name,
            ipv4: ipv4.to_string(),
            ipv6: String::new(),
            latency_ms: Metric::Zero,
            loss_percent: Metric::Zero,
            conn_type: "local".to_string(),
            rx_bytes: 0,
            tx_bytes: 0,
        },
    );
    assert(peers@.drop_first() =~= before);
}

/// Merging the local node twice is merging it once, and afterwards the
/// local node is shown (or a peer already has its IPv4).
pub proof fn merge_local_is_idempotent(
    p0: Seq<PeerSummary>,
    p1: Seq<PeerSummary>,
    p2: Seq<PeerSummary>,
    hostname: Seq<char>,
    ipv4: Seq<char>,
)
    requires
        merged(p0, p1, hostname, ipv4),
        merged(p1, p2, hostname, ipv4),
    ensures
        p2 == p1,
        has_local(p1) || (ipv4.len() > 0 && has_ipv4(p1, ipv4)),
{
    if !(has_local(p0) || (ipv4.len() > 0 && has_ipv4(p0, ipv4))) {
        assert(eq_ignore_ascii_case(p1[0].conn_type@, "local"@));
        assert(has_local(p1));
    }
}

/// Saturating sum of the received bytes of the connections.
pub open spec fn rx_total(c: Seq<Option<ConnStats>>) -> u64
    decreases c.len(),
{
    if c.len() == 0 {
        0
    } else {
        let add = match c.last() {
            Some(s) => s.rx_bytes,
            None => 0,
        };
        sat_add(rx_total(c.drop_last()), add)
    }
}

/// Saturating sum of the sent bytes of the connections.
pub open spec fn tx_total(c: Seq<Option<ConnStats>>) -> u64
    decreases c.len(),
{
    if c.len() == 0 {
        0
    } else {
        let add = match c.last() {
            Some(s) => s.tx_bytes,
            None => 0,
        };
        sat_add(tx_total(c.drop_last()), add)
    }
}

/// `u64::saturating_add`.
pub open spec fn sat_add(a: u64, b: u64) -> u64 {
    if a + b > u64::MAX {
        u64::MAX
    } else {
        (a + b) as u64
    }
}

fn saturating_add(a: u64, b: u64) -> (r: u64)
    ensures
        r == sat_add(a, b),
{
    if a > u64::MAX - b {
        u64::MAX
    } else {
        a + b
    }
}

/// The connection type of a route cost.
pub open spec fn conn_type_of(cost: i32) -> Seq<char> {
    if cost == 0 {
        "local"@
    } else if cost == 1 {
        "p2p"@
    } else {
        "relay"@
    }
}

/// The latency reported for a route cost: the pair's latency for a direct
/// route (unknown if none), zero for the local node, else unknown.
pub open spec fn latency_of(cost: i32, latency: Option<u64>) -> Metric {
    if cost == 1 {
        match latency {
            Some(b) => Metric::Measured(b),
            None => Metric::Unknown,
        }
    } else if cost == 0 {
        Metric::Zero
    } else {
        Metric::Unknown
    }
}

/// The summary of a pair: only pairs with a route have one.
pub open spec fn pair_summary(p: PeerRoutePair, s: Option<PeerSummary>) -> bool {
    match p.route {
        None => s is None,
        Some(r) => s matches Some(x) && {
            &&& x.peer_id@ == decimal(r.peer_id as nat)
            &&& x.hostname == r.hostname
            &&& x.ipv4@ == crate::model::text_or_empty(r.ipv4_addr)
            &&& x.ipv6@ == crate::model::text_or_empty(r.ipv6_addr)
            &&& x.latency_ms == latency_of(r.cost, p.latency_ms)
            &&& x.loss_percent == Metric::Unknown
            &&& x.conn_type@ == conn_type_of(r.cost)
            &&& x.rx_bytes == (match p.peer {
                Some(q) => rx_total(q.conns@),
                None => 0,
            })
            &&& x.tx_bytes == (match p.peer {
                Some(q) => tx_total(q.conns@),
                None => 0,
            })
        },
    }
}

fn optional_text(s: &Option<String>) -> (r: String)
    ensures
        r@ == crate::model::text_or_empty(*s),
{
    match s {
        Some(t) => t.clone(),
        None => String::new(),
    }
}

fn totals(conns: &Vec<Option<ConnStats>>) -> (r: (u64, u64))
    ensures
        r.0 == rx_total(conns@),
        r.1 == tx_total(conns@),
{
    let mut rx: u64 = 0;
    let mut tx: u64 = 0;
    let mut i: usize = 0;
    while i < conns.len()
        invariant
            i <= conns@.len(),
            rx == rx_total(conns@.take(i as int)),
            tx == tx_total(conns@.take(i as int)),
        decreases conns@.len() - i,
    {
        assert(conns@.take(i + 1).drop_last() =~= conns@.take(i as int));
        match conns[i] {
            Some(s) => {
                rx = saturating_add(rx, s.rx_bytes);
                tx = saturating_add(tx, s.tx_bytes);
            },
            None => {
                rx = saturating_add(rx, 0);
                tx = saturating_add(tx, 0);
            },
        }
        i = i + 1;
    }
    assert(conns@.take(i as int) =~= conns@);
    (rx, tx)
}

/// Summary of one peer/route pair; `None` without a route.
pub fn pair_to_summary(pair: &PeerRoutePair) -> (s: Option<PeerSummary>)
    ensures
        pair_summary(*pair, s),
{
    let route = match &pair.route {
        Some(r) => r,
        None => return None,
    };
    let peer_id = string_from_chars(decimal_chars(route.peer_id as u64).as_slice());
    let latency_ms = if route.cost == 1 {
        match pair.latency_ms {
            Some(b) => Metric::Measured(b),
            None => Metric::Unknown,
        }
    } else if route.cost == 0 {
        Metric::Zero
    } else {
        Metric::Unknown
    };
    let conn_type = if route.cost == 0 {
        "local".to_string()
    } else if route.cost == 1 {
        "p2p".to_string()
    } else {
        "relay".to_string()
    };
    let (rx_bytes, tx_bytes) = match &pair.peer {
        Some(p) => totals(&p.conns),
        None => (0, 0),
    };
    Some(
        PeerSummary {
            peer_id,
            hostname: route.hostname.clone(),
            ipv4: optional_text(&route.ipv4_addr),
            ipv6: optional_text(&route.ipv6_addr),
            latency_ms,
            loss_percent: Metric::Unknown,
            conn_type,
            rx_bytes,
            tx_bytes,
        },
    )
}

/// The local node's virtual IPv4 text (empty when unknown).
pub fn my_ipv4_from_info(info: &RunningInfo) -> (r: String)
    ensures
        r@ == match info.my_node_info {
            Some(n) => crate::model::text_or_empty(n.virtual_ipv4),
            None => Seq::empty(),
        },
{
    match &info.my_node_info {
        Some(n) => optional_text(&n.virtual_ipv4),
        None => String::new(),
    }
}

/// The local node's host name (empty when unknown).
pub fn hostname_from_info(info: &RunningInfo) -> (r: String)
    ensures
        r@ == match info.my_node_info {
            Some(n) => n.hostname@,
            None => Seq::empty(),
        },
{
    match &info.my_node_info {
        Some(n) => n.hostname.clone(),
        None => String::new(),
    }
}

/// The summaries of the pairs that have a route, in order.
pub open spec fn summaries_of(pairs: Seq<PeerRoutePair>, out: Seq<PeerSummary>) -> bool
    decreases pairs.len(),
{
    if pairs.len() == 0 {
        out.len() == 0
    } else {
        match pairs.last().route {
            None => summaries_of(pairs.drop_last(), out),
            Some(_) => out.len() > 0 && summaries_of(pairs.drop_last(), out.drop_last())
                && pair_summary(pairs.last(), Some(out.last())),
        }
    }
}

/// The direct peers added after the pairs, given the ids already seen: each
/// peer whose id was not seen yet, once.
pub open spec fn added_peers(seen: Set<u32>, peers: Seq<PeerInfo>) -> Seq<PeerInfo>
    decreases peers.len(),
{
    if peers.len() == 0 {
        Seq::empty()
    } else if seen.contains(peers[0].peer_id) {
        added_peers(seen, peers.drop_first())
    } else {
        seq![peers[0]] + added_peers(seen.insert(peers[0].peer_id), peers.drop_first())
    }
}

/// The ids of the routes among `pairs`.
pub open spec fn route_ids(pairs: Seq<PeerRoutePair>) -> Set<u32> {
    Set::new(
        |id: u32|
            exists|i: int|
                0 <= i < pairs.len() && (#[trigger] pairs[i]).route is Some && pairs[i].route->0.peer_id
                    == id,
    )
}

/// The pairs the engine reported, or, when it reported none, the derived
/// ones.
pub open spec fn base_pairs(info: RunningInfo) -> Seq<PeerRoutePair> {
    if info.peer_route_pairs@.len() == 0 {
        info.derived_pairs@
    } else {
        info.peer_route_pairs@
    }
}

impl ConnStats {
    /// A copy.
    pub fn copy(&self) -> (r: ConnStats)
        ensures
            r == *self,
    {
        *self
    }
}

impl PeerInfo {
    /// A copy (connections as a sequence).
    pub fn copy(&self) -> (r: PeerInfo)
        ensures
            r.peer_id == self.peer_id,
            r.conns@ == self.conns@,
    {
        let mut conns: Vec<Option<ConnStats>> = Vec::new();
        let mut i: usize = 0;
        while i < self.conns.len()
            invariant
                i <= self.conns@.len(),
                conns@ == self.conns@.take(i as int),
            decreases self.conns@.len() - i,
        {
            let c = match self.conns[i] {
                Some(s) => Some(s.copy()),
                None => None,
            };
            conns.push(c);
            assert(conns@ =~= self.conns@.take(i + 1));
            i = i + 1;
        }
        assert(self.conns@.take(i as int) =~= self.conns@);
        PeerInfo { peer_id: self.peer_id, conns }
    }
}

impl RouteInfo {
    /// A copy.
    pub fn copy(&self) -> (r: RouteInfo)
        ensures
            r == *self,
    {
        RouteInfo {
            peer_id: self.peer_id,
            hostname: self.hostname.clone(),
            ipv4_addr: match &self.ipv4_addr {
                Some(t) => Some(t.clone()),
                None => None,
            },
            ipv6_addr: match &self.ipv6_addr {
                Some(t) => Some(t.clone()),
                None => None,
            },
            cost: self.cost,
        }
    }
}

/// A pair and its copy agree on route, peer id and connections, and
/// latency.
pub open spec fn same_pair(a: PeerRoutePair, b: PeerRoutePair) -> bool {
    &&& a.route == b.route
    &&& a.latency_ms == b.latency_ms
    &&& a.peer is Some == b.peer is Some
    &&& a.peer is Some ==> a.peer->0.peer_id == b.peer->0.peer_id && a.peer->0.conns@
        == b.peer->0.conns@
}

impl PeerRoutePair {
    /// A copy.
    pub fn copy(&self) -> (r: PeerRoutePair)
        ensures
            same_pair(r, *self),
    {
        PeerRoutePair {
            route: match &self.route {
                Some(x) => Some(x.copy()),
                None => None,
            },
            peer: match &self.peer {
                Some(p) => Some(p.copy()),
                None => None,
            },
            latency_ms: self.latency_ms,
        }
    }
}

/// The pairs to list: the engine's pairs (see [`base_pairs`]) followed,
/// without a route, by each direct peer whose id has no route among them
/// and was not added before.
pub fn peer_route_pairs_from_info(info: &RunningInfo) -> (v: Vec<PeerRoutePair>)
    ensures
        v@.len() == base_pairs(*info).len() + added_peers(
            route_ids(base_pairs(*info)),
            info.peers@,
        ).len(),
        forall|i: int|
            0 <= i < base_pairs(*info).len() ==> same_pair(#[trigger] v@[i], base_pairs(*info)[i]),
        forall|j: int|
            0 <= j < added_peers(route_ids(base_pairs(*info)), info.peers@).len() ==> {
                let p = #[trigger] v@[base_pairs(*info).len() + j];
                let q = added_peers(route_ids(base_pairs(*info)), info.peers@)[j];
                &&& p.route is None
                &&& p.latency_ms is None
                &&& p.peer is Some
                &&& p.peer->0.peer_id == q.peer_id
                &&& p.peer->0.conns@ == q.conns@
            },
{
    let base = if info.peer_route_pairs.len() == 0 {
        &info.derived_pairs
    } else {
        &info.peer_route_pairs
    };
    broadcast use vstd::std_specs::hash::group_hash_axioms;

    let ghost b = base@;
    let mut out: Vec<PeerRoutePair> = Vec::new();
    let mut seen: HashSet<u32> = HashSet::new();
    let mut i: usize = 0;
    while i < base.len()
        invariant
            i <= base@.len(),
            b == base@,
            b == base_pairs(*info),
            out@.len() == i,
            forall|k: int| 0 <= k < i ==> same_pair(#[trigger] out@[k], b[k]),
            forall|id: u32| seen@.contains(id) <==> route_ids(b.take(i as int)).contains(id),
        decreases base@.len() - i,
    {
        out.push(base[i].copy());
        let ghost old_seen = seen@;
        match &base[i].route {
            Some(r) => {
                seen.insert(r.peer_id);
            },
            None => {},
        }
        proof {
            assert forall|id: u32| seen@.contains(id) <==> route_ids(b.take(i + 1)).contains(id) by {
                if route_ids(b.take(i + 1)).contains(id) {
                    let k = choose|k: int|
                        0 <= k < b.take(i + 1).len() && (#[trigger] b.take(i + 1)[k]).route is Some
                            && b.take(i + 1)[k].route->0.peer_id == id;
                    if k < i {
                        assert(b.take(i as int)[k] == b.take(i + 1)[k]);
                        assert(route_ids(b.take(i as int)).contains(id));
                    }
                }
                if route_ids(b.take(i as int)).contains(id) {
                    let k = choose|k: int|
                        0 <= k < b.take(i as int).len() && (#[trigger] b.take(i as int)[k]).route
                            is Some && b.take(i as int)[k].route->0.peer_id == id;
                    assert(b.take(i + 1)[k] == b.take(i as int)[k]);
                }
                if b[i as int].route is Some && id == b[i as int].route->0.peer_id {
                    assert(b.take(i + 1)[i as int] == b[i as int]);
                }
            }
        }
        i = i + 1;
    }
    assert(b.take(i as int) =~= b);
    let ghost base_len = i as int;
    let ghost mut gs: Set<u32> = route_ids(b);
    let ghost all = added_peers(route_ids(b), info.peers@);
    let mut j: usize = 0;
    assert(info.peers@.skip(0) =~= info.peers@);
    while j < info.peers.len()
        invariant
            j <= info.peers@.len(),
            out@.len() >= base_len,
            base_len == b.len(),
            b == base_pairs(*info),
            all == added_peers(route_ids(b), info.peers@),
            forall|k: int| 0 <= k < base_len ==> same_pair(#[trigger] out@[k], b[k]),
            forall|id: u32| seen@.contains(id) <==> gs.contains(id),
            all.len() == out@.len() - base_len + added_peers(gs, info.peers@.skip(j as int)).len(),
            forall|m: int|
                0 <= m < out@.len() - base_len ==> {
                    let p = #[trigger] out@[base_len + m];
                    &&& p.route is None
                    &&& p.latency_ms is None
                    &&& p.peer is Some
                    &&& p.peer->0.peer_id == all[m].peer_id
                    &&& p.peer->0.conns@ == all[m].conns@
                },
            forall|m: int|
                0 <= m < added_peers(gs, info.peers@.skip(j as int)).len() ==> all[out@.len()
                    - base_len + m] == #[trigger] added_peers(gs, info.peers@.skip(j as int))[m],
        decreases info.peers@.len() - j,
    {
        let p = &info.peers[j];
        let ghost rest = info.peers@.skip(j as int);
        assert(rest[0] == info.peers@[j as int]);
        assert(rest.drop_first() =~= info.peers@.skip(j + 1));
        let ghost done = out@.len() - base_len;
        if !seen.contains(&p.peer_id) {
            assert(added_peers(gs, rest) == seq![rest[0]] + added_peers(
                gs.insert(rest[0].peer_id),
                rest.drop_first(),
            ));
            assert(added_peers(gs, rest)[0] == rest[0]);
            assert(all[done] == rest[0]);
            out.push(PeerRoutePair { route: None, peer: Some(p.copy()), latency_ms: None });
            let ghost old_seen = seen@;
            seen.insert(p.peer_id);
            proof {
                assert forall|m: int|
                    0 <= m < added_peers(gs.insert(p.peer_id), info.peers@.skip(j + 1)).len()
                        implies all[out@.len() - base_len + m] == #[trigger] added_peers(
                        gs.insert(p.peer_id),
                        info.peers@.skip(j + 1),
                    )[m] by {
                    assert(added_peers(gs, rest)[m + 1] == added_peers(
                        gs.insert(p.peer_id),
                        info.peers@.skip(j + 1),
                    )[m]);
                }
                gs = gs.insert(p.peer_id);
            }
        } else {
            assert(added_peers(gs, rest) == added_peers(gs, rest.drop_first()));
        }
        j = j + 1;
    }
    assert(info.peers@.skip(j as int) =~= Seq::<PeerInfo>::empty());
    out
}

/// The summaries of the running information: one per pair with a route,
/// with the local node merged in.
pub fn peer_summaries_from_info(info: &RunningInfo) -> (v: Vec<PeerSummary>)
    ensures
        exists|s: Seq<PeerSummary>|
            #[trigger] summaries_of(base_pairs(*info), s) && merged(
                s,
                v@,
                match info.my_node_info {
                    Some(n) => n.hostname@,
                    None => Seq::empty(),
                },
                match info.my_node_info {
                    Some(n) => crate::model::text_or_empty(n.virtual_ipv4),
                    None => Seq::empty(),
                },
            ),
{
    let pairs = if info.peer_route_pairs.len() == 0 {
        &info.derived_pairs
    } else {
        &info.peer_route_pairs
    };
    let mut out: Vec<PeerSummary> = Vec::new();
    let mut i: usize = 0;
    while i < pairs.len()
        invariant
            i <= pairs@.len(),
            summaries_of(pairs@.take(i as int), out@),
        decreases pairs@.len() - i,
    {
        assert(pairs@.take(i + 1).drop_last() =~= pairs@.take(i as int));
        assert(pairs@.take(i + 1).last() == pairs@[i as int]);
        let ghost before = out@;
        match pair_to_summary(&pairs[i]) {
            Some(s) => {
                out.push(s);
                assert(out@.drop_last() =~= before);
            },
            None => {},
        }
        i = i + 1;
    }
    assert(pairs@.take(i as int) =~= pairs@);
    let ghost s = out@;
    assert(pairs@ == base_pairs(*info));
    assert(summaries_of(base_pairs(*info), s));
    let hostname = hostname_from_info(info);
    let ipv4 = my_ipv4_from_info(info);
    merge_local_peer(&mut out, hostname.as_str(), ipv4.as_str());
    out
}

} // verus!
