//! Bookkeeping of connected agent sessions: one entry per node, tagged by
//! a generation so that a stale session task never removes a newer one,
//! and pending tunnel calls keyed by node and request id.
use vstd::prelude::*;

use crate::agent::TunnelResponse;
use crate::error::CoreError;
use crate::frame::CODE_UNAVAILABLE;
use crate::text::{append_str, str_eq, string_from_chars};

verus! {

/// Directory information about a node.
#[derive(Debug, Clone)]
pub struct NodeInfo {
    /// Node id.
    pub node_id: String,
    /// Display name.
    pub name: String,
    /// Agent version.
    pub version: String,
    /// Operating system.
    pub os: String,
    /// Architecture.
    pub arch: String,
    /// Whether the node is online.
    pub online: bool,
    /// Labels (key, value).
    pub labels: Vec<(String, String)>,
    /// Last time seen, Unix seconds.
    pub last_seen: Option<i64>,
    /// Capabilities.
    pub capabilities: Vec<String>,
}

/// A copy of a list of strings.
pub fn copy_strings(v: &Vec<String>) -> (r: Vec<String>)
    ensures
        r@ == v@,
{
    let mut r: Vec<String> = Vec::new();
    let mut i: usize = 0;
    while i < v.len()
        invariant
            i <= v@.len(),
            r@ == v@.take(i as int),
        decreases v@.len() - i,
    {
        r.push(v[i].clone());
        assert(r@ =~= v@.take(i + 1));
        i = i + 1;
    }
    assert(v@.take(i as int) =~= v@);
    r
}

/// A copy of a list of string pairs.
pub fn copy_pairs(v: &Vec<(String, String)>) -> (r: Vec<(String, String)>)
    ensures
        r@ == v@,
{
    let mut r: Vec<(String, String)> = Vec::new();
    let mut i: usize = 0;
    while i < v.len()
        invariant
            i <= v@.len(),
            r@ == v@.take(i as int),
        decreases v@.len() - i,
    {
        let (a, b) = &v[i];
        r.push((a.clone(), b.clone()));
        assert(r@ =~= v@.take(i + 1));
        i = i + 1;
    }
    assert(v@.take(i as int) =~= v@);
    r
}

/// Node information with its lists as sequences.
pub struct NodeInfoView {
    /// Node id.
    pub node_id: Seq<char>,
    /// Display name.
    pub name: Seq<char>,
    /// Agent version.
    pub version: Seq<char>,
    /// Operating system.
    pub os: Seq<char>,
    /// Architecture.
    pub arch: Seq<char>,
    /// Whether the node is online.
    pub online: bool,
    /// Labels.
    pub labels: Seq<(String, String)>,
    /// Last time seen.
    pub last_seen: Option<i64>,
    /// Capabilities.
    pub capabilities: Seq<String>,
}

impl View for NodeInfo {
    type V = NodeInfoView;

    open spec fn view(&self) -> NodeInfoView {
        NodeInfoView {
            node_id: self.node_id@,
            name: self.name@,
            version: self.version@,
            os: self.os@,
            arch: self.arch@,
            online: self.online,
            labels: self.labels@,
            last_seen: self.last_seen,
            capabilities: self.capabilities@,
        }
    }
}

impl NodeInfo {
    /// A copy with `online` set as given.
    pub fn with_online(&self, online: bool) -> (r: NodeInfo)
        ensures
            r@ == (NodeInfoView { online, ..self@ }),
    {
        NodeInfo {
            node_id: self.node_id.clone(),
            name: self.name.clone(),
            version: self.version.clone(),
            os: self.os.clone(),
            arch: self.arch.clone(),
            online,
            labels: copy_pairs(&self.labels),
            last_seen: self.last_seen,
            capabilities: copy_strings(&self.capabilities),
        }
    }
}

/// One connected node.
#[derive(Debug)]
pub struct SessionEntry {
    /// Node id.
    pub node_id: String,
    /// Directory information.
    pub info: NodeInfo,
    /// Generation of the session.
    pub generation: u64,
}

/// A pending tunnel call with its node.
#[derive(Debug)]
pub struct Pending {
    /// Node the request went to.
    pub node_id: String,
    /// Request id.
    pub id: u64,
}

/// The entry of node `k` (the latest one counts).
pub open spec fn session_of(s: Seq<SessionEntry>, k: Seq<char>) -> Option<SessionEntry>
    decreases s.len(),
{
    if s.len() == 0 {
        None
    } else if s.last().node_id@ == k {
        Some(s.last())
    } else {
        session_of(s.drop_last(), k)
    }
}

/// The entries of nodes other than `k`.
pub open spec fn sessions_without(s: Seq<SessionEntry>, k: Seq<char>) -> Seq<SessionEntry>
    decreases s.len(),
{
    if s.len() == 0 {
        s
    } else if s.last().node_id@ == k {
        sessions_without(s.drop_last(), k)
    } else {
        sessions_without(s.drop_last(), k).push(s.last())
    }
}

/// The pending calls of nodes other than `k`.
pub open spec fn pending_without_node(s: Seq<Pending>, k: Seq<char>) -> Seq<Pending>
    decreases s.len(),
{
    if s.len() == 0 {
        s
    } else if s.last().node_id@ == k {
        pending_without_node(s.drop_last(), k)
    } else {
        pending_without_node(s.drop_last(), k).push(s.last())
    }
}

/// The pending calls of node `k`.
pub open spec fn pending_of_node(s: Seq<Pending>, k: Seq<char>) -> Seq<Pending>
    decreases s.len(),
{
    if s.len() == 0 {
        s
    } else if s.last().node_id@ == k {
        pending_of_node(s.drop_last(), k).push(s.last())
    } else {
        pending_of_node(s.drop_last(), k)
    }
}

/// The pending calls other than request `id` of node `k`.
pub open spec fn pending_without_call(s: Seq<Pending>, k: Seq<char>, id: u64) -> Seq<Pending>
    decreases s.len(),
{
    if s.len() == 0 {
        s
    } else if s.last().node_id@ == k && s.last().id == id {
        pending_without_call(s.drop_last(), k, id)
    } else {
        pending_without_call(s.drop_last(), k, id).push(s.last())
    }
}

/// Request `id` of node `k` is pending.
pub open spec fn has_call(s: Seq<Pending>, k: Seq<char>, id: u64) -> bool {
    exists|j: int| 0 <= j < s.len() && (#[trigger] s[j]).node_id@ == k && s[j].id == id
}

/// The counter after `c`, wrapping like an atomic `fetch_add`.
pub open spec fn bump(c: u64) -> u64 {
    if c == u64::MAX {
        0
    } else {
        (c + 1) as u64
    }
}

/// Removing node `k` keeps the entries of other nodes and drops `k`.
proof fn lemma_without(s: Seq<SessionEntry>, k: Seq<char>, k2: Seq<char>)
    ensures
        session_of(sessions_without(s, k), k2) == if k2 == k {
            None
        } else {
            session_of(s, k2)
        },
    decreases s.len(),
{
    if s.len() > 0 {
        lemma_without(s.drop_last(), k, k2);
        if s.last().node_id@ != k {
            assert(sessions_without(s, k).drop_last() == sessions_without(s.drop_last(), k));
        }
    }
}

/// Session registry state: the connected nodes, the pending tunnel calls
/// and the two counters.
#[derive(Debug)]
pub struct SessionRegistry {
    entries: Vec<SessionEntry>,
    pending: Vec<Pending>,
    next_req_id: u64,
    next_generation: u64,
}

/// Effect of `insert(k, info)` returning generation `g` and the dropped
/// pending calls.
pub open spec fn insert_post(
    before_entries: Seq<SessionEntry>,
    before_pending: Seq<Pending>,
    before_gen: u64,
    after_entries: Seq<SessionEntry>,
    after_pending: Seq<Pending>,
    after_gen: u64,
    k: Seq<char>,
    info: NodeInfo,
    g: u64,
    dropped: Seq<Pending>,
) -> bool {
    &&& g == bump(before_gen)
    &&& after_gen == g
    &&& after_entries.len() > 0
    &&& after_entries.drop_last() == sessions_without(before_entries, k)
    &&& after_entries.last().node_id@ == k
    &&& after_entries.last().info == info
    &&& after_entries.last().generation == g
    &&& after_pending == pending_without_node(before_pending, k)
    &&& dropped == pending_of_node(before_pending, k)
}

/// Effect of `remove(k, g)` returning the failed pending calls.
pub open spec fn remove_post(
    before_entries: Seq<SessionEntry>,
    before_pending: Seq<Pending>,
    after_entries: Seq<SessionEntry>,
    after_pending: Seq<Pending>,
    k: Seq<char>,
    g: u64,
    failed: Seq<Pending>,
) -> bool {
    if session_of(before_entries, k) matches Some(e) && e.generation == g {
        &&& after_entries == sessions_without(before_entries, k)
        &&& after_pending == pending_without_node(before_pending, k)
        &&& failed == pending_of_node(before_pending, k)
    } else {
        &&& after_entries == before_entries
        &&& after_pending == before_pending
        &&& failed.len() == 0
    }
}

impl SessionRegistry {
    /// An empty registry.
    pub fn new() -> (r: SessionRegistry)
        ensures
            r.entries().len() == 0,
            r.pending().len() == 0,
            r.next_generation() == 0,
            r.next_req_id() == 0,
            ids_unique_below(r.pending(), r.next_req_id()),
    {
        SessionRegistry {
            entries: Vec::new(),
            pending: Vec::new(),
            next_req_id: 0,
            next_generation: 0,
        }
    }

    /// Connected nodes.
    pub closed spec fn entries(&self) -> Seq<SessionEntry> {
        self.entries@
    }

    /// Pending tunnel calls.
    pub closed spec fn pending(&self) -> Seq<Pending> {
        self.pending@
    }

    /// Last generation handed out.
    pub closed spec fn next_generation(&self) -> u64 {
        self.next_generation
    }

    /// Last request id handed out.
    pub closed spec fn next_req_id(&self) -> u64 {
        self.next_req_id
    }

    /// Drops the pending calls of node `k`, returning them.
    fn take_pending_of(&mut self, k: &str) -> (taken: Vec<Pending>)
        ensures
            final(self).pending@ == pending_without_node(old(self).pending@, k@),
            taken@ == pending_of_node(old(self).pending@, k@),
            final(self).entries@ == old(self).entries@,
            final(self).next_generation == old(self).next_generation,
            final(self).next_req_id == old(self).next_req_id,
    {
        let mut kept: Vec<Pending> = Vec::new();
        let mut taken: Vec<Pending> = Vec::new();
        let mut i: usize = 0;
        while i < self.pending.len()
            invariant
                i <= self.pending@.len(),
                self.pending@ == old(self).pending@,
                kept@ == pending_without_node(self.pending@.take(i as int), k@),
                taken@ == pending_of_node(self.pending@.take(i as int), k@),
            decreases self.pending@.len() - i,
        {
            let p = &self.pending[i];
            assert(self.pending@.take(i + 1).drop_last() =~= self.pending@.take(i as int));
            let copy = Pending { node_id: p.node_id.clone(), id: p.id };
            if str_eq(p.node_id.as_str(), k) {
                taken.push(copy);
            } else {
                kept.push(copy);
            }
            i = i + 1;
        }
        assert(self.pending@.take(i as int) =~= self.pending@);
        self.pending = kept;
        taken
    }

    /// Drops the entries of node `k`.
    fn drop_entries_of(&mut self, k: &str)
        ensures
            final(self).entries@ == sessions_without(old(self).entries@, k@),
            final(self).pending@ == old(self).pending@,
            final(self).next_generation == old(self).next_generation,
            final(self).next_req_id == old(self).next_req_id,
    {
        let ghost all = self.entries@;
        let ghost mut j: int = 0;
        let mut i: usize = 0;
        assert(all.take(0) =~= Seq::<SessionEntry>::empty());
        assert(all.skip(0) =~= all);
        while i < self.entries.len()
            invariant
                0 <= j <= all.len(),
                self.entries@ == sessions_without(all.take(j), k@) + all.skip(j),
                i == sessions_without(all.take(j), k@).len(),
                self.pending@ == old(self).pending@,
                self.next_generation == old(self).next_generation,
                self.next_req_id == old(self).next_req_id,
            decreases self.entries@.len() - i,
        {
            let ghost pre = sessions_without(all.take(j), k@);
            assert(self.entries@[i as int] == all[j]);
            assert(all.take(j + 1).drop_last() =~= all.take(j));
            assert(all.take(j + 1).last() == all[j]);
            assert(all.skip(j).drop_first() =~= all.skip(j + 1));
            if str_eq(self.entries[i].node_id.as_str(), k) {
                self.entries.remove(i);
                assert(self.entries@ =~= pre + all.skip(j + 1));
            } else {
                assert(sessions_without(all.take(j + 1), k@) == pre.push(all[j]));
                assert(self.entries@ =~= pre.push(all[j]) + all.skip(j + 1));
                i = i + 1;
            }
            proof {
                j = j + 1;
            }
        }
        assert(j == all.len());
        assert(all.take(j) =~= all);
        assert(all.skip(j) =~= Seq::<SessionEntry>::empty());
        assert(self.entries@ =~= sessions_without(all, k@));
    }

    /// Registers the session of `node_id` (replacing an earlier one) and
    /// returns its generation, which the session must present when it goes
    /// away, with the pending calls of the earlier session, now dropped.
    pub fn insert(&mut self, node_id: String, info: NodeInfo) -> (res: (u64, Vec<Pending>))
        ensures
            insert_post(
                old(self).entries(),
                old(self).pending(),
                old(self).next_generation(),
                final(self).entries(),
                final(self).pending(),
                final(self).next_generation(),
                node_id@,
                info,
                res.0,
                res.1@,
            ),
            final(self).next_req_id() == old(self).next_req_id(),
            ids_unique_below(old(self).pending(), old(self).next_req_id()) ==> ids_unique_below(
                final(self).pending(),
                final(self).next_req_id(),
            ),
    {
        proof {
            if ids_unique_below(self.pending@, self.next_req_id) {
                lemma_without_node_unique(self.pending@, node_id@, self.next_req_id);
            }
        }
        let generation = if self.next_generation == u64::MAX {
            0
        } else {
            self.next_generation + 1
        };
        self.next_generation = generation;
        let dropped = self.take_pending_of(node_id.as_str());
        self.drop_entries_of(node_id.as_str());
        let ghost without = self.entries@;
        self.entries.push(SessionEntry { node_id, info, generation });
        assert(self.entries@.drop_last() =~= without);
        (generation, dropped)
    }

    /// The session of `k`, when there is one.
    fn find_session(&self, k: &str) -> (r: Option<usize>)
        ensures
            r matches Some(i) ==> i < self.entries@.len() && session_of(self.entries@, k@) == Some(
                self.entries@[i as int],
            ),
            r is None ==> session_of(self.entries@, k@) is None,
    {
        let mut j: usize = self.entries.len();
        assert(self.entries@.take(j as int) =~= self.entries@);
        while j > 0
            invariant
                j <= self.entries@.len(),
                session_of(self.entries@, k@) == session_of(self.entries@.take(j as int), k@),
            decreases j,
        {
            assert(self.entries@.take(j as int).drop_last() =~= self.entries@.take(j - 1));
            if str_eq(self.entries[j - 1].node_id.as_str(), k) {
                return Some(j - 1);
            }
            j = j - 1;
        }
        None
    }

    /// Removes the session of `node_id` only if it still has `generation`
    /// (a reconnect has not replaced it); returns the pending calls of the
    /// node, which then fail.
    pub fn remove(&mut self, node_id: &str, generation: u64) -> (failed: Vec<Pending>)
        ensures
            remove_post(
                old(self).entries(),
                old(self).pending(),
                final(self).entries(),
                final(self).pending(),
                node_id@,
                generation,
                failed@,
            ),
            final(self).next_generation() == old(self).next_generation(),
            final(self).next_req_id() == old(self).next_req_id(),
            ids_unique_below(old(self).pending(), old(self).next_req_id()) ==> ids_unique_below(
                final(self).pending(),
                final(self).next_req_id(),
            ),
    {
        proof {
            if ids_unique_below(self.pending@, self.next_req_id) {
                lemma_without_node_unique(self.pending@, node_id@, self.next_req_id);
            }
        }
        match self.find_session(node_id) {
            Some(i) => {
                if self.entries[i].generation != generation {
                    return Vec::new();
                }
            },
            None => {
                return Vec::new();
            },
        }
        self.drop_entries_of(node_id);
        self.take_pending_of(node_id)
    }

    /// The connected nodes, each marked online.
    pub fn list_nodes(&self) -> (v: Vec<NodeInfo>)
        ensures
            v@.len() == self.entries().len(),
            forall|i: int|
                0 <= i < v@.len() ==> #[trigger] v@[i]@ == (NodeInfoView {
                    online: true,
                    ..self.entries()[i].info@
                }),
    {
        let mut v: Vec<NodeInfo> = Vec::new();
        let mut i: usize = 0;
        while i < self.entries.len()
            invariant
                i <= self.entries@.len(),
                v@.len() == i,
                forall|m: int|
                    0 <= m < i ==> #[trigger] v@[m]@ == (NodeInfoView {
                        online: true,
                        ..self.entries@[m].info@
                    }),
            decreases self.entries@.len() - i,
        {
            v.push(self.entries[i].info.with_online(true));
            i = i + 1;
        }
        v
    }

    /// The information of node `node_id`, marked online, when connected.
    pub fn get_node(&self, node_id: &str) -> (r: Option<NodeInfo>)
        ensures
            r is Some == session_of(self.entries(), node_id@) is Some,
            r matches Some(n) ==> n@ == (NodeInfoView {
                online: true,
                ..session_of(self.entries(), node_id@)->0.info@
            }),
    {
        match self.find_session(node_id) {
            Some(i) => Some(self.entries[i].info.with_online(true)),
            None => None,
        }
    }

    /// Registers a tunnel call to `node_id` and returns its request id;
    /// `NotFound` when the node is not connected.
    pub fn begin_tunnel(&mut self, node_id: &str) -> (res: Result<u64, CoreError>)
        ensures
            final(self).entries() == old(self).entries(),
            final(self).next_generation() == old(self).next_generation(),
            session_of(old(self).entries(), node_id@) is None ==> {
                &&& res matches Err(CoreError::NotFound(m)) && m@ == "节点未连接: "@ + node_id@
                &&& final(self).pending() == old(self).pending()
                &&& final(self).next_req_id() == old(self).next_req_id()
            },
            session_of(old(self).entries(), node_id@) is Some ==> {
                &&& res == Ok::<u64, CoreError>(bump(old(self).next_req_id()))
                &&& final(self).next_req_id() == bump(old(self).next_req_id())
                &&& final(self).pending().len() == old(self).pending().len() + 1
                &&& final(self).pending().drop_last() == old(self).pending()
                &&& final(self).pending().last().node_id@ == node_id@
                &&& final(self).pending().last().id == bump(old(self).next_req_id())
            },
            ids_unique_below(old(self).pending(), old(self).next_req_id()) && old(
                self,
            ).next_req_id() < u64::MAX ==> ids_unique_below(
                final(self).pending(),
                final(self).next_req_id(),
            ),
    {
        if self.find_session(node_id).is_none() {
            let mut msg: Vec<char> = Vec::new();
            append_str(&mut msg, "节点未连接: ");
            append_str(&mut msg, node_id);
            return Err(CoreError::NotFound(string_from_chars(msg.as_slice())));
        }
        let id = if self.next_req_id == u64::MAX {
            0
        } else {
            self.next_req_id + 1
        };
        self.next_req_id = id;
        let ghost before = self.pending@;
        self.pending.push(Pending { node_id: node_id.to_string(), id });
        assert(self.pending@.drop_last() =~= before);
        proof {
            if ids_unique_below(before, old(self).next_req_id) && old(self).next_req_id < u64::MAX {
                tunnel_ids_stay_unique(before, old(self).next_req_id, self.pending@, node_id@, id);
            }
        }
        Ok(id)
    }

    /// Drops pending request `id` of `node_id`; returns whether it was
    /// pending. Only the node the request was sent to can complete it.
    pub fn complete_tunnel(&mut self, node_id: &str, id: u64) -> (found: bool)
        ensures
            found == has_call(old(self).pending(), node_id@, id),
            final(self).pending() == pending_without_call(old(self).pending(), node_id@, id),
            final(self).entries() == old(self).entries(),
            final(self).next_generation() == old(self).next_generation(),
            final(self).next_req_id() == old(self).next_req_id(),
            ids_unique_below(old(self).pending(), old(self).next_req_id()) ==> ids_unique_below(
                final(self).pending(),
                final(self).next_req_id(),
            ),
    {
        proof {
            if ids_unique_below(self.pending@, self.next_req_id) {
                lemma_without_call_unique(self.pending@, node_id@, id, self.next_req_id);
            }
        }
        let mut kept: Vec<Pending> = Vec::new();
        let mut found = false;
        let mut i: usize = 0;
        while i < self.pending.len()
            invariant
                i <= self.pending@.len(),
                self.pending@ == old(self).pending@,
                kept@ == pending_without_call(self.pending@.take(i as int), node_id@, id),
                found == has_call(self.pending@.take(i as int), node_id@, id),
            decreases self.pending@.len() - i,
        {
            let p = &self.pending[i];
            let ghost pre = self.pending@.take(i as int);
            assert(self.pending@.take(i + 1).drop_last() =~= pre);
            assert(self.pending@.take(i + 1)[i as int] == self.pending@[i as int]);
            if str_eq(p.node_id.as_str(), node_id) && p.id == id {
                found = true;
                assert(self.pending@.take(i + 1)[i as int].node_id@ == node_id@);
            } else {
                kept.push(Pending { node_id: p.node_id.clone(), id: p.id });
                assert forall|j: int|
                    0 <= j < i + 1 && (#[trigger] self.pending@.take(i + 1)[j]).node_id@
                        == node_id@ && self.pending@.take(i + 1)[j].id == id implies has_call(
                    pre,
                    node_id@,
                    id,
                ) by {
                    assert(j < i);
                    assert(pre[j] == self.pending@.take(i + 1)[j]);
                }
            }
            i = i + 1;
        }
        assert(self.pending@.take(i as int) =~= self.pending@);
        self.pending = kept;
        found
    }

    /// Gives up on tunnel call `id` of `node_id`: the call is no longer
    /// pending (when the request could not be sent or its answer did not
    /// come in time), and the error for the caller.
    pub fn abandon_tunnel(&mut self, node_id: &str, id: u64, why: TunnelFailure) -> (e: CoreError)
        ensures
            why != TunnelFailure::ChannelClosed ==> final(self).pending() == pending_without_call(
                old(self).pending(),
                node_id@,
                id,
            ),
            why == TunnelFailure::ChannelClosed ==> final(self).pending() == old(self).pending(),
            final(self).entries() == old(self).entries(),
            final(self).next_generation() == old(self).next_generation(),
            final(self).next_req_id() == old(self).next_req_id(),
            ids_unique_below(old(self).pending(), old(self).next_req_id()) ==> ids_unique_below(
                final(self).pending(),
                final(self).next_req_id(),
            ),
            e matches CoreError::Internal(m) && m@ == match why {
                TunnelFailure::SendFailed => "向节点发送隧道请求失败"@,
                TunnelFailure::ChannelClosed => "隧道响应通道关闭"@,
                TunnelFailure::TimedOut => "等待节点隧道响应超时"@,
            },
    {
        match why {
            TunnelFailure::SendFailed => {
                self.complete_tunnel(node_id, id);
                CoreError::Internal("向节点发送隧道请求失败".to_string())
            },
            TunnelFailure::ChannelClosed => CoreError::Internal("隧道响应通道关闭".to_string()),
            TunnelFailure::TimedOut => {
                self.complete_tunnel(node_id, id);
                CoreError::Internal("等待节点隧道响应超时".to_string())
            },
        }
    }
}

/// Why a tunnel call failed after it was registered.
#[derive(Debug, Clone, Copy, PartialEq, Eq, Structural)]
pub enum TunnelFailure {
    /// The request could not be sent to the node.
    SendFailed,
    /// The answer channel closed without an answer.
    ChannelClosed,
    /// No answer within the time limit (60 s).
    TimedOut,
}

/// A session task that outlived a reconnect cannot remove the newer
/// session: after `insert(k)` twice, removing with the first generation
/// leaves the second session in place.
pub proof fn reconnect_survives_stale_removal(
    e0: Seq<SessionEntry>,
    p0: Seq<Pending>,
    g0: u64,
    e1: Seq<SessionEntry>,
    p1: Seq<Pending>,
    g1: u64,
    e2: Seq<SessionEntry>,
    p2: Seq<Pending>,
    g2: u64,
    e3: Seq<SessionEntry>,
    p3: Seq<Pending>,
    k: Seq<char>,
    info1: NodeInfo,
    info2: NodeInfo,
    first: u64,
    second: u64,
    d1: Seq<Pending>,
    d2: Seq<Pending>,
    failed: Seq<Pending>,
)
    requires
        insert_post(e0, p0, g0, e1, p1, g1, k, info1, first, d1),
        insert_post(e1, p1, g1, e2, p2, g2, k, info2, second, d2),
        remove_post(e2, p2, e3, p3, k, first, failed),
    ensures
        e3 == e2,
        p3 == p2,
        failed.len() == 0,
        session_of(e3, k) matches Some(e) && e.info == info2 && e.generation == second,
{
    assert(e2 == e2.drop_last().push(e2.last()));
}

/// Removing with the current generation takes the node out of the
/// directory and fails exactly its pending calls.
pub proof fn removal_takes_node_out(
    e0: Seq<SessionEntry>,
    p0: Seq<Pending>,
    e1: Seq<SessionEntry>,
    p1: Seq<Pending>,
    k: Seq<char>,
    g: u64,
    failed: Seq<Pending>,
    other: Seq<char>,
)
    requires
        session_of(e0, k) matches Some(e) && e.generation == g,
        remove_post(e0, p0, e1, p1, k, g, failed),
        other != k,
    ensures
        session_of(e1, k) is None,
        session_of(e1, other) == session_of(e0, other),
        failed == pending_of_node(p0, k),
{
    lemma_without(e0, k, k);
    lemma_without(e0, k, other);
}

/// A reply from another node never completes a call: when no call `id` of
/// node `k` is pending, completion finds nothing and changes nothing.
pub proof fn completion_is_bound_to_node(s: Seq<Pending>, k: Seq<char>, id: u64)
    requires
        !has_call(s, k, id),
    ensures
        pending_without_call(s, k, id) == s,
    decreases s.len(),
{
    if s.len() > 0 {
        let t = s.drop_last();
        assert(!has_call(t, k, id)) by {
            if has_call(t, k, id) {
                let j = choose|j: int| 0 <= j < t.len() && (#[trigger] t[j]).node_id@ == k && t[j].id == id;
                assert(s[j] == t[j]);
            }
        }
        completion_is_bound_to_node(t, k, id);
        assert(!(s.last().node_id@ == k && s.last().id == id)) by {
            if s.last().node_id@ == k && s.last().id == id {
                assert(s[s.len() - 1] == s.last());
            }
        }
        assert(s == t.push(s.last()));
    }
}

/// One call's effect on the directory, as node `k` sees it: unchanged
/// (tunnel calls, listings, a removal with a stale generation), another
/// node registered, or another node removed.
pub open spec fn directory_step_for(
    before: Seq<SessionEntry>,
    after: Seq<SessionEntry>,
    k: Seq<char>,
) -> bool {
    ||| after == before
    ||| (after.len() > 0 && after.last().node_id@ != k && after.drop_last() == sessions_without(
        before,
        after.last().node_id@,
    ))
    ||| exists|k2: Seq<char>| k2 != k && after == #[trigger] sessions_without(before, k2)
}

/// Registering another node, and removing another node or with a
/// generation that is not the current one of `k`, are such steps.
pub proof fn other_calls_are_directory_steps(
    e0: Seq<SessionEntry>,
    p0: Seq<Pending>,
    gen0: u64,
    e1: Seq<SessionEntry>,
    p1: Seq<Pending>,
    gen1: u64,
    k: Seq<char>,
    k2: Seq<char>,
    info: NodeInfo,
    g: u64,
    out: Seq<Pending>,
)
    ensures
        insert_post(e0, p0, gen0, e1, p1, gen1, k2, info, g, out) && k2 != k
            ==> directory_step_for(e0, e1, k),
        remove_post(e0, p0, e1, p1, k2, g, out) && (k2 != k || !(session_of(e0, k) matches Some(
            e,
        ) && e.generation == g)) ==> directory_step_for(e0, e1, k),
{
    if remove_post(e0, p0, e1, p1, k2, g, out) && k2 != k && e1 != e0 {
        assert(e1 == sessions_without(e0, k2));
    }
}

proof fn lemma_directory_step(before: Seq<SessionEntry>, after: Seq<SessionEntry>, k: Seq<char>)
    requires
        directory_step_for(before, after, k),
    ensures
        session_of(after, k) == session_of(before, k),
{
    if after == before {
    } else if after.len() > 0 && after.last().node_id@ != k && after.drop_last()
        == sessions_without(before, after.last().node_id@) {
        lemma_without(before, after.last().node_id@, k);
    } else {
        let k2 = choose|k2: Seq<char>| k2 != k && after == #[trigger] sessions_without(before, k2);
        lemma_without(before, k2, k);
    }
}

/// The session of node `k` is the same after any run of calls that
/// neither registers `k` again nor removes it with its current
/// generation.
pub proof fn session_kept_by_other_calls(trace: Seq<Seq<SessionEntry>>, k: Seq<char>)
    requires
        trace.len() > 0,
        forall|i: int|
            0 <= i < trace.len() - 1 ==> directory_step_for(#[trigger] trace[i], trace[i + 1], k),
    ensures
        session_of(trace.last(), k) == session_of(trace[0], k),
    decreases trace.len(),
{
    if trace.len() > 1 {
        let t = trace.drop_last();
        assert forall|i: int| 0 <= i < t.len() - 1 implies directory_step_for(
            #[trigger] t[i],
            t[i + 1],
            k,
        ) by {
            assert(t[i] == trace[i] && t[i + 1] == trace[i + 1]);
        }
        session_kept_by_other_calls(t, k);
        assert(directory_step_for(trace[trace.len() - 2], trace[trace.len() - 1], k));
        lemma_directory_step(trace[trace.len() - 2], trace[trace.len() - 1], k);
        assert(t.last() == trace[trace.len() - 2]);
    }
}

/// A session task that outlived a reconnect cannot remove the newer
/// session, whatever other calls came in between: after the session of
/// `k` got generation `second`, a run of other calls and then a removal
/// with an older generation `first` change nothing and fail no call.
pub proof fn stale_removal_after_other_calls(
    trace: Seq<Seq<SessionEntry>>,
    k: Seq<char>,
    info: NodeInfo,
    first: u64,
    second: u64,
    p: Seq<Pending>,
    e_after: Seq<SessionEntry>,
    p_after: Seq<Pending>,
    failed: Seq<Pending>,
)
    requires
        trace.len() > 0,
        session_of(trace[0], k) matches Some(e) && e.generation == second && e.info == info,
        forall|i: int|
            0 <= i < trace.len() - 1 ==> directory_step_for(#[trigger] trace[i], trace[i + 1], k),
        first != second,
        remove_post(trace.last(), p, e_after, p_after, k, first, failed),
    ensures
        e_after == trace.last(),
        p_after == p,
        failed.len() == 0,
        session_of(e_after, k) matches Some(e) && e.generation == second && e.info == info,
{
    session_kept_by_other_calls(trace, k);
}

/// Request ids of the pending calls are distinct and none is above the
/// last one handed out.
pub open spec fn ids_unique_below(s: Seq<Pending>, top: u64) -> bool {
    &&& forall|j: int| 0 <= j < s.len() ==> (#[trigger] s[j]).id <= top
    &&& forall|i: int, j: int| 0 <= i < j < s.len() ==> (#[trigger] s[i]).id != (#[trigger] s[j]).id
}

proof fn lemma_without_call_members(s: Seq<Pending>, k: Seq<char>, id: u64)
    ensures
        forall|j: int|
            0 <= j < pending_without_call(s, k, id).len() ==> exists|i: int|
                0 <= i < s.len() && #[trigger] pending_without_call(s, k, id)[j] == s[i],
        pending_without_call(s, k, id).len() <= s.len(),
    decreases s.len(),
{
    if s.len() > 0 {
        let t = s.drop_last();
        lemma_without_call_members(t, k, id);
        let r = pending_without_call(s, k, id);
        let rt = pending_without_call(t, k, id);
        assert forall|j: int| 0 <= j < r.len() implies exists|i: int|
            0 <= i < s.len() && #[trigger] r[j] == s[i] by {
            if j < rt.len() {
                let i = choose|i: int| 0 <= i < t.len() && rt[j] == t[i];
                assert(r[j] == rt[j]);
                assert(s[i] == t[i]);
            } else {
                assert(r[j] == s.last());
                assert(s[s.len() - 1] == s.last());
            }
        }
    }
}

proof fn lemma_without_call_unique(s: Seq<Pending>, k: Seq<char>, id: u64, top: u64)
    requires
        ids_unique_below(s, top),
    ensures
        ids_unique_below(pending_without_call(s, k, id), top),
    decreases s.len(),
{
    if s.len() > 0 {
        let t = s.drop_last();
        assert(ids_unique_below(t, top)) by {
            assert forall|i: int, j: int| 0 <= i < j < t.len() implies (#[trigger] t[i]).id
                != (#[trigger] t[j]).id by {
                assert(t[i] == s[i] && t[j] == s[j]);
            }
            assert forall|j: int| 0 <= j < t.len() implies (#[trigger] t[j]).id <= top by {
                assert(t[j] == s[j]);
            }
        }
        lemma_without_call_unique(t, k, id, top);
        lemma_without_call_members(t, k, id);
        let r = pending_without_call(s, k, id);
        let rt = pending_without_call(t, k, id);
        if !(s.last().node_id@ == k && s.last().id == id) {
            assert(r == rt.push(s.last()));
            assert(s[s.len() - 1] == s.last());
            assert forall|i: int, j: int| 0 <= i < j < r.len() implies (#[trigger] r[i]).id
                != (#[trigger] r[j]).id by {
                if j == r.len() - 1 {
                    let m = choose|m: int| 0 <= m < t.len() && #[trigger] rt[i] == t[m];
                    assert(rt[i] == t[m]);
                    assert(t[m] == s[m]);
                    assert(r[i] == rt[i]);
                } else {
                    assert(r[i] == rt[i] && r[j] == rt[j]);
                }
            }
            assert forall|j: int| 0 <= j < r.len() implies (#[trigger] r[j]).id <= top by {
                if j < r.len() - 1 {
                    assert(r[j] == rt[j]);
                }
            }
        }
    }
}

/// Request ids stay unique across all nodes: registering a call with the
/// next id (before the counter wraps) and completing or abandoning a call
/// keep the pending ids distinct.
pub proof fn tunnel_ids_stay_unique(
    before: Seq<Pending>,
    top: u64,
    registered: Seq<Pending>,
    k: Seq<char>,
    id: u64,
)
    requires
        ids_unique_below(before, top),
        top < u64::MAX,
    ensures
        registered.len() == before.len() + 1 && registered.drop_last() == before
            && registered.last().id == bump(top) ==> ids_unique_below(registered, bump(top)),
        ids_unique_below(pending_without_call(before, k, id), top),
{
    lemma_without_call_unique(before, k, id, top);
    if registered.len() == before.len() + 1 && registered.drop_last() == before
        && registered.last().id == bump(top) {
        assert forall|j: int| 0 <= j < registered.len() implies (#[trigger] registered[j]).id
            <= bump(top) by {
            if j < before.len() {
                assert(registered[j] == before[j]);
            }
        }
        assert forall|i: int, j: int| 0 <= i < j < registered.len() implies (
        #[trigger] registered[i]).id != (#[trigger] registered[j]).id by {
            assert(registered[i] == before[i]);
            if j < before.len() {
                assert(registered[j] == before[j]);
            }
        }
    }
}

/// With unique request ids, a reply from another node delivers nothing:
/// when request `id` of node `a` is pending, node `b` has no call `id`,
/// so its reply finds nothing and leaves `a`'s call pending; `a`'s own
/// reply takes the call out.
pub proof fn reply_goes_only_to_its_node(s: Seq<Pending>, top: u64, a: Seq<char>, b: Seq<char>, id: u64)
    requires
        ids_unique_below(s, top),
        has_call(s, a, id),
        a != b,
    ensures
        !has_call(s, b, id),
        pending_without_call(s, b, id) == s,
        !has_call(pending_without_call(s, a, id), a, id),
{
    if has_call(s, b, id) {
        let i = choose|i: int| 0 <= i < s.len() && (#[trigger] s[i]).node_id@ == a && s[i].id == id;
        let j = choose|j: int| 0 <= j < s.len() && (#[trigger] s[j]).node_id@ == b && s[j].id == id;
        assert(i != j);
        if i < j {
            assert(s[i].id != s[j].id);
        } else {
            assert(s[j].id != s[i].id);
        }
    }
    completion_is_bound_to_node(s, b, id);
    lemma_completion_removes(s, a, id);
}

proof fn lemma_completion_removes(s: Seq<Pending>, k: Seq<char>, id: u64)
    ensures
        !has_call(pending_without_call(s, k, id), k, id),
    decreases s.len(),
{
    if s.len() > 0 {
        let t = s.drop_last();
        lemma_completion_removes(t, k, id);
        let r = pending_without_call(s, k, id);
        let rt = pending_without_call(t, k, id);
        if !(s.last().node_id@ == k && s.last().id == id) {
            assert(r == rt.push(s.last()));
            if has_call(r, k, id) {
                let j = choose|j: int| 0 <= j < r.len() && (#[trigger] r[j]).node_id@ == k && r[j].id == id;
                if j < rt.len() {
                    assert(r[j] == rt[j]);
                }
            }
        }
    }
}

proof fn lemma_without_node_members(s: Seq<Pending>, k: Seq<char>)
    ensures
        forall|j: int|
            0 <= j < pending_without_node(s, k).len() ==> exists|i: int|
                0 <= i < s.len() && #[trigger] pending_without_node(s, k)[j] == s[i],
    decreases s.len(),
{
    if s.len() > 0 {
        let t = s.drop_last();
        lemma_without_node_members(t, k);
        let r = pending_without_node(s, k);
        let rt = pending_without_node(t, k);
        assert forall|j: int| 0 <= j < r.len() implies exists|i: int|
            0 <= i < s.len() && #[trigger] r[j] == s[i] by {
            if j < rt.len() {
                let i = choose|i: int| 0 <= i < t.len() && rt[j] == t[i];
                assert(r[j] == rt[j]);
                assert(s[i] == t[i]);
            } else {
                assert(r[j] == s.last());
                assert(s[s.len() - 1] == s.last());
            }
        }
    }
}

proof fn lemma_without_node_unique(s: Seq<Pending>, k: Seq<char>, top: u64)
    requires
        ids_unique_below(s, top),
    ensures
        ids_unique_below(pending_without_node(s, k), top),
    decreases s.len(),
{
    if s.len() > 0 {
        let t = s.drop_last();
        assert(ids_unique_below(t, top)) by {
            assert forall|i: int, j: int| 0 <= i < j < t.len() implies (#[trigger] t[i]).id
                != (#[trigger] t[j]).id by {
                assert(t[i] == s[i] && t[j] == s[j]);
            }
            assert forall|j: int| 0 <= j < t.len() implies (#[trigger] t[j]).id <= top by {
                assert(t[j] == s[j]);
            }
        }
        lemma_without_node_unique(t, k, top);
        lemma_without_node_members(t, k);
        let r = pending_without_node(s, k);
        let rt = pending_without_node(t, k);
        if s.last().node_id@ != k {
            assert(r == rt.push(s.last()));
            assert(s[s.len() - 1] == s.last());
            assert forall|i: int, j: int| 0 <= i < j < r.len() implies (#[trigger] r[i]).id
                != (#[trigger] r[j]).id by {
                if j == r.len() - 1 {
                    let m = choose|m: int| 0 <= m < t.len() && #[trigger] rt[i] == t[m];
                    assert(t[m] == s[m]);
                    assert(r[i] == rt[i]);
                } else {
                    assert(r[i] == rt[i] && r[j] == rt[j]);
                }
            }
            assert forall|j: int| 0 <= j < r.len() implies (#[trigger] r[j]).id <= top by {
                if j < r.len() - 1 {
                    assert(r[j] == rt[j]);
                }
            }
        }
    }
}

proof fn lemma_of_node_has_all(s: Seq<Pending>, k: Seq<char>)
    ensures
        forall|j: int|
            0 <= j < s.len() && (#[trigger] s[j]).node_id@ == k ==> exists|i: int|
                0 <= i < pending_of_node(s, k).len() && pending_of_node(s, k)[i] == s[j],
    decreases s.len(),
{
    if s.len() > 0 {
        let t = s.drop_last();
        lemma_of_node_has_all(t, k);
        let r = pending_of_node(s, k);
        let rt = pending_of_node(t, k);
        assert forall|j: int| 0 <= j < s.len() && (#[trigger] s[j]).node_id@ == k implies exists|
            i: int,
        | 0 <= i < r.len() && r[i] == s[j] by {
            if j < t.len() {
                assert(s[j] == t[j]);
                let i = choose|i: int| 0 <= i < rt.len() && rt[i] == t[j];
                assert(r[i] == rt[i]);
            } else {
                assert(s[j] == s.last());
                assert(r[r.len() - 1] == s.last());
            }
        }
    }
}

/// When a node goes away, every call pending on it is among the failed
/// calls `remove` returns, and none of its calls stays pending.
pub proof fn disconnect_fails_every_call(
    e0: Seq<SessionEntry>,
    p0: Seq<Pending>,
    e1: Seq<SessionEntry>,
    p1: Seq<Pending>,
    k: Seq<char>,
    g: u64,
    failed: Seq<Pending>,
)
    requires
        session_of(e0, k) matches Some(e) && e.generation == g,
        remove_post(e0, p0, e1, p1, k, g, failed),
    ensures
        forall|j: int|
            0 <= j < p0.len() && (#[trigger] p0[j]).node_id@ == k ==> exists|i: int|
                0 <= i < failed.len() && failed[i] == p0[j],
        forall|j: int| 0 <= j < p1.len() ==> (#[trigger] p1[j]).node_id@ != k,
{
    lemma_of_node_has_all(p0, k);
    lemma_without_node_excludes(p0, k);
}

proof fn lemma_without_node_excludes(s: Seq<Pending>, k: Seq<char>)
    ensures
        forall|j: int|
            0 <= j < pending_without_node(s, k).len() ==> (#[trigger] pending_without_node(
                s,
                k,
            )[j]).node_id@ != k,
    decreases s.len(),
{
    if s.len() > 0 {
        lemma_without_node_excludes(s.drop_last(), k);
        let r = pending_without_node(s, k);
        let rt = pending_without_node(s.drop_last(), k);
        assert forall|j: int| 0 <= j < r.len() implies (#[trigger] r[j]).node_id@ != k by {
            if j < rt.len() {
                assert(r[j] == rt[j]);
            }
        }
    }
}

/// The answers to the calls that failed because their node went away:
/// one per call, in order, each with the call's id, status Unavailable,
/// the message "节点已离线" and no payload.
pub fn offline_replies(failed: &Vec<Pending>) -> (v: Vec<TunnelResponse>)
    ensures
        v@.len() == failed@.len(),
        forall|i: int|
            0 <= i < v@.len() ==> {
                &&& (#[trigger] v@[i]).id == failed@[i].id
                &&& v@[i].grpc_status == CODE_UNAVAILABLE
                &&& v@[i].message@ == "节点已离线"@
                &&& v@[i].payload@.len() == 0
            },
{
    let mut v: Vec<TunnelResponse> = Vec::new();
    let mut i: usize = 0;
    while i < failed.len()
        invariant
            i <= failed@.len(),
            v@.len() == i,
            forall|m: int|
                0 <= m < i ==> {
                    &&& (#[trigger] v@[m]).id == failed@[m].id
                    &&& v@[m].grpc_status == CODE_UNAVAILABLE
                    &&& v@[m].message@ == "节点已离线"@
                    &&& v@[m].payload@.len() == 0
                },
        decreases failed@.len() - i,
    {
        v.push(
            TunnelResponse {
                id: failed[i].id,
                grpc_status: CODE_UNAVAILABLE,
                message: "节点已离线".to_string(),
                payload: Vec::new(),
            },
        );
        i = i + 1;
    }
    v
}

} // verus!
